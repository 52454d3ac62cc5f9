//! Deciding which declared dependency versions to bring up to date.

use crate::dependency::{
    declared_version, extract_dependency_version, update_dependency_version, updated_version,
};
use crate::registry::DependencyVersions;
use vstd::prelude::*;

verus! {

/// One dependency whose declared version differs from the one to use.
#[derive(Clone, Debug)]
pub struct DependencyUpdate {
    /// The package.
    pub name: String,
    /// The version that the manifest declares.
    pub current: String,
    /// The version to use.
    pub target: String,
}

/// A `DependencyUpdate` as plain values.
pub struct DependencyUpdateView {
    pub name: Seq<char>,
    pub current: Seq<char>,
    pub target: Seq<char>,
}

impl View for DependencyUpdate {
    type V = DependencyUpdateView;

    open spec fn view(&self) -> DependencyUpdateView {
        DependencyUpdateView { name: self.name@, current: self.current@, target: self.target@ }
    }
}

/// What is to be done to a manifest.
#[derive(Clone, Debug)]
pub struct UpdatePlan {
    /// The dependencies that are out of date, in the order they are checked.
    pub updates: Vec<DependencyUpdate>,
    /// The manifest as it reads with the updates made; unchanged in a dry
    /// run.
    pub content: String,
}

/// `content` declares a version for `name` that is not `target`.
pub open spec fn out_of_date(content: Seq<char>, name: Seq<char>, target: Seq<char>) -> bool {
    match declared_version(content, name) {
        Some(current) => current != target,
        None => false,
    }
}

/// The updates that checking `name` adds to those found so far.
pub open spec fn noted(
    found: Seq<DependencyUpdateView>,
    content: Seq<char>,
    name: Seq<char>,
    target: Seq<char>,
) -> Seq<DependencyUpdateView> {
    if out_of_date(content, name, target) {
        found.push(
            DependencyUpdateView {
                name,
                current: declared_version(content, name).unwrap(),
                target,
            },
        )
    } else {
        found
    }
}

/// The text after checking `name`: `text` with the new version where the
/// manifest as it was is out of date and the run is no dry run.
pub open spec fn stepped(
    text: Seq<char>,
    content: Seq<char>,
    name: Seq<char>,
    target: Seq<char>,
    dry_run: bool,
) -> Seq<char> {
    if out_of_date(content, name, target) && !dry_run {
        updated_version(text, name, target)
    } else {
        text
    }
}

/// The views of a list of updates.
pub open spec fn update_views(updates: Seq<DependencyUpdate>) -> Seq<DependencyUpdateView> {
    Seq::new(updates.len(), |i: int| updates[i]@)
}

/// Checks one dependency: notes it where it is out of date, and unless the
/// run is a dry run puts the new version into `text`.
pub fn check_dependency(
    updates: &mut Vec<DependencyUpdate>,
    text: &mut String,
    content: &str,
    name: &str,
    target: &str,
    dry_run: bool,
)
    ensures
        update_views(final(updates)@) == noted(
            update_views(old(updates)@),
            content@,
            name@,
            target@,
        ),
        final(text)@ == stepped(old(text)@, content@, name@, target@, dry_run),
{
    match extract_dependency_version(content, name) {
        Some(current) => {
            let target_text = target.to_owned();
            if current != target_text {
                let ghost before = update_views(updates@);
                let ghost entry = DependencyUpdateView {
                    name: name@,
                    current: current@,
                    target: target@,
                };
                updates.push(
                    DependencyUpdate { name: name.to_owned(), current, target: target_text },
                );
                proof {
                    assert(update_views(updates@) =~= before.push(entry));
                }
                if !dry_run {
                    let next = update_dependency_version(text.as_str(), name, target);
                    *text = next;
                }
            }
        },
        None => {},
    }
}

/// Plans the update of a manifest: `star_frame` is checked first, then
/// `solana-program`. Each is compared as the manifest declares it before any
/// change; the changes are made one after the other.
pub fn plan_update(content: &str, versions: &DependencyVersions, dry_run: bool) -> (r: UpdatePlan)
    ensures
        update_views(r.updates@) == noted(
            noted(Seq::empty(), content@, "star_frame"@, versions.star_frame@),
            content@,
            "solana-program"@,
            versions.solana_program@,
        ),
        r.content@ == stepped(
            stepped(content@, content@, "star_frame"@, versions.star_frame@, dry_run),
            content@,
            "solana-program"@,
            versions.solana_program@,
            dry_run,
        ),
{
    let mut updates: Vec<DependencyUpdate> = Vec::new();
    let mut text = content.to_owned();
    proof {
        assert(update_views(updates@) =~= Seq::<DependencyUpdateView>::empty());
    }
    check_dependency(
        &mut updates,
        &mut text,
        content,
        "star_frame",
        versions.star_frame.as_str(),
        dry_run,
    );
    check_dependency(
        &mut updates,
        &mut text,
        content,
        "solana-program",
        versions.solana_program.as_str(),
        dry_run,
    );
    UpdatePlan { updates, content: text }
}

} // verus!
