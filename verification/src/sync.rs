//! Reconciling the identifier of the source stub with that of the manifest.
//!
//! The two texts are read, the pair of readings decides what is copied
//! where, the copy is made, and both texts are read once more to see that
//! they now agree.

use crate::field::{extracted, FieldError, replaced_all, replaced_first};
use crate::program_id::{
    extract_program_id_from_lib, extract_program_id_from_toml, generate_program_id, manifest_prefix,
    source_prefix, update_program_id_in_lib, update_program_id_in_toml,
};
use vstd::prelude::*;

verus! {

/// What a reconciliation does to bring the two texts to agree.
#[derive(Clone, Copy, Debug, PartialEq, Eq, Structural)]
pub enum SyncAction {
    /// Both texts declare the same identifier: nothing is written.
    Keep,
    /// The identifier of the manifest is written into the source stub.
    ManifestToSource,
    /// The identifier of the source stub is written into the manifest.
    SourceToManifest,
    /// Neither text declares an identifier: a new one is written into both.
    Generate,
}

/// The action that a pair of readings calls for. Where both texts declare
/// an identifier and the two differ, `favor_source` picks the source stub
/// as the one to copy from; without it the manifest is copied from.
pub open spec fn decide(
    source: Option<Seq<char>>,
    manifest: Option<Seq<char>>,
    favor_source: bool,
) -> SyncAction {
    match (source, manifest) {
        (Some(a), Some(b)) => if a == b {
            SyncAction::Keep
        } else if favor_source {
            SyncAction::SourceToManifest
        } else {
            SyncAction::ManifestToSource
        },
        (Some(_), None) => SyncAction::SourceToManifest,
        (None, Some(_)) => SyncAction::ManifestToSource,
        (None, None) => SyncAction::Generate,
    }
}

/// The identifier that an action writes or keeps: the one of the source
/// stub, the one of the manifest, or `fresh`.
pub open spec fn chosen(
    source: Option<Seq<char>>,
    manifest: Option<Seq<char>>,
    action: SyncAction,
    fresh: Seq<char>,
) -> Seq<char> {
    match action {
        SyncAction::Keep | SyncAction::SourceToManifest => match source {
            Some(a) => a,
            None => fresh,
        },
        SyncAction::ManifestToSource => match manifest {
            Some(b) => b,
            None => fresh,
        },
        SyncAction::Generate => fresh,
    }
}

/// Both texts declare an identifier, and it is the same one.
pub open spec fn agree(source: Seq<char>, manifest: Seq<char>, program_name: Seq<char>) -> bool {
    match (
        extracted(source, source_prefix()),
        extracted(manifest, manifest_prefix(program_name)),
    ) {
        (Ok(Some(a)), Ok(Some(b))) => a == b,
        _ => false,
    }
}

/// How a reconciliation ended.
#[derive(Clone, Debug)]
pub struct SyncOutcome {
    /// What was done.
    pub action: SyncAction,
    /// The identifier that both texts are meant to declare.
    pub identifier: String,
    /// The source stub as it reads now.
    pub source: String,
    /// The manifest as it reads now.
    pub manifest: String,
    /// Why the source stub could not be written, where it was to be.
    pub source_error: Option<FieldError>,
    /// Why the manifest could not be written, where it was to be.
    pub manifest_error: Option<FieldError>,
    /// How many lines of the manifest were changed.
    pub entries_updated: usize,
    /// Whether both texts, read once more, declare the same identifier.
    pub verified: bool,
}

/// A `SyncOutcome` as plain values.
pub struct SyncView {
    pub action: SyncAction,
    pub identifier: Seq<char>,
    pub source: Seq<char>,
    pub manifest: Seq<char>,
    pub source_error: Option<FieldError>,
    pub manifest_error: Option<FieldError>,
    pub entries_updated: nat,
    pub verified: bool,
}

impl View for SyncOutcome {
    type V = SyncView;

    open spec fn view(&self) -> SyncView {
        SyncView {
            action: self.action,
            identifier: self.identifier@,
            source: self.source@,
            manifest: self.manifest@,
            source_error: self.source_error,
            manifest_error: self.manifest_error,
            entries_updated: self.entries_updated as nat,
            verified: self.verified,
        }
    }
}

/// What a reconciliation returns reads as.
pub open spec fn sync_read(r: Result<SyncOutcome, FieldError>) -> Result<SyncView, FieldError> {
    match r {
        Ok(o) => Ok(o@),
        Err(e) => Err(e),
    }
}

/// The outcome of carrying out `action` with `identifier`.
///
/// Keeping writes nothing. A copy in one direction rewrites the target and
/// fails with the target's error where that cannot be done. A new
/// identifier is written into each text on its own: a text that cannot be
/// rewritten stays as it is, and its error is recorded.
pub open spec fn applied(
    source: Seq<char>,
    manifest: Seq<char>,
    program_name: Seq<char>,
    action: SyncAction,
    identifier: Seq<char>,
) -> Result<SyncView, FieldError> {
    let in_source = replaced_first(source, source_prefix(), identifier);
    let in_manifest = replaced_all(manifest, manifest_prefix(program_name), identifier);
    match action {
        SyncAction::Keep => Ok(
            SyncView {
                action,
                identifier,
                source,
                manifest,
                source_error: None,
                manifest_error: None,
                entries_updated: 0,
                verified: agree(source, manifest, program_name),
            },
        ),
        SyncAction::ManifestToSource => match in_source {
            Err(e) => Err(e),
            Ok(text) => Ok(
                SyncView {
                    action,
                    identifier,
                    source: text,
                    manifest,
                    source_error: None,
                    manifest_error: None,
                    entries_updated: 0,
                    verified: agree(text, manifest, program_name),
                },
            ),
        },
        SyncAction::SourceToManifest => match in_manifest {
            Err(e) => Err(e),
            Ok((text, n)) => Ok(
                SyncView {
                    action,
                    identifier,
                    source,
                    manifest: text,
                    source_error: None,
                    manifest_error: None,
                    entries_updated: n,
                    verified: agree(source, text, program_name),
                },
            ),
        },
        SyncAction::Generate => {
            let new_source = match in_source {
                Ok(text) => text,
                Err(_) => source,
            };
            let new_manifest = match in_manifest {
                Ok((text, _)) => text,
                Err(_) => manifest,
            };
            Ok(
                SyncView {
                    action,
                    identifier,
                    source: new_source,
                    manifest: new_manifest,
                    source_error: match in_source {
                        Ok(_) => None,
                        Err(e) => Some(e),
                    },
                    manifest_error: match in_manifest {
                        Ok(_) => None,
                        Err(e) => Some(e),
                    },
                    entries_updated: match in_manifest {
                        Ok((_, n)) => n,
                        Err(_) => 0,
                    },
                    verified: agree(new_source, new_manifest, program_name),
                },
            )
        },
    }
}

/// The outcome of reconciling `source` with `manifest`, with `fresh` as the
/// identifier to use where neither declares one. A text that cannot be
/// read fails the reconciliation before anything is written.
pub open spec fn reconciled(
    source: Seq<char>,
    manifest: Seq<char>,
    program_name: Seq<char>,
    favor_source: bool,
    fresh: Seq<char>,
) -> Result<SyncView, FieldError> {
    match extracted(source, source_prefix()) {
        Err(e) => Err(e),
        Ok(a) => match extracted(manifest, manifest_prefix(program_name)) {
            Err(e) => Err(e),
            Ok(b) => applied(
                source,
                manifest,
                program_name,
                decide(a, b, favor_source),
                chosen(a, b, decide(a, b, favor_source), fresh),
            ),
        },
    }
}

/// The readings of the two texts, or the error of the first that cannot
/// be read.
pub open spec fn surveyed(source: Seq<char>, manifest: Seq<char>, program_name: Seq<char>) -> Result<
    (Option<Seq<char>>, Option<Seq<char>>),
    FieldError,
> {
    match extracted(source, source_prefix()) {
        Err(e) => Err(e),
        Ok(a) => match extracted(manifest, manifest_prefix(program_name)) {
            Err(e) => Err(e),
            Ok(b) => Ok((a, b)),
        },
    }
}

/// What an optional text reads as.
pub open spec fn option_read(v: Option<String>) -> Option<Seq<char>> {
    match v {
        Some(s) => Some(s@),
        None => None,
    }
}

/// Reads the identifier of both texts.
pub fn survey(source: &str, manifest: &str, program_name: &str) -> (r: Result<
    (Option<String>, Option<String>),
    FieldError,
>)
    ensures
        match r {
            Ok((a, b)) => surveyed(source@, manifest@, program_name@) == Ok::<
                (Option<Seq<char>>, Option<Seq<char>>),
                FieldError,
            >((option_read(a), option_read(b))),
            Err(e) => surveyed(source@, manifest@, program_name@) == Err::<
                (Option<Seq<char>>, Option<Seq<char>>),
                FieldError,
            >(e),
        },
{
    match extract_program_id_from_lib(source) {
        Err(e) => Err(e),
        Ok(a) => match extract_program_id_from_toml(manifest, program_name) {
            Err(e) => Err(e),
            Ok(b) => Ok((a, b)),
        },
    }
}

/// Decides what a pair of readings calls for.
pub fn plan_sync(source: &Option<String>, manifest: &Option<String>, favor_source: bool) -> (r:
    SyncAction)
    ensures
        r == decide(option_read(*source), option_read(*manifest), favor_source),
{
    match (source, manifest) {
        (Some(a), Some(b)) => {
            if *a == *b {
                SyncAction::Keep
            } else if favor_source {
                SyncAction::SourceToManifest
            } else {
                SyncAction::ManifestToSource
            }
        },
        (Some(_), None) => SyncAction::SourceToManifest,
        (None, Some(_)) => SyncAction::ManifestToSource,
        (None, None) => SyncAction::Generate,
    }
}

/// Tells whether both texts declare the same identifier.
pub fn check_agreement(source: &str, manifest: &str, program_name: &str) -> (r: bool)
    ensures
        r == agree(source@, manifest@, program_name@),
{
    match extract_program_id_from_lib(source) {
        Ok(Some(a)) => match extract_program_id_from_toml(manifest, program_name) {
            Ok(Some(b)) => a == b,
            _ => false,
        },
        _ => false,
    }
}

/// Carries out `action` with `identifier` and reads both texts once more.
pub fn apply_sync(
    source: &str,
    manifest: &str,
    program_name: &str,
    action: SyncAction,
    identifier: &str,
) -> (r: Result<SyncOutcome, FieldError>)
    ensures
        sync_read(r) == applied(source@, manifest@, program_name@, action, identifier@),
{
    let mut new_source = source.to_owned();
    let mut new_manifest = manifest.to_owned();
    let mut source_error: Option<FieldError> = None;
    let mut manifest_error: Option<FieldError> = None;
    let mut entries_updated: usize = 0;
    match action {
        SyncAction::Keep => {},
        SyncAction::ManifestToSource => {
            match update_program_id_in_lib(source, identifier) {
                Ok(text) => {
                    new_source = text;
                },
                Err(e) => {
                    return Err(e);
                },
            }
        },
        SyncAction::SourceToManifest => {
            match update_program_id_in_toml(manifest, program_name, identifier) {
                Ok((text, n)) => {
                    new_manifest = text;
                    entries_updated = n;
                },
                Err(e) => {
                    return Err(e);
                },
            }
        },
        SyncAction::Generate => {
            match update_program_id_in_lib(source, identifier) {
                Ok(text) => {
                    new_source = text;
                },
                Err(e) => {
                    source_error = Some(e);
                },
            }
            match update_program_id_in_toml(manifest, program_name, identifier) {
                Ok((text, n)) => {
                    new_manifest = text;
                    entries_updated = n;
                },
                Err(e) => {
                    manifest_error = Some(e);
                },
            }
        },
    }
    let verified = check_agreement(new_source.as_str(), new_manifest.as_str(), program_name);
    Ok(
        SyncOutcome {
            action,
            identifier: identifier.to_owned(),
            source: new_source,
            manifest: new_manifest,
            source_error,
            manifest_error,
            entries_updated,
            verified,
        },
    )
}

/// Reconciles the two texts, with `fresh` as the identifier to use where
/// neither declares one.
pub fn reconcile_with(
    source: &str,
    manifest: &str,
    program_name: &str,
    favor_source: bool,
    fresh: &str,
) -> (r: Result<SyncOutcome, FieldError>)
    ensures
        sync_read(r) == reconciled(source@, manifest@, program_name@, favor_source, fresh@),
{
    match survey(source, manifest, program_name) {
        Err(e) => Err(e),
        Ok((a, b)) => {
            let action = plan_sync(&a, &b, favor_source);
            match identifier_at_hand(&a, &b, action) {
                Some(id) => apply_sync(source, manifest, program_name, action, id),
                None => apply_sync(source, manifest, program_name, action, fresh),
            }
        },
    }
}

/// The identifier that `action` takes from one of the texts, where it
/// takes one from there.
pub fn identifier_at_hand<'a>(
    source: &'a Option<String>,
    manifest: &'a Option<String>,
    action: SyncAction,
) -> (r: Option<&'a str>)
    ensures
        forall|fresh: Seq<char>|
            #[trigger] chosen(option_read(*source), option_read(*manifest), action, fresh)
                == match r {
                Some(id) => id@,
                None => fresh,
            },
{
    match action {
        SyncAction::Keep | SyncAction::SourceToManifest => match source {
            Some(id) => Some(id.as_str()),
            None => None,
        },
        SyncAction::ManifestToSource => match manifest {
            Some(id) => Some(id.as_str()),
            None => None,
        },
        SyncAction::Generate => None,
    }
}

/// Reconciles the two texts. Where neither declares an identifier a new
/// one is generated; whatever it is, the outcome is that of
/// `reconcile_with` on it.
pub fn reconcile(source: &str, manifest: &str, program_name: &str, favor_source: bool) -> (r:
    Result<SyncOutcome, FieldError>)
    ensures
        exists|fresh: Seq<char>|
            sync_read(r) == #[trigger] reconciled(
                source@,
                manifest@,
                program_name@,
                favor_source,
                fresh,
            ),
{
    match survey(source, manifest, program_name) {
        Err(e) => {
            proof {
                assert(reconciled(
                    source@,
                    manifest@,
                    program_name@,
                    favor_source,
                    Seq::<char>::empty(),
                ) == Err::<SyncView, FieldError>(e));
            }
            Err(e)
        },
        Ok((a, b)) => {
            let action = plan_sync(&a, &b, favor_source);
            match identifier_at_hand(&a, &b, action) {
                Some(id) => {
                    let r = apply_sync(source, manifest, program_name, action, id);
                    proof {
                        assert(sync_read(r) == reconciled(
                            source@,
                            manifest@,
                            program_name@,
                            favor_source,
                            Seq::<char>::empty(),
                        ));
                    }
                    r
                },
                None => {
                    let fresh = generate_program_id();
                    let r = apply_sync(source, manifest, program_name, action, fresh.as_str());
                    proof {
                        assert(sync_read(r) == reconciled(
                            source@,
                            manifest@,
                            program_name@,
                            favor_source,
                            fresh@,
                        ));
                    }
                    r
                },
            }
        },
    }
}

} // verus!
