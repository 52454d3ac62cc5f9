//! What holds of a reconciliation: texts that agree are left alone, and
//! after every write that was made both texts declare the same identifier.

use crate::field::{
    count_declaring, count_rewritable, declarations, declares, extracted, FieldError, first_site,
    is_site, replaced_all, replaced_first, rewritable,
};
use crate::field_laws::{
    lemma_count_needs_site, lemma_count_positive, lemma_extract_after_replace_all,
    lemma_extract_after_replace_first, lemma_extracted_value, lemma_fill_adds_one,
    lemma_key_prefix_plain, lemma_replace_all_declares,
};
use crate::lines::lines;
use crate::program_id::{manifest_prefix, source_prefix};
use crate::sync::{chosen, decide, reconciled, SyncAction, SyncView};
use vstd::prelude::*;

verus! {

/// The declaration of a source stub begins with no double quote.
pub proof fn lemma_source_prefix_plain()
    ensures
        !source_prefix().contains('"'),
{
    reveal_strlit("id");
    let key = "id"@;
    if key.contains('"') {
        let j = choose|j: int| 0 <= j < key.len() && key[j] == '"';
        assert(j == 0 || j == 1);
    }
    lemma_key_prefix_plain(key);
}

/// Reconciling two texts that already declare the same identifier changes
/// nothing: both come back as they were, and nothing is written.
pub proof fn lemma_in_sync_is_kept(
    source: Seq<char>,
    manifest: Seq<char>,
    program_name: Seq<char>,
    favor_source: bool,
    fresh: Seq<char>,
    identifier: Seq<char>,
)
    requires
        extracted(source, source_prefix()) == Ok::<Option<Seq<char>>, FieldError>(
            Some(identifier),
        ),
        extracted(manifest, manifest_prefix(program_name)) == Ok::<
            Option<Seq<char>>,
            FieldError,
        >(Some(identifier)),
    ensures
        reconciled(source, manifest, program_name, favor_source, fresh) == Ok::<
            SyncView,
            FieldError,
        >(
            SyncView {
                action: SyncAction::Keep,
                identifier,
                source,
                manifest,
                source_error: None,
                manifest_error: None,
                entries_updated: 0,
                verified: true,
            },
        ),
{
}

/// After a reconciliation in which every write was made, both texts declare
/// the chosen identifier, and the second reading confirms it. This holds
/// for a program name without a double quote and a fresh identifier that is
/// not empty and holds no line feed.
pub proof fn lemma_sync_agrees(
    source: Seq<char>,
    manifest: Seq<char>,
    program_name: Seq<char>,
    favor_source: bool,
    fresh: Seq<char>,
)
    requires
        !program_name.contains('"'),
        fresh.len() > 0,
        !fresh.contains('\n'),
        reconciled(source, manifest, program_name, favor_source, fresh) is Ok,
        reconciled(source, manifest, program_name, favor_source, fresh).unwrap().source_error
            is None,
        reconciled(source, manifest, program_name, favor_source, fresh).unwrap().manifest_error
            is None,
    ensures
        ({
            let o = reconciled(source, manifest, program_name, favor_source, fresh).unwrap();
            &&& o.verified
            &&& extracted(o.source, source_prefix()) == Ok::<Option<Seq<char>>, FieldError>(
                Some(o.identifier),
            )
            &&& extracted(o.manifest, manifest_prefix(program_name)) == Ok::<
                Option<Seq<char>>,
                FieldError,
            >(Some(o.identifier))
        }),
{
    let sp = source_prefix();
    let mp = manifest_prefix(program_name);
    lemma_source_prefix_plain();
    lemma_key_prefix_plain(program_name);
    lemma_extracted_value(source, sp);
    lemma_extracted_value(manifest, mp);
    let a = extracted(source, sp).unwrap();
    let b = extracted(manifest, mp).unwrap();
    let action = decide(a, b, favor_source);
    let id = chosen(a, b, action, fresh);
    assert(id.len() > 0 && !id.contains('\n'));
    match action {
        SyncAction::Keep => {},
        SyncAction::ManifestToSource => {
            lemma_extract_after_replace_first(source, sp, id);
        },
        SyncAction::SourceToManifest => {
            lemma_rewritable_first(manifest, mp, id);
            lemma_extract_after_replace_all(manifest, mp, id);
        },
        SyncAction::Generate => {
            lemma_extract_after_replace_first(source, sp, id);
            lemma_rewritable_first(manifest, mp, id);
            lemma_extract_after_replace_all(manifest, mp, id);
        },
    }
}

/// Where a text can be read and some site of it can be rewritten, its first
/// site can be.
pub proof fn lemma_rewritable_first(content: Seq<char>, prefix: Seq<char>, value: Seq<char>)
    requires
        extracted(content, prefix) is Ok,
        replaced_all(content, prefix, value) is Ok,
    ensures
        replaced_first(content, prefix, value) is Ok,
{
    lemma_count_needs_site(lines(content), prefix);
}

/// Where one text declares an identifier and the other holds a site without
/// one, reconciling writes the identifier into that site, whichever text
/// is favoured, and both texts then declare it. This holds for a program
/// name without a double quote.
pub proof fn lemma_sync_propagates(
    source: Seq<char>,
    manifest: Seq<char>,
    program_name: Seq<char>,
    favor_source: bool,
    fresh: Seq<char>,
)
    requires
        !program_name.contains('"'),
        extracted(source, source_prefix()) is Ok,
        extracted(manifest, manifest_prefix(program_name)) is Ok,
        extracted(source, source_prefix()).unwrap() is Some != extracted(
            manifest,
            manifest_prefix(program_name),
        ).unwrap() is Some,
        first_site(lines(source), source_prefix()) is Some,
        first_site(lines(manifest), manifest_prefix(program_name)) is Some,
    ensures
        reconciled(source, manifest, program_name, favor_source, fresh) is Ok,
        ({
            let o = reconciled(source, manifest, program_name, favor_source, fresh).unwrap();
            let present = match extracted(source, source_prefix()).unwrap() {
                Some(a) => a,
                None => extracted(manifest, manifest_prefix(program_name)).unwrap().unwrap(),
            };
            &&& o.identifier == present
            &&& o.verified
            &&& extracted(o.source, source_prefix()) == Ok::<Option<Seq<char>>, FieldError>(
                Some(present),
            )
            &&& extracted(o.manifest, manifest_prefix(program_name)) == Ok::<
                Option<Seq<char>>,
                FieldError,
            >(Some(present))
        }),
{
    let sp = source_prefix();
    let mp = manifest_prefix(program_name);
    lemma_source_prefix_plain();
    lemma_key_prefix_plain(program_name);
    lemma_extracted_value(source, sp);
    lemma_extracted_value(manifest, mp);
    let a = extracted(source, sp).unwrap();
    let b = extracted(manifest, mp).unwrap();
    match a {
        Some(id) => {
            lemma_extract_after_replace_all(manifest, mp, id);
        },
        None => {
            let id = b.unwrap();
            lemma_extract_after_replace_first(source, sp, id);
        },
    }
}

/// Where the manifest declares an identifier and the first site of the
/// source stub holds none, reconciling adds exactly one declaration to the
/// source stub. This holds for a program name without a double quote.
pub proof fn lemma_sync_adds_one_to_source(
    source: Seq<char>,
    manifest: Seq<char>,
    program_name: Seq<char>,
    favor_source: bool,
    fresh: Seq<char>,
)
    requires
        !program_name.contains('"'),
        extracted(source, source_prefix()) == Ok::<Option<Seq<char>>, FieldError>(None),
        extracted(manifest, manifest_prefix(program_name)) is Ok,
        extracted(manifest, manifest_prefix(program_name)).unwrap() is Some,
        first_site(lines(source), source_prefix()) is Some,
    ensures
        reconciled(source, manifest, program_name, favor_source, fresh) is Ok,
        declarations(
            reconciled(source, manifest, program_name, favor_source, fresh).unwrap().source,
            source_prefix(),
        ) == declarations(source, source_prefix()) + 1,
{
    let sp = source_prefix();
    let mp = manifest_prefix(program_name);
    lemma_source_prefix_plain();
    lemma_extracted_value(manifest, mp);
    let id = extracted(manifest, mp).unwrap().unwrap();
    lemma_fill_adds_one(source, sp, id);
}

/// Where the source stub declares an identifier and the first site of the
/// manifest holds none, reconciling makes every rewritable site of the
/// manifest a declaration; where the manifest has one such site, that is
/// exactly one declaration more. This holds for a program name without a
/// double quote.
pub proof fn lemma_sync_fills_manifest(
    source: Seq<char>,
    manifest: Seq<char>,
    program_name: Seq<char>,
    favor_source: bool,
    fresh: Seq<char>,
)
    requires
        !program_name.contains('"'),
        extracted(source, source_prefix()) is Ok,
        extracted(source, source_prefix()).unwrap() is Some,
        extracted(manifest, manifest_prefix(program_name)) == Ok::<
            Option<Seq<char>>,
            FieldError,
        >(None),
        first_site(lines(manifest), manifest_prefix(program_name)) is Some,
    ensures
        reconciled(source, manifest, program_name, favor_source, fresh) is Ok,
        declarations(
            reconciled(source, manifest, program_name, favor_source, fresh).unwrap().manifest,
            manifest_prefix(program_name),
        ) == count_rewritable(lines(manifest), manifest_prefix(program_name)),
        count_rewritable(lines(manifest), manifest_prefix(program_name)) == 1 ==> declarations(
            reconciled(source, manifest, program_name, favor_source, fresh).unwrap().manifest,
            manifest_prefix(program_name),
        ) == declarations(manifest, manifest_prefix(program_name)) + 1,
{
    let sp = source_prefix();
    let mp = manifest_prefix(program_name);
    lemma_key_prefix_plain(program_name);
    lemma_extracted_value(source, sp);
    let id = extracted(source, sp).unwrap().unwrap();
    lemma_extract_after_replace_all(manifest, mp, id);
    lemma_replace_all_declares(manifest, mp, id);
    if count_rewritable(lines(manifest), mp) == 1 {
        let ls = lines(manifest);
        let flags = ls.map_values(|l: Seq<char>| is_site(l, mp));
        flags.index_of_first_ensures(true);
        let i = first_site(ls, mp).unwrap();
        assert(flags[i] == is_site(ls[i], mp));
        lemma_only_rewritable(ls, mp, i);
    }
}

/// Where one line is the only rewritable one and declares nothing, no line
/// declares anything.
pub proof fn lemma_only_rewritable(ls: Seq<Seq<char>>, prefix: Seq<char>, i: int)
    requires
        0 <= i < ls.len(),
        rewritable(ls[i], prefix),
        !declares(ls[i], prefix),
        count_rewritable(ls, prefix) == 1,
    ensures
        count_declaring(ls, prefix) == 0,
    decreases ls.len(),
{
    if i == ls.len() - 1 {
        lemma_declaring_at_most(ls.drop_last(), prefix);
    } else {
        assert(ls.drop_last()[i] == ls[i]);
        lemma_count_positive(ls.drop_last(), prefix, i);
        lemma_only_rewritable(ls.drop_last(), prefix, i);
    }
}

/// No more lines declare a value than are rewritable.
pub proof fn lemma_declaring_at_most(ls: Seq<Seq<char>>, prefix: Seq<char>)
    ensures
        count_declaring(ls, prefix) <= count_rewritable(ls, prefix),
    decreases ls.len(),
{
    if ls.len() > 0 {
        lemma_declaring_at_most(ls.drop_last(), prefix);
    }
}

/// Where both texts hold a site without an identifier, reconciling writes
/// the fresh identifier into both, and both then declare it. This holds for
/// a program name without a double quote and a fresh identifier that is not
/// empty and holds no line feed.
pub proof fn lemma_sync_generates(
    source: Seq<char>,
    manifest: Seq<char>,
    program_name: Seq<char>,
    favor_source: bool,
    fresh: Seq<char>,
)
    requires
        !program_name.contains('"'),
        fresh.len() > 0,
        !fresh.contains('\n'),
        extracted(source, source_prefix()) == Ok::<Option<Seq<char>>, FieldError>(None),
        extracted(manifest, manifest_prefix(program_name)) == Ok::<
            Option<Seq<char>>,
            FieldError,
        >(None),
        first_site(lines(source), source_prefix()) is Some,
        first_site(lines(manifest), manifest_prefix(program_name)) is Some,
    ensures
        reconciled(source, manifest, program_name, favor_source, fresh) is Ok,
        ({
            let o = reconciled(source, manifest, program_name, favor_source, fresh).unwrap();
            &&& o.action == SyncAction::Generate
            &&& o.identifier == fresh
            &&& o.source_error is None
            &&& o.manifest_error is None
            &&& o.verified
            &&& extracted(o.source, source_prefix()) == Ok::<Option<Seq<char>>, FieldError>(
                Some(fresh),
            )
            &&& extracted(o.manifest, manifest_prefix(program_name)) == Ok::<
                Option<Seq<char>>,
                FieldError,
            >(Some(fresh))
        }),
{
    let sp = source_prefix();
    let mp = manifest_prefix(program_name);
    lemma_source_prefix_plain();
    lemma_key_prefix_plain(program_name);
    lemma_extract_after_replace_first(source, sp, fresh);
    lemma_extract_after_replace_all(manifest, mp, fresh);
}

/// Where a text holds no site for the identifier, nothing can be written
/// into it: a copy towards it fails with `NotFound`, and so does each write
/// of a fresh identifier.
pub proof fn lemma_sync_needs_site(
    source: Seq<char>,
    manifest: Seq<char>,
    program_name: Seq<char>,
    identifier: Seq<char>,
)
    ensures
        first_site(lines(source), source_prefix()) is None ==> replaced_first(
            source,
            source_prefix(),
            identifier,
        ) == Err::<Seq<char>, FieldError>(FieldError::NotFound),
        first_site(lines(manifest), manifest_prefix(program_name)) is None ==> replaced_all(
            manifest,
            manifest_prefix(program_name),
            identifier,
        ) == Err::<(Seq<char>, nat), FieldError>(FieldError::NotFound),
{
    if first_site(lines(manifest), manifest_prefix(program_name)) is None {
        if count_rewritable(lines(manifest), manifest_prefix(program_name)) > 0 {
            lemma_count_needs_site(lines(manifest), manifest_prefix(program_name));
        }
    }
}

/// Reconciling once is enough: after a reconciliation in which every write
/// was made, reconciling again keeps both texts as they are. This holds for
/// a program name without a double quote and a fresh identifier that is not
/// empty and holds no line feed.
pub proof fn lemma_sync_settles(
    source: Seq<char>,
    manifest: Seq<char>,
    program_name: Seq<char>,
    favor_source: bool,
    fresh: Seq<char>,
    again_favor_source: bool,
    again_fresh: Seq<char>,
)
    requires
        !program_name.contains('"'),
        fresh.len() > 0,
        !fresh.contains('\n'),
        reconciled(source, manifest, program_name, favor_source, fresh) is Ok,
        reconciled(source, manifest, program_name, favor_source, fresh).unwrap().source_error
            is None,
        reconciled(source, manifest, program_name, favor_source, fresh).unwrap().manifest_error
            is None,
    ensures
        ({
            let o = reconciled(source, manifest, program_name, favor_source, fresh).unwrap();
            reconciled(o.source, o.manifest, program_name, again_favor_source, again_fresh) == Ok::<
                SyncView,
                FieldError,
            >(
                SyncView {
                    action: SyncAction::Keep,
                    identifier: o.identifier,
                    source: o.source,
                    manifest: o.manifest,
                    source_error: None,
                    manifest_error: None,
                    entries_updated: 0,
                    verified: true,
                },
            )
        }),
{
    lemma_sync_agrees(source, manifest, program_name, favor_source, fresh);
    let o = reconciled(source, manifest, program_name, favor_source, fresh).unwrap();
    lemma_in_sync_is_kept(
        o.source,
        o.manifest,
        program_name,
        again_favor_source,
        again_fresh,
        o.identifier,
    );
}

} // verus!
