use starpin::field::FieldError;
use starpin::program_id::{extract_program_id_from_lib, extract_program_id_from_toml};
use starpin::field::extract_field;
use starpin::sync::{
    apply_sync, identifier_at_hand, plan_sync, reconcile, reconcile_with, SyncAction,
};

fn source(id: &str) -> String {
    format!("#[program(\n    id = \"{}\"\n)]\npub struct P;\n", id)
}

fn manifest(id: &str) -> String {
    format!(
        "[programs.localnet]\nprog = \"{}\"\n\n[programs.devnet]\nprog = \"{}\"\n",
        id, id
    )
}

#[test]
fn plan_follows_the_pair_of_readings() {
    let a = Some("A".to_string());
    let b = Some("B".to_string());
    assert_eq!(plan_sync(&a, &a, false), SyncAction::Keep);
    assert_eq!(plan_sync(&a, &a, true), SyncAction::Keep);
    assert_eq!(plan_sync(&a, &b, false), SyncAction::ManifestToSource);
    assert_eq!(plan_sync(&a, &b, true), SyncAction::SourceToManifest);
    assert_eq!(plan_sync(&a, &None, false), SyncAction::SourceToManifest);
    assert_eq!(plan_sync(&a, &None, true), SyncAction::SourceToManifest);
    assert_eq!(plan_sync(&None, &b, false), SyncAction::ManifestToSource);
    assert_eq!(plan_sync(&None, &b, true), SyncAction::ManifestToSource);
    assert_eq!(plan_sync(&None, &None, false), SyncAction::Generate);
    assert_eq!(plan_sync(&None, &None, true), SyncAction::Generate);
}

#[test]
fn equal_identifiers_are_left_alone() {
    let s = source("SAME");
    let m = manifest("SAME");
    for favor_source in [false, true] {
        let o = reconcile_with(&s, &m, "prog", favor_source, "FRESH").unwrap();
        assert_eq!(o.action, SyncAction::Keep);
        assert_eq!(o.identifier, "SAME");
        assert_eq!(o.source, s);
        assert_eq!(o.manifest, m);
        assert_eq!(o.source_error, None);
        assert_eq!(o.manifest_error, None);
        assert_eq!(o.entries_updated, 0);
        assert!(o.verified);
    }
}

#[test]
fn manifest_wins_unless_the_source_is_favoured() {
    let o = reconcile_with("id = \"AAA\"", "prog = \"BBB\"", "prog", false, "FRESH").unwrap();
    assert_eq!(o.action, SyncAction::ManifestToSource);
    assert_eq!(o.identifier, "BBB");
    assert_eq!(o.source, "id = \"BBB\"");
    assert_eq!(o.manifest, "prog = \"BBB\"");
    assert!(o.verified);
    assert_eq!(extract_program_id_from_lib(&o.source), Ok(Some("BBB".to_string())));
    assert_eq!(extract_program_id_from_toml(&o.manifest, "prog"), Ok(Some("BBB".to_string())));
}

#[test]
fn source_wins_where_it_is_favoured() {
    let s = source("AAA");
    let m = manifest("BBB");
    let o = reconcile_with(&s, &m, "prog", true, "FRESH").unwrap();
    assert_eq!(o.action, SyncAction::SourceToManifest);
    assert_eq!(o.identifier, "AAA");
    assert_eq!(o.source, s);
    assert_eq!(o.manifest, manifest("AAA"));
    assert_eq!(o.entries_updated, 2);
    assert!(o.verified);
}

#[test]
fn a_present_identifier_fills_an_empty_site() {
    let o = reconcile_with(&source("AAA"), &manifest(""), "prog", false, "FRESH").unwrap();
    assert_eq!(o.action, SyncAction::SourceToManifest);
    assert_eq!(o.manifest, manifest("AAA"));
    assert_eq!(o.entries_updated, 2);
    assert!(o.verified);
    let o = reconcile_with(&source(""), &manifest("BBB"), "prog", true, "FRESH").unwrap();
    assert_eq!(o.action, SyncAction::ManifestToSource);
    assert_eq!(o.source, source("BBB"));
    assert!(o.verified);
}

#[test]
fn a_missing_site_cannot_be_filled() {
    assert_eq!(
        reconcile_with(&source("AAA"), "[provider]\n", "prog", false, "FRESH").err(),
        Some(FieldError::NotFound)
    );
    assert_eq!(
        reconcile_with("pub struct P;\n", &manifest("BBB"), "prog", false, "FRESH").err(),
        Some(FieldError::NotFound)
    );
}

#[test]
fn unreadable_texts_fail_before_anything_is_written() {
    assert_eq!(
        reconcile_with("id = \"AAA", &manifest("BBB"), "prog", false, "FRESH").err(),
        Some(FieldError::Parse)
    );
    assert_eq!(
        reconcile_with(&source("AAA"), "prog = BBB", "prog", true, "FRESH").err(),
        Some(FieldError::Parse)
    );
}

#[test]
fn a_fresh_identifier_goes_into_both_texts() {
    let o = reconcile_with(&source(""), &manifest(""), "prog", false, "FRESH").unwrap();
    assert_eq!(o.action, SyncAction::Generate);
    assert_eq!(o.identifier, "FRESH");
    assert_eq!(o.source, source("FRESH"));
    assert_eq!(o.manifest, manifest("FRESH"));
    assert_eq!(o.source_error, None);
    assert_eq!(o.manifest_error, None);
    assert_eq!(o.entries_updated, 2);
    assert!(o.verified);
}

#[test]
fn a_fresh_identifier_is_written_where_it_can_be() {
    let o = reconcile_with("pub struct P;\n", &manifest(""), "prog", false, "FRESH").unwrap();
    assert_eq!(o.action, SyncAction::Generate);
    assert_eq!(o.source, "pub struct P;\n");
    assert_eq!(o.source_error, Some(FieldError::NotFound));
    assert_eq!(o.manifest, manifest("FRESH"));
    assert_eq!(o.manifest_error, None);
    assert!(!o.verified);
    let o = reconcile_with("", "", "prog", false, "FRESH").unwrap();
    assert_eq!(o.source_error, Some(FieldError::NotFound));
    assert_eq!(o.manifest_error, Some(FieldError::NotFound));
    assert_eq!(o.entries_updated, 0);
    assert!(!o.verified);
}

#[test]
fn a_second_reading_that_disagrees_is_reported() {
    let o = reconcile_with(&source(""), &manifest(""), "prog", false, "a\nb").unwrap();
    assert_eq!(o.source_error, None);
    assert_eq!(o.manifest_error, None);
    assert!(!o.verified);
}

#[test]
fn reconcile_generates_where_neither_text_has_an_identifier() {
    let o = reconcile(&source(""), &manifest(""), "prog", false).unwrap();
    assert_eq!(o.action, SyncAction::Generate);
    assert!(!o.identifier.is_empty());
    assert_eq!(o.source, source(&o.identifier));
    assert_eq!(o.manifest, manifest(&o.identifier));
    assert!(o.verified);
    assert_eq!(extract_program_id_from_lib(&o.source), Ok(Some(o.identifier.clone())));
    assert_eq!(
        extract_program_id_from_toml(&o.manifest, "prog"),
        Ok(Some(o.identifier.clone()))
    );
}

#[test]
fn reconcile_copies_without_generating() {
    let o = reconcile("id = \"AAA\"", "prog = \"BBB\"", "prog", false).unwrap();
    assert_eq!(o.identifier, "BBB");
    assert_eq!(o.source, "id = \"BBB\"");
    let o = reconcile("id = \"AAA\"", "prog = \"BBB\"", "prog", true).unwrap();
    assert_eq!(o.identifier, "AAA");
    assert_eq!(o.manifest, "prog = \"AAA\"");
    assert_eq!(reconcile("id = \"AAA", "prog = \"BBB\"", "prog", true).err(), Some(FieldError::Parse));
}

#[test]
fn a_new_key_replaces_both_identifiers() {
    let o = apply_sync(&source("OLD"), &manifest("OLDER"), "prog", SyncAction::Generate, "NEW").unwrap();
    assert_eq!(o.source, source("NEW"));
    assert_eq!(o.manifest, manifest("NEW"));
    assert_eq!(o.entries_updated, 2);
    assert!(o.verified);
}

fn declaring_lines(content: &str, key: &str) -> usize {
    content
        .split('\n')
        .filter(|line| matches!(extract_field(line, key), Ok(Some(_))))
        .count()
}

#[test]
fn filling_the_source_adds_one_declaration() {
    let s = "// id = \"note\"\n    id = \"\"\n    id = \"\"\n";
    let o = reconcile_with(s, &manifest("BBB"), "prog", false, "FRESH").unwrap();
    assert_eq!(o.action, SyncAction::ManifestToSource);
    assert_eq!(o.source, "// id = \"note\"\n    id = \"BBB\"\n    id = \"\"\n");
    assert_eq!(declaring_lines(s, "id"), 0);
    assert_eq!(declaring_lines(&o.source, "id"), 1);
}

#[test]
fn filling_the_manifest_makes_every_site_a_declaration() {
    let m = "[a]\nprog = \"\"\n[b]\nprog = \"OLD\"\n[c]\nprog = broken\n";
    let o = reconcile_with(&source("AAA"), m, "prog", false, "FRESH").unwrap();
    assert_eq!(o.action, SyncAction::SourceToManifest);
    assert_eq!(o.manifest, "[a]\nprog = \"AAA\"\n[b]\nprog = \"AAA\"\n[c]\nprog = broken\n");
    assert_eq!(o.entries_updated, 2);
    assert_eq!(declaring_lines(&o.manifest, "prog"), 2);
    let one = "[a]\nprog = \"\"\n";
    let o = reconcile_with(&source("AAA"), one, "prog", true, "FRESH").unwrap();
    assert_eq!(declaring_lines(one, "prog"), 0);
    assert_eq!(declaring_lines(&o.manifest, "prog"), 1);
    assert_eq!(o.entries_updated, 1);
}

#[test]
fn the_identifier_at_hand_is_the_one_copied() {
    let a = Some("A".to_string());
    let b = Some("B".to_string());
    assert_eq!(identifier_at_hand(&a, &b, SyncAction::Keep), Some("A"));
    assert_eq!(identifier_at_hand(&a, &b, SyncAction::SourceToManifest), Some("A"));
    assert_eq!(identifier_at_hand(&a, &b, SyncAction::ManifestToSource), Some("B"));
    assert_eq!(identifier_at_hand(&a, &b, SyncAction::Generate), None);
    assert_eq!(identifier_at_hand(&None, &None, SyncAction::Generate), None);
}
