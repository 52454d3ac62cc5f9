use starpin::dependency::{extract_dependency_version, update_dependency_version};
use starpin::registry::default_dependency_versions;
use starpin::update::plan_update;

const CARGO: &str = "[package]\nname = \"demo\"\nversion = \"0.1.0\"\n\n[dependencies]\nstar_frame = { version = \"0.20.0\", features = [\"idl\"] }\nsolana-program = { version = \"1.18\" }\nanyhow = \"1.0\"\n";

#[test]
fn declared_version_is_read_after_the_word() {
    assert_eq!(
        extract_dependency_version("foo = { version = \"1.0\" }", "foo"),
        Some("1.0".to_string())
    );
    assert_eq!(
        extract_dependency_version("  foo = { features = [\"a\"], version = \"1.0\", x = \"y\" }", "foo"),
        Some("1.0".to_string())
    );
    assert_eq!(extract_dependency_version(CARGO, "star_frame"), Some("0.20.0".to_string()));
    assert_eq!(extract_dependency_version(CARGO, "solana-program"), Some("1.18".to_string()));
}

#[test]
fn a_line_without_the_word_declares_nothing() {
    assert_eq!(extract_dependency_version("foo = \"1.0\"", "foo"), None);
    assert_eq!(extract_dependency_version(CARGO, "anyhow"), None);
    assert_eq!(extract_dependency_version(CARGO, "tokio"), None);
    assert_eq!(extract_dependency_version("", "foo"), None);
}

#[test]
fn a_line_without_two_quotes_after_the_word_is_passed_over() {
    assert_eq!(extract_dependency_version("foo = { version = \"1.0 }", "foo"), None);
    assert_eq!(
        extract_dependency_version("foo = { version = 1 }\nfoo = { version = \"2.0\" }", "foo"),
        Some("2.0".to_string())
    );
    assert_eq!(
        extract_dependency_version("foo = { x = \"a\", version = 1 }", "foo"),
        None
    );
}

#[test]
fn updating_keeps_all_that_surrounds_the_version() {
    assert_eq!(
        update_dependency_version("foo = { version = \"1.0\" }", "foo", "1.2.0"),
        "foo = { version = \"1.2.0\" }"
    );
    assert_eq!(
        update_dependency_version("  foo = { version=\"1.0\", features = [\"x\"] }\r\nbar = 1\n", "foo", "2"),
        "  foo = { version=\"2\", features = [\"x\"] }\r\nbar = 1\n"
    );
    assert_eq!(
        update_dependency_version(CARGO, "star_frame", "0.23.1"),
        CARGO.replace("0.20.0", "0.23.1")
    );
}

#[test]
fn updating_changes_every_declaring_line_and_no_other() {
    assert_eq!(
        update_dependency_version(
            "foo = { version = \"1\" }\nfoo = \"1\"\nfoo_bar = { version = \"3\" }\nbaz = { version = \"4\" }",
            "foo",
            "9"
        ),
        "foo = { version = \"9\" }\nfoo = \"1\"\nfoo_bar = { version = \"9\" }\nbaz = { version = \"4\" }"
    );
    assert_eq!(update_dependency_version(CARGO, "tokio", "9"), CARGO);
}

#[test]
fn reading_after_updating_gives_the_new_version() {
    let updated = update_dependency_version(CARGO, "solana-program", "2.0.1");
    assert_eq!(extract_dependency_version(&updated, "solana-program"), Some("2.0.1".to_string()));
}

#[test]
fn plan_lists_what_is_out_of_date() {
    let mut versions = default_dependency_versions();
    versions.star_frame = "0.23.1".to_string();
    versions.solana_program = "1.18".to_string();
    let plan = plan_update(CARGO, &versions, false);
    assert_eq!(plan.updates.len(), 1);
    assert_eq!(plan.updates[0].name, "star_frame");
    assert_eq!(plan.updates[0].current, "0.20.0");
    assert_eq!(plan.updates[0].target, "0.23.1");
    assert_eq!(plan.content, CARGO.replace("0.20.0", "0.23.1"));
}

#[test]
fn a_dry_run_changes_nothing() {
    let mut versions = default_dependency_versions();
    versions.star_frame = "0.23.1".to_string();
    versions.solana_program = "2.0".to_string();
    let plan = plan_update(CARGO, &versions, true);
    assert_eq!(plan.updates.len(), 2);
    assert_eq!(plan.updates[1].name, "solana-program");
    assert_eq!(plan.updates[1].current, "1.18");
    assert_eq!(plan.updates[1].target, "2.0");
    assert_eq!(plan.content, CARGO);
    let plan = plan_update(CARGO, &versions, false);
    assert_eq!(plan.updates.len(), 2);
    assert_eq!(plan.content, CARGO.replace("0.20.0", "0.23.1").replace("1.18", "2.0"));
}

#[test]
fn an_up_to_date_manifest_needs_no_update() {
    let mut versions = default_dependency_versions();
    versions.star_frame = "0.20.0".to_string();
    let plan = plan_update(CARGO, &versions, false);
    assert!(plan.updates.is_empty());
    assert_eq!(plan.content, CARGO);
    let plan = plan_update("[dependencies]\n", &versions, false);
    assert!(plan.updates.is_empty());
    assert_eq!(plan.content, "[dependencies]\n");
}
