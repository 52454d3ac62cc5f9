use starpin::field::{extract_field, replace_all_fields, replace_field, FieldError};
use starpin::program_id::{
    extract_program_id_from_lib, extract_program_id_from_toml, generate_program_id,
    get_current_program_name, update_program_id_in_lib, update_program_id_in_toml,
};

const SOURCE: &str = "#[program(\n    instruction_set = CounterInstructionSet,\n    id = \"AAA\"\n)]\npub struct CounterProgram;\n";

const MANIFEST: &str = "[programs.localnet]\ncounter = \"BBB\"\n\n[programs.devnet]\ncounter = \"BBB\"\n\n[programs.mainnet]\ncounter = \"BBB\"\n\n[provider]\ncluster = \"localnet\"\n";

#[test]
fn extract_reads_between_first_and_last_quote() {
    assert_eq!(extract_field("id = \"AAA\"", "id"), Ok(Some("AAA".to_string())));
    assert_eq!(extract_field("  \t id = \"AAA\" // note", "id"), Ok(Some("AAA".to_string())));
    assert_eq!(extract_field("id = \"a\"b\"", "id"), Ok(Some("a\"b".to_string())));
    assert_eq!(extract_program_id_from_lib(SOURCE), Ok(Some("AAA".to_string())));
    assert_eq!(extract_program_id_from_toml(MANIFEST, "counter"), Ok(Some("BBB".to_string())));
}

#[test]
fn extract_reports_absence_as_none() {
    assert_eq!(extract_field("", "id"), Ok(None));
    assert_eq!(extract_field("name = \"x\"\nidentity = \"y\"", "id"), Ok(None));
    assert_eq!(extract_field("id=\"AAA\"", "id"), Ok(None));
    assert_eq!(extract_field("x id = \"AAA\"", "id"), Ok(None));
    assert_eq!(extract_program_id_from_toml(MANIFEST, "other"), Ok(None));
}

#[test]
fn extract_takes_an_empty_value_for_no_identifier() {
    assert_eq!(extract_field("id = \"\"", "id"), Ok(None));
}

#[test]
fn extract_fails_on_a_site_with_fewer_than_two_quotes() {
    assert_eq!(extract_field("id = \"AAA", "id"), Err(FieldError::Parse));
    assert_eq!(extract_field("id = AAA", "id"), Err(FieldError::Parse));
    assert_eq!(extract_field("id = ", "id"), Err(FieldError::Parse));
    assert_eq!(extract_field("id = \"AAA\nid = \"BBB\"", "id"), Err(FieldError::Parse));
}

#[test]
fn extract_uses_only_the_first_site() {
    assert_eq!(extract_field("id = \"one\"\nid = \"two\"", "id"), Ok(Some("one".to_string())));
    assert_eq!(extract_field("id = \"one\"\nid = broken", "id"), Ok(Some("one".to_string())));
}

#[test]
fn replace_keeps_every_other_character() {
    assert_eq!(
        replace_field("a\r\n  id = \"old\" , tail\r\nb\n", "id", "new"),
        Ok("a\r\n  id = \"new\" , tail\r\nb\n".to_string())
    );
    assert_eq!(replace_field("id = \"old\"", "id", "new"), Ok("id = \"new\"".to_string()));
    assert_eq!(replace_field("id = \"\"\n", "id", "new"), Ok("id = \"new\"\n".to_string()));
    assert_eq!(
        update_program_id_in_lib(SOURCE, "ZZZ"),
        Ok(SOURCE.replace("AAA", "ZZZ"))
    );
}

#[test]
fn replace_changes_the_first_site_only() {
    assert_eq!(
        replace_field("id = \"one\"\nid = \"two\"", "id", "new"),
        Ok("id = \"new\"\nid = \"two\"".to_string())
    );
}

#[test]
fn replace_fails_without_a_site() {
    assert_eq!(replace_field("name = \"x\"", "id", "new"), Err(FieldError::NotFound));
    assert_eq!(replace_field("", "id", "new"), Err(FieldError::NotFound));
    assert_eq!(update_program_id_in_lib("fn main() {}", "new"), Err(FieldError::NotFound));
}

#[test]
fn replace_fails_on_a_malformed_first_site() {
    assert_eq!(replace_field("id = \"one\nid = \"two\"", "id", "new"), Err(FieldError::Parse));
}

#[test]
fn replace_all_rewrites_every_network_and_counts() {
    assert_eq!(
        update_program_id_in_toml(MANIFEST, "counter", "NEW"),
        Ok((MANIFEST.replace("BBB", "NEW"), 3))
    );
    assert_eq!(
        replace_all_fields("p = \"a\"\nq = \"b\"\np = \"c\"", "p", "z"),
        Ok(("p = \"z\"\nq = \"b\"\np = \"z\"".to_string(), 2))
    );
}

#[test]
fn replace_all_leaves_malformed_sites() {
    assert_eq!(
        replace_all_fields("p = broken\np = \"a\"\r\n", "p", "z"),
        Ok(("p = broken\np = \"z\"\r\n".to_string(), 1))
    );
}

#[test]
fn replace_all_with_nothing_to_change_is_an_error() {
    assert_eq!(replace_all_fields("q = \"b\"", "p", "z"), Err(FieldError::NotFound));
    assert_eq!(replace_all_fields("p = broken", "p", "z"), Err(FieldError::Parse));
    assert_eq!(
        update_program_id_in_toml(MANIFEST, "other", "NEW"),
        Err(FieldError::NotFound)
    );
}

#[test]
fn extract_after_replace_gives_the_value() {
    let written = replace_field(SOURCE, "id", "9xQeWvG816bUx9EPjHmaT23yvVM2ZWbrrpZb9PusVFin").unwrap();
    assert_eq!(
        extract_field(&written, "id"),
        Ok(Some("9xQeWvG816bUx9EPjHmaT23yvVM2ZWbrrpZb9PusVFin".to_string()))
    );
    let (written, n) = replace_all_fields(MANIFEST, "counter", "v\"w").unwrap();
    assert_eq!(n, 3);
    assert_eq!(extract_field(&written, "counter"), Ok(Some("v\"w".to_string())));
}

#[test]
fn a_value_with_a_line_feed_does_not_read_back() {
    let written = replace_field("id = \"x\"", "id", "a\nb").unwrap();
    assert_eq!(written, "id = \"a\nb\"");
    assert_eq!(extract_field(&written, "id"), Err(FieldError::Parse));
}

#[test]
fn program_name_turns_hyphens_into_underscores() {
    assert_eq!(get_current_program_name("vault-program"), "vault_program");
    assert_eq!(get_current_program_name("a-b-c_d"), "a_b_c_d");
    assert_eq!(get_current_program_name(""), "");
}

#[test]
fn generated_identifiers_are_base58_and_differ() {
    let a = generate_program_id();
    let b = generate_program_id();
    assert!(!a.is_empty());
    assert!(a.len() >= 32 && a.len() <= 44);
    assert!(a.chars().all(|c| c.is_ascii_alphanumeric() && c != '0' && c != 'O' && c != 'I' && c != 'l'));
    assert_ne!(a, b);
}

#[test]
fn writing_the_same_value_changes_nothing() {
    assert_eq!(replace_field(SOURCE, "id", "AAA"), Ok(SOURCE.to_string()));
    assert_eq!(replace_all_fields(MANIFEST, "counter", "BBB"), Ok((MANIFEST.to_string(), 3)));
}
