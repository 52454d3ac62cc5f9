use starpin::names::{
    generate_template_variables, project_name_validator, to_kebab_case, to_pascal_case,
    to_snake_case,
};

#[test]
fn test_valid_project_names() {
    assert!(project_name_validator("my_project"));
    assert!(project_name_validator("my-project"));
    assert!(project_name_validator("myproject"));
    assert!(project_name_validator("my_project_123"));
}

#[test]
fn test_invalid_project_names() {
    assert!(!project_name_validator(""));
    assert!(!project_name_validator("-project"));
    assert!(!project_name_validator("project-"));
    assert!(!project_name_validator("_project"));
    assert!(!project_name_validator("my project"));
    assert!(!project_name_validator("my/project"));
}

#[test]
fn project_name_may_end_with_underscore() {
    assert!(project_name_validator("project_"));
    assert!(project_name_validator("a"));
    assert!(!project_name_validator("-"));
}

#[test]
fn pascal_case_joins_capitalized_words() {
    assert_eq!(to_pascal_case("vault-program"), "VaultProgram");
    assert_eq!(to_pascal_case("simple_counter"), "SimpleCounter");
    assert_eq!(to_pascal_case("MyProject"), "Myproject");
    assert_eq!(to_pascal_case("a--b"), "AB");
    assert_eq!(to_pascal_case(""), "");
}

#[test]
fn snake_case_lowers_and_turns_hyphens() {
    assert_eq!(to_snake_case("vault-program"), "vault_program");
    assert_eq!(to_snake_case("MyProject"), "myproject");
    assert_eq!(to_snake_case("A-B_c"), "a_b_c");
}

#[test]
fn kebab_case_hyphenates_upper_case() {
    assert_eq!(to_kebab_case("vault_program"), "vault-program");
    assert_eq!(to_kebab_case("VaultProgram"), "vault-program");
    assert_eq!(to_kebab_case("aBC"), "a-b-c");
    assert_eq!(to_kebab_case(""), "");
}

#[test]
fn template_variables_hold_every_spelling() {
    let v = generate_template_variables("vault-program", "counter");
    assert_eq!(v.project_name, "vault-program");
    assert_eq!(v.snake_name, "vault_program");
    assert_eq!(v.pascal_name, "VaultProgram");
    assert_eq!(v.kebab_name, "vault-program");
    assert_eq!(v.program_name, "VaultProgramProgram");
    let w = generate_template_variables("vault-program", "marketplace");
    assert_eq!(w.program_name, v.program_name);
}
