use starpin::names::generate_template_variables;
use starpin::program_id::{extract_program_id_from_lib, extract_program_id_from_toml};
use starpin::registry::default_dependency_versions;
use starpin::render::render;
use starpin::sync::{reconcile_with, SyncAction};
use starpin::templates::counter::CounterTemplate;
use starpin::templates::marketplace::MarketplaceTemplate;
use starpin::templates::simple_counter::SimpleCounterTemplate;
use starpin::templates::{GeneratedFile, Template};

fn find<'a>(files: &'a [GeneratedFile], path: &str) -> &'a str {
    match files.iter().find(|f| f.path == path) {
        Some(f) => f.content.as_str(),
        None => panic!("no file {}", path),
    }
}

fn paths(files: &[GeneratedFile]) -> Vec<&str> {
    files.iter().map(|f| f.path.as_str()).collect()
}

#[test]
fn holes_are_filled_from_left_to_right() {
    assert_eq!(render("a{}b{}c", &vec!["X", "Y"]), "aXbYc");
    assert_eq!(render("{}{}", &vec!["", "Y"]), "Y");
    assert_eq!(render("no holes", &vec!["X"]), "no holes");
    assert_eq!(render("", &vec![]), "");
}

#[test]
fn doubled_braces_stand_for_single_ones() {
    assert_eq!(render("x = {{ v = \"{}\" }}", &vec!["1.0"]), "x = { v = \"1.0\" }");
    assert_eq!(render("{{}}", &vec!["X"]), "{}");
    assert_eq!(render("{{{}}}", &vec!["X"]), "{X}");
}

#[test]
fn a_hole_without_a_value_stays_empty() {
    assert_eq!(render("a{}b{}c", &vec!["X"]), "aXbc");
    assert_eq!(render("{}", &vec![]), "");
}

#[test]
fn a_lone_brace_stands_for_itself() {
    assert_eq!(render("a{b", &vec!["X"]), "a{b");
    assert_eq!(render("a}b", &vec!["X"]), "a}b");
    assert_eq!(render("{", &vec![]), "{");
}

#[test]
fn counter_plans_its_files() {
    let variables = generate_template_variables("vault-program", "counter");
    let versions = default_dependency_versions();
    let files = CounterTemplate::new().files(&variables, &versions, "PROGRAMID");
    assert_eq!(
        paths(&files),
        vec![
            "Cargo.toml",
            "src/lib.rs",
            "tests/vault_program.rs",
            "README.md",
            ".gitignore",
            "Starpin.toml"
        ]
    );
    assert_eq!(CounterTemplate::new().directories(), vec!["", "src", "tests"]);
    let cargo = find(&files, "Cargo.toml");
    assert!(cargo.starts_with("[package]\nname = \"vault-program\"\nversion = \"0.1.0\"\n"));
    assert!(cargo.contains("star_frame = { version = \"0.23.1\", features = [\"idl\"] }\n"));
    assert!(cargo.contains("program-id = \"PROGRAMID\"\n"));
    assert!(cargo.ends_with("tokio = { version = \"1.0\", features = [\"macros\", \"rt-multi-thread\"] }\n"));
    let lib = find(&files, "src/lib.rs");
    assert!(lib.contains("    instruction_set = VaultProgramInstructionSet,\n    id = \"PROGRAMID\"\n)]\npub struct VaultProgramProgram;\n"));
    assert!(lib.contains("#[get_seeds(seed_const = b\"VAULTPROGRAM\")]\npub struct VaultProgramAccountSeeds {\n"));
    assert!(lib.contains("empty_star_frame_instruction!(CloseVaultProgramIx, CloseVaultProgramAccounts);\n"));
    assert!(!lib.contains("{{"));
    assert!(!lib.contains("{}"));
    let test = find(&files, "tests/vault_program.rs");
    assert!(test.starts_with("use vault_program::*;\n"));
    assert!(test.contains("        let idl = VaultProgramProgram::program_to_idl()?;\n"));
    let readme = find(&files, "README.md");
    assert!(readme.starts_with("# vault-program - Star Frame Counter Program\n"));
    assert!(readme.ends_with("## Program ID\n\n```\nPROGRAMID\n```\n"));
    assert!(find(&files, ".gitignore").starts_with("# Rust\ntarget/\nCargo.lock\n"));
    let manifest = find(&files, "Starpin.toml");
    assert!(manifest.contains("[programs.localnet]\nvault_program = \"PROGRAMID\"\n\n[programs.devnet]\nvault_program = \"PROGRAMID\"\n\n[programs.mainnet]\nvault_program = \"PROGRAMID\"\n"));
}

#[test]
fn a_generated_project_is_in_sync() {
    let variables = generate_template_variables("vault-program", "counter");
    let versions = default_dependency_versions();
    let files = CounterTemplate::new().files(&variables, &versions, "PROGRAMID");
    let lib = find(&files, "src/lib.rs");
    let manifest = find(&files, "Starpin.toml");
    assert_eq!(extract_program_id_from_lib(lib), Ok(Some("PROGRAMID".to_string())));
    assert_eq!(
        extract_program_id_from_toml(manifest, "vault_program"),
        Ok(Some("PROGRAMID".to_string()))
    );
    let o = reconcile_with(lib, manifest, "vault_program", false, "FRESH").unwrap();
    assert_eq!(o.action, SyncAction::Keep);
    assert!(o.verified);
}

#[test]
fn simple_counter_plans_its_files() {
    let variables = generate_template_variables("my-counter", "simple_counter");
    let mut versions = default_dependency_versions();
    versions.star_frame = "0.9.0".to_string();
    let files = SimpleCounterTemplate::new().files(&variables, &versions, "PROGRAMID");
    assert_eq!(
        paths(&files),
        vec![
            "Cargo.toml",
            "src/lib.rs",
            "tests/simple_counter.rs",
            "README.md",
            ".gitignore",
            "Starpin.toml"
        ]
    );
    assert_eq!(SimpleCounterTemplate::new().directories(), vec!["", "src", "tests"]);
    assert!(find(&files, "Cargo.toml").contains("name = \"my-counter\"\n"));
    assert!(find(&files, "Cargo.toml").contains("star_frame = { version = \"0.9.0\""));
    assert!(find(&files, "src/lib.rs").contains("    id = \"PROGRAMID\"\n"));
    assert!(find(&files, "tests/simple_counter.rs").starts_with("use my_counter::*;\n"));
    assert!(find(&files, "README.md").starts_with("# my-counter - Simple Star Frame Counter Program\n"));
    assert!(find(&files, "Starpin.toml").contains("[programs.devnet]\nmy_counter = \"PROGRAMID\"\n"));
    assert_eq!(
        extract_program_id_from_toml(find(&files, "Starpin.toml"), "my_counter"),
        Ok(Some("PROGRAMID".to_string()))
    );
}

#[test]
fn marketplace_plans_its_files() {
    let variables = generate_template_variables("My-Market", "marketplace");
    let versions = default_dependency_versions();
    let files = MarketplaceTemplate::new().files(&variables, &versions, "PROGRAMID");
    assert_eq!(
        paths(&files),
        vec![
            "Cargo.toml",
            "src/lib.rs",
            "src/state.rs",
            "src/instructions/mod.rs",
            "src/instructions/initialize.rs",
            "src/instructions/place_order.rs",
            "src/instructions/cancel_orders.rs",
            "tests/marketplace.rs",
            "README.md",
            ".gitignore",
            "StarFrame.toml"
        ]
    );
    assert_eq!(
        MarketplaceTemplate::new().directories(),
        vec!["", "src", "src/instructions", "tests"]
    );
    let cargo = find(&files, "Cargo.toml");
    assert!(cargo.contains("star_frame = { version = \"0.23.1\", features = [\"idl\", \"test_helpers\"] }\nstar_frame_spl = { version = \"0.23.1\", features = [\"idl\"] }\n"));
    assert!(find(&files, "src/lib.rs").contains("\"My-Market_marketplace\""));
    assert!(find(&files, "src/state.rs").starts_with("use std::{cmp::Reverse, fmt::Display};\n"));
    assert!(find(&files, "tests/marketplace.rs").starts_with("use My_Market::*;\n"));
    assert!(find(&files, "StarFrame.toml").contains("[programs.localnet]\nMy_Market = \"PROGRAMID\"\n"));
    assert!(find(&files, "StarFrame.toml").contains("test = \"starframe test --features test_helpers\"\n"));
}

#[test]
fn a_template_generates_with_a_new_identifier() {
    let variables = generate_template_variables("vault", "counter");
    let versions = default_dependency_versions();
    let files = CounterTemplate::new().generate_with_variables(&variables, &versions);
    let id = extract_program_id_from_lib(find(&files, "src/lib.rs")).unwrap().unwrap();
    assert!(!id.is_empty());
    assert_eq!(files.len(), CounterTemplate::new().files(&variables, &versions, &id).len());
    assert_eq!(
        find(&files, "Starpin.toml"),
        find(&CounterTemplate::new().files(&variables, &versions, &id), "Starpin.toml")
    );
    let files = CounterTemplate::new().generate_with_versions("vault", &versions);
    assert_eq!(
        extract_program_id_from_toml(find(&files, "Starpin.toml"), "vault"),
        extract_program_id_from_lib(find(&files, "src/lib.rs"))
    );
    let files = SimpleCounterTemplate::new().generate("vault");
    assert!(find(&files, "Cargo.toml").contains("star_frame = { version = \"0.1.0\""));
    let files = MarketplaceTemplate::new().generate("vault");
    assert!(find(&files, "Cargo.toml").contains("star_frame = { version = \"0.1.0\""));
    let files = CounterTemplate::new().generate("vault");
    assert!(find(&files, "Cargo.toml").contains("star_frame = { version = \"0.23.1\""));
}
