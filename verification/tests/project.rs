use starpin::network::{get_network_name, get_network_url, known_network, Network};
use starpin::project::{
    check_init, classify_target_entry, find_program_id_line, has_extension,
    has_test_helpers_feature, is_build_directory, should_generate_idl, suggests_validator,
    template_kind, CleanAction, InitError, TemplateKind,
};

#[test]
fn network_names_and_addresses() {
    assert_eq!(get_network_url("localnet"), "http://127.0.0.1:8899");
    assert_eq!(get_network_url("localhost"), "http://127.0.0.1:8899");
    assert_eq!(get_network_url("devnet"), "https://api.devnet.solana.com");
    assert_eq!(get_network_url("mainnet"), "https://api.mainnet-beta.solana.com");
    assert_eq!(get_network_url("mainnet-beta"), "https://api.mainnet-beta.solana.com");
    assert_eq!(get_network_name("localnet"), "localnet");
    assert_eq!(get_network_name("localhost"), "localnet");
    assert_eq!(get_network_name("devnet"), "devnet");
    assert_eq!(get_network_name("mainnet"), "mainnet-beta");
    assert_eq!(get_network_name("mainnet-beta"), "mainnet-beta");
}

#[test]
fn an_unknown_network_is_devnet() {
    assert_eq!(known_network("testnet"), None);
    assert_eq!(known_network(""), None);
    assert_eq!(known_network("Devnet"), None);
    assert_eq!(known_network("devnet"), Some(Network::Devnet));
    assert_eq!(known_network("localhost"), Some(Network::Localnet));
    assert_eq!(known_network("mainnet"), Some(Network::Mainnet));
    assert_eq!(get_network_url("testnet"), "https://api.devnet.solana.com");
    assert_eq!(get_network_name("testnet"), "devnet");
}

#[test]
fn cleaning_takes_artifacts_only() {
    assert_eq!(classify_target_entry("deploy"), CleanAction::RemoveDirectory);
    assert_eq!(classify_target_entry("idl"), CleanAction::RemoveDirectory);
    assert_eq!(classify_target_entry("program.so"), CleanAction::RemoveFile);
    assert_eq!(classify_target_entry("idl.json"), CleanAction::RemoveFile);
    assert_eq!(classify_target_entry(".so"), CleanAction::RemoveFile);
    assert_eq!(classify_target_entry("debug"), CleanAction::Keep);
    assert_eq!(classify_target_entry("program.so.bak"), CleanAction::Keep);
    assert_eq!(classify_target_entry("so"), CleanAction::Keep);
    assert_eq!(classify_target_entry(""), CleanAction::Keep);
    assert!(is_build_directory("build", true));
    assert!(is_build_directory(".rebuild-cache", true));
    assert!(!is_build_directory("build", false));
    assert!(!is_build_directory("deps", true));
}

#[test]
fn extension_is_what_follows_the_last_dot() {
    assert!(has_extension("program.so", "so"));
    assert!(has_extension("a.b.json", "json"));
    assert!(has_extension("trailing.", ""));
    assert!(!has_extension("program.so", "json"));
    assert!(!has_extension("program", "so"));
    assert!(!has_extension(".so", "so"));
    assert!(!has_extension("so", "so"));
    assert!(!has_extension("", ""));
    assert!(has_extension(".hidden.so", "so"));
}

#[test]
fn manifest_features_are_found() {
    assert!(has_test_helpers_feature("[features]\ntest_helpers = []\n"));
    assert!(!has_test_helpers_feature("[features]\ndefault = []\n"));
    assert!(should_generate_idl("star_frame = { version = \"0.1\", features = [\"idl\"] }"));
    assert!(should_generate_idl("star_frame = \"1\"\nidl = ['idl']"));
    assert!(!should_generate_idl("other = { features = [\"idl\"] }"));
    assert!(!should_generate_idl("star_frame = { version = \"0.1\" }"));
    assert!(suggests_validator("error: Connection refused (os error 111)"));
    assert!(!suggests_validator("error: connection refused"));
}

#[test]
fn program_id_line_is_the_first_that_names_it() {
    assert_eq!(
        find_program_id_line("Deploying...\r\nProgram Id: ABC\r\nProgram Id: DEF\n"),
        Some("Program Id: ABC".to_string())
    );
    assert_eq!(
        find_program_id_line("x\n  note: Program Id: 7 (new)"),
        Some("  note: Program Id: 7 (new)".to_string())
    );
    assert_eq!(find_program_id_line("Deploying...\nprogram id: ABC\n"), None);
    assert_eq!(find_program_id_line(""), None);
}

#[test]
fn templates_go_by_their_names() {
    assert_eq!(template_kind("counter"), Some(TemplateKind::Counter));
    assert_eq!(template_kind("simple_counter"), Some(TemplateKind::SimpleCounter));
    assert_eq!(template_kind("simple-counter"), Some(TemplateKind::SimpleCounter));
    assert_eq!(template_kind("marketplace"), Some(TemplateKind::Marketplace));
    assert_eq!(template_kind("Counter"), None);
    assert_eq!(template_kind(""), None);
}

#[test]
fn a_new_project_needs_a_good_name_and_a_known_template() {
    assert_eq!(check_init("vault", "counter"), Ok(TemplateKind::Counter));
    assert_eq!(check_init("vault-2", "simple-counter"), Ok(TemplateKind::SimpleCounter));
    assert_eq!(check_init("-vault", "counter"), Err(InitError::InvalidName));
    assert_eq!(check_init("-vault", "nothing"), Err(InitError::InvalidName));
    assert_eq!(check_init("vault", "nothing"), Err(InitError::UnknownTemplate));
}
