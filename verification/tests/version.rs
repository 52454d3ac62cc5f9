use starpin::registry::{
    fetch_latest_crate_version, get_dependency_versions, default_dependency_versions,
    needs_lookup, registry_url, resolve_version, version_or_fallback, RegistryReplies,
    RegistryReply,
};
use starpin::version::{latest_version, precedes, release_is_stable, CrateInfo, CrateVersion, Release, ResolveError};

fn listing(nums: &[&str]) -> CrateInfo {
    CrateInfo {
        versions: nums
            .iter()
            .map(|n| CrateVersion { num: n.to_string(), created_at: "2024-01-01T00:00:00Z".to_string() })
            .collect(),
    }
}

fn answered(nums: &[&str]) -> RegistryReply {
    RegistryReply::Answered { status: 200, listing: Some(listing(nums)) }
}

fn release(major: u64, minor: u64, patch: u64, pre: &str) -> Release {
    Release { major, minor, patch, pre: pre.to_string(), build: String::new() }
}

#[test]
fn highest_stable_is_preferred() {
    assert_eq!(latest_version(&listing(&["1.0.0", "1.1.0-beta", "1.0.5"])), Ok("1.0.5".to_string()));
    assert_eq!(latest_version(&listing(&["2.0.0-rc1", "1.9.9"])), Ok("1.9.9".to_string()));
}

#[test]
fn highest_of_all_where_none_is_stable() {
    assert_eq!(latest_version(&listing(&["3.0.0-alpha"])), Ok("3.0.0-alpha".to_string()));
    assert_eq!(
        latest_version(&listing(&["1.0.0-alpha", "1.0.0-beta", "1.0.0-alpha.1"])),
        Ok("1.0.0-beta".to_string())
    );
    assert_eq!(
        latest_version(&listing(&["1.0.0-rc.1", "0.9.0-zeta", "1.0.0-beta.11", "1.0.0-beta.2"])),
        Ok("1.0.0-rc.1".to_string())
    );
    assert_eq!(
        latest_version(&listing(&["1.0.0-pre.8", "1.0.0-pre.12"])),
        Ok("1.0.0-pre.12".to_string())
    );
}

#[test]
fn numbers_are_compared_as_numbers() {
    assert_eq!(latest_version(&listing(&["1.9.0", "1.10.0", "1.2.30"])), Ok("1.10.0".to_string()));
    assert_eq!(latest_version(&listing(&["0.9.9", "10.0.0", "9.99.99"])), Ok("10.0.0".to_string()));
    assert_eq!(latest_version(&listing(&["1.0.9", "1.0.10"])), Ok("1.0.10".to_string()));
}

#[test]
fn unreadable_entries_are_passed_over() {
    assert_eq!(
        latest_version(&listing(&["not-a-version", "1.2", "0.3.1", "v9.9.9", ""])),
        Ok("0.3.1".to_string())
    );
}

#[test]
fn no_readable_entry_is_an_error() {
    assert_eq!(latest_version(&listing(&[])), Err(ResolveError::NoVersions));
    assert_eq!(latest_version(&listing(&["one", "1.0", "01.0.0"])), Err(ResolveError::NoVersions));
}

#[test]
fn of_equal_versions_the_first_is_kept() {
    assert_eq!(
        latest_version(&listing(&["1.2.0+a", "1.2.0", "1.2.0+b"])),
        Ok("1.2.0+a".to_string())
    );
}

#[test]
fn precedence_goes_by_numbers_then_pre_release() {
    assert!(precedes(&release(1, 2, 3, ""), &release(1, 2, 4, "")));
    assert!(precedes(&release(1, 2, 3, ""), &release(1, 3, 0, "")));
    assert!(precedes(&release(1, 9, 9, ""), &release(2, 0, 0, "rc1")));
    assert!(!precedes(&release(1, 2, 3, ""), &release(1, 2, 3, "")));
    assert!(precedes(&release(1, 2, 3, "alpha"), &release(1, 2, 3, "")));
    assert!(!precedes(&release(1, 2, 3, ""), &release(1, 2, 3, "alpha")));
    assert!(precedes(&release(1, 2, 3, "alpha"), &release(1, 2, 3, "alpha.1")));
    assert!(precedes(&release(1, 2, 3, "alpha.1"), &release(1, 2, 3, "alpha.beta")));
    assert!(precedes(&release(1, 2, 3, "beta.2"), &release(1, 2, 3, "beta.11")));
    assert!(!precedes(&release(1, 2, 3, "beta.11"), &release(1, 2, 3, "beta.2")));
    assert!(!precedes(&release(1, 2, 3, "beta"), &release(1, 2, 3, "beta")));
    assert!(release_is_stable(&release(1, 0, 0, "")));
    assert!(!release_is_stable(&release(1, 0, 0, "rc1")));
}

#[test]
fn a_failed_request_is_a_registry_error() {
    assert_eq!(fetch_latest_crate_version(&RegistryReply::Unreachable), Err(ResolveError::Registry));
    assert_eq!(
        fetch_latest_crate_version(&RegistryReply::Answered {
            status: 404,
            listing: Some(listing(&["1.0.0"]))
        }),
        Err(ResolveError::Registry)
    );
    assert_eq!(
        fetch_latest_crate_version(&RegistryReply::Answered { status: 199, listing: Some(listing(&["1.0.0"])) }),
        Err(ResolveError::Registry)
    );
    assert_eq!(
        fetch_latest_crate_version(&RegistryReply::Answered { status: 300, listing: Some(listing(&["1.0.0"])) }),
        Err(ResolveError::Registry)
    );
    assert_eq!(
        fetch_latest_crate_version(&RegistryReply::Answered { status: 200, listing: None }),
        Err(ResolveError::Registry)
    );
}

#[test]
fn a_good_answer_is_resolved() {
    assert_eq!(fetch_latest_crate_version(&answered(&["0.1.0", "0.2.0"])), Ok("0.2.0".to_string()));
    assert_eq!(
        fetch_latest_crate_version(&RegistryReply::Answered { status: 299, listing: Some(listing(&["0.1.0"])) }),
        Ok("0.1.0".to_string())
    );
    assert_eq!(fetch_latest_crate_version(&answered(&[])), Err(ResolveError::NoVersions));
    assert_eq!(fetch_latest_crate_version(&answered(&["x"])), Err(ResolveError::NoVersions));
}

#[test]
fn a_pinned_version_is_returned_unchanged() {
    assert_eq!(resolve_version(Some("latest"), &RegistryReply::Unreachable), Ok("latest".to_string()));
    assert_eq!(resolve_version(Some("0.1.0"), &answered(&["9.9.9"])), Ok("0.1.0".to_string()));
    assert_eq!(resolve_version(None, &answered(&["9.9.9"])), Ok("9.9.9".to_string()));
    assert_eq!(resolve_version(None, &RegistryReply::Unreachable), Err(ResolveError::Registry));
    assert!(needs_lookup(None));
    assert!(!needs_lookup(Some("0.1.0")));
}

#[test]
fn a_fallback_stands_in_for_a_failure() {
    assert_eq!(version_or_fallback(Ok("1.2.3".to_string()), "0.5"), "1.2.3");
    assert_eq!(version_or_fallback(Err(ResolveError::Registry), "0.5"), "0.5");
    assert_eq!(version_or_fallback(Err(ResolveError::NoVersions), "0.5"), "0.5");
}

#[test]
fn registry_url_names_the_package() {
    assert_eq!(registry_url("star_frame"), "https://crates.io/api/v1/crates/star_frame");
    assert_eq!(registry_url(""), "https://crates.io/api/v1/crates/");
}

fn unreachable() -> RegistryReplies {
    RegistryReplies {
        star_frame: RegistryReply::Unreachable,
        bytemuck: RegistryReply::Unreachable,
        tokio: RegistryReply::Unreachable,
        mollusk_svm: RegistryReply::Unreachable,
        solana_account: RegistryReply::Unreachable,
        mollusk_svm_programs_token: RegistryReply::Unreachable,
    }
}

#[test]
fn dependency_versions_fall_back_one_by_one() {
    let v = get_dependency_versions(None, &unreachable());
    let d = default_dependency_versions();
    assert_eq!(v.star_frame, "0.23.1");
    assert_eq!(v.solana_program, "1.18");
    assert_eq!(v.spl_token, "4.0");
    assert_eq!(v.spl_associated_token_account, "2.3");
    assert_eq!(v.bytemuck, "1.23");
    assert_eq!(v.tokio, "1.47");
    assert_eq!(v.mollusk_svm, "0.5");
    assert_eq!(v.solana_account, "3.0");
    assert_eq!(v.mollusk_svm_programs_token, "0.5");
    assert_eq!(v.star_frame, d.star_frame);
    assert_eq!(v.tokio, d.tokio);
    assert_eq!(v.bytemuck, d.bytemuck);
    assert_eq!(v.mollusk_svm, d.mollusk_svm);
    assert_eq!(v.solana_account, d.solana_account);
    assert_eq!(v.mollusk_svm_programs_token, d.mollusk_svm_programs_token);
    assert_eq!(d.solana_program, "1.18");
    assert_eq!(d.spl_token, "4.0");
    assert_eq!(d.spl_associated_token_account, "2.3");
}

#[test]
fn dependency_versions_take_what_was_resolved() {
    let mut replies = unreachable();
    replies.star_frame = answered(&["0.24.0", "0.25.0-rc.1"]);
    replies.tokio = answered(&["1.40.0", "1.48.1"]);
    replies.mollusk_svm = answered(&[]);
    let v = get_dependency_versions(None, &replies);
    assert_eq!(v.star_frame, "0.24.0");
    assert_eq!(v.tokio, "1.48.1");
    assert_eq!(v.mollusk_svm, "0.5");
    assert_eq!(v.bytemuck, "1.23");
    let v = get_dependency_versions(Some("0.1.0"), &replies);
    assert_eq!(v.star_frame, "0.1.0");
    assert_eq!(v.tokio, "1.48.1");
}
