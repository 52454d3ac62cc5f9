//! From a registry's answer to the versions that a generated project
//! declares.
//!
//! Asking the registry is the caller's part. What came back is handed in as
//! a `RegistryReply`; what to use where nothing usable came back is decided
//! here.

use crate::text::{append_chars, chars_of, string_of};
use crate::version::{CrateInfo, latest_version, listed, pick, ResolveError};
use vstd::prelude::*;

verus! {

/// The package whose version a caller may pin.
pub const STAR_FRAME: &'static str = "star_frame";

pub const BYTEMUCK: &'static str = "bytemuck";

pub const TOKIO: &'static str = "tokio";

pub const MOLLUSK_SVM: &'static str = "mollusk-svm";

pub const SOLANA_ACCOUNT: &'static str = "solana-account";

pub const MOLLUSK_SVM_PROGRAMS_TOKEN: &'static str = "mollusk-svm-programs-token";

/// What came back from asking the registry about one package.
#[derive(Clone, Debug)]
pub enum RegistryReply {
    /// The request could not be sent, or no answer came.
    Unreachable,
    /// An answer came: its HTTP status code and, where the body could be
    /// decoded as a list of versions, that list.
    Answered { status: u16, listing: Option<CrateInfo> },
}

/// The status code tells of success: it lies in 200..=299.
pub open spec fn is_success(status: u16) -> bool {
    200 <= status < 300
}

/// The version that a reply leads to. A request that failed, a status that
/// tells of no success and a body that is no list of versions are errors of
/// the registry; a list without a readable version is an error of its own.
pub open spec fn resolved(reply: RegistryReply) -> Result<Seq<char>, ResolveError> {
    match reply {
        RegistryReply::Unreachable => Err(ResolveError::Registry),
        RegistryReply::Answered { status, listing } => if !is_success(status) {
            Err(ResolveError::Registry)
        } else {
            match listing {
                None => Err(ResolveError::Registry),
                Some(info) => match pick(listed(info)) {
                    Some(i) => Ok(info.versions@[i].num@),
                    None => Err(ResolveError::NoVersions),
                },
            }
        },
    }
}

/// What a resolved version reads as.
pub open spec fn version_read(r: Result<String, ResolveError>) -> Result<Seq<char>, ResolveError> {
    match r {
        Ok(v) => Ok(v@),
        Err(e) => Err(e),
    }
}

/// Where the registry lists the versions of `crate_name`.
pub open spec fn registry_address(crate_name: Seq<char>) -> Seq<char> {
    "https://crates.io/api/v1/crates/"@ + crate_name
}

/// The address to ask for the versions of `crate_name`.
pub fn registry_url(crate_name: &str) -> (r: String)
    ensures
        r@ == registry_address(crate_name@),
{
    let mut out = chars_of("https://crates.io/api/v1/crates/");
    let name = chars_of(crate_name);
    append_chars(&mut out, &name);
    string_of(&out)
}

/// Chooses the latest version of a package from the registry's reply: the
/// highest stable release that it lists, or the highest release of all
/// where none is stable.
pub fn fetch_latest_crate_version(reply: &RegistryReply) -> (r: Result<String, ResolveError>)
    ensures
        version_read(r) == resolved(*reply),
{
    match reply {
        RegistryReply::Unreachable => Err(ResolveError::Registry),
        RegistryReply::Answered { status, listing } => {
            if *status < 200 || *status >= 300 {
                Err(ResolveError::Registry)
            } else {
                match listing {
                    None => Err(ResolveError::Registry),
                    Some(info) => latest_version(info),
                }
            }
        },
    }
}

/// The version to use for a package: the pinned one where there is one,
/// whatever the registry says, and else the latest that the reply leads to.
pub fn resolve_version(pinned: Option<&str>, reply: &RegistryReply) -> (r: Result<
    String,
    ResolveError,
>)
    ensures
        match pinned {
            Some(v) => version_read(r) == Ok::<Seq<char>, ResolveError>(v@),
            None => version_read(r) == resolved(*reply),
        },
{
    match pinned {
        Some(v) => Ok(v.to_owned()),
        None => fetch_latest_crate_version(reply),
    }
}

/// The version to declare: the resolved one, or `fallback` where none was
/// resolved.
pub open spec fn or_fallback(r: Result<Seq<char>, ResolveError>, fallback: Seq<char>) -> Seq<char> {
    match r {
        Ok(v) => v,
        Err(_) => fallback,
    }
}

/// Takes the resolved version, or `fallback` where none was resolved.
pub fn version_or_fallback(resolved: Result<String, ResolveError>, fallback: &str) -> (r: String)
    ensures
        r@ == or_fallback(version_read(resolved), fallback@),
{
    match resolved {
        Ok(v) => v,
        Err(_) => fallback.to_owned(),
    }
}

/// The versions that the generated files declare for their dependencies.
#[derive(Clone, Debug)]
pub struct DependencyVersions {
    pub star_frame: String,
    pub solana_program: String,
    pub spl_token: String,
    pub spl_associated_token_account: String,
    pub bytemuck: String,
    pub tokio: String,
    pub mollusk_svm: String,
    pub solana_account: String,
    pub mollusk_svm_programs_token: String,
}

/// The replies of the registry, one for each package that is looked up.
#[derive(Clone, Debug)]
pub struct RegistryReplies {
    pub star_frame: RegistryReply,
    pub bytemuck: RegistryReply,
    pub tokio: RegistryReply,
    pub mollusk_svm: RegistryReply,
    pub solana_account: RegistryReply,
    pub mollusk_svm_programs_token: RegistryReply,
}

/// The versions to declare where the registry is not asked at all.
pub fn default_dependency_versions() -> (r: DependencyVersions)
    ensures
        r.star_frame@ == "0.23.1"@,
        r.solana_program@ == "1.18"@,
        r.spl_token@ == "4.0"@,
        r.spl_associated_token_account@ == "2.3"@,
        r.bytemuck@ == "1.23"@,
        r.tokio@ == "1.47"@,
        r.mollusk_svm@ == "0.5"@,
        r.solana_account@ == "3.0"@,
        r.mollusk_svm_programs_token@ == "0.5"@,
{
    DependencyVersions {
        star_frame: "0.23.1".to_owned(),
        solana_program: "1.18".to_owned(),
        spl_token: "4.0".to_owned(),
        spl_associated_token_account: "2.3".to_owned(),
        bytemuck: "1.23".to_owned(),
        tokio: "1.47".to_owned(),
        mollusk_svm: "0.5".to_owned(),
        solana_account: "3.0".to_owned(),
        mollusk_svm_programs_token: "0.5".to_owned(),
    }
}

/// Tells whether the registry has to be asked about `star_frame`: only
/// where no version is pinned.
pub fn needs_lookup(star_frame_version: Option<&str>) -> (r: bool)
    ensures
        r == star_frame_version is None,
{
    star_frame_version.is_none()
}

/// The versions to declare. A pinned version of `star_frame` is taken as it
/// is; every other looked-up package gets the latest version that its reply
/// leads to, or a fixed fallback where the reply leads to none. Three
/// packages are never looked up and keep fixed versions.
pub fn get_dependency_versions(star_frame_version: Option<&str>, replies: &RegistryReplies) -> (r:
    DependencyVersions)
    ensures
        r.star_frame@ == match star_frame_version {
            Some(v) => v@,
            None => or_fallback(resolved(replies.star_frame), "0.23.1"@),
        },
        r.solana_program@ == "1.18"@,
        r.spl_token@ == "4.0"@,
        r.spl_associated_token_account@ == "2.3"@,
        r.bytemuck@ == or_fallback(resolved(replies.bytemuck), "1.23"@),
        r.tokio@ == or_fallback(resolved(replies.tokio), "1.47"@),
        r.mollusk_svm@ == or_fallback(resolved(replies.mollusk_svm), "0.5"@),
        r.solana_account@ == or_fallback(resolved(replies.solana_account), "3.0"@),
        r.mollusk_svm_programs_token@ == or_fallback(
            resolved(replies.mollusk_svm_programs_token),
            "0.5"@,
        ),
{
    let star_frame = version_or_fallback(
        resolve_version(star_frame_version, &replies.star_frame),
        "0.23.1",
    );
    DependencyVersions {
        star_frame,
        solana_program: "1.18".to_owned(),
        spl_token: "4.0".to_owned(),
        spl_associated_token_account: "2.3".to_owned(),
        bytemuck: version_or_fallback(fetch_latest_crate_version(&replies.bytemuck), "1.23"),
        tokio: version_or_fallback(fetch_latest_crate_version(&replies.tokio), "1.47"),
        mollusk_svm: version_or_fallback(fetch_latest_crate_version(&replies.mollusk_svm), "0.5"),
        solana_account: version_or_fallback(
            fetch_latest_crate_version(&replies.solana_account),
            "3.0",
        ),
        mollusk_svm_programs_token: version_or_fallback(
            fetch_latest_crate_version(&replies.mollusk_svm_programs_token),
            "0.5",
        ),
    }
}

} // verus!
