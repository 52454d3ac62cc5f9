//! Choosing the version of a package to depend on from what a registry
//! lists: the highest stable release, or the highest release of all where
//! none is stable.

use vstd::prelude::*;

verus! {

/// Why no version could be chosen.
#[derive(Clone, Copy, Debug, PartialEq, Eq, Structural)]
pub enum ResolveError {
    /// The registry could not be reached, refused, or answered with
    /// something that is not a list of versions.
    Registry,
    /// The registry listed no version that can be read.
    NoVersions,
}

/// One version as a registry lists it.
#[derive(Clone, Debug)]
pub struct CrateVersion {
    /// The version number, as text.
    pub num: String,
    /// When the version was published. Plays no part in the choice.
    pub created_at: String,
}

/// What a registry lists for one package.
#[derive(Clone, Debug)]
pub struct CrateInfo {
    pub versions: Vec<CrateVersion>,
}

/// A semantic version taken apart.
#[derive(Clone, Debug)]
pub struct Release {
    pub major: u64,
    pub minor: u64,
    pub patch: u64,
    /// The pre-release part, without its hyphen; empty for a stable release.
    pub pre: String,
    /// The build metadata, without its plus sign.
    pub build: String,
}

/// A `Release` as plain values.
pub struct ReleaseView {
    pub major: u64,
    pub minor: u64,
    pub patch: u64,
    pub pre: Seq<char>,
    pub build: Seq<char>,
}

impl View for Release {
    type V = ReleaseView;

    open spec fn view(&self) -> ReleaseView {
        ReleaseView {
            major: self.major,
            minor: self.minor,
            patch: self.patch,
            pre: self.pre@,
            build: self.build@,
        }
    }
}

/// What `semver::Version::parse` makes of a text: the parts of the version
/// it reads, or nothing where it reports an error.
pub uninterp spec fn semver_parse(text: Seq<char>) -> Option<ReleaseView>;

/// Whether `semver::Prerelease` orders the pre-release `a` strictly before
/// `b`. It is false where either text is no pre-release.
pub uninterp spec fn prerelease_lower(a: Seq<char>, b: Seq<char>) -> bool;

/// What an optional release reads as.
pub open spec fn release_read(r: Option<Release>) -> Option<ReleaseView> {
    match r {
        Some(v) => Some(v@),
        None => None,
    }
}

/// Reads a version with `semver::Version::parse`. The parts returned are
/// those of the version that the call gives; `None` stands for its error.
#[verifier::external_body]
pub(crate) fn parse_release(text: &str) -> (r: Option<Release>)
    ensures
        release_read(r) == semver_parse(text@),
{
    match semver::Version::parse(text) {
        Ok(v) => Some(
            Release {
                major: v.major,
                minor: v.minor,
                patch: v.patch,
                pre: v.pre.as_str().to_string(),
                build: v.build.as_str().to_string(),
            },
        ),
        Err(_) => None,
    }
}

/// Compares two pre-releases with `<` on `semver::Prerelease`, each made by
/// `semver::Prerelease::new`; a text that is no pre-release compares as not
/// lower. The crate documents a total order on pre-releases, of which two
/// facts are stated: of two pre-releases at most one is lower than the
/// other, and what is lower than `a` is lower than all that `a` is lower
/// than.
#[verifier::external_body]
pub(crate) fn prerelease_is_lower(a: &str, b: &str) -> (r: bool)
    ensures
        r == prerelease_lower(a@, b@),
        r ==> !prerelease_lower(b@, a@),
        forall|c: Seq<char>| r && #[trigger] prerelease_lower(b@, c) ==> prerelease_lower(a@, c),
{
    match (semver::Prerelease::new(a), semver::Prerelease::new(b)) {
        (Ok(x), Ok(y)) => x < y,
        _ => false,
    }
}

/// `x` has no pre-release part.
pub open spec fn is_stable(x: ReleaseView) -> bool {
    x.pre.len() == 0
}

/// The numbers of `x` come before those of `y`: major first, then minor,
/// then patch.
pub open spec fn core_lower(x: ReleaseView, y: ReleaseView) -> bool {
    x.major < y.major || (x.major == y.major && (x.minor < y.minor || (x.minor == y.minor
        && x.patch < y.patch)))
}

/// `x` and `y` have the same three numbers.
pub open spec fn same_core(x: ReleaseView, y: ReleaseView) -> bool {
    x.major == y.major && x.minor == y.minor && x.patch == y.patch
}

/// The pre-release part `a` comes before `b`: a release without one comes
/// after every release with one, and two that have one are ordered as
/// `semver` orders pre-releases.
pub open spec fn pre_lower(a: Seq<char>, b: Seq<char>) -> bool {
    if a.len() == 0 {
        false
    } else if b.len() == 0 {
        true
    } else {
        prerelease_lower(a, b)
    }
}

/// `x` has lower precedence than `y`: by the three numbers, and between
/// equal numbers by the pre-release part. Build metadata plays no part.
pub open spec fn lower(x: ReleaseView, y: ReleaseView) -> bool {
    core_lower(x, y) || (same_core(x, y) && pre_lower(x.pre, y.pre))
}

/// Tells whether `a` has lower precedence than `b`. Where it has, `b` is
/// not lower than `a`, and all that `b` is lower than, `a` is lower than
/// too.
pub fn precedes(a: &Release, b: &Release) -> (r: bool)
    ensures
        r == lower(a@, b@),
        r ==> !lower(b@, a@),
        r ==> forall|z: ReleaseView| #[trigger] lower(b@, z) ==> lower(a@, z),
{
    if a.major != b.major {
        a.major < b.major
    } else if a.minor != b.minor {
        a.minor < b.minor
    } else if a.patch != b.patch {
        a.patch < b.patch
    } else if a.pre.as_str().is_empty() {
        false
    } else if b.pre.as_str().is_empty() {
        true
    } else {
        let r = prerelease_is_lower(a.pre.as_str(), b.pre.as_str());
        proof {
            if r {
                assert forall|z: ReleaseView| #[trigger] lower(b@, z) implies lower(a@, z) by {
                    if !core_lower(b@, z) && z.pre.len() != 0 {
                        assert(prerelease_lower(b.pre@, z.pre));
                    }
                }
            }
        }
        r
    }
}

/// Tells whether `r` has no pre-release part.
pub fn release_is_stable(r: &Release) -> (b: bool)
    ensures
        b == is_stable(r@),
{
    r.pre.as_str().is_empty()
}

/// `c` is a version that can be read and, where only stable releases
/// count, is one.
pub open spec fn eligible(c: Option<ReleaseView>, stable_only: bool) -> bool {
    match c {
        Some(v) => !stable_only || is_stable(v),
        None => false,
    }
}

/// The index of the highest eligible version among the first `n` of `cs`:
/// each eligible version replaces the one held so far if that one is lower,
/// so that of several highest the first is kept.
pub open spec fn pick_among(cs: Seq<Option<ReleaseView>>, stable_only: bool, n: int) -> Option<int>
    decreases n,
{
    if n <= 0 {
        None
    } else {
        let held = pick_among(cs, stable_only, n - 1);
        if !eligible(cs[n - 1], stable_only) {
            held
        } else {
            match held {
                None => Some(n - 1),
                Some(b) => if lower(cs[b].unwrap(), cs[n - 1].unwrap()) {
                    Some(n - 1)
                } else {
                    held
                },
            }
        }
    }
}

/// The index of the version to use: the highest stable release, or where
/// there is none the highest release of all.
pub open spec fn pick(cs: Seq<Option<ReleaseView>>) -> Option<int> {
    match pick_among(cs, true, cs.len() as int) {
        Some(i) => Some(i),
        None => pick_among(cs, false, cs.len() as int),
    }
}

/// The version at `i` is eligible, and no other eligible version of `cs`
/// is higher.
pub open spec fn is_highest(cs: Seq<Option<ReleaseView>>, stable_only: bool, i: int) -> bool {
    &&& 0 <= i < cs.len()
    &&& eligible(cs[i], stable_only)
    &&& forall|j: int|
        0 <= j < cs.len() && j != i && eligible(#[trigger] cs[j], stable_only) ==> !lower(
            cs[i].unwrap(),
            cs[j].unwrap(),
        )
}

/// Some version of `cs` is a stable release.
pub open spec fn any_stable(cs: Seq<Option<ReleaseView>>) -> bool {
    exists|j: int| 0 <= j < cs.len() && eligible(#[trigger] cs[j], true)
}

/// What the entries of a list read as.
pub open spec fn release_views(rs: Seq<Option<Release>>) -> Seq<Option<ReleaseView>> {
    Seq::new(rs.len(), |i: int| release_read(rs[i]))
}

/// What `semver::Version::parse` makes of each listed version number.
pub open spec fn listed(info: CrateInfo) -> Seq<Option<ReleaseView>> {
    Seq::new(info.versions@.len(), |i: int| semver_parse(info.versions@[i].num@))
}

/// Finds the highest eligible release of `rs`, the first of several.
pub fn best_index(rs: &Vec<Option<Release>>, stable_only: bool) -> (r: Option<usize>)
    ensures
        match r {
            Some(i) => pick_among(release_views(rs@), stable_only, rs.len() as int) == Some(
                i as int,
            ) && is_highest(release_views(rs@), stable_only, i as int),
            None => pick_among(release_views(rs@), stable_only, rs.len() as int) is None
                && forall|j: int|
                0 <= j < rs.len() ==> !eligible(#[trigger] release_views(rs@)[j], stable_only),
        },
{
    let ghost cs = release_views(rs@);
    let mut held: Option<usize> = None;
    let mut k: usize = 0;
    while k < rs.len()
        invariant
            0 <= k <= rs.len(),
            cs == release_views(rs@),
            match held {
                Some(i) => {
                    &&& i < k
                    &&& pick_among(cs, stable_only, k as int) == Some(i as int)
                    &&& eligible(cs[i as int], stable_only)
                    &&& forall|j: int|
                        0 <= j < k && j != i && eligible(#[trigger] cs[j], stable_only) ==> !lower(
                            cs[i as int].unwrap(),
                            cs[j].unwrap(),
                        )
                },
                None => {
                    &&& pick_among(cs, stable_only, k as int) is None
                    &&& forall|j: int| 0 <= j < k ==> !eligible(#[trigger] cs[j], stable_only)
                },
            },
        decreases rs.len() - k,
    {
        assert(cs[k as int] == release_read(rs@[k as int]));
        match &rs[k] {
            None => {},
            Some(v) => {
                if !stable_only || release_is_stable(v) {
                    match held {
                        None => {
                            held = Some(k);
                        },
                        Some(i) => {
                            assert(cs[i as int] == release_read(rs@[i as int]));
                            match &rs[i] {
                                None => {},
                                Some(b) => {
                                    if precedes(b, v) {
                                        held = Some(k);
                                    }
                                },
                            }
                        },
                    }
                }
            },
        }
        k += 1;
    }
    held
}

/// Reads every listed version number.
pub fn parse_listed(info: &CrateInfo) -> (r: Vec<Option<Release>>)
    ensures
        release_views(r@) == listed(*info),
{
    let mut out: Vec<Option<Release>> = Vec::new();
    let mut k: usize = 0;
    while k < info.versions.len()
        invariant
            0 <= k <= info.versions.len(),
            out.len() == k,
            forall|j: int| 0 <= j < k ==> release_read(#[trigger] out@[j]) == semver_parse(
                info.versions@[j].num@,
            ),
        decreases info.versions.len() - k,
    {
        let parsed = parse_release(info.versions[k].num.as_str());
        out.push(parsed);
        k += 1;
    }
    proof {
        assert(release_views(out@) =~= listed(*info));
    }
    out
}

/// Chooses the version to use among those that `info` lists: the highest
/// stable release, or the highest release of all where none is stable.
/// Version numbers that cannot be read are passed over; where none can be
/// read, there is no version to use.
pub fn latest_version(info: &CrateInfo) -> (r: Result<String, ResolveError>)
    ensures
        match pick(listed(*info)) {
            Some(i) => r matches Ok(v) && v@ == info.versions@[i].num@,
            None => r == Err::<String, ResolveError>(ResolveError::NoVersions),
        },
        r is Ok ==> is_highest(
            listed(*info),
            any_stable(listed(*info)),
            pick(listed(*info)).unwrap(),
        ),
        r is Err <==> forall|j: int|
            0 <= j < info.versions@.len() ==> (#[trigger] listed(*info)[j]) is None,
{
    let rs = parse_listed(info);
    let ghost cs = listed(*info);
    match best_index(&rs, true) {
        Some(i) => {
            proof {
                assert(eligible(cs[i as int], true));
            }
            Ok(info.versions[i].num.clone())
        },
        None => match best_index(&rs, false) {
            Some(i) => Ok(info.versions[i].num.clone()),
            None => {
                proof {
                    assert forall|j: int| 0 <= j < info.versions@.len() implies (
                    #[trigger] cs[j]) is None by {
                        assert(!eligible(cs[j], false));
                    }
                }
                Err(ResolveError::NoVersions)
            },
        },
    }
}

/// What is picked among the first `n` versions is one of them and is
/// eligible; nothing is picked only where none of them is.
pub proof fn lemma_pick_among_shape(cs: Seq<Option<ReleaseView>>, stable_only: bool, n: int)
    requires
        0 <= n <= cs.len(),
    ensures
        match pick_among(cs, stable_only, n) {
            Some(i) => 0 <= i < n && eligible(cs[i], stable_only),
            None => forall|j: int| 0 <= j < n ==> !eligible(#[trigger] cs[j], stable_only),
        },
    decreases n,
{
    if n > 0 {
        lemma_pick_among_shape(cs, stable_only, n - 1);
    }
}

/// Among stable releases the one picked has the highest numbers, and is the
/// first that has them: every stable release before it has lower numbers,
/// and none after it has higher ones.
pub proof fn lemma_stable_pick(cs: Seq<Option<ReleaseView>>, n: int)
    requires
        0 <= n <= cs.len(),
    ensures
        match pick_among(cs, true, n) {
            Some(i) => forall|j: int|
                0 <= j < n && eligible(#[trigger] cs[j], true) ==> {
                    &&& !core_lower(cs[i].unwrap(), cs[j].unwrap())
                    &&& j < i ==> core_lower(cs[j].unwrap(), cs[i].unwrap())
                },
            None => true,
        },
    decreases n,
{
    if n > 0 {
        lemma_stable_pick(cs, n - 1);
        lemma_pick_among_shape(cs, true, n - 1);
    }
}

/// Where some listed version is a stable release, the version chosen is
/// one: of all stable releases it has the highest numbers, and it is the
/// first in the list that has them.
pub proof fn lemma_stable_choice(cs: Seq<Option<ReleaseView>>)
    requires
        any_stable(cs),
    ensures
        pick(cs) is Some,
        ({
            let i = pick(cs).unwrap();
            &&& 0 <= i < cs.len()
            &&& eligible(cs[i], true)
            &&& forall|j: int|
                0 <= j < cs.len() && eligible(#[trigger] cs[j], true) ==> {
                    &&& !core_lower(cs[i].unwrap(), cs[j].unwrap())
                    &&& j < i ==> core_lower(cs[j].unwrap(), cs[i].unwrap())
                }
        }),
{
    lemma_pick_among_shape(cs, true, cs.len() as int);
    lemma_stable_pick(cs, cs.len() as int);
}

/// Where no listed version is a stable release, the version chosen is
/// picked among all that can be read; nothing is chosen only where none
/// can be.
pub proof fn lemma_fallback_choice(cs: Seq<Option<ReleaseView>>)
    requires
        !any_stable(cs),
    ensures
        pick(cs) == pick_among(cs, false, cs.len() as int),
        match pick(cs) {
            Some(i) => 0 <= i < cs.len() && cs[i] is Some && !is_stable(cs[i].unwrap()),
            None => forall|j: int| 0 <= j < cs.len() ==> (#[trigger] cs[j]) is None,
        },
{
    lemma_pick_among_shape(cs, true, cs.len() as int);
    lemma_pick_among_shape(cs, false, cs.len() as int);
    match pick(cs) {
        Some(i) => {
            assert(!eligible(cs[i], true));
        },
        None => {
            assert forall|j: int| 0 <= j < cs.len() implies (#[trigger] cs[j]) is None by {
                assert(!eligible(cs[j], false));
            }
        },
    }
}

} // verus!
