//! Versions, requirements on them, and the choice of the best known version.
//!
//! Whether a requirement admits a version, and which of two versions is the later one, is
//! decided by the `semver` crate. This module holds versions as plain values, hands them to
//! `semver` for those two questions, and makes the choice among the known versions itself.

use crate::text::decimal_digits;
use vstd::prelude::*;
use vstd::string::*;

verus! {

/// What a version holds: three numbers, and the text of its pre-release and build labels
/// (empty where it has none).
pub struct VersionView {
    pub major: u64,
    pub minor: u64,
    pub patch: u64,
    pub pre: Seq<char>,
    pub build: Seq<char>,
}

impl VersionView {
    /// The canonical text of the version: `major.minor.patch`, then `-` and the pre-release
    /// label if there is one, then `+` and the build label if there is one.
    pub open spec fn text(self) -> Seq<char> {
        decimal_digits(self.major as nat) + seq!['.'] + decimal_digits(self.minor as nat)
            + seq!['.'] + decimal_digits(self.patch as nat) + (if self.pre.len() > 0 {
            seq!['-'] + self.pre
        } else {
            Seq::empty()
        }) + (if self.build.len() > 0 {
            seq!['+'] + self.build
        } else {
            Seq::empty()
        })
    }

    /// Whether both labels are ones that `semver` takes.
    pub open spec fn labels_accepted(self) -> bool {
        &&& self.pre.len() == 0 || prerelease_accepted(self.pre)
        &&& self.build.len() == 0 || build_accepted(self.build)
    }
}

/// Whether `semver::Prerelease::new` accepts `text`.
pub uninterp spec fn prerelease_accepted(text: Seq<char>) -> bool;

/// Whether `semver::BuildMetadata::new` accepts `text`.
pub uninterp spec fn build_accepted(text: Seq<char>) -> bool;

/// Whether `semver::VersionReq::parse` accepts `text`.
pub uninterp spec fn requirement_accepted(text: Seq<char>) -> bool;

/// Whether the requirement written `req` matches `version`, as `semver::VersionReq::matches`
/// decides it.
pub uninterp spec fn requirement_matches(req: Seq<char>, version: VersionView) -> bool;

/// Whether `a` comes before `b` in the total order that `semver` gives its versions.
pub uninterp spec fn version_less(a: VersionView, b: VersionView) -> bool;

/// A version: major, minor and patch number, with optional pre-release and build labels.
#[derive(Debug, PartialEq, Eq)]
pub struct Version {
    major: u64,
    minor: u64,
    patch: u64,
    pre: String,
    build: String,
}

/// A requirement on versions, such as `^1` or `>=1.2, <2`, kept as the text that writes it.
#[derive(Debug, PartialEq, Eq)]
pub struct VersionReq {
    text: String,
}

impl View for VersionReq {
    type V = Seq<char>;

    closed spec fn view(&self) -> Seq<char> {
        self.text@
    }
}

impl View for Version {
    type V = VersionView;

    closed spec fn view(&self) -> VersionView {
        VersionView {
            major: self.major,
            minor: self.minor,
            patch: self.patch,
            pre: self.pre@,
            build: self.build@,
        }
    }
}

/// `semver::Prerelease::new` on `text`: whether it returned a label.
#[verifier::external_body]
fn semver_takes_prerelease(text: &str) -> (ok: bool)
    ensures
        ok == prerelease_accepted(text@),
{
    semver::Prerelease::new(text).is_ok()
}

/// `semver::BuildMetadata::new` on `text`: whether it returned metadata.
#[verifier::external_body]
fn semver_takes_build(text: &str) -> (ok: bool)
    ensures
        ok == build_accepted(text@),
{
    semver::BuildMetadata::new(text).is_ok()
}

/// `to_string` of the `semver::Version` with the fields of `version`. The crate writes the
/// three numbers in decimal with dots between them, then `-` and the pre-release label
/// unless it is empty, then `+` and the build metadata unless it is empty. The labels are
/// made by `Prerelease::new` and `BuildMetadata::new`, which take an empty text and, by the
/// version's invariant, these.
#[verifier::external_body]
fn semver_text(version: &Version) -> (out: String)
    requires
        version.well_formed(),
    ensures
        out@ == version@.text(),
{
    let mut v = semver::Version::new(version.major, version.minor, version.patch);
    v.pre = semver::Prerelease::new(&version.pre).unwrap();
    v.build = semver::BuildMetadata::new(&version.build).unwrap();
    v.to_string()
}

/// `<` on the two `semver::Version` values with the fields of `a` and of `b`, made as in
/// `semver_text`: whether `a` comes first in the crate's total order of versions.
#[verifier::external_body]
fn semver_less(a: &Version, b: &Version) -> (less: bool)
    requires
        a.well_formed(),
        b.well_formed(),
    ensures
        less == version_less(a@, b@),
{
    let mut x = semver::Version::new(a.major, a.minor, a.patch);
    x.pre = semver::Prerelease::new(&a.pre).unwrap();
    x.build = semver::BuildMetadata::new(&a.build).unwrap();
    let mut y = semver::Version::new(b.major, b.minor, b.patch);
    y.pre = semver::Prerelease::new(&b.pre).unwrap();
    y.build = semver::BuildMetadata::new(&b.build).unwrap();
    x < y
}

/// `semver::VersionReq::parse` on `text`: whether it returned a requirement.
#[verifier::external_body]
fn semver_takes_requirement(text: &str) -> (ok: bool)
    ensures
        ok == requirement_accepted(text@),
{
    semver::VersionReq::parse(text).is_ok()
}

/// `semver::VersionReq::matches`, of the requirement that `VersionReq::parse` reads from the
/// text of `req`, on the `semver::Version` with the fields of `version`, made as in
/// `semver_text`. The text is one that `parse` takes, by the requirement's invariant.
#[verifier::external_body]
fn semver_matches(req: &VersionReq, version: &Version) -> (ok: bool)
    requires
        req.well_formed(),
        version.well_formed(),
    ensures
        ok == requirement_matches(req@, version@),
{
    let r = semver::VersionReq::parse(&req.text).unwrap();
    let mut v = semver::Version::new(version.major, version.minor, version.patch);
    v.pre = semver::Prerelease::new(&version.pre).unwrap();
    v.build = semver::BuildMetadata::new(&version.build).unwrap();
    r.matches(&v)
}

impl Version {
    /// The invariant of every version: `semver` takes its labels.
    #[verifier::type_invariant]
    pub closed spec fn well_formed(&self) -> bool {
        self@.labels_accepted()
    }

    /// The version `major.minor.patch`, without labels.
    pub fn new(major: u64, minor: u64, patch: u64) -> (out: Version)
        ensures
            out@ == (VersionView { major, minor, patch, pre: Seq::empty(), build: Seq::empty() }),
    {
        Version { major, minor, patch, pre: String::new(), build: String::new() }
    }

    /// The version `major.minor.patch` with the pre-release label `pre` and the build label
    /// `build`, either of which may be empty. `None` where `semver` refuses a label.
    pub fn with_labels(major: u64, minor: u64, patch: u64, pre: &str, build: &str) -> (out: Option<
        Version,
    >)
        ensures
            out is Some <==> (VersionView { major, minor, patch, pre: pre@, build: build@ })
                .labels_accepted(),
            out is Some ==> out->0@ == (VersionView {
                major,
                minor,
                patch,
                pre: pre@,
                build: build@,
            }),
    {
        if !pre.is_empty() && !semver_takes_prerelease(pre) {
            return None;
        }
        if !build.is_empty() && !semver_takes_build(build) {
            return None;
        }
        Some(
            Version {
                major,
                minor,
                patch,
                pre: String::from_str(pre),
                build: String::from_str(build),
            },
        )
    }

    /// The major number.
    pub fn major(&self) -> (out: u64)
        ensures
            out == self@.major,
    {
        self.major
    }

    /// The minor number.
    pub fn minor(&self) -> (out: u64)
        ensures
            out == self@.minor,
    {
        self.minor
    }

    /// The patch number.
    pub fn patch(&self) -> (out: u64)
        ensures
            out == self@.patch,
    {
        self.patch
    }

    /// The pre-release label, empty where there is none.
    pub fn pre(&self) -> (out: &str)
        ensures
            out@ == self@.pre,
    {
        self.pre.as_str()
    }

    /// The build label, empty where there is none.
    pub fn build(&self) -> (out: &str)
        ensures
            out@ == self@.build,
    {
        self.build.as_str()
    }

    /// The canonical text of the version.
    pub fn to_text(&self) -> (out: String)
        ensures
            out@ == self@.text(),
    {
        proof {
            use_type_invariant(self);
        }
        semver_text(self)
    }

    /// Whether this version comes before `other`.
    pub fn precedes(&self, other: &Version) -> (less: bool)
        ensures
            less == version_less(self@, other@),
    {
        proof {
            use_type_invariant(self);
            use_type_invariant(other);
        }
        semver_less(self, other)
    }
}

impl VersionReq {
    /// The invariant of every requirement: `semver` takes its text.
    #[verifier::type_invariant]
    pub closed spec fn well_formed(&self) -> bool {
        requirement_accepted(self@)
    }

    /// The requirement that `text` writes. `None` where `semver` refuses the text.
    pub fn parse(text: &str) -> (out: Option<VersionReq>)
        ensures
            out is Some <==> requirement_accepted(text@),
            out is Some ==> out->0@ == text@,
    {
        if semver_takes_requirement(text) {
            Some(VersionReq { text: String::from_str(text) })
        } else {
            None
        }
    }

    /// The text that writes the requirement.
    pub fn as_str(&self) -> (out: &str)
        ensures
            out@ == self@,
    {
        self.text.as_str()
    }

    /// Whether the requirement admits `version`.
    pub fn matches(&self, version: &Version) -> (ok: bool)
        ensures
            ok == requirement_matches(self@, version@),
    {
        proof {
            use_type_invariant(self);
            use_type_invariant(version);
        }
        semver_matches(self, version)
    }
}

impl Clone for VersionReq {
    fn clone(&self) -> (out: VersionReq)
        ensures
            out@ == self@,
    {
        proof {
            use_type_invariant(self);
        }
        VersionReq { text: self.text.clone() }
    }
}

impl Clone for Version {
    fn clone(&self) -> (out: Version)
        ensures
            out@ == self@,
    {
        proof {
            use_type_invariant(self);
        }
        Version {
            major: self.major,
            minor: self.minor,
            patch: self.patch,
            pre: self.pre.clone(),
            build: self.build.clone(),
        }
    }
}

/// The views of a list of versions, in the list's order.
pub open spec fn views_of(versions: Seq<Version>) -> Seq<VersionView> {
    versions.map_values(|v: Version| v@)
}

/// The view of an optional version.
pub open spec fn view_of(version: Option<Version>) -> Option<VersionView> {
    match version {
        Some(v) => Some(v@),
        None => None,
    }
}

/// The views of an optional list of versions.
pub open spec fn known_of(versions: Option<Vec<Version>>) -> Option<Seq<VersionView>> {
    match versions {
        Some(versions) => Some(views_of(versions@)),
        None => None,
    }
}

/// The view of an optional requirement.
pub open spec fn requirement_of(req: Option<VersionReq>) -> Option<Seq<char>> {
    match req {
        Some(r) => Some(r@),
        None => None,
    }
}

/// Whether `version` is a candidate under `req`: no requirement admits every version.
pub open spec fn admitted(req: Option<Seq<char>>, version: VersionView) -> bool {
    match req {
        Some(r) => requirement_matches(r, version),
        None => true,
    }
}

/// The position in `versions` of the best candidate under `req`: the list is read from its
/// start, and a candidate takes the place of the best one so far only if that one comes
/// before it in the versions' order. `None` where the list holds no candidate.
pub open spec fn best_index(versions: Seq<VersionView>, req: Option<Seq<char>>) -> Option<int>
    decreases versions.len(),
{
    if versions.len() == 0 {
        None
    } else {
        let earlier = best_index(versions.drop_last(), req);
        let last = versions.len() - 1;
        if !admitted(req, versions[last]) {
            earlier
        } else {
            match earlier {
                Some(b) if !version_less(versions[b], versions[last]) => Some(b),
                _ => Some(last),
            }
        }
    }
}

/// The best candidate of `versions` under `req`.
pub open spec fn best_match(versions: Seq<VersionView>, req: Option<Seq<char>>) -> Option<
    VersionView,
> {
    match best_index(versions, req) {
        Some(i) => Some(versions[i]),
        None => None,
    }
}

/// The best index is a position of the list, the version there is a candidate, and there is
/// one exactly if the list holds a candidate.
pub proof fn lemma_best_index_is_candidate(versions: Seq<VersionView>, req: Option<Seq<char>>)
    ensures
        best_index(versions, req) matches Some(b) ==> 0 <= b < versions.len() && admitted(
            req,
            versions[b],
        ),
        best_index(versions, req) is Some <==> exists|i: int|
            0 <= i < versions.len() && admitted(req, #[trigger] versions[i]),
    decreases versions.len(),
{
    if versions.len() > 0 {
        let front = versions.drop_last();
        let last = versions.len() - 1;
        lemma_best_index_is_candidate(front, req);
        if best_index(versions, req) is Some {
            let b = best_index(versions, req)->0;
            assert(b < last ==> front[b] == versions[b]);
            assert(admitted(req, versions[b]));
        } else {
            assert forall|i: int| 0 <= i < versions.len() implies !admitted(
                req,
                #[trigger] versions[i],
            ) by {
                if i < last {
                    assert(front[i] == versions[i]);
                }
            }
        }
        if best_index(front, req) is Some {
            let i = choose|i: int| 0 <= i < front.len() && admitted(req, #[trigger] front[i]);
            assert(admitted(req, versions[i]));
        }
    }
}

/// Whether the versions' order is strict on the list: no version of it comes before itself,
/// and the order is transitive among its versions.
pub open spec fn strictly_ordered(versions: Seq<VersionView>) -> bool {
    &&& forall|i: int|
        0 <= i < versions.len() ==> !version_less(#[trigger] versions[i], versions[i])
    &&& forall|i: int, j: int, k: int|
        0 <= i < versions.len() && 0 <= j < versions.len() && 0 <= k < versions.len()
            && #[trigger] version_less(versions[i], versions[j]) && #[trigger] version_less(
            versions[j],
            versions[k],
        ) ==> version_less(versions[i], versions[k])
}

/// Where the versions' order is strict on the list, the best candidate comes before no other
/// candidate: it is a latest one.
pub proof fn lemma_best_match_is_latest(versions: Seq<VersionView>, req: Option<Seq<char>>)
    requires
        strictly_ordered(versions),
    ensures
        best_index(versions, req) matches Some(b) ==> forall|i: int|
            0 <= i < versions.len() && admitted(req, #[trigger] versions[i]) ==> !version_less(
                versions[b],
                versions[i],
            ),
    decreases versions.len(),
{
    if versions.len() > 0 {
        let front = versions.drop_last();
        let last = versions.len() - 1;
        assert(strictly_ordered(front)) by {
            assert forall|i: int| 0 <= i < front.len() implies !version_less(
                #[trigger] front[i],
                front[i],
            ) by {
                assert(front[i] == versions[i]);
            }
            assert forall|i: int, j: int, k: int|
                0 <= i < front.len() && 0 <= j < front.len() && 0 <= k < front.len()
                    && #[trigger] version_less(front[i], front[j]) && #[trigger] version_less(
                    front[j],
                    front[k],
                ) implies version_less(front[i], front[k]) by {
                assert(front[i] == versions[i] && front[j] == versions[j] && front[k]
                    == versions[k]);
            }
        }
        lemma_best_match_is_latest(front, req);
        lemma_best_index_is_candidate(front, req);
        lemma_best_index_is_candidate(versions, req);
        if best_index(versions, req) is Some {
            let b = best_index(versions, req)->0;
            assert forall|i: int|
                0 <= i < versions.len() && admitted(req, #[trigger] versions[i])
                implies !version_less(versions[b], versions[i]) by {
                if i < last {
                    assert(front[i] == versions[i]);
                    let e = best_index(front, req)->0;
                    assert(front[e] == versions[e]);
                    assert(!version_less(versions[e], versions[i]));
                    if b != e && version_less(versions[b], versions[i]) {
                        assert(version_less(versions[e], versions[b]));
                        assert(version_less(versions[e], versions[i]));
                    }
                } else if b != last {
                    assert(front[b] == versions[b]);
                }
            }
        }
    }
}

/// The version to download: the best candidate among the known versions, or else the pinned
/// version, or else none.
pub open spec fn resolved(
    known: Option<Seq<VersionView>>,
    req: Option<Seq<char>>,
    pinned: Option<VersionView>,
) -> Option<VersionView> {
    match known {
        Some(versions) if best_match(versions, req) is Some => best_match(versions, req),
        _ => pinned,
    }
}

/// Chooses among `versions` the best one that `req` admits; without a requirement every
/// version is a candidate.
pub fn find_matching_version(versions: &Vec<Version>, req: Option<VersionReq>) -> (out: Option<
    Version,
>)
    ensures
        view_of(out) == best_match(views_of(versions@), requirement_of(req)),
        out is Some <==> exists|i: int|
            0 <= i < versions.len() && admitted(
                requirement_of(req),
                #[trigger] views_of(versions@)[i],
            ),
{
    let ghost all = views_of(versions@);
    let ghost want = requirement_of(req);
    let mut best: Option<usize> = None;
    let mut i: usize = 0;
    while i < versions.len()
        invariant
            i <= versions.len(),
            all == views_of(versions@),
            want == requirement_of(req),
            best matches Some(b) ==> b < i,
            (match best {
                Some(b) => Some(b as int),
                None => None,
            }) == best_index(all.take(i as int), want),
        decreases versions.len() - i,
    {
        let candidate = &versions[i];
        let ok = match &req {
            Some(r) => r.matches(candidate),
            None => true,
        };
        proof {
            let upto = all.take(i + 1);
            assert(upto.drop_last() =~= all.take(i as int));
            assert(upto[i as int] == candidate@);
            if best is Some {
                assert(upto[best->0 as int] == versions@[best->0 as int]@);
            }
        }
        if ok {
            let later = match best {
                Some(b) => versions[b].precedes(candidate),
                None => true,
            };
            if later {
                best = Some(i);
            }
        }
        i = i + 1;
    }
    assert(all.take(i as int) =~= all);
    proof {
        lemma_best_index_is_candidate(all, want);
    }
    match best {
        Some(b) => Some(versions[b].clone()),
        None => None,
    }
}

/// Resolves the version to download: the best of the known versions that the requirement
/// admits; where there is none, or no list of known versions, the pinned version.
pub fn resolve_version(
    known: &Option<Vec<Version>>,
    req: Option<VersionReq>,
    pinned: &Option<Version>,
) -> (out: Option<Version>)
    ensures
        view_of(out) == resolved(known_of(*known), requirement_of(req), view_of(*pinned)),
{
    let found = match known {
        Some(versions) => find_matching_version(versions, req),
        None => None,
    };
    match found {
        Some(version) => Some(version),
        None => match pinned {
            Some(p) => Some(p.clone()),
            None => None,
        },
    }
}

} // verus!
