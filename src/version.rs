use vstd::prelude::*;

use crate::text::is_space;

verus! {

/// A version as numbers and text: major, minor, patch, pre-release, build metadata.
pub type VersionModel = (u64, u64, u64, Seq<char>, Seq<char>);

/// A semantic version, as the toolchain reports it.
#[derive(Debug)]
pub struct Version {
    pub major: u64,
    pub minor: u64,
    pub patch: u64,
    /// The pre-release identifiers (`nightly` in `1.70.0-nightly`); empty for a release.
    pub pre: String,
    /// The build metadata after `+`; usually empty.
    pub build: String,
}

impl View for Version {
    type V = VersionModel;

    open spec fn view(&self) -> VersionModel {
        (self.major, self.minor, self.patch, self.pre@, self.build@)
    }
}

/// The model of an optional version.
pub open spec fn model_of(v: Option<Version>) -> Option<VersionModel> {
    match v {
        Some(v) => Some(v@),
        None => None,
    }
}

impl Version {
    /// The release `major.minor.patch`, with no pre-release and no build metadata.
    pub fn new(major: u64, minor: u64, patch: u64) -> (r: Version)
        ensures
            r@ == (major, minor, patch, Seq::<char>::empty(), Seq::<char>::empty()),
    {
        Version { major, minor, patch, pre: String::new(), build: String::new() }
    }
}

impl PartialEq for Version {
    fn eq(&self, other: &Version) -> (r: bool)
        ensures
            r == (self@ == other@),
    {
        self.major == other.major && self.minor == other.minor && self.patch == other.patch
            && self.pre == other.pre && self.build == other.build
    }
}

impl vstd::std_specs::cmp::PartialEqSpecImpl for Version {
    open spec fn obeys_eq_spec() -> bool {
        true
    }

    open spec fn eq_spec(&self, other: &Version) -> bool {
        self@ == other@
    }
}

/// The character of the decimal digit `d`.
pub open spec fn digit(d: nat) -> char {
    (48 + d) as char
}

/// `n` written in decimal, without leading zeros.
pub open spec fn decimal(n: nat) -> Seq<char>
    decreases n,
{
    if n < 10 {
        seq![digit(n)]
    } else {
        decimal(n / 10).push(digit(n % 10))
    }
}

/// The text `major.minor.patch` of a release.
pub open spec fn release_text(major: u64, minor: u64, patch: u64) -> Seq<char> {
    decimal(major as nat) + seq!['.'] + decimal(minor as nat) + seq!['.'] + decimal(patch as nat)
}

/// What `semver::Version::parse` makes of a text: `None` where it reports an error.
pub uninterp spec fn semver_parse(s: Seq<char>) -> Option<VersionModel>;

/// Relies on `semver::Version::parse`, which reads a SemVer 2.0 version. Its
/// parser reads a plain `major.minor.patch`, each number in decimal without
/// leading zeros and within `u64`, as that release with no pre-release and no
/// build metadata.
#[verifier::external_body]
pub(crate) fn parse_semver(s: &str) -> (r: Option<Version>)
    ensures
        model_of(r) == semver_parse(s@),
        forall|a: u64, b: u64, c: u64|
            s@ == #[trigger] release_text(a, b, c) ==> model_of(r) == Some(
                (a, b, c, Seq::<char>::empty(), Seq::<char>::empty()),
            ),
{
    match semver::Version::parse(s) {
        Ok(v) => Some(
            Version {
                major: v.major,
                minor: v.minor,
                patch: v.patch,
                pre: v.pre.as_str().to_string(),
                build: v.build.as_str().to_string(),
            },
        ),
        Err(_) => None,
    }
}

proof fn lemma_decimal_digits(n: nat)
    ensures
        decimal(n).len() > 0,
        forall|k: int| 0 <= k < decimal(n).len() ==> !is_space(#[trigger] decimal(n)[k]),
    decreases n,
{
    if n >= 10 {
        lemma_decimal_digits(n / 10);
    }
}

/// The text of a release is one word: it is not empty and holds no whitespace.
pub proof fn lemma_release_text_is_word(a: u64, b: u64, c: u64)
    ensures
        release_text(a, b, c).len() > 0,
        forall|k: int|
            0 <= k < release_text(a, b, c).len() ==> !is_space(
                #[trigger] release_text(a, b, c)[k],
            ),
{
    lemma_decimal_digits(a as nat);
    lemma_decimal_digits(b as nat);
    lemma_decimal_digits(c as nat);
    let t = release_text(a, b, c);
    assert forall|k: int| 0 <= k < t.len() implies !is_space(#[trigger] t[k]) by {
        let da = decimal(a as nat);
        let db = decimal(b as nat);
        let dc = decimal(c as nat);
        if k < da.len() {
            assert(t[k] == da[k]);
        } else if k == da.len() {
            assert(t[k] == '.');
        } else if k < da.len() + 1 + db.len() {
            assert(t[k] == db[k - da.len() - 1]);
        } else if k == da.len() + 1 + db.len() {
            assert(t[k] == '.');
        } else {
            assert(t[k] == dc[k - da.len() - db.len() - 2]);
        }
    }
}

} // verus!
