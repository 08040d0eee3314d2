//! Release versions and their precedence.
use semver::Version;
use vstd::prelude::*;
use vstd::string::*;

verus! {

/// What `semver::Version` makes of a text: nothing where `Version::parse` refuses it, else a key
/// by which versions are ordered. Two versions stand in the order of `Version` as their keys
/// stand in lexicographic order, and equal versions have equal keys.
pub uninterp spec fn semver_rank(text: Seq<char>) -> Option<Seq<int>>;

/// Lexicographic order of integer sequences; a proper prefix comes first.
pub open spec fn rank_less(a: Seq<int>, b: Seq<int>) -> bool
    decreases b.len(),
{
    if b.len() == 0 {
        false
    } else if a.len() == 0 {
        true
    } else {
        a[0] < b[0] || (a[0] == b[0] && rank_less(a.skip(1), b.skip(1)))
    }
}

/// Both texts are versions, and the first has the higher precedence.
pub open spec fn is_newer(a: Seq<char>, b: Seq<char>) -> bool {
    match (semver_rank(a), semver_rank(b)) {
        (Some(high), Some(low)) => rank_less(low, high),
        _ => false,
    }
}

/// A version text marks a pre-release where a hyphen stands before any plus sign.
pub open spec fn marks_prerelease(text: Seq<char>) -> bool {
    exists|i: int|
        0 <= i < text.len() && #[trigger] text[i] == '-' && !text.take(i).contains('+')
}

/// A semantic version, kept as its text.
#[derive(Debug, Clone)]
pub struct ReleaseVersion {
    pub text: String,
    pub prerelease: bool,
}

/// `semver::Version::parse`: it accepts the texts that have a rank. The first text of an accepted
/// version, as its `Display` writes it, is the text that was parsed. The second is its pre-release
/// part, which is empty unless a hyphen stands before any plus sign.
#[verifier::external_body]
fn parse_version(text: &str) -> (version: Option<(String, String)>)
    ensures
        version is Some == semver_rank(text@) is Some,
        version matches Some((shown, pre)) ==> shown@ == text@ && (pre@.len() > 0)
            == marks_prerelease(text@),
{
    match Version::parse(text) {
        Ok(version) => Some((version.to_string(), version.pre.as_str().to_owned())),
        Err(_) => None,
    }
}

/// `>` on two `semver::Version` values: the order of their ranks. False where a text is no
/// version.
#[verifier::external_body]
fn version_above(a: &str, b: &str) -> (newer: bool)
    ensures
        newer == is_newer(a@, b@),
{
    match (Version::parse(a), Version::parse(b)) {
        (Ok(a), Ok(b)) => a > b,
        _ => false,
    }
}

/// No rank comes before itself.
pub proof fn rank_order_is_irreflexive(a: Seq<int>)
    ensures
        !rank_less(a, a),
    decreases a.len(),
{
    if a.len() > 0 {
        rank_order_is_irreflexive(a.skip(1));
    }
}

pub proof fn rank_order_is_transitive(a: Seq<int>, b: Seq<int>, c: Seq<int>)
    requires
        rank_less(a, b),
        rank_less(b, c),
    ensures
        rank_less(a, c),
    decreases a.len(),
{
    if a.len() > 0 && a[0] == b[0] && b[0] == c[0] {
        rank_order_is_transitive(a.skip(1), b.skip(1), c.skip(1));
    }
}

pub proof fn rank_order_is_total(a: Seq<int>, b: Seq<int>)
    ensures
        a == b || rank_less(a, b) || rank_less(b, a),
    decreases a.len(),
{
    if a.len() == 0 || b.len() == 0 {
        if a.len() == b.len() {
            assert(a == b);
        }
    } else if a[0] == b[0] {
        rank_order_is_total(a.skip(1), b.skip(1));
        if a.skip(1) == b.skip(1) {
            assert(a == seq![a[0]] + a.skip(1));
            assert(b == seq![b[0]] + b.skip(1));
        }
    }
}

/// The first difference of two ranks decides which version is newer: the one with the greater number
/// there, or the one that goes on where the other ends. A text that is no version is never newer, and
/// nothing is newer than it.
pub proof fn the_greater_rank_is_newer(a: Seq<char>, b: Seq<char>, at: int)
    ensures
        semver_rank(a) is None || semver_rank(b) is None ==> !is_newer(a, b),
        semver_rank(a) is Some && semver_rank(b) is Some && 0 <= at < semver_rank(a)->0.len() && at
            <= semver_rank(b)->0.len() && semver_rank(a)->0.take(at) == semver_rank(b)->0.take(at)
            && (at == semver_rank(b)->0.len() || semver_rank(a)->0[at] > semver_rank(b)->0[at])
            ==> is_newer(a, b) && !is_newer(b, a),
{
    if semver_rank(a) is Some && semver_rank(b) is Some {
        let (high, low) = (semver_rank(a)->0, semver_rank(b)->0);
        if 0 <= at < high.len() && at <= low.len() && high.take(at) == low.take(at) && (at
            == low.len() || high[at] > low[at]) {
            lemma_rank_difference(low, high, at);
            if rank_less(high, low) {
                rank_order_is_transitive(low, high, low);
                rank_order_is_irreflexive(low);
            }
        }
    }
}

proof fn lemma_rank_difference(low: Seq<int>, high: Seq<int>, at: int)
    requires
        0 <= at < high.len(),
        at <= low.len(),
        high.take(at) == low.take(at),
        at == low.len() || high[at] > low[at],
    ensures
        rank_less(low, high),
    decreases at,
{
    if at > 0 {
        assert(high[0] == high.take(at)[0] && low[0] == low.take(at)[0]);
        assert(high.skip(1).take(at - 1) == high.take(at).skip(1));
        assert(low.skip(1).take(at - 1) == low.take(at).skip(1));
        lemma_rank_difference(low.skip(1), high.skip(1), at - 1);
    }
}

/// A version is a pre-release where a hyphen follows its numbers. Hyphens in the build behind a plus
/// sign do not count.
pub proof fn hyphens_mark_prereleases(numbers: Seq<char>, rest: Seq<char>)
    requires
        !numbers.contains('+'),
        !numbers.contains('-'),
    ensures
        marks_prerelease(numbers.push('-') + rest),
        !marks_prerelease(numbers),
        !marks_prerelease(numbers.push('+') + rest),
{
    let marked = numbers.push('-') + rest;
    let at = numbers.len() as int;
    assert(marked[at] == '-');
    assert(marked.take(at) == numbers);
    if marks_prerelease(numbers) {
        let i = choose|i: int|
            0 <= i < numbers.len() && #[trigger] numbers[i] == '-' && !numbers.take(i).contains('+');
        assert(numbers.contains('-'));
    }
    let built = numbers.push('+') + rest;
    if marks_prerelease(built) {
        let i = choose|i: int|
            0 <= i < built.len() && #[trigger] built[i] == '-' && !built.take(i).contains('+');
        if i < at {
            assert(numbers[i] == '-');
            assert(numbers.contains('-'));
        } else if i > at {
            assert(built.take(i)[at] == '+');
        }
    }
}

/// A version that is newer than a newer one is newer: precedence is transitive.
pub proof fn newer_is_transitive(a: Seq<char>, b: Seq<char>, c: Seq<char>)
    requires
        is_newer(a, b),
        is_newer(b, c),
    ensures
        is_newer(a, c),
{
    rank_order_is_transitive(semver_rank(c)->0, semver_rank(b)->0, semver_rank(a)->0);
}

/// No version is newer than itself.
pub proof fn newer_is_irreflexive(a: Seq<char>)
    ensures
        !is_newer(a, a),
{
    if semver_rank(a) is Some {
        rank_order_is_irreflexive(semver_rank(a)->0);
    }
}

/// Whether a newer version stays newer than one that is no newer than the other.
pub proof fn newer_than_at_most(a: Seq<char>, b: Seq<char>, c: Seq<char>)
    requires
        is_newer(a, b),
        semver_rank(c) is Some,
        !is_newer(c, b),
    ensures
        is_newer(a, c),
{
    let (x, y, z) = (semver_rank(a)->0, semver_rank(b)->0, semver_rank(c)->0);
    rank_order_is_total(y, z);
    if y != z {
        rank_order_is_transitive(z, y, x);
    }
}

impl ReleaseVersion {
    /// The version that a text writes, where it is one.
    pub fn parse(text: &str) -> (version: Option<ReleaseVersion>)
        ensures
            version is Some == semver_rank(text@) is Some,
            version is Some ==> version->0.text@ == text@,
            version is Some ==> version->0.prerelease == marks_prerelease(text@),
    {
        match parse_version(text) {
            Some((text, pre)) => Some(ReleaseVersion { text, prerelease: !pre.as_str().is_empty() }),
            None => None,
        }
    }

    /// Whether this version has a higher precedence than another.
    pub fn is_newer_than(&self, other: &ReleaseVersion) -> (newer: bool)
        ensures
            newer == is_newer(self.text@, other.text@),
    {
        version_above(self.text.as_str(), other.text.as_str())
    }
}

} // verus!
