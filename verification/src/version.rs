//! Classifies the version strings that masternodes report about their software.

use vstd::prelude::*;
use vstd::string::*;

verus! {

/// The major number of `text` read as a semantic version by `semver::Version::parse`,
/// and `None` where that parse fails.
pub uninterp spec fn semver_major(text: Seq<char>) -> Option<u64>;

/// `version` without one leading `v`.
pub open spec fn strip_v(version: Seq<char>) -> Seq<char> {
    if version.len() > 0 && version[0] == 'v' {
        version.subrange(1, version.len() as int)
    } else {
        version
    }
}

/// Whether `cleaned` begins with `2.`, `3.` or `4.`.
pub open spec fn has_modern_prefix(cleaned: Seq<char>) -> bool {
    &&& cleaned.len() >= 2
    &&& cleaned[0] == '2' || cleaned[0] == '3' || cleaned[0] == '4'
    &&& cleaned[1] == '.'
}

/// The verdict on a cleaned version string whose semantic-version parse gave `major`:
/// a parsed version is modern from major 2 on, an unparsable one only by its prefix.
pub open spec fn classify(cleaned: Seq<char>, major: Option<u64>) -> bool {
    match major {
        Some(m) => m >= 2,
        None => has_modern_prefix(cleaned),
    }
}

/// Whether a reported version string counts as version 2.0 or later.
pub open spec fn modern(version: Seq<char>) -> bool {
    classify(strip_v(version), semver_major(strip_v(version)))
}

/// Whether `text` begins with a decimal digit.
pub open spec fn starts_with_digit(text: Seq<char>) -> bool {
    text.len() > 0 && '0' <= text[0] <= '9'
}

/// Calls `semver::Version::parse` and keeps the major number. Trusted: the result is
/// what `semver_major` names, `None` exactly where the parse returns an error; and the
/// parse returns an error for any text that does not begin with a decimal digit.
#[verifier::external_body]
fn parse_major(text: &str) -> (major: Option<u64>)
    ensures
        major == semver_major(text@),
        major is Some ==> starts_with_digit(text@),
{
    match semver::Version::parse(text) {
        Ok(parsed) => Some(parsed.major),
        Err(_) => None,
    }
}

/// Removes one leading `v`, as in `v2.0.0`.
pub fn strip_leading_v(version: &str) -> (cleaned: &str)
    ensures
        cleaned@ == strip_v(version@),
{
    let len: usize = version.unicode_len();
    if len > 0 && version.get_char(0) == 'v' {
        version.substring_char(1, len)
    } else {
        version
    }
}

/// Decides on a cleaned version string, given the major number that its
/// semantic-version parse produced, if it parsed.
pub fn classify_version(cleaned: &str, major: Option<u64>) -> (verdict: bool)
    ensures
        verdict == classify(cleaned@, major),
{
    match major {
        Some(m) => m >= 2,
        None => {
            if cleaned.unicode_len() < 2 {
                false
            } else {
                let first = cleaned.get_char(0);
                (first == '2' || first == '3' || first == '4') && cleaned.get_char(1) == '.'
            }
        },
    }
}

/// Whether `version` names version 2.0 or later. Never fails: a string that is neither
/// a semantic version nor begins with `2.`, `3.` or `4.` is not modern.
pub fn is_modern(version: &str) -> (verdict: bool)
    ensures
        verdict == modern(version@),
        verdict ==> starts_with_digit(strip_v(version@)),
{
    let cleaned = strip_leading_v(version);
    let major = parse_major(cleaned);
    classify_version(cleaned, major)
}

} // verus!
