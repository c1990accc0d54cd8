use vstd::prelude::*;

verus! {

/// An ASCII decimal digit.
pub open spec fn is_ascii_digit(c: char) -> bool {
    '0' <= c && c <= '9'
}

/// `s` is exactly `MAJOR.MINOR.PATCH`: three nonempty runs of ASCII
/// digits separated by single dots, nothing before or after.
pub open spec fn is_stable_version(s: Seq<char>) -> bool {
    exists|i: int, j: int|
        #![trigger s[i], s[j]]
        1 <= i && i + 1 < j && j + 1 < s.len() && s[i] == '.' && s[j] == '.' && (forall|k: int|
            0 <= k < s.len() && k != i && k != j ==> is_ascii_digit(s[k]))
}

/// `s` is exactly `MAJOR.MINOR-dev`: two nonempty runs of ASCII digits
/// separated by a single dot, followed by the suffix `-dev`.
pub open spec fn is_dev_version(s: Seq<char>) -> bool {
    exists|i: int|
        #![trigger s[i]]
        1 <= i && i + 5 < s.len() && s[i] == '.' && (forall|k: int|
            0 <= k < s.len() - 4 && k != i ==> is_ascii_digit(s[k])) && s[s.len() - 4] == '-'
            && s[s.len() - 3] == 'd' && s[s.len() - 2] == 'e' && s[s.len() - 1] == 'v'
}

/// The prefix that the pre-release pattern `^(\d+\.\d+.\d+\w\d+)` captures
/// from `s`, if it matches; the capture depends on the characters of `s`
/// alone.
pub uninterp spec fn prerelease_capture(s: Seq<char>) -> Option<Seq<char>>;

/// Relies on `regex::Regex::is_match` with the anchored pattern
/// `^(?-u:\d+\.\d+\.\d+)$`: true exactly when the whole string is three
/// nonempty ASCII digit runs separated by single dots.
#[verifier::external_body]
fn matches_stable_version(s: &str) -> (r: bool)
    ensures
        r == is_stable_version(s@),
{
    match regex::Regex::new(r"^(?-u:\d+\.\d+\.\d+)$") {
        Ok(re) => re.is_match(s),
        Err(_) => false,
    }
}

/// Relies on `regex::Regex::is_match` with the anchored pattern
/// `^(?-u:\d+\.\d+)-dev$`: true exactly when the whole string is two
/// nonempty ASCII digit runs separated by a single dot and followed by
/// the literal suffix `-dev`.
#[verifier::external_body]
fn matches_dev_version(s: &str) -> (r: bool)
    ensures
        r == is_dev_version(s@),
{
    match regex::Regex::new(r"^(?-u:\d+\.\d+)-dev$") {
        Ok(re) => re.is_match(s),
        Err(_) => false,
    }
}

/// Relies on `regex::Regex::captures` with the pattern
/// `^(\d+\.\d+.\d+\w\d+)`, anchored at the start with a free suffix, as
/// the original pyenv layout rules write it: the captured prefix is a
/// function of the haystack alone, named by `prerelease_capture`.
#[verifier::external_body]
fn capture_prerelease_version(s: &str) -> (r: Option<String>)
    ensures
        r is Some <==> prerelease_capture(s@) is Some,
        r matches Some(v) ==> prerelease_capture(s@) == Some(v@),
{
    match regex::Regex::new(r"^(\d+\.\d+.\d+\w\d+)") {
        Ok(re) => re.captures(s).and_then(|c| c.get(1)).map(|m| m.as_str().to_string()),
        Err(_) => None,
    }
}

/// The version string the classifier extracts from a version-directory
/// name: the name itself for the stable and dev layouts, tried in that
/// order, otherwise the prefix the pre-release pattern captures, if any.
pub open spec fn classified_version(s: Seq<char>) -> Option<Seq<char>> {
    if is_stable_version(s) {
        Some(s)
    } else if is_dev_version(s) {
        Some(s)
    } else {
        prerelease_capture(s)
    }
}

/// Classify a version-directory name, first match of the three layout
/// rules winning: stable releases and dev builds return the name itself,
/// pre-releases return the captured prefix, anything else returns
/// nothing.
pub fn get_pyenv_version(folder_name: &String) -> (r: Option<String>)
    ensures
        r matches Some(v) ==> classified_version(folder_name@) == Some(v@),
        r is Some <==> classified_version(folder_name@) is Some,
        is_stable_version(folder_name@) ==> (r matches Some(v) && v@ == folder_name@),
        is_dev_version(folder_name@) ==> (r matches Some(v) && v@ == folder_name@),
{
    if matches_stable_version(folder_name.as_str()) {
        Some(folder_name.clone())
    } else if matches_dev_version(folder_name.as_str()) {
        Some(folder_name.clone())
    } else {
        capture_prerelease_version(folder_name.as_str())
    }
}

} // verus!
