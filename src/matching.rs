//! Pattern matching and case folding, as provided by `regex` and `std`.
use vstd::prelude::*;

verus! {

/// The capture groups of each successive non-overlapping match of `pattern` in
/// `text`, as `regex` finds them; group 0 is the whole match.
pub uninterp spec fn regex_captures_of(pattern: Seq<char>, text: Seq<char>) -> Seq<
    Seq<Seq<char>>,
>;

/// The lower-case form of `s`, as `str::to_lowercase` gives it.
pub uninterp spec fn lower_of(s: Seq<char>) -> Seq<char>;

/// The texts held in rows of strings.
pub open spec fn string_rows(v: Seq<Vec<String>>) -> Seq<Seq<Seq<char>>> {
    v.map_values(|row: Vec<String>| row@.map_values(|s: String| s@))
}

/// Group `k` of a match, or nothing where the match has no such group.
pub open spec fn group(row: Seq<Seq<char>>, k: int) -> Seq<char> {
    if 0 <= k < row.len() {
        row[k]
    } else {
        Seq::<char>::empty()
    }
}

/// Relies on `regex::Regex::new` and `Regex::captures_iter`: every match of the
/// pattern in order, each as the texts of its groups (a group that took no part
/// is empty); no match at all where the pattern does not compile.
#[verifier::external_body]
pub(crate) fn regex_captures(pattern: &str, text: &str) -> (r: Vec<Vec<String>>)
    ensures
        string_rows(r@) == regex_captures_of(pattern@, text@),
{
    match regex::Regex::new(pattern) {
        Ok(re) => re.captures_iter(text).map(
            |c| c.iter().map(|m| m.map_or(String::new(), |m| m.as_str().to_string())).collect(),
        ).collect(),
        Err(_) => Vec::new(),
    }
}

/// Relies on `str::to_lowercase`: the lower-case form of `s`.
#[verifier::external_body]
pub(crate) fn lowercase(s: &str) -> (r: String)
    ensures
        r@ == lower_of(s@),
{
    s.to_lowercase()
}

/// Group `k` of a match row, or an empty string where there is no such group.
pub fn capture_group(row: &Vec<String>, k: usize) -> (r: String)
    ensures
        r@ == group(row@.map_values(|s: String| s@), k as int),
{
    if k < row.len() {
        row[k].clone()
    } else {
        String::new()
    }
}

} // verus!
