use vstd::prelude::*;

verus! {

/// The groups of the leftmost match of the regular expression `pattern` in
/// `text`, group 0 being the whole match and a group that took no part
/// being none; none when the pattern does not compile or does not match.
pub uninterp spec fn regex_groups(pattern: Seq<char>, text: Seq<char>) -> Option<
    Seq<Option<Seq<char>>>,
>;

pub open spec fn groups_view(v: Seq<Option<String>>) -> Seq<Option<Seq<char>>> {
    v.map_values(
        |o: Option<String>|
            match o {
                Some(s) => Some(s@),
                None => None,
            },
    )
}

/// Relies on regex::Regex::new and regex::Regex::captures: the capture
/// groups of the leftmost match, in group order.
#[verifier::external_body]
pub(crate) fn captures(pattern: &str, text: &str) -> (r: Option<Vec<Option<String>>>)
    ensures
        match r {
            Some(v) => regex_groups(pattern@, text@) == Some(groups_view(v@)),
            None => regex_groups(pattern@, text@) is None,
        },
{
    let re = regex::Regex::new(pattern).ok()?;
    let caps = re.captures(text)?;
    Some(caps.iter().map(|m| m.map(|m| m.as_str().to_string())).collect())
}

/// The text of group `k` of `v`, if the match has such a group and it took part.
pub open spec fn group(v: Seq<Option<Seq<char>>>, k: int) -> Option<Seq<char>> {
    if 0 <= k < v.len() {
        v[k]
    } else {
        None
    }
}

/// Group `k` of the groups returned by `captures`.
pub fn get_group(v: &Vec<Option<String>>, k: usize) -> (r: Option<String>)
    ensures
        match r {
            Some(s) => group(groups_view(v@), k as int) == Some(s@),
            None => group(groups_view(v@), k as int) is None,
        },
{
    if k < v.len() {
        match &v[k] {
            Some(s) => Some(s.clone()),
            None => None,
        }
    } else {
        None
    }
}

} // verus!
