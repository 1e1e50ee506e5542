//! Regular-expression matching, through the `fancy_regex` crate.
use vstd::prelude::*;

verus! {

/// The capture groups of the first match of `pattern` in `text`, group 0
/// being the whole match; none when the pattern does not compile, the
/// search gives up, or nothing matches.
pub uninterp spec fn first_match_of(pattern: Seq<char>, text: Seq<char>) -> Option<Seq<Option<Seq<char>>>>;

/// The views of a list of optional strings.
pub open spec fn groups_view(g: Seq<Option<String>>) -> Seq<Option<Seq<char>>> {
    g.map_values(
        |o: Option<String>|
            match o {
                Some(s) => Some(s@),
                None => None,
            },
    )
}

/// Relies on `fancy_regex::Regex::new` and `Regex::captures`: compiles the
/// pattern and returns every capture group of the first match, in group
/// order, or none when compiling or searching fails or nothing matches.
#[verifier::external_body]
pub(crate) fn first_match(pattern: &str, text: &str) -> (r: Option<Vec<Option<String>>>)
    ensures
        match r {
            Some(g) => first_match_of(pattern@, text@) == Some(groups_view(g@)),
            None => first_match_of(pattern@, text@) is None,
        },
{
    match fancy_regex::Regex::new(pattern) {
        Ok(re) => match re.captures(text) {
            Ok(Some(c)) => Some(c.iter().map(|m| m.map(|m| m.as_str().to_string())).collect()),
            _ => None,
        },
        Err(_) => None,
    }
}

/// The `i`-th group of a match, when the group took part in it.
pub open spec fn group_of(m: Option<Seq<Option<Seq<char>>>>, i: int) -> Option<Seq<char>> {
    match m {
        Some(g) => if 0 <= i < g.len() {
            g[i]
        } else {
            None
        },
        None => None,
    }
}

/// Takes the `i`-th group out of a match.
pub fn take_group(m: Option<Vec<Option<String>>>, i: usize) -> (r: Option<String>)
    ensures
        match r {
            Some(s) => group_of(
                match m {
                    Some(g) => Some(groups_view(g@)),
                    None => None,
                },
                i as int,
            ) == Some(s@),
            None => group_of(
                match m {
                    Some(g) => Some(groups_view(g@)),
                    None => None,
                },
                i as int,
            ) is None,
        },
{
    match m {
        Some(mut g) => {
            if i < g.len() {
                let ghost gv = groups_view(g@);
                let s = g.remove(i);
                assert(gv[i as int] == match s {
                    Some(x) => Some(x@),
                    None => None::<Seq<char>>,
                });
                s
            } else {
                None
            }
        },
        None => None,
    }
}

} // verus!
