//! Pattern matching by the `regex` crate. What the crate finds in a text is
//! not proved here: it is named, and the engine's contracts speak of the names.

use vstd::prelude::*;

verus! {

/// The texts of a list of strings.
pub open spec fn texts(v: Seq<String>) -> Seq<Seq<char>> {
    v.map_values(|s: String| s@)
}

/// The texts of the groups of one match; a group that took no part in the
/// match is `None`.
pub open spec fn group_texts(groups: Seq<Option<String>>) -> Seq<Option<Seq<char>>> {
    groups.map_values(
        |g: Option<String>|
            match g {
                Some(s) => Some(s@),
                None => None,
            },
    )
}

/// The texts of the groups of a list of matches.
pub open spec fn match_texts(matches: Seq<Vec<Option<String>>>) -> Seq<Seq<Option<Seq<char>>>> {
    matches.map_values(|m: Vec<Option<String>>| group_texts(m@))
}

/// The successive matches of `pattern` in `haystack`, from the left and
/// without overlap, each as the texts of its groups, group 0 being the whole
/// match; `None` if `pattern` is no pattern that the crate accepts.
pub uninterp spec fn captures_of(pattern: Seq<char>, haystack: Seq<char>) -> Option<
    Seq<Seq<Option<Seq<char>>>>,
>;

/// The parts of `haystack` that lie before, between and behind the successive
/// matches of `pattern`, in order; `None` if `pattern` is no pattern that the
/// crate accepts.
pub uninterp spec fn split_of(pattern: Seq<char>, haystack: Seq<char>) -> Option<Seq<Seq<char>>>;

/// Calls `regex::Regex::new` on `pattern` and `Regex::captures_iter` on
/// `haystack`, and copies out the text of every group of every match.
///
/// Trusted: that the result is a function of the two texts alone, which
/// `captures_of` names, and that it is `None` exactly when `Regex::new`
/// refuses the pattern.
#[verifier::external_body]
pub(crate) fn captures(pattern: &str, haystack: &str) -> (r: Option<Vec<Vec<Option<String>>>>)
    ensures
        match r {
            Some(matches) => captures_of(pattern@, haystack@) == Some(match_texts(matches@)),
            None => captures_of(pattern@, haystack@) is None,
        },
{
    match regex::Regex::new(pattern) {
        Ok(re) => Some(
            re.captures_iter(haystack).map(
                |caps| caps.iter().map(|g| g.map(|m| m.as_str().to_string())).collect(),
            ).collect(),
        ),
        Err(_) => None,
    }
}

/// The whole text of a match: its group 0.
pub open spec fn whole(groups: Seq<Option<Seq<char>>>) -> Seq<char> {
    if groups.len() > 0 && groups[0] is Some {
        groups[0]->0
    } else {
        Seq::empty()
    }
}

/// The text that is made of `parts`, from `from` on, with the whole text of
/// the match at the same position behind each part.
pub open spec fn rejoined(
    parts: Seq<Seq<char>>,
    matches: Seq<Seq<Option<Seq<char>>>>,
    from: int,
) -> Seq<char>
    decreases parts.len() - from,
{
    if from < 0 || from >= parts.len() {
        Seq::empty()
    } else {
        parts[from] + (if from < matches.len() {
            whole(matches[from])
        } else {
            Seq::empty()
        }) + rejoined(parts, matches, from + 1)
    }
}

/// Calls `regex::Regex::new` on `pattern` and `Regex::split` on `haystack`,
/// and copies out the parts.
///
/// Trusted: that the result is a function of the two texts alone, which
/// `split_of` names, and that it is `None` exactly when `Regex::new` refuses
/// the pattern, as it is for `captures_of`. Trusted, too, is how the parts lie
/// to the matches that `captures_of` names: `Regex::split` walks the same
/// matches, gives the text from the end of one match to the start of the
/// next, and at last the text behind the last match. So there is one part
/// more than there are matches, and the parts with the whole matches between
/// them are the haystack.
#[verifier::external_body]
pub(crate) fn split(pattern: &str, haystack: &str) -> (r: Option<Vec<String>>)
    ensures
        match r {
            Some(parts) => {
                &&& split_of(pattern@, haystack@) == Some(texts(parts@))
                &&& captures_of(pattern@, haystack@) matches Some(matches)
                &&& parts@.len() == matches.len() + 1
                &&& rejoined(texts(parts@), matches, 0) == haystack@
            },
            None => split_of(pattern@, haystack@) is None && captures_of(pattern@, haystack@)
                is None,
        },
{
    match regex::Regex::new(pattern) {
        Ok(re) => Some(re.split(haystack).map(|part| part.to_string()).collect()),
        Err(_) => None,
    }
}

} // verus!
