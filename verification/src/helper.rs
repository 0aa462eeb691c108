//! The template engine. `replace_str` scans for `{{` and `}}` and takes what
//! stands between them as a placeholder; `render_template` replaces the
//! placeholders with word-character names that the pattern engine finds and
//! leaves all other text alone; `replace_env_var` replaces `$NAME` tokens.

use vstd::prelude::*;
use vstd::string::*;
use crate::error::TemplateError;
use crate::pattern::{
    captures, captures_of, group_texts, match_texts, rejoined, split, split_of, texts, whole,
};
use crate::text::{
    bound_of, chars_of, find_char, find_char_in, find_pair, find_pair_in, lemma_find_char,
    lemma_find_pair, read_bound, same_chars, slice_of, trim, trimmed, Bound,
};

verus! {

/// The binding set that a list of pairs of name and value stands for. Where a
/// name stands in the list more than once, its first pair counts.
pub open spec fn bindings_of(table: Seq<(String, String)>) -> Map<Seq<char>, Seq<char>>
    decreases table.len(),
{
    if table.len() == 0 {
        Map::empty()
    } else {
        bindings_of(table.drop_first()).insert(table[0].0@, table[0].1@)
    }
}

/// The result of a rendering, with the text taken by its view.
pub open spec fn text_of(r: Result<String, TemplateError>) -> Result<Seq<char>, TemplateError> {
    match r {
        Ok(s) => Ok(s@),
        Err(e) => Err(e),
    }
}

/// The characters of `value` from the bound `lo` up to, not including, the
/// bound `hi`. A bound that is absent stands for the start or the end of the
/// value. Positions count characters.
pub open spec fn cut(value: Seq<char>, lo: Bound, hi: Bound) -> Result<Seq<char>, TemplateError> {
    if lo == Bound::Malformed || hi == Bound::Malformed {
        Err(TemplateError::MalformedRange)
    } else if lo == Bound::Beyond || hi == Bound::Beyond {
        Err(TemplateError::OutOfBounds)
    } else {
        let start: int = match lo {
            Bound::At(n) => n as int,
            _ => 0,
        };
        let end: int = match hi {
            Bound::At(n) => n as int,
            _ => value.len() as int,
        };
        if start <= end <= value.len() {
            Ok(value.subrange(start, end))
        } else {
            Err(TemplateError::OutOfBounds)
        }
    }
}

/// The part of `value` that `range`, the text between the brackets of a
/// placeholder, selects. Positions count characters.
///
/// An empty `range` selects the whole value. `start..end` selects the
/// characters from `start` up to, not including, `end`; a bound left out stands
/// for the start or the end of the value. A lone number selects the one
/// character at that position.
pub open spec fn select(value: Seq<char>, range: Seq<char>) -> Result<Seq<char>, TemplateError> {
    if range.len() == 0 {
        Ok(value)
    } else {
        match find_pair(range, '.', '.', 0) {
            Some(dots) => cut(value, bound_of(range.take(dots)), bound_of(range.skip(dots + 2))),
            None => match bound_of(range) {
                Bound::At(n) => if n < value.len() {
                    Ok(seq![value[n as int]])
                } else {
                    Err(TemplateError::OutOfBounds)
                },
                Bound::Beyond => Err(TemplateError::OutOfBounds),
                _ => Err(TemplateError::MalformedRange),
            },
        }
    }
}

/// What a placeholder stands for: `inner` is the text between `{{` and `}}`,
/// trimmed. Without a `[` it is a name; with one, the name ends there and a
/// range follows, up to the first `]`.
pub open spec fn expand(inner: Seq<char>, bindings: Map<Seq<char>, Seq<char>>) -> Result<
    Seq<char>,
    TemplateError,
> {
    match find_char(inner, '[', 0) {
        None => if bindings.contains_key(inner) {
            Ok(bindings[inner])
        } else {
            Err(TemplateError::UndefinedBinding)
        },
        Some(open) => match find_char(inner, ']', 0) {
            None => Err(TemplateError::MalformedRange),
            Some(close) => if close < open {
                Err(TemplateError::MalformedRange)
            } else if bindings.contains_key(inner.take(open)) {
                select(bindings[inner.take(open)], inner.subrange(open + 1, close))
            } else {
                Err(TemplateError::UndefinedBinding)
            },
        },
    }
}

/// The rendering of `template` from position `from` on: the text up to the
/// next `{{` stands as it is, the placeholder that ends at the next `}}` is
/// expanded, and the rendering goes on behind it. The first placeholder that
/// cannot be expanded decides the error.
pub open spec fn render_from(
    template: Seq<char>,
    from: int,
    bindings: Map<Seq<char>, Seq<char>>,
) -> Result<Seq<char>, TemplateError>
    decreases template.len() - from,
    via render_from_decreases
{
    match find_pair(template, '{', '{', from) {
        None => Ok(template.subrange(from, template.len() as int)),
        Some(open) => match find_pair(template, '}', '}', open + 2) {
            None => Err(TemplateError::Unterminated),
            Some(close) => match expand(trim(template.subrange(open + 2, close)), bindings) {
                Err(e) => Err(e),
                Ok(value) => match render_from(template, close + 2, bindings) {
                    Err(e) => Err(e),
                    Ok(rest) => Ok(template.subrange(from, open) + value + rest),
                },
            },
        },
    }
}

#[via_fn]
proof fn render_from_decreases(template: Seq<char>, from: int, bindings: Map<Seq<char>, Seq<char>>) {
    lemma_find_pair(template, '{', '{', from);
    if let Some(open) = find_pair(template, '{', '{', from) {
        lemma_find_pair(template, '}', '}', open + 2);
    }
}

/// The rendering of `template` under `bindings`.
pub open spec fn render(template: Seq<char>, bindings: Map<Seq<char>, Seq<char>>) -> Result<
    Seq<char>,
    TemplateError,
> {
    render_from(template, 0, bindings)
}

/// A name that no pair of `table` holds is not bound.
proof fn lemma_bindings_absent(table: Seq<(String, String)>, name: Seq<char>)
    requires
        forall|k: int| 0 <= k < table.len() ==> (#[trigger] table[k]).0@ != name,
    ensures
        !bindings_of(table).contains_key(name),
    decreases table.len(),
{
    if table.len() > 0 {
        let rest = table.drop_first();
        assert forall|k: int| 0 <= k < rest.len() implies (#[trigger] rest[k]).0@ != name by {
            assert(rest[k] == table[k + 1]);
        }
        lemma_bindings_absent(rest, name);
    }
}

/// The first pair of `table` that holds a name gives the name its value.
proof fn lemma_bindings_first(table: Seq<(String, String)>, name: Seq<char>, at: int)
    requires
        0 <= at < table.len(),
        table[at].0@ == name,
        forall|k: int| 0 <= k < at ==> (#[trigger] table[k]).0@ != name,
    ensures
        bindings_of(table).contains_key(name),
        bindings_of(table)[name] == table[at].1@,
    decreases table.len(),
{
    if at > 0 {
        let rest = table.drop_first();
        assert(rest[at - 1] == table[at]);
        assert forall|k: int| 0 <= k < at - 1 implies (#[trigger] rest[k]).0@ != name by {
            assert(rest[k] == table[k + 1]);
        }
        lemma_bindings_first(rest, name, at - 1);
        assert(table[0].0@ != name);
    }
}

/// The value that `table` binds `name` to.
pub fn lookup<'a>(table: &'a Vec<(String, String)>, name: &Vec<char>) -> (r: Option<&'a String>)
    ensures
        match r {
            Some(value) => bindings_of(table@).contains_key(name@) && value@ == bindings_of(
                table@,
            )[name@],
            None => !bindings_of(table@).contains_key(name@),
        },
{
    let mut i: usize = 0;
    while i < table.len()
        invariant
            0 <= i <= table@.len(),
            forall|k: int| 0 <= k < i ==> (#[trigger] table@[k]).0@ != name@,
        decreases table@.len() - i,
    {
        let key: Vec<char> = chars_of(table[i].0.as_str());
        if same_chars(&key, name) {
            proof {
                lemma_bindings_first(table@, name@, i as int);
            }
            return Some(&table[i].1);
        }
        i = i + 1;
    }
    proof {
        lemma_bindings_absent(table@, name@);
    }
    None
}

/// The characters of `value` from the bound `lo` up to the bound `hi`.
pub fn cut_part(value: &str, lo: Bound, hi: Bound) -> (r: Result<String, TemplateError>)
    ensures
        text_of(r) == cut(value@, lo, hi),
{
    let len: usize = value.unicode_len();
    let start: usize = match lo {
        Bound::Malformed => {
            return Err(TemplateError::MalformedRange);
        },
        Bound::Beyond => {
            match hi {
                Bound::Malformed => {
                    return Err(TemplateError::MalformedRange);
                },
                _ => {
                    return Err(TemplateError::OutOfBounds);
                },
            }
        },
        Bound::At(n) => n,
        Bound::Absent => 0,
    };
    let end: usize = match hi {
        Bound::Malformed => {
            return Err(TemplateError::MalformedRange);
        },
        Bound::Beyond => {
            return Err(TemplateError::OutOfBounds);
        },
        Bound::At(n) => n,
        Bound::Absent => len,
    };
    if start <= end && end <= len {
        Ok(value.substring_char(start, end).to_string())
    } else {
        Err(TemplateError::OutOfBounds)
    }
}

/// The part of `value` that `range` selects.
pub fn select_part(value: &str, range: &Vec<char>) -> (r: Result<String, TemplateError>)
    ensures
        text_of(r) == select(value@, range@),
{
    if range.len() == 0 {
        return Ok(value.to_string());
    }
    match find_pair_in(range, '.', '.', 0) {
        Some(dots) => {
            proof {
                lemma_find_pair(range@, '.', '.', 0);
            }
            let lo: Bound = read_bound(&slice_of(range, 0, dots));
            let hi: Bound = read_bound(&slice_of(range, dots + 2, range.len()));
            cut_part(value, lo, hi)
        },
        None => match read_bound(range) {
            Bound::At(n) => {
                if n < value.unicode_len() {
                    let part: String = value.substring_char(n, n + 1).to_string();
                    assert(part@ =~= seq![value@[n as int]]);
                    Ok(part)
                } else {
                    Err(TemplateError::OutOfBounds)
                }
            },
            Bound::Beyond => Err(TemplateError::OutOfBounds),
            _ => Err(TemplateError::MalformedRange),
        },
    }
}

/// What the placeholder with the trimmed text `inner` stands for.
pub fn expand_placeholder(inner: &Vec<char>, table: &Vec<(String, String)>) -> (r: Result<
    String,
    TemplateError,
>)
    ensures
        text_of(r) == expand(inner@, bindings_of(table@)),
{
    match find_char_in(inner, '[', 0) {
        None => match lookup(table, inner) {
            Some(value) => Ok(value.clone()),
            None => Err(TemplateError::UndefinedBinding),
        },
        Some(open) => match find_char_in(inner, ']', 0) {
            None => Err(TemplateError::MalformedRange),
            Some(close) => {
                proof {
                    lemma_find_char(inner@, '[', 0);
                    lemma_find_char(inner@, ']', 0);
                }
                if close < open {
                    return Err(TemplateError::MalformedRange);
                }
                let name: Vec<char> = slice_of(inner, 0, open);
                let range: Vec<char> = slice_of(inner, open + 1, close);
                match lookup(table, &name) {
                    Some(value) => select_part(value.as_str(), &range),
                    None => Err(TemplateError::UndefinedBinding),
                }
            },
        },
    }
}

/// Renders `to_replace`: every placeholder `{{name}}` or `{{name[range]}}` is
/// replaced by the value, or the part of the value, that `values_table` binds
/// the name to.
///
/// Fails on the first placeholder, from the left, that is not closed, names no
/// binding, or holds a range that is malformed or reaches outside the value.
pub fn replace_str(to_replace: &str, values_table: &Vec<(String, String)>) -> (r: Result<
    String,
    TemplateError,
>)
    ensures
        text_of(r) == render(to_replace@, bindings_of(values_table@)),
{
    let template: Vec<char> = chars_of(to_replace);
    let n: usize = template.len();
    let ghost bindings = bindings_of(values_table@);
    let mut out: String = String::new();
    let mut i: usize = 0;
    loop
        invariant
            n == template@.len(),
            template@ == to_replace@,
            bindings == bindings_of(values_table@),
            0 <= i <= n,
            render(template@, bindings) == (match render_from(template@, i as int, bindings) {
                Ok(rest) => Ok(out@ + rest),
                Err(e) => Err(e),
            }),
        decreases n - i,
    {
        proof {
            lemma_find_pair(template@, '{', '{', i as int);
        }
        match find_pair_in(&template, '{', '{', i) {
            None => {
                out.append(to_replace.substring_char(i, n));
                return Ok(out);
            },
            Some(open) => {
                proof {
                    lemma_find_pair(template@, '}', '}', open + 2);
                }
                match find_pair_in(&template, '}', '}', open + 2) {
                    None => {
                        return Err(TemplateError::Unterminated);
                    },
                    Some(close) => {
                        let inner: Vec<char> = trimmed(&slice_of(&template, open + 2, close));
                        match expand_placeholder(&inner, values_table) {
                            Err(e) => {
                                return Err(e);
                            },
                            Ok(value) => {
                                let ghost before = out@;
                                out.append(to_replace.substring_char(i, open));
                                out.append(value.as_str());
                                proof {
                                    let literal = template@.subrange(i as int, open as int);
                                    assert(out@ == before + literal + value@);
                                    match render_from(template@, close + 2, bindings) {
                                        Ok(rest) => {
                                            assert(before + (literal + value@ + rest) =~= out@
                                                + rest);
                                        },
                                        Err(_) => {},
                                    }
                                }
                                i = close + 2;
                            },
                        }
                    },
                }
            },
        }
    }
}

/// The pattern of a reference to an environment variable: `$` and, behind it,
/// one word character or more, which are the variable's name.
pub const ENV_PATTERN: &'static str = "\\$(\\w+)";

/// The pattern of a placeholder: `{{`, a name of word characters, and `}}`;
/// between the name and `}}` may stand `[]`, or a range in brackets, which is
/// `..` with a decimal number, or none, before it and behind it. Group 1 is
/// the name, group 4 the bound before `..`, group 5 the bound behind it.
pub const TEMPLATE_PATTERN: &'static str =
    "\\{\\{(\\w+)(\\[(([0-9]+)?\\.\\.([0-9]+)?)?\\])?\\}\\}";

/// The text of group `i` of a match, if the group took part in the match.
pub open spec fn group(groups: Seq<Option<Seq<char>>>, i: int) -> Option<Seq<char>> {
    if 0 <= i < groups.len() {
        groups[i]
    } else {
        None
    }
}

/// What stands in place of one `$NAME` token. `groups` holds the token as
/// group 0 and the name as group 1. Where `env` binds the name, it is the
/// value; where it does not, it is the token itself.
pub open spec fn token_text(groups: Seq<Option<Seq<char>>>, env: Map<Seq<char>, Seq<char>>) -> Seq<
    char,
> {
    match group(groups, 1) {
        Some(name) => if env.contains_key(name) {
            env[name]
        } else {
            whole(groups)
        },
        None => whole(groups),
    }
}

/// The text that is made of `gaps`, from `from` on, with what stands for the
/// token of `matches` at the same position behind each gap.
pub open spec fn substituted(
    gaps: Seq<Seq<char>>,
    matches: Seq<Seq<Option<Seq<char>>>>,
    env: Map<Seq<char>, Seq<char>>,
    from: int,
) -> Seq<char>
    decreases gaps.len() - from,
{
    if from < 0 || from >= gaps.len() {
        Seq::empty()
    } else {
        gaps[from] + (if from < matches.len() {
            token_text(matches[from], env)
        } else {
            Seq::empty()
        }) + substituted(gaps, matches, env, from + 1)
    }
}

/// Where `env` binds the name of no token, the substitution puts the text
/// together again as it was.
pub proof fn unbound_tokens_stay(
    gaps: Seq<Seq<char>>,
    matches: Seq<Seq<Option<Seq<char>>>>,
    env: Map<Seq<char>, Seq<char>>,
    from: int,
)
    requires
        forall|i: int|
            0 <= i < matches.len() ==> !(group(#[trigger] matches[i], 1) matches Some(name)
                && env.contains_key(name)),
    ensures
        substituted(gaps, matches, env, from) == rejoined(gaps, matches, from),
    decreases gaps.len() - from,
{
    if 0 <= from < gaps.len() {
        unbound_tokens_stay(gaps, matches, env, from + 1);
    }
}

/// `s` with the tokens that the pattern engine finds for `pattern` replaced
/// as `token_text` says: group 1 of a match is the name that is looked up.
/// It is the error `Pattern` if the engine refuses the pattern.
pub open spec fn pattern_substituted(pattern: Seq<char>, s: Seq<char>, env: Map<Seq<char>, Seq<char>>) -> Result<
    Seq<char>,
    TemplateError,
> {
    match (split_of(pattern, s), captures_of(pattern, s)) {
        (Some(gaps), Some(matches)) => Ok(substituted(gaps, matches, env, 0)),
        _ => Err(TemplateError::Pattern),
    }
}

/// `s` with its `$NAME` tokens replaced as `token_text` says. The tokens are
/// those that the pattern engine finds for `ENV_PATTERN`.
pub open spec fn env_substituted(s: Seq<char>, env: Map<Seq<char>, Seq<char>>) -> Result<
    Seq<char>,
    TemplateError,
> {
    pattern_substituted(ENV_PATTERN@, s, env)
}

/// The text of group `i` of a match.
pub fn group_of(groups: &Vec<Option<String>>, i: usize) -> (r: Option<&String>)
    ensures
        match r {
            Some(text) => group(group_texts(groups@), i as int) == Some(text@),
            None => group(group_texts(groups@), i as int) is None,
        },
{
    if i < groups.len() {
        match &groups[i] {
            Some(text) => Some(text),
            None => None,
        }
    } else {
        None
    }
}

/// What stands in place of the token whose groups are `groups`.
pub fn replace_token(groups: &Vec<Option<String>>, env: &Vec<(String, String)>) -> (r: String)
    ensures
        r@ == token_text(group_texts(groups@), bindings_of(env@)),
{
    if let Some(name) = group_of(groups, 1) {
        let key: Vec<char> = chars_of(name.as_str());
        if let Some(value) = lookup(env, &key) {
            return value.clone();
        }
    }
    match group_of(groups, 0) {
        Some(token) => token.clone(),
        None => String::new(),
    }
}

/// Puts a text together from the parts `gaps` that the pattern engine found
/// around the `$NAME` tokens and from what stands for each token of `matches`:
/// the value that `env` gives to its name, or the token itself where `env`
/// does not hold the name.
pub fn substitute_tokens(
    gaps: &Vec<String>,
    matches: &Vec<Vec<Option<String>>>,
    env: &Vec<(String, String)>,
) -> (r: String)
    ensures
        r@ == substituted(texts(gaps@), match_texts(matches@), bindings_of(env@), 0),
{
    let ghost g = texts(gaps@);
    let ghost m = match_texts(matches@);
    let ghost e = bindings_of(env@);
    let mut out: String = String::new();
    let mut i: usize = 0;
    while i < gaps.len()
        invariant
            g == texts(gaps@),
            m == match_texts(matches@),
            e == bindings_of(env@),
            0 <= i <= gaps@.len(),
            substituted(g, m, e, 0) == out@ + substituted(g, m, e, i as int),
        decreases gaps@.len() - i,
    {
        let ghost before = out@;
        let fill: String = if i < matches.len() {
            replace_token(&matches[i], env)
        } else {
            String::new()
        };
        out.append(gaps[i].as_str());
        out.append(fill.as_str());
        proof {
            assert(g[i as int] == gaps@[i as int]@);
            if i < matches@.len() {
                assert(m[i as int] == group_texts(matches@[i as int]@));
            }
            assert(before + (g[i as int] + fill@ + substituted(g, m, e, i + 1)) =~= out@
                + substituted(g, m, e, i + 1));
        }
        i = i + 1;
    }
    proof {
        assert(out@ + Seq::<char>::empty() =~= out@);
    }
    out
}

/// Replaces every match of `pattern` in `s` by the value that `env` gives to
/// the name in group 1 of the match; a match whose name `env` does not hold
/// stays as it is.
///
/// The pattern engine decides what the matches are; the result is the error
/// `Pattern` exactly when it refuses `pattern`. Where `env` is empty, the
/// result is `s` itself.
pub fn substitute_matches(pattern: &str, s: &str, env: &Vec<(String, String)>) -> (r: Result<
    String,
    TemplateError,
>)
    ensures
        text_of(r) == pattern_substituted(pattern@, s@, bindings_of(env@)),
        r is Ok <==> split_of(pattern@, s@) is Some,
        r is Ok <==> captures_of(pattern@, s@) is Some,
        env@.len() == 0 ==> (r matches Ok(text) ==> text@ == s@),
{
    match split(pattern, s) {
        None => Err(TemplateError::Pattern),
        Some(gaps) => match captures(pattern, s) {
            None => Err(TemplateError::Pattern),
            Some(matches) => {
                proof {
                    if env@.len() == 0 {
                        unbound_tokens_stay(
                            texts(gaps@),
                            match_texts(matches@),
                            bindings_of(env@),
                            0,
                        );
                    }
                }
                Ok(substitute_tokens(&gaps, &matches, env))
            },
        },
    }
}

/// Replaces every `$NAME` token of `to_replace` by the value that `env`, the
/// environment as a list of names and values, gives to `NAME`, and leaves a
/// token whose name `env` does not hold as it is.
///
/// The pattern engine decides what the tokens are. The result is an error only
/// if the engine refuses `ENV_PATTERN`. Where `env` is empty, the result is
/// `to_replace` itself.
pub fn replace_env_var(to_replace: &str, env: &Vec<(String, String)>) -> (r: Result<
    String,
    TemplateError,
>)
    ensures
        text_of(r) == env_substituted(to_replace@, bindings_of(env@)),
        r is Ok <==> captures_of(ENV_PATTERN@, to_replace@) is Some,
        r matches Err(e) ==> e == TemplateError::Pattern,
        env@.len() == 0 ==> (r matches Ok(text) ==> text@ == to_replace@),
{
    substitute_matches(ENV_PATTERN, to_replace, env)
}

/// The bound that group `i` of a match writes; a group that took no part in
/// the match is a bound that is absent.
pub open spec fn group_bound(groups: Seq<Option<Seq<char>>>, i: int) -> Bound {
    match group(groups, i) {
        Some(text) => bound_of(text),
        None => Bound::Absent,
    }
}

/// What stands in place of one placeholder. `groups` holds the name as group
/// 1 and the bounds of the range, where there are any, as groups 4 and 5. The
/// name must be bound; without a range the placeholder stands for the whole
/// value, with one for the characters between the bounds.
pub open spec fn placeholder_text(
    groups: Seq<Option<Seq<char>>>,
    bindings: Map<Seq<char>, Seq<char>>,
) -> Result<Seq<char>, TemplateError> {
    match group(groups, 1) {
        Some(name) => if bindings.contains_key(name) {
            cut(bindings[name], group_bound(groups, 4), group_bound(groups, 5))
        } else {
            Err(TemplateError::UndefinedBinding)
        },
        None => Err(TemplateError::UndefinedBinding),
    }
}

/// The text that is made of `gaps`, from `from` on, with what stands for the
/// placeholder of `matches` at the same position behind each gap. The first
/// placeholder, from the left, that stands for nothing decides the error.
pub open spec fn placed(
    gaps: Seq<Seq<char>>,
    matches: Seq<Seq<Option<Seq<char>>>>,
    bindings: Map<Seq<char>, Seq<char>>,
    from: int,
) -> Result<Seq<char>, TemplateError>
    decreases gaps.len() - from,
{
    if from < 0 || from >= gaps.len() {
        Ok(Seq::empty())
    } else {
        let fill = if from < matches.len() {
            placeholder_text(matches[from], bindings)
        } else {
            Ok(Seq::empty())
        };
        match fill {
            Err(e) => Err(e),
            Ok(value) => match placed(gaps, matches, bindings, from + 1) {
                Err(e) => Err(e),
                Ok(rest) => Ok(gaps[from] + value + rest),
            },
        }
    }
}

/// The rendering of the template `s`: every placeholder that the pattern
/// engine finds for `TEMPLATE_PATTERN` is replaced as `placeholder_text`
/// says, and all other text stays as it is.
pub open spec fn template_rendered(s: Seq<char>, bindings: Map<Seq<char>, Seq<char>>) -> Result<
    Seq<char>,
    TemplateError,
> {
    match (split_of(TEMPLATE_PATTERN@, s), captures_of(TEMPLATE_PATTERN@, s)) {
        (Some(gaps), Some(matches)) => placed(gaps, matches, bindings, 0),
        _ => Err(TemplateError::Pattern),
    }
}

/// The bound that group `i` of a match writes.
pub fn bound_of_group(groups: &Vec<Option<String>>, i: usize) -> (r: Bound)
    ensures
        r == group_bound(group_texts(groups@), i as int),
{
    match group_of(groups, i) {
        Some(text) => read_bound(&chars_of(text.as_str())),
        None => Bound::Absent,
    }
}

/// What stands in place of the placeholder whose groups are `groups`.
pub fn place_match(groups: &Vec<Option<String>>, table: &Vec<(String, String)>) -> (r: Result<
    String,
    TemplateError,
>)
    ensures
        text_of(r) == placeholder_text(group_texts(groups@), bindings_of(table@)),
{
    match group_of(groups, 1) {
        Some(name) => {
            let key: Vec<char> = chars_of(name.as_str());
            match lookup(table, &key) {
                Some(value) => cut_part(
                    value.as_str(),
                    bound_of_group(groups, 4),
                    bound_of_group(groups, 5),
                ),
                None => Err(TemplateError::UndefinedBinding),
            }
        },
        None => Err(TemplateError::UndefinedBinding),
    }
}

/// Puts the rendering of a template together from the parts `gaps` that the
/// pattern engine found around the placeholders and from what stands for each
/// placeholder of `matches`.
pub fn place_matches(
    gaps: &Vec<String>,
    matches: &Vec<Vec<Option<String>>>,
    table: &Vec<(String, String)>,
) -> (r: Result<String, TemplateError>)
    ensures
        text_of(r) == placed(texts(gaps@), match_texts(matches@), bindings_of(table@), 0),
{
    let ghost g = texts(gaps@);
    let ghost m = match_texts(matches@);
    let ghost b = bindings_of(table@);
    let mut out: String = String::new();
    let mut i: usize = 0;
    while i < gaps.len()
        invariant
            g == texts(gaps@),
            m == match_texts(matches@),
            b == bindings_of(table@),
            0 <= i <= gaps@.len(),
            placed(g, m, b, 0) == (match placed(g, m, b, i as int) {
                Ok(rest) => Ok(out@ + rest),
                Err(err) => Err(err),
            }),
        decreases gaps@.len() - i,
    {
        let ghost before = out@;
        let mut fill: String = String::new();
        if i < matches.len() {
            match place_match(&matches[i], table) {
                Ok(value) => {
                    fill = value;
                },
                Err(err) => {
                    return Err(err);
                },
            }
        }
        out.append(gaps[i].as_str());
        out.append(fill.as_str());
        proof {
            assert(g[i as int] == gaps@[i as int]@);
            if i < matches@.len() {
                assert(m[i as int] == group_texts(matches@[i as int]@));
            }
            match placed(g, m, b, i + 1) {
                Ok(rest) => {
                    assert(before + (g[i as int] + fill@ + rest) =~= out@ + rest);
                },
                Err(_) => {},
            }
        }
        i = i + 1;
    }
    proof {
        assert(out@ + Seq::<char>::empty() =~= out@);
    }
    Ok(out)
}

/// Renders the template `s`: every placeholder `{{name}}` or
/// `{{name[range]}}` whose name is made of word characters is replaced by the
/// value, or the part of the value, that `table` binds the name to. Text that
/// is no such placeholder stays as it is.
///
/// The pattern engine decides what the placeholders are. The result is the
/// error of the first placeholder, from the left, whose name is not bound or
/// whose range reaches outside the value. A text in which the engine finds
/// no placeholder is rendered to itself.
pub fn render_template(s: &str, table: &Vec<(String, String)>) -> (r: Result<String, TemplateError>)
    ensures
        text_of(r) == template_rendered(s@, bindings_of(table@)),
        captures_of(TEMPLATE_PATTERN@, s@) matches Some(matches) && matches.len() == 0 ==> text_of(r)
            == Ok::<Seq<char>, TemplateError>(s@),
{
    match split(TEMPLATE_PATTERN, s) {
        None => Err(TemplateError::Pattern),
        Some(gaps) => match captures(TEMPLATE_PATTERN, s) {
            None => Err(TemplateError::Pattern),
            Some(matches) => {
                proof {
                    if matches@.len() == 0 {
                        let g = texts(gaps@);
                        let m = match_texts(matches@);
                        reveal_with_fuel(rejoined, 2);
                        reveal_with_fuel(placed, 2);
                        assert(g[0] + Seq::<char>::empty() + Seq::<char>::empty() =~= g[0]);
                    }
                }
                place_matches(&gaps, &matches, table)
            },
        },
    }
}

/// What a dynamic string resolves to: its placeholders are rendered under
/// `bindings`, and the `$NAME` tokens of the rendering are then replaced from
/// `env`.
pub open spec fn resolved(
    s: Seq<char>,
    bindings: Map<Seq<char>, Seq<char>>,
    env: Map<Seq<char>, Seq<char>>,
) -> Result<Seq<char>, TemplateError> {
    match template_rendered(s, bindings) {
        Err(e) => Err(e),
        Ok(text) => env_substituted(text, env),
    }
}

/// Resolves a dynamic string: placeholders first, then `$NAME` tokens.
pub fn resolve(s: &str, table: &Vec<(String, String)>, env: &Vec<(String, String)>) -> (r: Result<
    String,
    TemplateError,
>)
    ensures
        text_of(r) == resolved(s@, bindings_of(table@), bindings_of(env@)),
{
    match render_template(s, table) {
        Err(e) => Err(e),
        Ok(text) => replace_env_var(text.as_str(), env),
    }
}

} // verus!
