//! Regular expressions over target triples, features and container listings.
use vstd::prelude::*;
use crate::error::CritError;

verus! {

#[verifier::external_type_specification]
#[verifier::external_body]
pub struct ExRegex(regex::Regex);

/// Whether `regex::Regex::new` accepts the pattern.
pub uninterp spec fn regex_compiles(pattern: Seq<char>) -> bool;

/// Whether the compiled pattern matches somewhere in the text.
pub uninterp spec fn regex_finds(pattern: Seq<char>, text: Seq<char>) -> bool;

/// The text of the first capture group of the leftmost match, if any.
pub uninterp spec fn regex_group_one(pattern: Seq<char>, text: Seq<char>) -> Option<Seq<char>>;

/// The characters that `regex::escape` prefixes with a backslash.
pub open spec fn is_meta(c: char) -> bool {
    c == '\\' || c == '.' || c == '+' || c == '*' || c == '?' || c == '(' || c == ')' || c == '|'
        || c == '[' || c == ']' || c == '{' || c == '}' || c == '^' || c == '$' || c == '#' || c
        == '&' || c == '-' || c == '~'
}

/// A pattern that matches `s` literally.
pub open spec fn escaped(s: Seq<char>) -> Seq<char>
    decreases s.len(),
{
    if s.len() == 0 {
        seq![]
    } else if is_meta(s[0]) {
        seq!['\\', s[0]] + escaped(s.drop_first())
    } else {
        seq![s[0]] + escaped(s.drop_first())
    }
}

/// The parts, with `sep` between each two neighbours.
pub open spec fn joined(parts: Seq<Seq<char>>, sep: Seq<char>) -> Seq<char>
    decreases parts.len(),
{
    if parts.len() == 0 {
        seq![]
    } else if parts.len() == 1 {
        parts[0]
    } else {
        joined(parts.drop_last(), sep) + sep + parts.last()
    }
}

/// A compiled regular expression together with its source text. Only
/// `compile` sets the fields, together: the expression is always the one
/// compiled from `source`, which is what the matching functions rely on.
#[derive(Debug)]
pub struct Pattern {
    source: String,
    compiled: regex::Regex,
}

impl View for Pattern {
    type V = Seq<char>;

    closed spec fn view(&self) -> Seq<char> {
        self.source@
    }
}

/// Relies on `regex::Regex::new`: compiles `src`, or refuses it.
#[verifier::external_body]
fn compile(src: &str) -> (r: Option<Pattern>)
    ensures
        r is Some <==> regex_compiles(src@),
        r matches Some(p) ==> p@ == src@,
{
    match regex::Regex::new(src) {
        Ok(re) => Some(Pattern { source: src.to_string(), compiled: re }),
        Err(_) => None,
    }
}

/// Relies on `regex::Regex::is_match`: whether the pattern matches in `text`.
#[verifier::external_body]
pub(crate) fn finds(p: &Pattern, text: &str) -> (r: bool)
    ensures
        r == regex_finds(p@, text@),
{
    p.compiled.is_match(text)
}

/// Relies on `regex::Regex::captures`: the first group of the leftmost match.
#[verifier::external_body]
pub(crate) fn group_one(p: &Pattern, text: &str) -> (r: Option<String>)
    ensures
        match r {
            Some(g) => regex_group_one(p@, text@) == Some(g@),
            None => regex_group_one(p@, text@) is None,
        },
{
    match p.compiled.captures(text) {
        Some(caps) => match caps.get(1) {
            Some(m) => Some(m.as_str().to_string()),
            None => None,
        },
        None => None,
    }
}

/// Relies on `regex::escape`: a backslash before each meta character.
#[verifier::external_body]
pub(crate) fn escape_literal(s: &str) -> (r: String)
    ensures
        r@ == escaped(s@),
{
    regex::escape(s)
}

impl Pattern {
    /// Compiles `src`; fails with `Pattern` exactly when it is not a valid
    /// regular expression.
    pub fn new(src: &str) -> (r: Result<Pattern, CritError>)
        ensures
            r is Ok <==> regex_compiles(src@),
            r matches Ok(p) ==> p@ == src@,
            r matches Err(e) ==> e == CritError::Pattern,
    {
        match compile(src) {
            Some(p) => Ok(p),
            None => Err(CritError::Pattern),
        }
    }

    /// Whether the pattern matches somewhere in `text`.
    pub fn is_match(&self, text: &str) -> (r: bool)
        ensures
            r == regex_finds(self@, text@),
    {
        finds(self, text)
    }
}

/// Joins `parts` with `sep` between neighbours.
pub fn join(parts: &Vec<String>, sep: &str) -> (r: String)
    ensures
        r@ == joined(parts@.map_values(|p: String| p@), sep@),
{
    let ghost views = parts@.map_values(|p: String| p@);
    let mut r = String::new();
    let mut i: usize = 0;
    while i < parts.len()
        invariant
            i <= parts@.len(),
            views == parts@.map_values(|p: String| p@),
            r@ == joined(views.take(i as int), sep@),
        decreases parts@.len() - i,
    {
        proof {
            assert(views.take(i + 1).drop_last() == views.take(i as int));
        }
        if i > 0 {
            r.append(sep);
        }
        r.append(parts[i].as_str());
        i += 1;
    }
    assert(views.take(i as int) == views);
    r
}

/// A pattern that matches when any of `tokens` does: the tokens joined as
/// alternatives.
pub fn build_exclusion_pattern(tokens: &Vec<String>) -> (r: Result<Pattern, CritError>)
    ensures
        r is Ok <==> regex_compiles(joined(tokens@.map_values(|t: String| t@), "|"@)),
        r matches Ok(p) ==> p@ == joined(tokens@.map_values(|t: String| t@), "|"@),
        r matches Err(e) ==> e == CritError::Pattern,
{
    let src = join(tokens, "|");
    Pattern::new(src.as_str())
}

} // verus!
