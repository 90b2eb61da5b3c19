//! Compiled regular expressions that remember the pattern text they were
//! built from, and the facts about matching that the filters rely on.

use vstd::prelude::*;
use crate::highlighting::{Color, Style, ansi_reset, rendering_of, style_span};

verus! {

#[verifier::external_type_specification]
#[verifier::external_body]
pub struct ExRegex(regex::Regex);

#[verifier::external_type_specification]
#[verifier::external_body]
pub struct ExRegexError(regex::Error);

/// Whether the regular expression `pattern` matches somewhere in `hay`.
pub uninterp spec fn regex_is_match(pattern: Seq<char>, hay: Seq<char>) -> bool;

/// Whether `pattern` is a regular expression that compiles.
pub uninterp spec fn regex_compiles(pattern: Seq<char>) -> bool;

/// The leftmost-first, non-overlapping matches of `pattern` in `hay`, in
/// order, each as the character positions where it starts and ends.
pub uninterp spec fn regex_match_spans(pattern: Seq<char>, hay: Seq<char>) -> Seq<(int, int)>;

/// `hay` with the text of each span replaced by the replacement at the same
/// index, the text between spans kept as it is.
pub open spec fn spliced(hay: Seq<char>, spans: Seq<(int, int)>, reps: Seq<Seq<char>>) -> Seq<char>
    decreases spans.len(),
{
    if spans.len() == 0 {
        hay
    } else {
        let k = spans.len() - 1;
        spliced(hay.subrange(0, spans[k].0), spans.drop_last(), reps.drop_last()) + reps[k]
            + hay.subrange(spans[k].1, hay.len() as int)
    }
}

/// The text of a span of `hay`.
pub open spec fn span_text(hay: Seq<char>, span: (int, int)) -> Seq<char> {
    hay.subrange(span.0, span.1)
}

/// `out` is `hay` with the text of each span replaced by a rendering of it
/// in `color` and `style`; a span whose text holds a reset code may be
/// rendered otherwise.
pub open spec fn styled_pass(
    out: Seq<char>,
    hay: Seq<char>,
    spans: Seq<(int, int)>,
    color: Color,
    style: Style,
) -> bool {
    exists|reps: Seq<Seq<char>>|
        #![trigger spliced(hay, spans, reps)]
        reps.len() == spans.len() && (forall|k: int|
            0 <= k < spans.len() && !contains(span_text(hay, spans[k]), ansi_reset())
                ==> rendering_of(#[trigger] reps[k], span_text(hay, spans[k]), color, style))
            && out == spliced(hay, spans, reps)
}

/// The characters that have a meaning of their own in a pattern.
pub open spec fn is_meta_char(c: char) -> bool {
    c == '\\' || c == '.' || c == '+' || c == '*' || c == '?' || c == '(' || c == ')' || c == '|'
        || c == '[' || c == ']' || c == '{' || c == '}' || c == '^' || c == '$' || c == '#' || c
        == '&' || c == '-' || c == '~'
}

/// `s` with a backslash put before each meta character.
pub open spec fn escaped(s: Seq<char>) -> Seq<char>
    decreases s.len(),
{
    if s.len() == 0 {
        Seq::empty()
    } else {
        let c = s.last();
        escaped(s.drop_last()) + if is_meta_char(c) {
            seq!['\\', c]
        } else {
            seq![c]
        }
    }
}

/// The alternatives in `parts`, separated by `|`.
pub open spec fn alternation(parts: Seq<Seq<char>>) -> Seq<char>
    decreases parts.len(),
{
    if parts.len() == 0 {
        Seq::empty()
    } else if parts.len() == 1 {
        parts[0]
    } else {
        alternation(parts.drop_last()) + seq!['|'] + parts.last()
    }
}

/// The pattern that matches exactly where one of `words`, taken literally,
/// occurs.
pub open spec fn literal_union(words: Seq<Seq<char>>) -> Seq<char> {
    alternation(escaped_all(words))
}

/// Each word escaped.
pub open spec fn escaped_all(words: Seq<Seq<char>>) -> Seq<Seq<char>> {
    words.map_values(|w: Seq<char>| escaped(w))
}

/// Whether `needle` occurs in `hay` as a contiguous run of characters.
pub open spec fn contains(hay: Seq<char>, needle: Seq<char>) -> bool {
    exists|i: int|
        0 <= i && i + needle.len() <= hay.len() && #[trigger] hay.subrange(i, i + needle.len())
            == needle
}

/// Whether one of `words` occurs in `hay`.
pub open spec fn contains_any(hay: Seq<char>, words: Seq<Seq<char>>) -> bool {
    exists|k: int| 0 <= k < words.len() && contains(hay, #[trigger] words[k])
}

/// The texts of a list of strings.
pub open spec fn texts(v: Seq<String>) -> Seq<Seq<char>> {
    v.map_values(|s: String| s@)
}

/// Relies on regex::escape: each meta character gets a backslash before it,
/// every other character is kept.
#[verifier::external_body]
pub(crate) fn escape(text: &str) -> (r: String)
    ensures
        r@ == escaped(text@),
{
    regex::escape(text)
}

/// The parts joined by `|`.
pub fn join_alternatives(parts: &Vec<String>) -> (r: String)
    ensures
        r@ == alternation(texts(parts@)),
{
    let ghost ps = texts(parts@);
    let mut joined = String::new();
    let mut i: usize = 0;
    while i < parts.len()
        invariant
            0 <= i <= parts@.len(),
            ps == texts(parts@),
            joined@ == alternation(ps.take(i as int)),
        decreases parts@.len() - i,
    {
        if i > 0 {
            proof {
                reveal_strlit("|");
            }
            joined.append("|");
        }
        joined.append(parts[i].as_str());
        proof {
            let next = ps.take(i as int + 1);
            assert(next.drop_last() =~= ps.take(i as int));
            if i == 0 {
                assert(next =~= seq![parts@[0]@]);
                assert(ps.take(0) =~= Seq::<Seq<char>>::empty());
            }
        }
        i = i + 1;
    }
    assert(ps.take(parts@.len() as int) =~= ps);
    joined
}

/// Each of the words with its meta characters escaped.
pub fn escape_all(words: &Vec<String>) -> (r: Vec<String>)
    ensures
        texts(r@) == escaped_all(texts(words@)),
{
    let mut out: Vec<String> = Vec::new();
    let mut i: usize = 0;
    while i < words.len()
        invariant
            0 <= i <= words@.len(),
            texts(out@) == escaped_all(texts(words@).take(i as int)),
        decreases words@.len() - i,
    {
        let e = escape(words[i].as_str());
        let ghost prev = out@;
        out.push(e);
        proof {
            let ws = texts(words@);
            assert(texts(out@) =~= texts(prev).push(e@));
            assert(ws.take(i as int + 1) =~= ws.take(i as int).push(words@[i as int]@));
            assert(escaped_all(ws.take(i as int + 1)) =~= escaped_all(ws.take(i as int)).push(
                escaped(words@[i as int]@),
            ));
        }
        i = i + 1;
    }
    assert(texts(words@).take(words@.len() as int) =~= texts(words@));
    out
}

/// A compiled regular expression together with the text it was compiled from.
pub struct Pattern {
    source: String,
    regex: regex::Regex,
}

impl View for Pattern {
    type V = Seq<char>;

    closed spec fn view(&self) -> Seq<char> {
        self.source@
    }
}

impl Pattern {
    /// Relies on regex::Regex::new: it compiles `source` or reports why it
    /// cannot; the text is kept beside the result.
    #[verifier::external_body]
    pub(crate) fn compile(source: String) -> (r: Result<Pattern, regex::Error>)
        ensures
            r is Ok <==> regex_compiles(source@),
            r matches Ok(p) ==> p@ == source@,
    {
        match regex::Regex::new(&source) {
            Ok(regex) => Ok(Pattern { source, regex }),
            Err(e) => Err(e),
        }
    }

    /// Relies on regex::Regex::is_match: it reports whether the pattern
    /// matches anywhere in `hay`. An escaped word matches exactly its own
    /// text, and an alternation matches where one of its parts does.
    #[verifier::external_body]
    fn find_in(&self, hay: &str) -> (r: bool)
        ensures
            r == regex_is_match(self@, hay@),
            forall|words: Seq<Seq<char>>|
                words.len() > 0 && #[trigger] literal_union(words) == self@ ==> (r
                    == contains_any(hay@, words)),
    {
        self.regex.is_match(hay)
    }

    /// Relies on regex::Regex::replace_all with a closure: each match, taken
    /// leftmost-first and without overlap, is replaced by what `style_span`
    /// makes of its text, the rest is copied; without a match `hay` comes
    /// back unchanged.
    #[verifier::external_body]
    fn substitute_styled(&self, hay: &str, color: Color, style: Style) -> (r: String)
        ensures
            styled_pass(r@, hay@, regex_match_spans(self@, hay@), color, style),
            !regex_is_match(self@, hay@) ==> r@ == hay@,
    {
        self.regex.replace_all(hay, |caps: &regex::Captures| style_span(&caps[0], color, style))
            .into_owned()
    }

    /// Relies on regex::Error's `Display`: the reason compilation failed.
    #[verifier::external_body]
    pub(crate) fn describe_error(e: &regex::Error) -> (r: String) {
        e.to_string()
    }

    /// Whether the pattern matches somewhere in `hay`.
    pub fn is_match(&self, hay: &str) -> (r: bool)
        ensures
            r == regex_is_match(self@, hay@),
            forall|words: Seq<Seq<char>>|
                words.len() > 0 && #[trigger] literal_union(words) == self@ ==> (r
                    == contains_any(hay@, words)),
    {
        self.find_in(hay)
    }

    /// `hay` with every match rendered in `color` and `style`.
    pub fn replace_all_styled(&self, hay: &str, color: Color, style: Style) -> (r: String)
        ensures
            styled_pass(r@, hay@, regex_match_spans(self@, hay@), color, style),
            !regex_is_match(self@, hay@) ==> r@ == hay@,
    {
        self.substitute_styled(hay, color, style)
    }

    /// The text the pattern was compiled from.
    pub fn as_str(&self) -> (r: &str)
        ensures
            r@ == self@,
    {
        self.source.as_str()
    }
}

} // verus!
