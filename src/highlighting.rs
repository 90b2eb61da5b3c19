//! Highlight rules and their ordered application to a line.

use vstd::prelude::*;
use colored::Colorize;
use crate::pattern::{
    Pattern, alternation, contains, join_alternatives, regex_compiles, regex_is_match, regex_match_spans,
    styled_pass,
    texts,
};
use crate::filtering::InvalidPattern;

verus! {

/// The foreground color of a highlighted span.
#[derive(Clone, Copy, Debug, PartialEq, Eq, Structural)]
pub enum Color {
    Red,
    BrightRed,
    Green,
    Yellow,
    Blue,
    Cyan,
}

/// The text style of a highlighted span.
#[derive(Clone, Copy, Debug, PartialEq, Eq, Structural)]
pub enum Style {
    Bold,
    Italic,
    Underline,
    Normal,
}

/// A pattern whose matches are shown in a color and style.
pub struct HighlightRule {
    pub regex: Pattern,
    pub color: Color,
    pub style: Style,
}

/// The terminal code of a foreground color.
pub open spec fn color_code(c: Color) -> Seq<char> {
    match c {
        Color::Red => seq!['3', '1'],
        Color::BrightRed => seq!['9', '1'],
        Color::Green => seq!['3', '2'],
        Color::Yellow => seq!['3', '3'],
        Color::Blue => seq!['3', '4'],
        Color::Cyan => seq!['3', '6'],
    }
}

/// The terminal code of a style, with its separator; none for `Normal`.
pub open spec fn style_code(s: Style) -> Seq<char> {
    match s {
        Style::Bold => seq!['1', ';'],
        Style::Italic => seq!['3', ';'],
        Style::Underline => seq!['4', ';'],
        Style::Normal => Seq::empty(),
    }
}

/// The sequence that switches a style and color on.
pub open spec fn ansi_open(c: Color, s: Style) -> Seq<char> {
    seq!['\x1b', '['] + style_code(s) + color_code(c) + seq!['m']
}

/// The sequence that switches styling off.
pub open spec fn ansi_reset() -> Seq<char> {
    seq!['\x1b', '[', '0', 'm']
}

/// `out` is a way `text` can be rendered in color `c` and style `s`: as it
/// is when the terminal takes no colors, else wrapped in the codes.
pub open spec fn rendering_of(out: Seq<char>, text: Seq<char>, c: Color, s: Style) -> bool {
    out == text || out == ansi_open(c, s) + text + ansi_reset()
}

impl View for HighlightRule {
    type V = Seq<char>;

    open spec fn view(&self) -> Seq<char> {
        self.regex@
    }
}

/// `steps` are the lines that highlighting goes through: the first rule
/// styles its matches in the first, giving the second, and so on.
pub open spec fn highlight_steps(steps: Seq<Seq<char>>, rules: Seq<HighlightRule>) -> bool {
    &&& steps.len() == rules.len() + 1
    &&& forall|i: int|
        0 <= i < rules.len() ==> styled_pass(
            #[trigger] steps[i + 1],
            steps[i],
            regex_match_spans(rules[i]@, steps[i]),
            rules[i].color,
            rules[i].style,
        )
}

/// `out` is `line` highlighted by `rules` in order: the first rule styles
/// its matches in `line`, each later one its matches in what the rules
/// before it left.
pub open spec fn highlights(out: Seq<char>, line: Seq<char>, rules: Seq<HighlightRule>) -> bool {
    exists|steps: Seq<Seq<char>>|
        #[trigger] highlight_steps(steps, rules) && steps[0] == line && steps.last() == out
}

/// No rule's pattern matches `line`.
pub open spec fn untouched_by(line: Seq<char>, rules: Seq<HighlightRule>) -> bool {
    forall|i: int| 0 <= i < rules.len() ==> !regex_is_match(#[trigger] rules[i]@, line)
}

/// Relies on colored's `Colorize` methods and `ColoredString`'s `Display`:
/// the text comes back as it is when coloring is off (by the environment or
/// the terminal), else between the codes for the style and color and the
/// reset code, provided it holds no reset code of its own.
#[verifier::external_body]
fn apply_style(text: &str, color: Color, style: Style) -> (r: String)
    ensures
        !contains(text@, ansi_reset()) ==> rendering_of(r@, text@, color, style),
{
    let c = match color {
        Color::Red => text.red(),
        Color::BrightRed => text.bright_red(),
        Color::Green => text.green(),
        Color::Yellow => text.yellow(),
        Color::Blue => text.blue(),
        Color::Cyan => text.cyan(),
    };
    match style {
        Style::Bold => c.bold(),
        Style::Italic => c.italic(),
        Style::Underline => c.underline(),
        Style::Normal => c,
    }.to_string()
}

/// `text` rendered in `color` and `style`.
pub fn style_span(text: &str, color: Color, style: Style) -> (r: String)
    ensures
        !contains(text@, ansi_reset()) ==> rendering_of(r@, text@, color, style),
{
    apply_style(text, color, style)
}

/// Applies the rules to `line` in order: each replaces every match in what
/// the rules before it left by the matched text in the rule's color and
/// style. A line that no rule matches comes back unchanged.
pub fn apply_highlighting(line: &str, rules: &[HighlightRule]) -> (r: String)
    ensures
        highlights(r@, line@, rules@),
        untouched_by(line@, rules@) ==> r@ == line@,
{
    let mut out = line.to_owned();
    let mut i: usize = 0;
    let ghost mut steps: Seq<Seq<char>> = seq![line@];
    while i < rules.len()
        invariant
            0 <= i <= rules@.len(),
            highlight_steps(steps, rules@.take(i as int)),
            steps[0] == line@,
            steps.last() == out@,
            untouched_by(line@, rules@) ==> out@ == line@,
        decreases rules@.len() - i,
    {
        let rule = &rules[i];
        let next = rule.regex.replace_all_styled(out.as_str(), rule.color, rule.style);
        proof {
            let prev = steps;
            steps = steps.push(next@);
            let upto = rules@.take(i as int + 1);
            assert forall|j: int| 0 <= j < upto.len() implies styled_pass(
                #[trigger] steps[j + 1],
                steps[j],
                regex_match_spans(upto[j]@, steps[j]),
                upto[j].color,
                upto[j].style,
            ) by {
                if j < i {
                    assert(upto[j] == rules@.take(i as int)[j]);
                    assert(steps[j + 1] == prev[j + 1]);
                }
            }
            assert(highlight_steps(steps, upto));
            if untouched_by(line@, rules@) {
                assert(!regex_is_match(rules@[i as int]@, line@));
            }
        }
        out = next;
        i = i + 1;
    }
    assert(highlight_steps(steps, rules@.take(rules@.len() as int)));
    assert(rules@.take(rules@.len() as int) =~= rules@);
    out
}

/// The words highlighted as critical.
pub open spec fn critical_keywords() -> Seq<Seq<char>> {
    seq!["foo"@, "bar"@]
}

/// The words highlighted as warnings.
pub open spec fn warn_keywords() -> Seq<Seq<char>> {
    seq!["warning"@]
}

/// The words highlighted as information.
pub open spec fn info_keywords() -> Seq<Seq<char>> {
    seq!["info"@, "success"@]
}

/// `rule` highlights the alternation of `words` in `color` and `style`.
pub open spec fn rule_for(rule: HighlightRule, words: Seq<Seq<char>>, color: Color, style: Style) -> bool {
    rule@ == alternation(words) && rule.color == color && rule.style == style
}

/// The rules for three keyword lists, in order of precedence: critical
/// words in bold bright red, warnings underlined in yellow, information in
/// plain cyan.
pub open spec fn rules_for(
    rules: Seq<HighlightRule>,
    critical: Seq<Seq<char>>,
    warn: Seq<Seq<char>>,
    info: Seq<Seq<char>>,
) -> bool {
    &&& rules.len() == 3
    &&& rule_for(rules[0], critical, Color::BrightRed, Style::Bold)
    &&& rule_for(rules[1], warn, Color::Yellow, Style::Underline)
    &&& rule_for(rules[2], info, Color::Cyan, Style::Normal)
}

/// The rules for the default keyword lists.
pub open spec fn default_rules(rules: Seq<HighlightRule>) -> bool {
    rules_for(rules, critical_keywords(), warn_keywords(), info_keywords())
}

/// Whether the patterns of all three keyword lists compile.
pub open spec fn rules_compile(
    critical: Seq<Seq<char>>,
    warn: Seq<Seq<char>>,
    info: Seq<Seq<char>>,
) -> bool {
    regex_compiles(alternation(critical)) && regex_compiles(alternation(warn)) && regex_compiles(
        alternation(info),
    )
}

/// The pattern of the first of the three keyword lists whose pattern does
/// not compile.
pub open spec fn first_rule_failure(
    critical: Seq<Seq<char>>,
    warn: Seq<Seq<char>>,
    info: Seq<Seq<char>>,
) -> Seq<char> {
    if !regex_compiles(alternation(critical)) {
        alternation(critical)
    } else if !regex_compiles(alternation(warn)) {
        alternation(warn)
    } else {
        alternation(info)
    }
}

/// The words highlighted as critical.
pub fn critical_words() -> (r: Vec<String>)
    ensures
        texts(r@) == critical_keywords(),
{
    let r = vec!["foo".to_owned(), "bar".to_owned()];
    assert(texts(r@) =~= critical_keywords());
    r
}

/// The words highlighted as warnings.
pub fn warn_words() -> (r: Vec<String>)
    ensures
        texts(r@) == warn_keywords(),
{
    let r = vec!["warning".to_owned()];
    assert(texts(r@) =~= warn_keywords());
    r
}

/// The words highlighted as information.
pub fn info_words() -> (r: Vec<String>)
    ensures
        texts(r@) == info_keywords(),
{
    let r = vec!["info".to_owned(), "success".to_owned()];
    assert(texts(r@) =~= info_keywords());
    r
}

/// A rule that shows the words, read as patterns joined by `|`, in `color`
/// and `style`.
pub fn build_rule(words: &Vec<String>, color: Color, style: Style) -> (r: Result<
    HighlightRule,
    InvalidPattern,
>)
    ensures
        r is Ok <==> regex_compiles(alternation(texts(words@))),
        r matches Ok(rule) ==> rule_for(rule, texts(words@), color, style),
        r matches Err(e) ==> e.pattern@ == alternation(texts(words@)),
{
    let source = join_alternatives(words);
    let kept = source.clone();
    match Pattern::compile(source) {
        Ok(regex) => Ok(HighlightRule { regex, color, style }),
        Err(e) => Err(InvalidPattern { pattern: kept, reason: Pattern::describe_error(&e) }),
    }
}

/// The rules for the given keyword lists: critical words, then warnings,
/// then information. Fails with the first list whose pattern does not
/// compile.
pub fn highlight_rules_from(
    critical: &Vec<String>,
    warn: &Vec<String>,
    info: &Vec<String>,
) -> (r: Result<Vec<HighlightRule>, InvalidPattern>)
    ensures
        r is Ok <==> rules_compile(texts(critical@), texts(warn@), texts(info@)),
        r matches Ok(rules) ==> rules_for(rules@, texts(critical@), texts(warn@), texts(info@)),
        r matches Err(e) ==> e.pattern@ == first_rule_failure(
            texts(critical@),
            texts(warn@),
            texts(info@),
        ),
{
    let critical_rule = build_rule(critical, Color::BrightRed, Style::Bold)?;
    let warn_rule = build_rule(warn, Color::Yellow, Style::Underline)?;
    let info_rule = build_rule(info, Color::Cyan, Style::Normal)?;
    Ok(vec![critical_rule, warn_rule, info_rule])
}

/// The default rules: critical words, then warnings, then information.
pub fn get_highlight_rules() -> (r: Result<Vec<HighlightRule>, InvalidPattern>)
    ensures
        r is Ok <==> rules_compile(critical_keywords(), warn_keywords(), info_keywords()),
        r matches Ok(rules) ==> default_rules(rules@),
        r matches Err(e) ==> e.pattern@ == first_rule_failure(
            critical_keywords(),
            warn_keywords(),
            info_keywords(),
        ),
{
    highlight_rules_from(&critical_words(), &warn_words(), &info_words())
}

} // verus!
