use colored::Colorize;
use logwatch::highlighting::{
    apply_highlighting, build_rule, critical_words, get_highlight_rules, highlight_rules_from,
    info_words, style_span, warn_words, Color, Style,
};
use logwatch::pattern::{escape_all, join_alternatives};

#[test]
fn default_rules_are_critical_then_warn_then_info() {
    let rules = get_highlight_rules().unwrap();
    assert_eq!(rules.len(), 3);
    assert_eq!(rules[0].regex.as_str(), "foo|bar");
    assert_eq!(rules[0].color, Color::BrightRed);
    assert_eq!(rules[0].style, Style::Bold);
    assert_eq!(rules[1].regex.as_str(), "warning");
    assert_eq!(rules[1].color, Color::Yellow);
    assert_eq!(rules[1].style, Style::Underline);
    assert_eq!(rules[2].regex.as_str(), "info|success");
    assert_eq!(rules[2].color, Color::Cyan);
    assert_eq!(rules[2].style, Style::Normal);
}

#[test]
fn keyword_lists_hold_the_default_words() {
    assert_eq!(critical_words(), vec!["foo".to_string(), "bar".to_string()]);
    assert_eq!(warn_words(), vec!["warning".to_string()]);
    assert_eq!(info_words(), vec!["info".to_string(), "success".to_string()]);
}

#[test]
fn join_alternatives_separates_by_bars() {
    assert_eq!(join_alternatives(&vec![]), "");
    assert_eq!(join_alternatives(&vec!["a".to_string()]), "a");
    assert_eq!(join_alternatives(&vec!["a".to_string(), "b.c".to_string(), "d".to_string()]), "a|b.c|d");
}

#[test]
fn malformed_rule_pattern_is_an_error() {
    let err = build_rule(&vec!["(".to_string()], Color::Red, Style::Bold).err().unwrap();
    assert_eq!(err.pattern, "(");
    assert!(!err.reason.is_empty());
}

#[test]
fn line_without_keywords_is_unchanged() {
    let rules = get_highlight_rules().unwrap();
    for line in ["", "nothing to see", "FOO in capitals", "\u{1b}[0m plain"] {
        assert_eq!(apply_highlighting(line, &rules), line);
    }
}

#[test]
fn line_matching_two_rules_gets_both_styles() {
    colored::control::set_override(true);
    let rules = get_highlight_rules().unwrap();
    let out = apply_highlighting("foo warning", &rules);
    let expected = format!(
        "{} {}",
        "foo".bright_red().bold(),
        "warning".yellow().underline()
    );
    assert_eq!(out, expected);
    assert_eq!(out, "\u{1b}[1;91mfoo\u{1b}[0m \u{1b}[4;33mwarning\u{1b}[0m");
}

#[test]
fn every_match_of_a_rule_is_styled() {
    colored::control::set_override(true);
    let rules = get_highlight_rules().unwrap();
    let out = apply_highlighting("info: success after info", &rules);
    assert_eq!(
        out,
        "\u{1b}[36minfo\u{1b}[0m: \u{1b}[36msuccess\u{1b}[0m after \u{1b}[36minfo\u{1b}[0m"
    );
}

#[test]
fn style_span_wraps_the_text_in_codes() {
    colored::control::set_override(true);
    assert_eq!(style_span("ok", Color::Green, Style::Italic), "\u{1b}[3;32mok\u{1b}[0m");
    assert_eq!(style_span("ok", Color::Blue, Style::Normal), "\u{1b}[34mok\u{1b}[0m");
    assert_eq!(style_span("ok", Color::Red, Style::Underline), "\u{1b}[4;31mok\u{1b}[0m");
}

#[test]
fn replace_all_styled_styles_each_match_only() {
    colored::control::set_override(true);
    let rule = build_rule(&vec!["ab".to_string()], Color::Red, Style::Bold).unwrap();
    assert_eq!(
        rule.regex.replace_all_styled("xabyab", Color::Red, Style::Bold),
        "x\u{1b}[1;31mab\u{1b}[0my\u{1b}[1;31mab\u{1b}[0m"
    );
    assert_eq!(rule.regex.replace_all_styled("none", Color::Red, Style::Bold), "none");
}

#[test]
fn later_rule_restyles_inside_an_earlier_match() {
    colored::control::set_override(true);
    let rules = vec![
        build_rule(&vec!["ab".to_string()], Color::Red, Style::Bold).unwrap(),
        build_rule(&vec!["b".to_string()], Color::Cyan, Style::Normal).unwrap(),
    ];
    assert_eq!(
        apply_highlighting("xaby", &rules),
        "x\u{1b}[1;31ma\u{1b}[36mb\u{1b}[0m\u{1b}[0my"
    );
}

#[test]
fn match_holding_a_reset_reopens_the_style() {
    colored::control::set_override(true);
    let rules = vec![
        build_rule(&vec!["b".to_string()], Color::Cyan, Style::Normal).unwrap(),
        build_rule(&vec!["a.*c".to_string()], Color::Red, Style::Bold).unwrap(),
    ];
    let expected = format!("{}", "a\u{1b}[36mb\u{1b}[0mc".red().bold());
    assert_eq!(apply_highlighting("abc", &rules), expected);
}

#[test]
fn rules_from_given_lists_keep_their_order() {
    let rules = highlight_rules_from(
        &vec!["x".to_string()],
        &vec!["y".to_string(), "z".to_string()],
        &vec!["w".to_string()],
    )
    .unwrap();
    assert_eq!(rules[0].regex.as_str(), "x");
    assert_eq!(rules[1].regex.as_str(), "y|z");
    assert_eq!(rules[2].regex.as_str(), "w");
    assert_eq!(rules[1].color, Color::Yellow);
}

#[test]
fn first_failing_rule_list_is_reported() {
    let err = highlight_rules_from(
        &vec!["ok".to_string()],
        &vec!["[".to_string()],
        &vec!["(".to_string()],
    )
    .err()
    .unwrap();
    assert_eq!(err.pattern, "[");
}

#[test]
fn escape_all_escapes_each_word() {
    let out = escape_all(&vec!["a.b".to_string(), "plain".to_string(), "$x-y~".to_string()]);
    assert_eq!(out, vec!["a\\.b".to_string(), "plain".to_string(), "\\$x\\-y\\~".to_string()]);
}
