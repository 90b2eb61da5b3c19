use logwatch::filtering::{
    build_exclude_regex, build_exclude_regex_with, build_include_regex, compile_words_to_regex, preset_exclude_list,
    should_display_line,
};

fn words(list: &[&str]) -> Option<Vec<String>> {
    Some(list.iter().map(|w| w.to_string()).collect())
}

#[test]
fn test_build_include_regex_with_larger_list() {
    let words = Some(vec![
        "error".to_string(),
        "warning".to_string(),
        "critical".to_string(),
        "fatal".to_string(),
        "exception".to_string(),
    ]);
    let regex = build_include_regex(words).unwrap().unwrap();
    assert_eq!(regex.is_match("this is a critical error"), true);
    assert_eq!(regex.is_match("a fatal exception occurred"), true);
    assert_eq!(regex.is_match("this is just info"), false);
}

#[test]
fn test_build_exclude_regex_with_user_and_preset_words() {
    let words = Some(vec![
        "debug".to_string(),
        "spam".to_string(),
        "noise".to_string(),
        "verbose".to_string(),
        "temp".to_string(),
    ]);
    let regex = build_exclude_regex(words, false).unwrap().unwrap();
    assert_eq!(regex.is_match("this is a debug message"), true);
    assert_eq!(regex.is_match("filter out this spam"), true);
    assert_eq!(regex.is_match("verbose logging enabled"), true);
    assert_eq!(regex.is_match("this is an aaa message"), true);
    assert_eq!(regex.is_match("this is a regular message"), false);
}

#[test]
fn test_should_display_line_with_various_scenarios() {
    let include_regex =
        build_include_regex(Some(vec!["success".to_string(), "approved".to_string()])).unwrap();
    let exclude_regex =
        build_exclude_regex(Some(vec!["temp".to_string(), "interim".to_string()]), false).unwrap();

    assert_eq!(should_display_line("operation was a success", &include_regex, &exclude_regex), true);
    assert_eq!(should_display_line("operation failed", &include_regex, &exclude_regex), false);
    assert_eq!(should_display_line("interim success report", &include_regex, &exclude_regex), false);
    assert_eq!(should_display_line("this is a temp file", &None, &exclude_regex), false);
    assert_eq!(should_display_line("request approved", &include_regex, &None), true);
    assert_eq!(should_display_line("any other message", &None, &None), true);
}

#[test]
fn empty_or_absent_word_lists_give_no_filter() {
    assert!(build_include_regex(None).unwrap().is_none());
    assert!(build_include_regex(Some(vec![])).unwrap().is_none());
    assert!(build_exclude_regex(None, true).unwrap().is_none());
    assert!(build_exclude_regex(Some(vec![]), true).unwrap().is_none());
    assert!(compile_words_to_regex(&vec![]).unwrap().is_none());
}

#[test]
fn include_pattern_text_is_the_escaped_alternation() {
    let p = build_include_regex(words(&["a.b", "c|d", "x"])).unwrap().unwrap();
    assert_eq!(p.as_str(), "a\\.b|c\\|d|x");
}

#[test]
fn exclude_pattern_text_appends_the_preset_words() {
    let p = build_exclude_regex(words(&["temp"]), false).unwrap().unwrap();
    assert_eq!(p.as_str(), "temp|aaa|bbb|ccc");
    let q = build_exclude_regex(None, false).unwrap().unwrap();
    assert_eq!(q.as_str(), "aaa|bbb|ccc");
    let r = build_exclude_regex(words(&["temp"]), true).unwrap().unwrap();
    assert_eq!(r.as_str(), "temp");
}

#[test]
fn preset_exclude_words_are_the_three_defaults() {
    assert_eq!(preset_exclude_list(), vec!["aaa".to_string(), "bbb".to_string(), "ccc".to_string()]);
}

#[test]
fn meta_characters_in_words_match_only_literally() {
    let p = build_include_regex(words(&["a.b", "(x)", "1+1"])).unwrap();
    assert!(should_display_line("see a.b here", &p, &None));
    assert!(!should_display_line("see axb here", &p, &None));
    assert!(should_display_line("call (x) now", &p, &None));
    assert!(!should_display_line("call x now", &p, &None));
    assert!(should_display_line("1+1=2", &p, &None));
    assert!(!should_display_line("11=2", &p, &None));
}

#[test]
fn include_words_admit_exactly_lines_holding_one() {
    let inc = build_include_regex(words(&["success"])).unwrap();
    assert!(should_display_line("operation was a success", &inc, &None));
    assert!(!should_display_line("operation failed", &inc, &None));
    assert!(!should_display_line("Success in upper case", &inc, &None));
}

#[test]
fn exclude_word_rejects_whatever_the_include_words() {
    let exc = build_exclude_regex(words(&["temp"]), true).unwrap();
    let inc = build_include_regex(words(&["file"])).unwrap();
    assert!(!should_display_line("this is a temp file", &inc, &exc));
    assert!(!should_display_line("this is a temp file", &None, &exc));
    assert!(should_display_line("this is a file", &inc, &exc));
}

#[test]
fn no_filters_admit_every_line() {
    let inc = build_include_regex(None).unwrap();
    let exc = build_exclude_regex(None, true).unwrap();
    assert!(should_display_line("", &inc, &exc));
    assert!(should_display_line("this is an aaa message", &inc, &exc));
    assert!(should_display_line("\u{1b}[0m odd bytes \u{fffd}", &inc, &exc));
}

#[test]
fn preset_words_reject_by_default_and_not_when_disabled() {
    let exc = build_exclude_regex(None, false).unwrap();
    assert!(!should_display_line("this is an aaa message", &None, &exc));
    let off = build_exclude_regex(None, true).unwrap();
    assert!(should_display_line("this is an aaa message", &None, &off));
}

#[test]
fn exclude_filter_with_a_given_preset() {
    let preset = vec!["p1".to_string(), "p.2".to_string()];
    let p = build_exclude_regex_with(words(&["u"]), &preset, false).unwrap().unwrap();
    assert_eq!(p.as_str(), "u|p1|p\\.2");
    let q = build_exclude_regex_with(words(&["u"]), &preset, true).unwrap().unwrap();
    assert_eq!(q.as_str(), "u");
    assert!(build_exclude_regex_with(None, &preset, true).unwrap().is_none());
}
