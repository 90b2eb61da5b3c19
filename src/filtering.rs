//! Include and exclude filters built from keyword lists, and the decision
//! whether a line is shown.

use vstd::prelude::*;
use crate::pattern::{
    Pattern, contains, contains_any, escape_all, join_alternatives, literal_union, regex_compiles,
    regex_is_match, texts,
};

verus! {

/// A keyword list that could not be made into a pattern.
#[derive(Debug)]
pub struct InvalidPattern {
    /// The pattern text that failed to compile.
    pub pattern: String,
    /// Why it failed.
    pub reason: String,
}

/// The words of an optional list; an absent list has none.
pub open spec fn given_words(words: Option<Vec<String>>) -> Seq<Seq<char>> {
    match words {
        Some(v) => texts(v@),
        None => Seq::empty(),
    }
}

/// The words excluded unless the preset is switched off.
pub open spec fn preset_exclude_words() -> Seq<Seq<char>> {
    seq!["aaa"@, "bbb"@, "ccc"@]
}

/// The words an exclude filter is built from: the user's own, followed by
/// the preset ones unless those are disabled.
pub open spec fn exclusion_words_with(
    user: Seq<Seq<char>>,
    preset: Seq<Seq<char>>,
    disable_preset_excludes: bool,
) -> Seq<Seq<char>> {
    if disable_preset_excludes {
        user
    } else {
        user + preset
    }
}

/// The words an exclude filter is built from, with the default preset.
pub open spec fn exclusion_words(user: Seq<Seq<char>>, disable_preset_excludes: bool) -> Seq<
    Seq<char>,
> {
    exclusion_words_with(user, preset_exclude_words(), disable_preset_excludes)
}

/// Whether the filter for `words` can be built: there is none to build, or
/// their pattern compiles.
pub open spec fn filter_compiles(words: Seq<Seq<char>>) -> bool {
    words.len() == 0 || regex_compiles(literal_union(words))
}

/// `p` is the filter for `words`: none for an empty list, else the pattern
/// that matches where one of them occurs literally.
pub open spec fn compiled_from(p: Option<Pattern>, words: Seq<Seq<char>>) -> bool {
    match p {
        None => words.len() == 0,
        Some(p) => words.len() > 0 && p@ == literal_union(words),
    }
}

/// Whether a line passes filters given as word lists: it holds no excluded
/// word, and holds an included one when any are given.
pub open spec fn admits(line: Seq<char>, inc_words: Seq<Seq<char>>, exc_words: Seq<Seq<char>>) -> bool {
    !contains_any(line, exc_words) && (inc_words.len() == 0 || contains_any(line, inc_words))
}

/// Whether a line passes compiled filters: the exclude pattern, if any, does
/// not match it, and the include pattern, if any, does.
pub open spec fn passes(line: Seq<char>, inc: Option<Pattern>, exc: Option<Pattern>) -> bool {
    (match exc {
        Some(p) => !regex_is_match(p@, line),
        None => true,
    }) && (match inc {
        Some(p) => regex_is_match(p@, line),
        None => true,
    })
}

/// The preset exclude words.
pub fn preset_exclude_list() -> (r: Vec<String>)
    ensures
        texts(r@) == preset_exclude_words(),
{
    let r = vec!["aaa".to_owned(), "bbb".to_owned(), "ccc".to_owned()];
    assert(texts(r@) =~= preset_exclude_words());
    r
}

/// Compiles `words`, each taken literally, into one alternation; an empty
/// list gives no filter.
pub fn compile_words_to_regex(words: &Vec<String>) -> (r: Result<Option<Pattern>, InvalidPattern>)
    ensures
        words@.len() == 0 <==> r matches Ok(None),
        r is Ok <==> filter_compiles(texts(words@)),
        r matches Ok(p) ==> compiled_from(p, texts(words@)),
        r matches Err(e) ==> e.pattern@ == literal_union(texts(words@)),
{
    if words.len() == 0 {
        return Ok(None);
    }
    let joined = join_alternatives(&escape_all(words));
    let source = joined.clone();
    match Pattern::compile(joined) {
        Ok(p) => Ok(Some(p)),
        Err(e) => Err(InvalidPattern { pattern: source, reason: Pattern::describe_error(&e) }),
    }
}

/// The include filter for the given words, or none when there are none.
pub fn build_include_regex(words: Option<Vec<String>>) -> (r: Result<Option<Pattern>, InvalidPattern>)
    ensures
        given_words(words).len() == 0 <==> r matches Ok(None),
        r is Ok <==> filter_compiles(given_words(words)),
        r matches Ok(p) ==> compiled_from(p, given_words(words)),
        r matches Err(e) ==> e.pattern@ == literal_union(given_words(words)),
{
    let word_list = match words {
        Some(v) => v,
        None => Vec::new(),
    };
    assert(texts(word_list@) =~= given_words(words));
    compile_words_to_regex(&word_list)
}

/// The exclude filter: the given words, with the `preset` ones appended
/// unless `disable_preset_excludes` is set; none when that leaves no word.
pub fn build_exclude_regex_with(
    words: Option<Vec<String>>,
    preset: &Vec<String>,
    disable_preset_excludes: bool,
) -> (r: Result<Option<Pattern>, InvalidPattern>)
    ensures
        ({
            let all = exclusion_words_with(given_words(words), texts(preset@), disable_preset_excludes);
            &&& (all.len() == 0 <==> r matches Ok(None))
            &&& (r is Ok <==> filter_compiles(all))
            &&& (r matches Ok(p) ==> compiled_from(p, all))
            &&& (r matches Err(e) ==> e.pattern@ == literal_union(all))
        }),
{
    let mut word_list = match words {
        Some(v) => v,
        None => Vec::new(),
    };
    assert(texts(word_list@) =~= given_words(words));
    if !disable_preset_excludes {
        let ghost start = word_list@;
        let mut k: usize = 0;
        while k < preset.len()
            invariant
                0 <= k <= preset@.len(),
                word_list@ == start + preset@.take(k as int),
            decreases preset@.len() - k,
        {
            word_list.push(preset[k].clone());
            assert(word_list@ =~= start + preset@.take(k as int + 1));
            k = k + 1;
        }
        assert(preset@.take(preset@.len() as int) =~= preset@);
        assert(texts(word_list@) =~= given_words(words) + texts(preset@));
    }
    compile_words_to_regex(&word_list)
}

/// The exclude filter with the default preset words.
pub fn build_exclude_regex(words: Option<Vec<String>>, disable_preset_excludes: bool) -> (r: Result<
    Option<Pattern>,
    InvalidPattern,
>)
    ensures
        ({
            let all = exclusion_words(given_words(words), disable_preset_excludes);
            &&& (all.len() == 0 <==> r matches Ok(None))
            &&& (r is Ok <==> filter_compiles(all))
            &&& (r matches Ok(p) ==> compiled_from(p, all))
            &&& (r matches Err(e) ==> e.pattern@ == literal_union(all))
        }),
{
    build_exclude_regex_with(words, &preset_exclude_list(), disable_preset_excludes)
}

/// Whether `line` is shown: the exclude filter, if any, does not match it
/// and the include filter, if any, does. For filters built from word lists
/// this is decided by which words occur in the line.
pub fn should_display_line(line: &str, include_regex: &Option<Pattern>, exclude_regex: &Option<
    Pattern,
>) -> (r: bool)
    ensures
        r == passes(line@, *include_regex, *exclude_regex),
        forall|iw: Seq<Seq<char>>, ew: Seq<Seq<char>>|
            #![trigger compiled_from(*include_regex, iw), compiled_from(*exclude_regex, ew)]
            compiled_from(*include_regex, iw) && compiled_from(*exclude_regex, ew) ==> r == admits(
                line@,
                iw,
                ew,
            ),
{
    let passes_exclusion_filter = match exclude_regex {
        Some(re) => !re.is_match(line),
        None => true,
    };
    let passes_inclusion_filter = match include_regex {
        Some(re) => re.is_match(line),
        None => true,
    };
    passes_exclusion_filter && passes_inclusion_filter
}

/// A line that holds none of the excluded words is shown exactly when it
/// holds one of the wanted words, when any are given.
pub proof fn lemma_wanted_words_decide(
    line: Seq<char>,
    inc_words: Seq<Seq<char>>,
    exc_words: Seq<Seq<char>>,
)
    requires
        inc_words.len() > 0,
        !contains_any(line, exc_words),
    ensures
        admits(line, inc_words, exc_words) == contains_any(line, inc_words),
{
}

/// A line that holds an excluded word is never shown, whatever the wanted
/// words.
pub proof fn lemma_excluded_word_rejects(
    line: Seq<char>,
    inc_words: Seq<Seq<char>>,
    exc_words: Seq<Seq<char>>,
    k: int,
)
    requires
        0 <= k < exc_words.len(),
        contains(line, exc_words[k]),
    ensures
        !admits(line, inc_words, exc_words),
{
}

/// With no words of either kind, and the preset ones disabled, every line
/// is shown.
pub proof fn lemma_no_filters_admit_all(line: Seq<char>)
    ensures
        exclusion_words(Seq::empty(), true).len() == 0,
        admits(line, Seq::empty(), exclusion_words(Seq::empty(), true)),
{
}

/// Unless disabled, the preset words are excluded whatever the user's own
/// lists: a line holding one is not shown.
pub proof fn lemma_preset_excluded_by_default(
    line: Seq<char>,
    inc_words: Seq<Seq<char>>,
    user: Seq<Seq<char>>,
    k: int,
)
    requires
        0 <= k < preset_exclude_words().len(),
        contains(line, preset_exclude_words()[k]),
    ensures
        !admits(line, inc_words, exclusion_words(user, false)),
{
    let all = exclusion_words(user, false);
    assert(all[user.len() + k] == preset_exclude_words()[k]);
}

/// Disabling the preset leaves the user's exclude words alone.
pub proof fn lemma_disabled_preset_adds_nothing(user: Seq<Seq<char>>)
    ensures
        exclusion_words(user, true) == user,
{
}

} // verus!
