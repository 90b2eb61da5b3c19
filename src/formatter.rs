//! The per-line pipeline: filter a line, then highlight what is shown.

use vstd::prelude::*;
use crate::pattern::{Pattern, literal_union, texts};
use crate::lines::joined;
use crate::filtering::{
    InvalidPattern, admits, build_exclude_regex_with, build_include_regex, compiled_from,
    exclusion_words, exclusion_words_with, filter_compiles, given_words, preset_exclude_list,
    should_display_line,
};
use crate::highlighting::{
    HighlightRule, apply_highlighting, critical_keywords, critical_words, default_rules,
    first_rule_failure, highlight_rules_from, highlights, info_keywords, info_words, rules_compile,
    rules_for, untouched_by, warn_keywords, warn_words,
};

verus! {

/// Whether every pattern a formatter needs compiles: those of the two
/// filters, where there are words for them, and those of the three rules.
pub open spec fn setup_compiles(
    wanted: Seq<Seq<char>>,
    unwanted: Seq<Seq<char>>,
    critical: Seq<Seq<char>>,
    warn: Seq<Seq<char>>,
    info: Seq<Seq<char>>,
) -> bool {
    filter_compiles(wanted) && filter_compiles(unwanted) && rules_compile(critical, warn, info)
}

/// The first pattern that does not compile, in the order include filter,
/// exclude filter, critical, warn, info.
pub open spec fn first_setup_failure(
    wanted: Seq<Seq<char>>,
    unwanted: Seq<Seq<char>>,
    critical: Seq<Seq<char>>,
    warn: Seq<Seq<char>>,
    info: Seq<Seq<char>>,
) -> Seq<char> {
    if !filter_compiles(wanted) {
        literal_union(wanted)
    } else if !filter_compiles(unwanted) {
        literal_union(unwanted)
    } else {
        first_rule_failure(critical, warn, info)
    }
}

/// `out` is what `f` shows of `line`: nothing when it is rejected, else the
/// line highlighted by the rules.
pub open spec fn shown(out: Seq<char>, line: Seq<char>, f: LineFormatter) -> bool {
    if admits(line, f.wanted(), f.unwanted()) {
        highlights(out, line, f.rules())
    } else {
        out == Seq::<char>::empty()
    }
}

/// Every one of `lines` is shown by `f`, and no rule matches it.
pub open spec fn all_plain(lines: Seq<Seq<char>>, f: LineFormatter) -> bool {
    forall|i: int|
        0 <= i < lines.len() ==> admits(#[trigger] lines[i], f.wanted(), f.unwanted())
            && untouched_by(lines[i], f.rules())
}

/// The filters and highlight rules of a run, built once at startup.
pub struct LineFormatter {
    include_regex: Option<Pattern>,
    exclude_regex: Option<Pattern>,
    highlight_rules: Vec<HighlightRule>,
    wanted_words: Ghost<Seq<Seq<char>>>,
    unwanted_words: Ghost<Seq<Seq<char>>>,
}

impl LineFormatter {
    /// The words of which a shown line must hold one, when there are any.
    pub closed spec fn wanted(&self) -> Seq<Seq<char>> {
        self.wanted_words@
    }

    /// The words that no shown line holds.
    pub closed spec fn unwanted(&self) -> Seq<Seq<char>> {
        self.unwanted_words@
    }

    /// The highlight rules, in the order they apply.
    pub closed spec fn rules(&self) -> Seq<HighlightRule> {
        self.highlight_rules@
    }

    /// The filters are the ones for the two word lists.
    #[verifier::type_invariant]
    spec fn wf(&self) -> bool {
        compiled_from(self.include_regex, self.wanted_words@) && compiled_from(
            self.exclude_regex,
            self.unwanted_words@,
        )
    }

    /// Builds the filters from the word lists (the `preset_excludes` added
    /// to the exclude words unless disabled) and the highlight rules from
    /// the three keyword lists. Fails with the first pattern that does not
    /// compile, in the order include, exclude, critical, warn, info.
    pub fn with_config(
        include_words: Option<Vec<String>>,
        exclude_words: Option<Vec<String>>,
        preset_excludes: &Vec<String>,
        disable_preset_excludes: bool,
        critical: &Vec<String>,
        warn: &Vec<String>,
        info: &Vec<String>,
    ) -> (r: Result<Self, InvalidPattern>)
        ensures
            ({
                let wanted = given_words(include_words);
                let unwanted = exclusion_words_with(
                    given_words(exclude_words),
                    texts(preset_excludes@),
                    disable_preset_excludes,
                );
                let (c, w, i) = (texts(critical@), texts(warn@), texts(info@));
                &&& (r is Ok <==> setup_compiles(wanted, unwanted, c, w, i))
                &&& (r matches Ok(f) ==> {
                    &&& f.wanted() == wanted
                    &&& f.unwanted() == unwanted
                    &&& rules_for(f.rules(), c, w, i)
                })
                &&& (r matches Err(e) ==> e.pattern@ == first_setup_failure(
                    wanted,
                    unwanted,
                    c,
                    w,
                    i,
                ))
            }),
    {
        let ghost wanted = given_words(include_words);
        let ghost unwanted = exclusion_words_with(
            given_words(exclude_words),
            texts(preset_excludes@),
            disable_preset_excludes,
        );
        let include_regex = build_include_regex(include_words)?;
        let exclude_regex = build_exclude_regex_with(
            exclude_words,
            preset_excludes,
            disable_preset_excludes,
        )?;
        let highlight_rules = highlight_rules_from(critical, warn, info)?;
        Ok(LineFormatter {
            include_regex,
            exclude_regex,
            highlight_rules,
            wanted_words: Ghost(wanted),
            unwanted_words: Ghost(unwanted),
        })
    }

    /// Builds the filters from the word lists (the preset exclude words
    /// added unless disabled) and the default highlight rules. Fails with
    /// the first pattern that does not compile, in the order include,
    /// exclude, critical, warn, info.
    pub fn new(
        include_words: Option<Vec<String>>,
        exclude_words: Option<Vec<String>>,
        disable_preset_excludes: bool,
    ) -> (r: Result<Self, InvalidPattern>)
        ensures
            ({
                let wanted = given_words(include_words);
                let unwanted = exclusion_words(given_words(exclude_words), disable_preset_excludes);
                let (c, w, i) = (critical_keywords(), warn_keywords(), info_keywords());
                &&& (r is Ok <==> setup_compiles(wanted, unwanted, c, w, i))
                &&& (r matches Ok(f) ==> {
                    &&& f.wanted() == wanted
                    &&& f.unwanted() == unwanted
                    &&& default_rules(f.rules())
                })
                &&& (r matches Err(e) ==> e.pattern@ == first_setup_failure(
                    wanted,
                    unwanted,
                    c,
                    w,
                    i,
                ))
            }),
    {
        LineFormatter::with_config(
            include_words,
            exclude_words,
            &preset_exclude_list(),
            disable_preset_excludes,
            &critical_words(),
            &warn_words(),
            &info_words(),
        )
    }

    /// The line as shown, or `None` when the filters reject it.
    pub fn process_line(&self, line: &str) -> (r: Option<String>)
        ensures
            r is Some <==> admits(line@, self.wanted(), self.unwanted()),
            r matches Some(s) ==> highlights(s@, line@, self.rules()),
            untouched_by(line@, self.rules()) ==> (r matches Some(s) ==> s@ == line@),
    {
        proof {
            use_type_invariant(self);
        }
        if should_display_line(line, &self.include_regex, &self.exclude_regex) {
            Some(apply_highlighting(line, self.highlight_rules.as_slice()))
        } else {
            None
        }
    }

    /// What the lines show, one after another in their order: each line is
    /// filtered and highlighted on its own, exactly once. When every line is
    /// shown and none is highlighted, that is the lines themselves.
    pub fn process_lines(&self, lines: &[String]) -> (r: String)
        ensures
            exists|outs: Seq<Seq<char>>|
                #![trigger joined(outs)]
                outs.len() == lines@.len() && (forall|i: int|
                    0 <= i < lines@.len() ==> shown(#[trigger] outs[i], lines@[i]@, *self))
                    && r@ == joined(outs),
            all_plain(texts(lines@), *self) ==> r@ == joined(texts(lines@)),
    {
        let mut out = String::new();
        let ghost mut outs: Seq<Seq<char>> = Seq::empty();
        let mut i: usize = 0;
        while i < lines.len()
            invariant
                0 <= i <= lines@.len(),
                outs.len() == i,
                forall|j: int| 0 <= j < i ==> shown(#[trigger] outs[j], lines@[j]@, *self),
                out@ == joined(outs),
                all_plain(texts(lines@), *self) ==> outs == texts(lines@).take(i as int),
            decreases lines@.len() - i,
        {
            let ghost before = out@;
            let ghost prev = outs;
            match self.process_line(lines[i].as_str()) {
                Some(s) => {
                    out.append(s.as_str());
                    proof {
                        outs = outs.push(s@);
                    }
                },
                None => {
                    proof {
                        outs = outs.push(Seq::empty());
                    }
                },
            }
            proof {
                assert(outs.drop_last() =~= prev);
                assert(out@ =~= joined(outs));
                assert forall|j: int| 0 <= j < i + 1 implies shown(
                    #[trigger] outs[j],
                    lines@[j]@,
                    *self,
                ) by {
                    if j < i {
                        assert(outs[j] == prev[j]);
                    }
                }
                if all_plain(texts(lines@), *self) {
                    assert(texts(lines@)[i as int] == lines@[i as int]@);
                    assert(outs =~= texts(lines@).take(i as int + 1));
                }
            }
            i = i + 1;
        }
        assert(texts(lines@).take(lines@.len() as int) =~= texts(lines@));
        out
    }

    /// The include filter, if any.
    pub fn get_include_regex(&self) -> (r: &Option<Pattern>)
        ensures
            compiled_from(*r, self.wanted()),
    {
        proof {
            use_type_invariant(self);
        }
        &self.include_regex
    }

    /// The exclude filter, if any.
    pub fn get_exclude_regex(&self) -> (r: &Option<Pattern>)
        ensures
            compiled_from(*r, self.unwanted()),
    {
        proof {
            use_type_invariant(self);
        }
        &self.exclude_regex
    }
}

} // verus!
