//! The settings of a run.

use vstd::prelude::*;
use crate::pattern::texts;

verus! {

/// What a run was asked to do.
#[derive(Debug)]
pub struct Args {
    /// The files to read; the system log when absent.
    pub log_files: Option<Vec<String>>,
    /// Whether the preset exclude words are left out.
    pub disable_preset_excludes: bool,
    /// Lines holding one of these are not shown.
    pub exclude_words: Option<Vec<String>>,
    /// When given, only lines holding one of these are shown.
    pub include_words: Option<Vec<String>>,
    /// Whether the effective settings are printed first.
    pub debug: bool,
    /// Whether the files are read once to their end instead of followed.
    pub cat: bool,
}

/// How the files are read.
#[derive(Clone, Copy, Debug, PartialEq, Eq, Structural)]
pub enum RunMode {
    /// Only content added from now on is shown, without end.
    Follow,
    /// The whole of each file is shown once, file after file.
    OneShot,
}

/// The files read when none are named.
pub open spec fn default_log_paths() -> Seq<Seq<char>> {
    seq!["/var/log/messages"@]
}

/// The files read when none are named.
pub fn default_log_files() -> (r: Vec<String>)
    ensures
        texts(r@) == default_log_paths(),
{
    let r = vec!["/var/log/messages".to_owned()];
    assert(texts(r@) =~= default_log_paths());
    r
}

/// The files named, or the default ones when none are.
pub fn resolve_log_files(log_files: Option<Vec<String>>) -> (r: Vec<String>)
    ensures
        texts(r@) == match log_files {
            Some(v) => texts(v@),
            None => default_log_paths(),
        },
{
    match log_files {
        Some(v) => v,
        None => default_log_files(),
    }
}

impl Args {
    /// The way the files are read.
    pub fn run_mode(&self) -> (r: RunMode)
        ensures
            r == (if self.cat {
                RunMode::OneShot
            } else {
                RunMode::Follow
            }),
    {
        if self.cat {
            RunMode::OneShot
        } else {
            RunMode::Follow
        }
    }
}

} // verus!
