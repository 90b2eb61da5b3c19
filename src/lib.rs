//! A filtering and highlighting pipeline for log lines: keyword filters built
//! from word lists, ordered highlight rules, and the assembly of raw file
//! content into lines.

pub mod pattern;
pub mod filtering;
pub mod highlighting;
pub mod formatter;
pub mod lines;
pub mod cli;
