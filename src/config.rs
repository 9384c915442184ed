//! Which sources a run reads and which fields it shows.

use vstd::prelude::*;

verus! {

/// The settings of one run: the sources in order (`"-"` is standard
/// input) and which of the four fields are shown.
#[derive(Debug)]
pub struct Config {
    pub files: Vec<String>,
    pub lines: bool,
    pub words: bool,
    pub bytes: bool,
    pub chars: bool,
}

impl Config {
    /// Builds the settings from what was asked for. When no field was asked
    /// for, lines, words and bytes are shown.
    pub fn new(files: Vec<String>, lines: bool, words: bool, bytes: bool, chars: bool) -> (r:
        Config)
        ensures
            r.files@ == files@,
            r.chars == chars,
            !lines && !words && !bytes && !chars ==> r.lines && r.words && r.bytes,
            lines || words || bytes || chars ==> r.lines == lines && r.words == words && r.bytes
                == bytes,
    {
        if !lines && !words && !bytes && !chars {
            Config { files, lines: true, words: true, bytes: true, chars }
        } else {
            Config { files, lines, words, bytes, chars }
        }
    }
}

} // verus!
