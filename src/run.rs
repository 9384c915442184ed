//! The decisions of a run over several sources: what each source's outcome
//! prints, how it moves the running total, and whether a totals line ends
//! the run.

use vstd::prelude::*;
use vstd::string::StringExecFns;
use crate::config::Config;
use crate::counts::{combine_spec, FileInfo};
use crate::format::{format_line, line_spec};
use crate::text::{count, counts_of};

verus! {

/// What became of one source.
pub enum SourceEvent {
    /// It could not be opened, for the reason given.
    Unavailable(String),
    /// It was read in full, with this text.
    Contents(String),
    /// It was opened, but reading it failed, for the reason given.
    ReadFailed(String),
}

/// What the run does after one source.
#[derive(Debug, PartialEq, Eq)]
pub enum Action {
    /// Print this line on standard output and go on.
    Report(String),
    /// Print this diagnostic on standard error and go on.
    Diagnose(String),
    /// Stop the run with this error.
    Abort(String),
}

/// The label after a source's counts: none for standard input, else a
/// space and the name.
pub open spec fn label_spec(name: Seq<char>) -> Seq<char> {
    if name == seq!['-'] {
        Seq::empty()
    } else {
        seq![' '] + name
    }
}

/// A message that names the source and the reason.
pub open spec fn message_spec(name: Seq<char>, reason: Seq<char>) -> Seq<char> {
    name + seq![':', ' '] + reason
}

/// Whether `name` is `"-"`, the name of standard input.
pub fn is_stdin_name(name: &str) -> (r: bool)
    ensures
        r == (name@ == seq!['-']),
{
    let mut seen: usize = 0;
    let mut all_dashes = true;
    for c in it: name.chars()
        invariant
            it.seq() == name@,
            seen == if it.index() < 2 {
                it.index() as int
            } else {
                2
            },
            all_dashes == (forall|j: int| 0 <= j < it.index() ==> name@[j] == '-'),
    {
        if c != '-' {
            all_dashes = false;
        }
        if seen < 2 {
            seen = seen + 1;
        }
    }
    let r = seen == 1 && all_dashes;
    if r {
        assert(name@ =~= seq!['-']);
    }
    r
}

/// The label after a source's counts.
pub fn source_label(name: &str) -> (r: String)
    ensures
        r@ == label_spec(name@),
{
    if is_stdin_name(name) {
        String::new()
    } else {
        proof {
            reveal_strlit(" ");
        }
        " ".to_owned().concat(name)
    }
}

/// `"<name>: <reason>"`.
pub fn source_message(name: &str, reason: &str) -> (r: String)
    ensures
        r@ == message_spec(name@, reason@),
{
    proof {
        reveal_strlit(": ");
    }
    name.to_owned().concat(": ").concat(reason)
}

/// Decides what follows from one source's outcome. A source that could not
/// be opened is reported on standard error and leaves the total as it was;
/// one that was read prints its counts and adds them to the total; one
/// whose reading failed stops the run.
pub fn step(config: &Config, total: &mut FileInfo, name: &str, event: SourceEvent) -> (a: Action)
    ensures
        match event {
            SourceEvent::Unavailable(reason) => {
                &&& a is Diagnose
                &&& a->Diagnose_0@ == message_spec(name@, reason@)
                &&& *final(total) == *old(total)
            },
            SourceEvent::Contents(text) => {
                &&& a is Report
                &&& a->Report_0@ == line_spec(counts_of(text@), *config, label_spec(name@))
                &&& *final(total) == combine_spec(*old(total), counts_of(text@))
            },
            SourceEvent::ReadFailed(reason) => {
                &&& a is Abort
                &&& a->Abort_0@ == message_spec(name@, reason@)
                &&& *final(total) == *old(total)
            },
        },
{
    match event {
        SourceEvent::Unavailable(reason) => Action::Diagnose(source_message(name, reason.as_str())),
        SourceEvent::Contents(text) => {
            let info = count(text.as_str());
            total.add_assign(info);
            let label = source_label(name);
            Action::Report(format_line(&info, config, label.as_str()))
        },
        SourceEvent::ReadFailed(reason) => Action::Abort(source_message(name, reason.as_str())),
    }
}

/// The totals line that ends a run, present only when more than one source
/// was configured.
pub fn finish(config: &Config, total: &FileInfo) -> (r: Option<String>)
    ensures
        config.files@.len() > 1 <==> r is Some,
        r matches Some(line) ==> line@ == line_spec(
            *total,
            *config,
            seq![' ', 't', 'o', 't', 'a', 'l'],
        ),
{
    if config.files.len() > 1 {
        proof {
            reveal_strlit(" total");
        }
        Some(format_line(total, config, " total"))
    } else {
        None
    }
}

} // verus!
