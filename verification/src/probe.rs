//! What a deliverability probe reports of one address, and how its
//! inconclusive parts are to be noted.

use crate::text::{contains, occurs};
use vstd::prelude::*;
use vstd::string::*;

verus! {

/// The outcome of the syntax check.
#[derive(Clone, Copy, Debug, PartialEq, Eq)]
pub struct SyntaxDetails {
    pub valid_format: bool,
}

/// The outcome of the exchange with the address's mail server.
#[derive(Clone, Copy, Debug, PartialEq, Eq)]
pub struct SmtpDetails {
    pub has_full_inbox: bool,
    pub is_deliverable: bool,
    pub is_disabled: bool,
}

/// The outcome of the further checks.
#[derive(Clone, Copy, Debug, PartialEq, Eq)]
pub struct MiscDetails {
    pub is_disposable: bool,
}

/// The three parts of a probe. A part that could not be completed holds the
/// text of its error instead.
#[derive(Debug, PartialEq, Eq)]
pub struct ProbeReport {
    pub syntax: Result<SyntaxDetails, String>,
    pub smtp: Result<SmtpDetails, String>,
    pub misc: Result<MiscDetails, String>,
}

/// How much attention a note asks for.
#[derive(Clone, Copy, Debug, PartialEq, Eq, Structural)]
pub enum Level {
    Info,
    Warning,
}

/// A line for the operator's log.
#[derive(Debug, PartialEq, Eq)]
pub struct Note {
    pub level: Level,
    pub text: String,
}

/// Whether the text of an error says that the check was skipped.
pub open spec fn says_skipped(detail: Seq<char>) -> bool {
    occurs(detail, "Skipped"@)
}

/// What is noted of an SMTP check that ended with the error `detail`.
pub open spec fn smtp_note(detail: Seq<char>) -> (Level, Seq<char>) {
    if says_skipped(detail) {
        (Level::Info, "Skipped checking SMTP validity"@)
    } else {
        (Level::Warning, "Error while checking SMTP validity: "@ + detail)
    }
}

/// What is noted of a disposable-address check that ended with the error
/// `detail`.
pub open spec fn misc_note(detail: Seq<char>) -> (Level, Seq<char>) {
    if says_skipped(detail) {
        (Level::Info, "Skipped checking for disposable email"@)
    } else {
        (Level::Warning, "Error while checking for disposable email: "@ + detail)
    }
}

/// The notes that `report` calls for: one for each of the SMTP check and the
/// disposable-address check that did not complete, in that order.
pub open spec fn spec_notes(report: ProbeReport) -> Seq<(Level, Seq<char>)> {
    (match report.smtp {
        Ok(_) => Seq::empty(),
        Err(detail) => seq![smtp_note(detail@)],
    }) + (match report.misc {
        Ok(_) => Seq::empty(),
        Err(detail) => seq![misc_note(detail@)],
    })
}

/// What each of `notes` says, in order.
pub open spec fn note_views(notes: Seq<Note>) -> Seq<(Level, Seq<char>)> {
    Seq::new(notes.len(), |i: int| (notes[i].level, notes[i].text@))
}

/// Whether the text of an error says that the check was skipped.
pub fn skipped(detail: &str) -> (yes: bool)
    ensures
        yes == says_skipped(detail@),
{
    contains(detail, "Skipped")
}

/// The note on a check that did not complete: `quiet` where it was skipped,
/// else `loud` followed by the text of the error.
fn note_on(detail: &str, quiet: &str, loud: &str) -> (note: Note)
    ensures
        (note.level, note.text@) == if says_skipped(detail@) {
            (Level::Info, quiet@)
        } else {
            (Level::Warning, loud@ + detail@)
        },
{
    if skipped(detail) {
        Note { level: Level::Info, text: String::from_str(quiet) }
    } else {
        let mut text = String::from_str(loud);
        text.append(detail);
        Note { level: Level::Warning, text }
    }
}

impl ProbeReport {
    /// The notes on the parts of the probe that were inconclusive. None of
    /// them bears on the verdict.
    pub fn notes(&self) -> (notes: Vec<Note>)
        ensures
            note_views(notes@) == spec_notes(*self),
    {
        let mut notes: Vec<Note> = Vec::new();
        match &self.smtp {
            Ok(_) => {},
            Err(detail) => {
                notes.push(
                    note_on(
                        detail.as_str(),
                        "Skipped checking SMTP validity",
                        "Error while checking SMTP validity: ",
                    ),
                );
            },
        }
        match &self.misc {
            Ok(_) => {},
            Err(detail) => {
                notes.push(
                    note_on(
                        detail.as_str(),
                        "Skipped checking for disposable email",
                        "Error while checking for disposable email: ",
                    ),
                );
            },
        }
        assert(note_views(notes@) =~= spec_notes(*self));
        notes
    }
}

} // verus!
