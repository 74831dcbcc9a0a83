//! What the screens show for a value of the state: the tone of a status code,
//! the kind of a diff line, the help line of a screen, and the part of the
//! diff that is in sight. How these are drawn is decided elsewhere.

use crate::text::{same_text, starts_with, trim, trimmed};
use crate::view;
use vstd::prelude::*;

verus! {

/// The way a file is marked in the list, by what happened to it.
#[derive(Debug, Clone, Copy, PartialEq, Eq, Structural)]
pub enum Tone {
    Added,
    Modified,
    Deleted,
    Untracked,
    Plain,
}

/// What a line of a diff is.
#[derive(Debug, Clone, Copy, PartialEq, Eq, Structural)]
pub enum LineKind {
    Added,
    Removed,
    Hunk,
    Plain,
}

/// The tone of a status code: the change it names, in the index or in the
/// working tree alike.
pub open spec fn status_tone_of(code: Seq<char>) -> Tone {
    let change = trim(code);
    if change == "A"@ {
        Tone::Added
    } else if change == "M"@ {
        Tone::Modified
    } else if change == "D"@ {
        Tone::Deleted
    } else if change == "??"@ {
        Tone::Untracked
    } else {
        Tone::Plain
    }
}

/// The kind of a diff line, by how it starts.
pub open spec fn line_kind_of(line: Seq<char>) -> LineKind {
    if "+"@.is_prefix_of(line) {
        LineKind::Added
    } else if "-"@.is_prefix_of(line) {
        LineKind::Removed
    } else if "@@"@.is_prefix_of(line) {
        LineKind::Hunk
    } else {
        LineKind::Plain
    }
}

/// The keys that the footer lists for a screen.
pub open spec fn help_text_of(view: view::View) -> Seq<char> {
    match view {
        view::View::Files =>
            "↑/↓:Navigate | PgUp/PgDn:Scroll | s:Stage | a:Stage All | c:Commit | p:Pull | P:Push | S:Sync | r:Refresh | q:Quit"@,
        view::View::History => "↑/↓:Navigate | r:Refresh | q:Quit"@,
        view::View::Branches =>
            "↑/↓:Navigate | n:New Branch | d:Delete | Enter:Checkout | r:Refresh | q:Quit"@,
    }
}

/// The first line of the diff that is in sight: the scroll offset, held back
/// at the last line of the text and at the largest offset that can be drawn.
pub open spec fn visible_scroll_of(diff_scroll: nat, line_count: nat) -> nat {
    let last = if line_count == 0 {
        0
    } else {
        (line_count - 1) as nat
    };
    let held = if diff_scroll < last {
        diff_scroll
    } else {
        last
    };
    if held < u16::MAX {
        held
    } else {
        u16::MAX as nat
    }
}

/// Returns the tone in which a status code is shown.
pub fn status_tone(code: &str) -> (tone: Tone)
    ensures
        tone == status_tone_of(code@),
{
    let change = trimmed(code);
    if same_text(change, "A") {
        Tone::Added
    } else if same_text(change, "M") {
        Tone::Modified
    } else if same_text(change, "D") {
        Tone::Deleted
    } else if same_text(change, "??") {
        Tone::Untracked
    } else {
        Tone::Plain
    }
}

/// Returns the kind of a diff line.
pub fn line_kind(line: &str) -> (kind: LineKind)
    ensures
        kind == line_kind_of(line@),
{
    if starts_with(line, "+") {
        LineKind::Added
    } else if starts_with(line, "-") {
        LineKind::Removed
    } else if starts_with(line, "@@") {
        LineKind::Hunk
    } else {
        LineKind::Plain
    }
}

/// Returns the keys that the footer lists for a screen.
pub fn help_text(view: view::View) -> (text: String)
    ensures
        text@ == help_text_of(view),
{
    match view {
        view::View::Files =>
            "↑/↓:Navigate | PgUp/PgDn:Scroll | s:Stage | a:Stage All | c:Commit | p:Pull | P:Push | S:Sync | r:Refresh | q:Quit".to_owned(),
        view::View::History => "↑/↓:Navigate | r:Refresh | q:Quit".to_owned(),
        view::View::Branches =>
            "↑/↓:Navigate | n:New Branch | d:Delete | Enter:Checkout | r:Refresh | q:Quit".to_owned(),
    }
}

/// Returns the first line of the diff that is in sight.
pub fn visible_scroll(diff_scroll: usize, line_count: usize) -> (offset: u16)
    ensures
        offset as nat == visible_scroll_of(diff_scroll as nat, line_count as nat),
        line_count > 0 ==> offset < line_count,
        offset <= diff_scroll,
{
    let last = if line_count == 0 {
        0
    } else {
        line_count - 1
    };
    let held = if diff_scroll < last {
        diff_scroll
    } else {
        last
    };
    if held < 0xffff {
        held as u16
    } else {
        0xffff
    }
}

} // verus!
