//! The shaping of what the repository reports into the values that the state
//! holds: status codes, commit summaries, branch entries and diff texts. The
//! calls into the repository are made elsewhere; these functions take what
//! came back as plain values.

use crate::app::{BranchInfo, CommitInfo, FileStatus};
use crate::model::BranchInfoModel;
use crate::text::{join, same_text};
use vstd::prelude::*;

verus! {

/// The format in which the date of a commit is shown.
pub const DATE_FORMAT: &'static str = "%Y-%m-%d %H:%M:%S";

/// The number of characters of a commit id that are shown.
pub const SHORT_ID_LEN: usize = 7;

/// The text that chrono gives for this many seconds since the Unix epoch in
/// UTC under a strftime pattern; `None` where chrono has no date for the
/// seconds or rejects the pattern.
pub uninterp spec fn timestamp_text(seconds: int, pattern: Seq<char>) -> Option<Seq<char>>;

/// `chrono::DateTime::from_timestamp` with no nanoseconds, formatted by
/// `DateTime::format` and written out by `DelayedFormat::write_to`. The date
/// is in UTC and the formatting uses no locale, so the text depends on the
/// seconds and the pattern alone; it is named, not restated. `None` stands
/// for seconds out of chrono's range and for a pattern that it cannot format.
#[verifier::external_body]
fn format_timestamp(seconds: i64, pattern: &str) -> (text: Option<String>)
    ensures
        text.deep_view() == timestamp_text(seconds as int, pattern@),
{
    let moment = chrono::DateTime::from_timestamp(seconds, 0)?;
    let mut text = String::new();
    match moment.format(pattern).write_to(&mut text) {
        Ok(()) => Some(text),
        Err(_) => None,
    }
}

/// Which changes the repository reports for one path.
#[derive(Debug, Clone, Copy, PartialEq, Eq, Structural)]
pub struct StatusFlags {
    pub index_new: bool,
    pub index_modified: bool,
    pub index_deleted: bool,
    pub wt_new: bool,
    pub wt_modified: bool,
    pub wt_deleted: bool,
}

/// The two-character code of a path: a change in the index goes before a
/// change in the working tree, and within each a new file goes before a
/// modified one and that before a deleted one.
pub open spec fn status_code_of(flags: StatusFlags) -> Seq<char> {
    if flags.index_new {
        "A "@
    } else if flags.index_modified {
        "M "@
    } else if flags.index_deleted {
        "D "@
    } else if flags.wt_new {
        "??"@
    } else if flags.wt_modified {
        " M"@
    } else if flags.wt_deleted {
        " D"@
    } else {
        "  "@
    }
}

/// The first `limit` characters of a text, or all of it if it is shorter.
pub open spec fn prefix_of(text: Seq<char>, limit: nat) -> Seq<char> {
    if text.len() <= limit {
        text
    } else {
        text.take(limit as int)
    }
}

/// The number of characters before the first line feed.
pub open spec fn line_end(text: Seq<char>) -> nat
    decreases text.len(),
{
    if text.len() == 0 || text.first() == '\n' {
        0
    } else {
        1 + line_end(text.drop_first())
    }
}

/// The first line of a text, without its line ending: a line feed, or a
/// carriage return followed by a line feed.
pub open spec fn first_line_of(text: Seq<char>) -> Seq<char> {
    let end = line_end(text);
    let line = text.take(end as int);
    if end < text.len() && line.len() > 0 && line.last() == '\r' {
        line.drop_last()
    } else {
        line
    }
}

/// The date text of a commit: what chrono gave, or nothing where it gave none.
pub open spec fn commit_date_of(formatted: Option<Seq<char>>) -> Seq<char> {
    match formatted {
        Some(text) => text,
        None => Seq::empty(),
    }
}

/// The summary of a commit as the history shows it.
pub open spec fn commit_info_of(
    id_hex: Seq<char>,
    author: Option<Seq<char>>,
    formatted: Option<Seq<char>>,
    message: Option<Seq<char>>,
) -> crate::model::CommitInfoModel {
    crate::model::CommitInfoModel {
        id: prefix_of(id_hex, SHORT_ID_LEN as nat),
        author: match author {
            Some(name) => name,
            None => "Unknown"@,
        },
        date: commit_date_of(formatted),
        message: match message {
            Some(text) => first_line_of(text),
            None => Seq::empty(),
        },
    }
}

/// The branch entries for a list of branch names: each is current exactly
/// when it bears the name of the checked-out branch.
pub open spec fn branch_infos_of(names: Seq<Seq<char>>, current: Seq<char>) -> Seq<
    BranchInfoModel,
> {
    Seq::new(
        names.len(),
        |i: int| BranchInfoModel { name: names[i], is_current: names[i] == current },
    )
}

/// The lines of a new file as a diff shows them: each after a plus sign and
/// ended by a line feed.
pub open spec fn added_lines(lines: Seq<Seq<char>>) -> Seq<char>
    decreases lines.len(),
{
    if lines.len() == 0 {
        Seq::empty()
    } else {
        added_lines(lines.drop_last()) + seq!['+'] + lines.last() + seq!['\n']
    }
}

/// The diff that is shown for a file that the repository does not track yet.
pub open spec fn untracked_diff_of(path: Seq<char>, lines: Seq<Seq<char>>) -> Seq<char> {
    "New file: "@ + path + "\n--- /dev/null\n+++ "@ + path + "\n"@ + added_lines(lines)
}

/// One line of a patch as it is shown: lines that were added, removed or kept
/// start with their marker, every other line stands as it is.
pub open spec fn diff_line_of(origin: char, content: Seq<char>) -> Seq<char> {
    if origin == '+' || origin == '-' || origin == ' ' {
        seq![origin] + content
    } else {
        content
    }
}

/// The text that is shown for a file: its diff, or a notice where the diff is empty.
pub open spec fn diff_or_notice_of(text: Seq<char>, path: Seq<char>) -> Seq<char> {
    if text.len() == 0 {
        "No changes to display for: "@ + path
    } else {
        text
    }
}

/// Returns the two-character status code for the changes of one path.
pub fn status_code(flags: StatusFlags) -> (code: String)
    ensures
        code@ == status_code_of(flags),
        code@.len() == 2,
{
    proof {
        reveal_strlit("A ");
        reveal_strlit("M ");
        reveal_strlit("D ");
        reveal_strlit("??");
        reveal_strlit(" M");
        reveal_strlit(" D");
        reveal_strlit("  ");
    }
    let code = if flags.index_new {
        "A "
    } else if flags.index_modified {
        "M "
    } else if flags.index_deleted {
        "D "
    } else if flags.wt_new {
        "??"
    } else if flags.wt_modified {
        " M"
    } else if flags.wt_deleted {
        " D"
    } else {
        "  "
    };
    code.to_owned()
}

/// Returns the list entry for one path; a path that is not valid text is shown empty.
pub fn file_status(path: Option<&str>, flags: StatusFlags) -> (file: FileStatus)
    ensures
        file.path@ == (match path {
            Some(text) => text@,
            None => Seq::<char>::empty(),
        }),
        file.status@ == status_code_of(flags),
{
    let path = match path {
        Some(text) => text.to_owned(),
        None => String::new(),
    };
    FileStatus { path, status: status_code(flags) }
}

/// Returns the first `limit` characters of `text`.
pub fn prefix(text: &str, limit: usize) -> (head: String)
    ensures
        head@ == prefix_of(text@, limit as nat),
{
    let n = text.unicode_len();
    if n <= limit {
        text.to_owned()
    } else {
        text.substring_char(0, limit).to_owned()
    }
}

/// Returns the first line of `text` without its line ending.
pub fn first_line(text: &str) -> (line: String)
    ensures
        line@ == first_line_of(text@),
{
    let n = text.unicode_len();
    let mut end: usize = 0;
    assert(text@.skip(0) =~= text@);
    while end < n && text.get_char(end) != '\n'
        invariant
            end <= n,
            n == text@.len(),
            line_end(text@) == end + line_end(text@.skip(end as int)),
        decreases n - end,
    {
        proof {
            let rest = text@.skip(end as int);
            assert(rest.first() == text@[end as int]);
            assert(rest.drop_first() =~= text@.skip(end + 1));
        }
        end += 1;
    }
    proof {
        if end < n {
            assert(text@.skip(end as int).first() == text@[end as int]);
        }
        assert(line_end(text@) == end);
    }
    let stop = if end < n && end > 0 && text.get_char(end - 1) == '\r' {
        end - 1
    } else {
        end
    };
    proof {
        let line = text@.take(end as int);
        if end > 0 {
            assert(line.last() == text@[end - 1]);
            assert(line.drop_last() =~= text@.subrange(0, end - 1));
        }
        assert(line =~= text@.subrange(0, end as int));
    }
    text.substring_char(0, stop).to_owned()
}

/// Returns the date text for what chrono gave: nothing where it gave none.
pub fn commit_date(formatted: Option<String>) -> (date: String)
    ensures
        date@ == commit_date_of(formatted.deep_view()),
{
    match formatted {
        Some(text) => text,
        None => String::new(),
    }
}

/// Returns the summary of a commit: the id cut to its short form, the
/// author's name or `Unknown`, the commit time as a UTC date, and the first
/// line of the message.
pub fn commit_info(
    id_hex: &str,
    author: Option<&str>,
    seconds: i64,
    message: Option<&str>,
) -> (info: CommitInfo)
    ensures
        info.deep_view() == commit_info_of(
            id_hex@,
            match author {
                Some(name) => Some(name@),
                None => None,
            },
            timestamp_text(seconds as int, DATE_FORMAT@),
            match message {
                Some(text) => Some(text@),
                None => None,
            },
        ),
{
    CommitInfo {
        id: prefix(id_hex, SHORT_ID_LEN),
        author: match author {
            Some(name) => name.to_owned(),
            None => "Unknown".to_owned(),
        },
        date: commit_date(format_timestamp(seconds, DATE_FORMAT)),
        message: match message {
            Some(text) => first_line(text),
            None => String::new(),
        },
    }
}

/// Returns the branch entries for the names of the local branches.
pub fn branch_infos(names: Vec<String>, current_branch: &str) -> (branches: Vec<BranchInfo>)
    ensures
        branches.deep_view() == branch_infos_of(names.deep_view(), current_branch@),
{
    let mut branches: Vec<BranchInfo> = Vec::new();
    let mut i: usize = 0;
    while i < names.len()
        invariant
            i <= names.len(),
            branches.len() == i,
            forall|k: int|
                0 <= k < i ==> (#[trigger] branches[k]).deep_view() == (BranchInfoModel {
                    name: names[k]@,
                    is_current: names[k]@ == current_branch@,
                }),
        decreases names.len() - i,
    {
        let name = names[i].clone();
        let is_current = same_text(name.as_str(), current_branch);
        branches.push(BranchInfo { name, is_current });
        i += 1;
    }
    assert(branches.deep_view() =~= branch_infos_of(names.deep_view(), current_branch@));
    branches
}

/// Returns the name under which the checked-out branch is shown: its short
/// name, or `HEAD` where it has none that is valid text.
pub fn current_branch_name(shorthand: Option<&str>) -> (name: String)
    ensures
        name@ == (match shorthand {
            Some(text) => text@,
            None => "HEAD"@,
        }),
{
    match shorthand {
        Some(text) => text.to_owned(),
        None => "HEAD".to_owned(),
    }
}

/// Returns the diff that is shown for an untracked file with these lines.
pub fn untracked_diff(path: &str, lines: &Vec<String>) -> (text: String)
    ensures
        text@ == untracked_diff_of(path@, lines.deep_view()),
{
    let mut text = join("New file: ", path);
    text.append("\n--- /dev/null\n+++ ");
    text.append(path);
    text.append("\n");
    let ghost head = text@;
    let mut i: usize = 0;
    assert(lines.deep_view().take(0) =~= Seq::<Seq<char>>::empty());
    while i < lines.len()
        invariant
            i <= lines.len(),
            text@ == head + added_lines(lines.deep_view().take(i as int)),
        decreases lines.len() - i,
    {
        text.push('+');
        text.append(lines[i].as_str());
        text.push('\n');
        proof {
            let before = lines.deep_view().take(i as int);
            let now = lines.deep_view().take(i + 1);
            assert(now.drop_last() =~= before);
            assert(now.last() == lines[i as int]@);
            assert(text@ =~= head + added_lines(now));
        }
        i += 1;
    }
    assert(lines.deep_view().take(lines.len() as int) =~= lines.deep_view());
    text
}

/// Appends one line of a patch to the diff text.
pub fn push_diff_line(text: &mut String, origin: char, content: &str)
    ensures
        final(text)@ == old(text)@ + diff_line_of(origin, content@),
{
    if origin == '+' || origin == '-' || origin == ' ' {
        text.push(origin);
        assert(text@ + content@ =~= old(text)@ + (seq![origin] + content@));
    }
    text.append(content);
}

/// Returns the text that is shown for a file: its diff, or a notice where the
/// diff is empty.
pub fn diff_or_notice(text: String, path: &str) -> (shown: String)
    ensures
        shown@ == diff_or_notice_of(text@, path@),
{
    if text.as_str().is_empty() {
        join("No changes to display for: ", path)
    } else {
        text
    }
}

} // verus!
