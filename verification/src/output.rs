//! What becomes of each line the downloader prints: progress reports are
//! told apart from ordinary log lines, and a progress report is turned into
//! the one-line message the window shows.

use vstd::prelude::*;

use crate::text::{blank, has_prefix, is_blank, strip_prefix, trimmed, trim};

verus! {

/// The marker with which the launcher prefixes a JSON progress report.
pub const PROGRESS_PREFIX: &'static str = "__BOOSTY_PROGRESS__";

/// The text of the progress marker.
pub open spec fn progress_prefix() -> Seq<char> {
    "__BOOSTY_PROGRESS__"@
}

/// A progress report that does not say otherwise is active.
pub fn default_progress_active() -> (res: bool)
    ensures
        res,
{
    true
}

/// Which output stream of the downloader a line came from.
pub enum OutputStream {
    /// Standard output: log lines and progress reports.
    Log,
    /// Standard error.
    Error,
}

impl OutputStream {
    /// The event kind under which lines of this stream reach the window.
    pub fn kind(&self) -> (res: String)
        ensures
            res@ == match self {
                OutputStream::Log => "log"@,
                OutputStream::Error => "error"@,
            },
    {
        match self {
            OutputStream::Log => "log".to_owned(),
            OutputStream::Error => "error".to_owned(),
        }
    }
}

/// What to do with one line of the downloader's output.
pub enum OutputLine {
    /// A blank line: show nothing.
    Skip,
    /// A progress report: this JSON text follows the marker. When it cannot
    /// be read as a report, the line is shown as it is.
    Progress(String),
    /// An ordinary line: show it as it is.
    Plain,
}

/// Sorts one output line: blank lines are dropped, a trimmed standard-output
/// line that starts with the progress marker carries a report, anything else
/// is shown unchanged.
pub fn classify_output_line(line: &str, stream: &OutputStream) -> (res: OutputLine)
    ensures
        is_blank(line@) ==> res is Skip,
        !is_blank(line@) && stream is Log && has_prefix(trimmed(line@), progress_prefix())
            ==> res is Progress && res->0@ == trimmed(line@).subrange(
            progress_prefix().len() as int,
            trimmed(line@).len() as int,
        ),
        !is_blank(line@) && !(stream is Log && has_prefix(trimmed(line@), progress_prefix()))
            ==> res is Plain,
{
    if blank(line) {
        return OutputLine::Skip;
    }
    match stream {
        OutputStream::Log => {
            let trimmed_line = trim(line);
            proof {
                reveal_strlit("__BOOSTY_PROGRESS__");
            }
            match strip_prefix(trimmed_line.as_str(), PROGRESS_PREFIX) {
                Some(raw) => OutputLine::Progress(raw),
                None => OutputLine::Plain,
            }
        },
        OutputStream::Error => OutputLine::Plain,
    }
}

/// The message shown for a progress report: empty when the report is no
/// longer active; otherwise the label, followed by the rounded percentage
/// and the detail when they are given.
pub open spec fn progress_text(
    label: Seq<char>,
    percent: Option<Seq<char>>,
    detail: Seq<char>,
    active: bool,
) -> Seq<char> {
    if !active {
        Seq::empty()
    } else {
        match percent {
            Some(p) => if detail.len() > 0 {
                label + " — "@ + p + "% · "@ + detail
            } else {
                label + " — "@ + p + "%"@
            },
            None => if detail.len() > 0 {
                label + " — "@ + detail
            } else {
                label
            },
        }
    }
}

/// Builds the message for a progress report. `percent` is the percentage
/// already rounded to a whole number and written out in decimal.
pub fn progress_message(
    label: &str,
    percent: Option<&str>,
    detail: &str,
    active: bool,
) -> (res: String)
    ensures
        res@ == progress_text(
            label@,
            match percent {
                Some(p) => Some(p@),
                None => None,
            },
            detail@,
            active,
        ),
{
    if !active {
        return String::new();
    }
    let mut message = label.to_owned();
    let has_detail = detail.unicode_len() > 0;
    match percent {
        Some(p) => {
            message.append(" — ");
            message.append(p);
            if has_detail {
                message.append("% · ");
                message.append(detail);
            } else {
                message.append("%");
            }
        },
        None => {
            if has_detail {
                message.append(" — ");
                message.append(detail);
            }
        },
    }
    message
}

} // verus!
