//! What the operator is told: how each host fared, how many fared how, and
//! what a command wrote.

use vstd::prelude::*;
use vstd::string::*;
use vstd::utf8::{decode_utf8, valid_utf8};
use crate::failure::Failure;
use crate::ssh_client::CommandOutput;
use crate::text::{decimal, decimal_string};

verus! {

/// How an operation on one host ended.
#[derive(Debug, PartialEq, Eq)]
pub enum Verdict {
    /// It was carried out; a command left with status zero.
    Success,
    /// The command was run and left with this status, which is not zero.
    Warning(i32),
    /// It could not be carried out, for the reason given.
    Failure(String),
}

/// Mathematical value of a [`Verdict`].
pub enum VerdictView {
    Success,
    Warning(int),
    Failure(Seq<char>),
}

impl View for Verdict {
    type V = VerdictView;

    open spec fn view(&self) -> VerdictView {
        match self {
            Verdict::Success => VerdictView::Success,
            Verdict::Warning(status) => VerdictView::Warning(*status as int),
            Verdict::Failure(reason) => VerdictView::Failure(reason@),
        }
    }
}

/// The numeral of an integer: that of its size, after a minus sign if it is
/// negative.
pub open spec fn signed_decimal(n: int) -> Seq<char> {
    if n < 0 {
        seq!['-'] + decimal((-n) as nat)
    } else {
        decimal(n as nat)
    }
}

/// Renders `n` in decimal.
pub fn signed_decimal_string(n: i32) -> (s: String)
    ensures
        s@ == signed_decimal(n as int),
{
    let wide: i64 = n as i64;
    if wide < 0 {
        let mut s: String = String::from_str("-");
        let digits: String = decimal_string((-wide) as u64);
        s.append(digits.as_str());
        proof {
            reveal_strlit("-");
            assert(s@ =~= signed_decimal(n as int));
        }
        s
    } else {
        decimal_string(wide as u64)
    }
}

impl VerdictView {
    /// The verdict on a command: a failure if it could not be run, a
    /// warning if it left with a status other than zero.
    pub open spec fn of_command(status: Result<int, Seq<char>>) -> VerdictView {
        match status {
            Ok(status) => if status == 0 {
                VerdictView::Success
            } else {
                VerdictView::Warning(status)
            },
            Err(reason) => VerdictView::Failure(reason),
        }
    }

    /// The verdict in words.
    pub open spec fn message(self) -> Seq<char> {
        match self {
            VerdictView::Success => "success"@,
            VerdictView::Warning(status) => "warning: exit status = "@ + signed_decimal(status),
            VerdictView::Failure(reason) => "failure: "@ + reason,
        }
    }
}

impl Verdict {
    /// The verdict on the outcome of a command.
    pub fn of_command(outcome: &Result<CommandOutput, Failure>) -> (verdict: Verdict)
        ensures
            verdict@ == VerdictView::of_command(
                match outcome {
                    Ok(output) => Ok(output.exit_status as int),
                    Err(failure) => Err(failure.message@),
                },
            ),
    {
        match outcome {
            Ok(output) => {
                if output.exit_status == 0 {
                    Verdict::Success
                } else {
                    Verdict::Warning(output.exit_status)
                }
            },
            Err(failure) => Verdict::Failure(failure.message.clone()),
        }
    }

    /// The verdict on the outcome of a transfer.
    pub fn of_transfer(outcome: &Result<(), Failure>) -> (verdict: Verdict)
        ensures
            verdict@ == match outcome {
                Ok(_) => VerdictView::Success,
                Err(failure) => VerdictView::Failure(failure.message@),
            },
    {
        match outcome {
            Ok(_) => Verdict::Success,
            Err(failure) => Verdict::Failure(failure.message.clone()),
        }
    }

    /// The verdict in words.
    pub fn message(&self) -> (text: String)
        ensures
            text@ == self@.message(),
    {
        match self {
            Verdict::Success => String::from_str("success"),
            Verdict::Warning(status) => {
                let mut text: String = String::from_str("warning: exit status = ");
                let digits: String = signed_decimal_string(*status);
                text.append(digits.as_str());
                text
            },
            Verdict::Failure(reason) => {
                let mut text: String = String::from_str("failure: ");
                text.append(reason.as_str());
                text
            },
        }
    }
}

/// How many hosts fared how.
#[derive(Debug, Clone, Copy, PartialEq, Eq, Structural)]
pub struct Tally {
    /// Hosts on which the operation succeeded.
    pub success: usize,
    /// Hosts on which the command left with a status other than zero.
    pub warning: usize,
    /// Hosts on which the operation failed.
    pub failure: usize,
}

impl Tally {
    /// The number of hosts counted.
    pub open spec fn total(self) -> int {
        self.success + self.warning + self.failure
    }

    /// The tally with one more host counted under its verdict.
    pub open spec fn with(self, verdict: VerdictView) -> Tally {
        match verdict {
            VerdictView::Success => Tally { success: (self.success + 1) as usize, ..self },
            VerdictView::Warning(_) => Tally { warning: (self.warning + 1) as usize, ..self },
            VerdictView::Failure(_) => Tally { failure: (self.failure + 1) as usize, ..self },
        }
    }

    /// The tally of no hosts.
    pub fn new() -> (tally: Tally)
        ensures
            tally == (Tally { success: 0, warning: 0, failure: 0 }),
    {
        Tally { success: 0, warning: 0, failure: 0 }
    }

    /// Counts one more host under its verdict.
    pub fn record(&mut self, verdict: &Verdict)
        requires
            old(self).total() < usize::MAX,
        ensures
            *final(self) == old(self).with(verdict@),
            final(self).total() == old(self).total() + 1,
    {
        match verdict {
            Verdict::Success => {
                self.success = self.success + 1;
            },
            Verdict::Warning(_) => {
                self.warning = self.warning + 1;
            },
            Verdict::Failure(_) => {
                self.failure = self.failure + 1;
            },
        }
    }
}

/// The line that sums up the hosts under a label: the label, the number of
/// hosts, and `host` for one or `hosts` for any other number.
pub open spec fn summary_text(label: Seq<char>, count: nat) -> Seq<char> {
    label + ": "@ + decimal(count) + if count == 1 {
        " host"@
    } else {
        " hosts"@
    }
}

/// Whether `label` is one of the labels under which hosts are counted:
/// `success`, `warning` and `failure`.
pub open spec fn is_label(label: Seq<char>) -> bool {
    label == "success"@ || label == "warning"@ || label == "failure"@
}

/// Writes the line that sums up the hosts counted under `label`, which is
/// one of `success`, `warning` and `failure`.
pub fn summary_line(label: &str, count: usize) -> (line: String)
    requires
        is_label(label@),
    ensures
        line@ == summary_text(label@, count as nat),
{
    let mut line: String = String::from_str(label);
    line.append(": ");
    let digits: String = decimal_string(count as u64);
    line.append(digits.as_str());
    if count == 1 {
        line.append(" host");
    } else {
        line.append(" hosts");
    }
    assert(line@ =~= summary_text(label@, count as nat));
    line
}

/// Whether `c` is white space: whether it has the Unicode property
/// `White_Space`.
pub open spec fn is_white_space(c: char) -> bool {
    ||| ('\u{9}' <= c && c <= '\u{d}')
    ||| c == ' '
    ||| c == '\u{85}'
    ||| c == '\u{a0}'
    ||| c == '\u{1680}'
    ||| ('\u{2000}' <= c && c <= '\u{200a}')
    ||| c == '\u{2028}'
    ||| c == '\u{2029}'
    ||| c == '\u{202f}'
    ||| c == '\u{205f}'
    ||| c == '\u{3000}'
}

/// What is left of a text when the white space at its end is taken away:
/// its longest beginning that does not end in white space.
pub open spec fn trimmed_end(text: Seq<char>) -> Seq<char>
    decreases text.len(),
{
    if text.len() > 0 && is_white_space(text.last()) {
        trimmed_end(text.drop_last())
    } else {
        text
    }
}

/// `str::trim_end` of the standard library, which is documented to return
/// the text with trailing white space removed, white space being the
/// characters with the Unicode property `White_Space`. Believed, not
/// proved: that this is [`trimmed_end`] of the text.
#[verifier::external_body]
fn trim_end(text: &str) -> (trimmed: &str)
    ensures
        trimmed@ == trimmed_end(text@),
{
    text.trim_end()
}

/// `std::str::from_utf8` of the standard library, which is documented to
/// return the bytes as text if they are valid UTF-8 and an error if they
/// are not. Believed, not proved: that there is a text exactly if the bytes
/// are valid UTF-8, and that it is the text that they encode.
#[verifier::external_body]
fn utf8_text(bytes: &[u8]) -> (text: Option<&str>)
    ensures
        text is Some <==> valid_utf8(bytes@),
        text matches Some(t) ==> t@ == decode_utf8(bytes@),
{
    std::str::from_utf8(bytes).ok()
}

/// The name of a stream of a command.
pub open spec fn stream_label(stdout: bool) -> Seq<char> {
    if stdout {
        "stdout"@
    } else {
        "stderr"@
    }
}

/// What to show of what a command wrote to a stream: nothing if it wrote
/// nothing; the text without the white space at its end if it wrote text;
/// else a note with the number of bytes.
pub open spec fn stream_text(bytes: Seq<u8>, stdout: bool) -> Option<Seq<char>> {
    if bytes.len() == 0 {
        None
    } else if valid_utf8(bytes) {
        Some(trimmed_end(decode_utf8(bytes)))
    } else {
        Some(stream_label(stdout) + " is not UTF-8 ("@ + decimal(bytes.len()) + " bytes)"@)
    }
}

/// What to show of text that a command wrote: the text without the white
/// space at its end.
pub fn shown_text(text: &str) -> (shown: String)
    ensures
        shown@ == trimmed_end(text@),
{
    String::from_str(trim_end(text))
}

/// What to show of the bytes that a command wrote to its standard output
/// (`stdout`) or its standard error.
pub fn shown_bytes(bytes: &[u8], stdout: bool) -> (shown: Option<String>)
    ensures
        match shown {
            Some(text) => stream_text(bytes@, stdout) == Some(text@),
            None => stream_text(bytes@, stdout) is None,
        },
{
    if bytes.len() == 0 {
        return None;
    }
    match utf8_text(bytes) {
        Some(text) => Some(shown_text(text)),
        None => {
            let mut note: String = String::from_str(
                if stdout {
                    "stdout"
                } else {
                    "stderr"
                },
            );
            note.append(" is not UTF-8 (");
            let digits: String = decimal_string(bytes.len() as u64);
            note.append(digits.as_str());
            note.append(" bytes)");
            assert(note@ =~= stream_label(stdout) + " is not UTF-8 ("@ + decimal(
                bytes@.len(),
            ) + " bytes)"@);
            Some(note)
        },
    }
}

} // verus!
