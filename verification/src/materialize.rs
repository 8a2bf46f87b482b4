//! The shared terminal step of every capture: the outcome value carried to
//! the caller, the wording of write failures, and the rule that a display
//! failure after a successful save never changes the command's result.

use vstd::prelude::*;

use crate::error::CliError;
use crate::error::CliResult;
use crate::format::file_size_text;
use crate::format::format_file_size;
use crate::strutil::dec_seq;
use crate::strutil::push_char;
use crate::strutil::push_u64;

verus! {

/// The transient value of one completed capture. Never kept beyond the
/// operation and never shared across watch iterations.
#[derive(Debug, Clone)]
pub struct CaptureOutcome {
    /// The raw image bytes handed back by the service.
    pub bytes: Vec<u8>,
    /// Pixel dimensions, when the bytes could be decoded.
    pub dimensions: Option<(u32, u32)>,
    /// Where the bytes were saved, when they were.
    pub saved_to: Option<String>,
}

impl CaptureOutcome {
    /// How many bytes the capture holds.
    pub fn byte_len(&self) -> (r: usize)
        ensures
            r == self.bytes@.len(),
    {
        self.bytes.len()
    }
}

/// The error reported when a save fails: it names the path.
pub fn write_error(path: &str, io_message: &str) -> (e: CliError)
    ensures
        e matches CliError::FileWriteError(m) && m@ == path@ + ": "@ + io_message@,
{
    CliError::FileWriteError(String::from_str(path).concat(": ").concat(io_message))
}

/// The note printed beside a capture: its pixel dimensions when known, and
/// its size.
pub open spec fn capture_note_text(dimensions: Option<(u32, u32)>, size: nat) -> Seq<char> {
    match dimensions {
        Some(d) => "("@ + dec_seq(d.0 as nat) + "x"@ + dec_seq(d.1 as nat) + ", "@
            + file_size_text(size) + ")"@,
        None => "("@ + file_size_text(size) + ")"@,
    }
}

/// Renders the size note shown beside a capture.
pub fn capture_note(dimensions: Option<(u32, u32)>, size: u64) -> (r: String)
    ensures
        r@ == capture_note_text(dimensions, size as nat),
{
    let mut out = String::new();
    push_char(&mut out, '(');
    match dimensions {
        Some(d) => {
            push_u64(&mut out, d.0 as u64);
            push_char(&mut out, 'x');
            push_u64(&mut out, d.1 as u64);
            out.append(", ");
            let sz = format_file_size(size);
            out.append(sz.as_str());
            out.append(")");
        },
        None => {
            let sz = format_file_size(size);
            out.append(sz.as_str());
            out.append(")");
        },
    }
    proof {
        reveal_strlit("(");
        reveal_strlit(")");
        reveal_strlit("x");
        assert(out@ =~= capture_note_text(dimensions, size as nat));
    }
    out
}

/// The command's result after the terminal step: the save alone decides.
/// Whatever the display step did — skipped, succeeded, or failed with any
/// message — the result is exactly the save's, so a display failure after
/// a successful save never changes the command's exit status.
pub fn materialize_verdict(save: CliResult<()>, display_failure: &Option<CliError>) -> (r:
    CliResult<()>)
    ensures
        r == save,
        r is Ok <==> save is Ok,
{
    save
}

} // verus!
