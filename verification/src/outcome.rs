use vstd::prelude::*;
use vstd::string::StrSliceExecFns;
use vstd::utf8::decode_utf8;
use vstd::utf8::valid_utf8;
use crate::cmd::Cmd;
use crate::cmd::rendered_line;
use crate::error::Error;

verus! {

/// What came back from spawning and waiting for a child in capture mode:
/// either the operating system refused the spawn, or the child ran to
/// completion with the given status and captured output bytes.
pub enum CaptureOutcome {
    SpawnFailed { os_message: String },
    Exited { success: bool, code: Option<i32>, stdout: Vec<u8>, stderr: Vec<u8> },
}

/// What came back from spawning and waiting for a child in inherit mode:
/// as `CaptureOutcome`, but nothing is captured.
pub enum RunOutcome {
    SpawnFailed { os_message: String },
    Exited { success: bool, code: Option<i32> },
}

/// Captured output with a single trailing newline, if present, removed —
/// only one, never more.
pub open spec fn chomped(s: Seq<char>) -> Seq<char> {
    if s.len() > 0 && s.last() == '\n' {
        s.drop_last()
    } else {
        s
    }
}

/// Decoding captured bytes as UTF-8 text.
///
/// Relies on `String::from_utf8`: it returns the string holding exactly the
/// given bytes when they are valid UTF-8, and refuses them otherwise.
#[verifier::external_body]
fn decode_capture(bytes: Vec<u8>) -> (r: Option<String>)
    ensures
        r is Some <==> valid_utf8(bytes@),
        r matches Some(s) ==> s@ == decode_utf8(bytes@),
{
    match String::from_utf8(bytes) {
        Ok(s) => Some(s),
        Err(_) => None,
    }
}

/// Remove a single trailing newline, if present.
fn chomp(s: String) -> (r: String)
    ensures
        r@ == chomped(s@),
{
    let n = s.as_str().unicode_len();
    if n > 0 && s.as_str().get_char(n - 1) == '\n' {
        let head = s.as_str().substring_char(0, n - 1);
        let r = head.to_owned();
        proof {
            assert(s@.subrange(0, s@.len() - 1) =~= s@.drop_last());
        }
        r
    } else {
        s
    }
}

impl Cmd {
    /// Classify a capture-mode outcome into the result the caller sees.
    ///
    /// Success is owed exactly when the child exited successfully and its
    /// captured standard output is valid UTF-8; the text is then the decoded
    /// output with a single trailing newline, if present, stripped. A failed
    /// spawn, a non-success exit status and non-UTF-8 output each map to
    /// their own error, carrying this command's rendered text; captured
    /// standard-error bytes ride along as diagnostic context on failure.
    pub fn capture_result(self, outcome: CaptureOutcome) -> (r: Result<String, Error>)
        ensures
            (outcome matches CaptureOutcome::Exited { success: true, stdout, .. }
                && valid_utf8(stdout@)) <==> r is Ok,
            outcome matches CaptureOutcome::Exited { success: true, stdout, .. } ==> (valid_utf8(
                stdout@,
            ) ==> (r matches Ok(s) && s@ == chomped(decode_utf8(stdout@)))),
            outcome matches CaptureOutcome::SpawnFailed { os_message } ==> r matches Err(
                Error::SpawnIo { cmd_text, os_message: m },
            ) && cmd_text@ == rendered_line(self.args_view()) && m@ == os_message@,
            outcome matches CaptureOutcome::Exited { success: true, stdout, stderr, .. } ==> (
            !valid_utf8(stdout@) ==> (r matches Err(
                Error::NonUtf8Capture { cmd_text, diagnostic },
            ) && cmd_text@ == rendered_line(self.args_view()) && diagnostic@ == stderr@)),
            outcome matches CaptureOutcome::Exited { success: false, code, stderr, .. }
                ==> r matches Err(Error::NonZeroExit { cmd_text, code: c, diagnostic })
                && cmd_text@ == rendered_line(self.args_view()) && c == code && diagnostic@
                == stderr@,
    {
        match outcome {
            CaptureOutcome::SpawnFailed { os_message } => Err(
                Error::SpawnIo { cmd_text: self.render(), os_message },
            ),
            CaptureOutcome::Exited { success: true, stdout, stderr, .. } => {
                match decode_capture(stdout) {
                    Some(text) => Ok(chomp(text)),
                    None => Err(
                        Error::NonUtf8Capture { cmd_text: self.render(), diagnostic: stderr },
                    ),
                }
            },
            CaptureOutcome::Exited { success: false, code, stderr, .. } => Err(
                Error::NonZeroExit { cmd_text: self.render(), code, diagnostic: stderr },
            ),
        }
    }

    /// Classify an inherit-mode outcome into the result the caller sees.
    ///
    /// Success is owed exactly when the child exited successfully; nothing
    /// is captured, so no decoding error can arise.
    pub fn run_result(self, outcome: RunOutcome) -> (r: Result<(), Error>)
        ensures
            (outcome matches RunOutcome::Exited { success: true, .. }) <==> r is Ok,
            outcome matches RunOutcome::SpawnFailed { os_message } ==> r matches Err(
                Error::SpawnIo { cmd_text, os_message: m },
            ) && cmd_text@ == rendered_line(self.args_view()) && m@ == os_message@,
            outcome matches RunOutcome::Exited { success: false, code } ==> r matches Err(
                Error::NonZeroExit { cmd_text, code: c, diagnostic },
            ) && cmd_text@ == rendered_line(self.args_view()) && c == code && diagnostic@
                == Seq::<u8>::empty(),
    {
        match outcome {
            RunOutcome::SpawnFailed { os_message } => Err(
                Error::SpawnIo { cmd_text: self.render(), os_message },
            ),
            RunOutcome::Exited { success: true, .. } => Ok(()),
            RunOutcome::Exited { success: false, code } => Err(
                Error::NonZeroExit { cmd_text: self.render(), code, diagnostic: Vec::new() },
            ),
        }
    }
}

} // verus!
