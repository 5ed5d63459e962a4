use vstd::prelude::*;
use vstd::string::StrSliceExecFns;
use vstd::string::StringExecFns;
use crate::text::decimal_of_int;
use crate::text::decimal_string;
use crate::text::push_char;

verus! {

/// Everything that can go wrong while building on this crate: a failed
/// spawn, a child that exited unsuccessfully, captured output that is not
/// UTF-8, and failed path or environment-variable operations.
///
/// `cmd_text` is the rendered command line of the offending command;
/// `os_message` is the operating system's own rendering of the underlying
/// error; `diagnostic` carries the captured standard-error bytes of a failed
/// child, for callers that want more context than the one-line message.
#[derive(Debug)]
pub enum Error {
    SpawnIo { cmd_text: String, os_message: String },
    NonZeroExit { cmd_text: String, code: Option<i32>, diagnostic: Vec<u8> },
    NonUtf8Capture { cmd_text: String, diagnostic: Vec<u8> },
    PathOperation { path: String, os_message: String },
    EnvOperation { name: String, os_message: String },
}

/// An upper-case ASCII letter at the start of a message is lowered, so that
/// an OS message reads naturally after a path or command: `No such file or
/// directory` becomes `no such file or directory`.
pub open spec fn lower_first(s: Seq<char>) -> Seq<char> {
    if s.len() > 0 && 65 <= s[0] as int <= 90 {
        seq![(((s[0] as int) + 32) as u8) as char] + s.drop_first()
    } else {
        s
    }
}

/// The single human-readable line each error renders to.
pub open spec fn message_view(e: &Error) -> Seq<char> {
    match e {
        Error::SpawnIo { cmd_text, os_message } => "command `"@ + cmd_text@ + "` failed: "@
            + lower_first(os_message@),
        Error::NonZeroExit { cmd_text, code: Some(code), .. } => "command `"@ + cmd_text@
            + "` failed, exit code: "@ + decimal_of_int(*code as int),
        Error::NonZeroExit { cmd_text, code: None, .. } => "command `"@ + cmd_text@
            + "` failed, terminated by signal"@,
        Error::NonUtf8Capture { cmd_text, .. } => "command `"@ + cmd_text@
            + "` produced non-utf8 output"@,
        Error::PathOperation { path, os_message } => "`"@ + path@ + "`: "@ + lower_first(
            os_message@,
        ),
        Error::EnvOperation { name, os_message } => "`"@ + name@ + "`: "@ + lower_first(
            os_message@,
        ),
    }
}

/// Append `s` to `out` with its first letter lowered (see `lower_first`).
fn push_lower_first(out: &mut String, s: &str)
    ensures
        final(out)@ == old(out)@ + lower_first(s@),
{
    let n = s.unicode_len();
    if n == 0 {
        proof {
            assert(old(out)@ + lower_first(s@) =~= old(out)@);
        }
        return ;
    }
    let c = s.get_char(0);
    let code: u32 = c as u32;
    if 65 <= code && code <= 90 {
        push_char(out, ((code + 32) as u8) as char);
        let rest = s.substring_char(1, n);
        out.append(rest);
        proof {
            assert(s@.subrange(1, s@.len() as int) =~= s@.drop_first());
            assert(old(out)@.push((((s@[0] as int) + 32) as u8) as char) + s@.drop_first() =~= old(
                out,
            )@ + lower_first(s@));
        }
    } else {
        out.append(s);
        proof {
            assert(lower_first(s@) == s@);
        }
    }
}

impl Error {
    /// Render the error as its one-line, human-readable message.
    pub fn message(&self) -> (r: String)
        ensures
            r@ == message_view(self),
    {
        let mut out = String::new();
        match self {
            Error::SpawnIo { cmd_text, os_message } => {
                out.append("command `");
                out.append(cmd_text.as_str());
                out.append("` failed: ");
                push_lower_first(&mut out, os_message.as_str());
                proof {
                    assert(out@ =~= message_view(self));
                }
            },
            Error::NonZeroExit { cmd_text, code, .. } => {
                out.append("command `");
                out.append(cmd_text.as_str());
                match code {
                    Some(code) => {
                        out.append("` failed, exit code: ");
                        let digits = decimal_string(*code);
                        out.append(digits.as_str());
                    },
                    None => {
                        out.append("` failed, terminated by signal");
                    },
                }
                proof {
                    assert(out@ =~= message_view(self));
                }
            },
            Error::NonUtf8Capture { cmd_text, .. } => {
                out.append("command `");
                out.append(cmd_text.as_str());
                out.append("` produced non-utf8 output");
                proof {
                    assert(out@ =~= message_view(self));
                }
            },
            Error::PathOperation { path, os_message } => {
                out.append("`");
                out.append(path.as_str());
                out.append("`: ");
                push_lower_first(&mut out, os_message.as_str());
                proof {
                    assert(out@ =~= message_view(self));
                }
            },
            Error::EnvOperation { name, os_message } => {
                out.append("`");
                out.append(name.as_str());
                out.append("`: ");
                push_lower_first(&mut out, os_message.as_str());
                proof {
                    assert(out@ =~= message_view(self));
                }
            },
        }
        out
    }
}

} // verus!
