use vstd::prelude::*;
use vstd::string::StrSliceExecFns;
use vstd::string::StringExecFns;
use crate::text::push_char;

verus! {

/// Characters that force an argument to be quoted when a command line is
/// rendered: the ASCII whitespace characters.
pub open spec fn is_shell_whitespace(c: char) -> bool {
    c == ' ' || c == '\t' || c == '\n' || c == '\u{000C}' || c == '\r'
}

/// Whether some character of `s` is ASCII whitespace.
pub open spec fn has_whitespace(s: Seq<char>) -> bool {
    exists|i: int| 0 <= i < s.len() && is_shell_whitespace(s[i])
}

/// How one character appears inside a quoted argument.
pub open spec fn escaped_char(c: char) -> Seq<char> {
    if c == '"' {
        seq!['\\', '"']
    } else if c == '\\' {
        seq!['\\', '\\']
    } else if c == '\n' {
        seq!['\\', 'n']
    } else if c == '\t' {
        seq!['\\', 't']
    } else if c == '\r' {
        seq!['\\', 'r']
    } else {
        seq![c]
    }
}

/// The text of a quoted argument, character by character.
pub open spec fn escaped_text(s: Seq<char>) -> Seq<char>
    decreases s.len(),
{
    if s.len() == 0 {
        Seq::<char>::empty()
    } else {
        escaped_text(s.drop_last()) + escaped_char(s.last())
    }
}

/// How one argument appears on a rendered command line: verbatim, unless it
/// contains ASCII whitespace, in which case it is wrapped in double quotes
/// with its special characters escaped.
pub open spec fn rendered_arg(s: Seq<char>) -> Seq<char> {
    if has_whitespace(s) {
        seq!['"'] + escaped_text(s) + seq!['"']
    } else {
        s
    }
}

/// A full rendered command line: the rendered arguments joined by single
/// spaces.
pub open spec fn rendered_line(args: Seq<Seq<char>>) -> Seq<char>
    decreases args.len(),
{
    if args.len() == 0 {
        Seq::<char>::empty()
    } else if args.len() == 1 {
        rendered_arg(args[0])
    } else {
        rendered_line(args.drop_last()) + seq![' '] + rendered_arg(args.last())
    }
}

/// An argument that contains whitespace always appears quoted: its rendered
/// form starts and ends with a double quote.
pub proof fn lemma_whitespace_arg_is_quoted(s: Seq<char>)
    requires
        has_whitespace(s),
    ensures
        rendered_arg(s).len() >= 2,
        rendered_arg(s).first() == '"',
        rendered_arg(s).last() == '"',
{
}

/// Rendering is deterministic: the rendered line is a function of the
/// argument text alone, so rendering the same list twice yields the same
/// text.
pub proof fn lemma_rendering_deterministic(a: Seq<Seq<char>>, b: Seq<Seq<char>>)
    requires
        a == b,
    ensures
        rendered_line(a) == rendered_line(b),
{
}

/// A command under construction: the program name followed by its arguments
/// in call order, plus optional bytes to feed to the child's standard input.
///
/// The argument list is never empty: element 0 is the program, elements from
/// 1 on are its arguments. Argument text is held as UTF-8 strings.
#[must_use]
#[derive(Debug)]
pub struct Cmd {
    args: Vec<String>,
    stdin_contents: Option<Vec<u8>>,
}

impl Cmd {
    /// The argument list as text: element 0 is the program.
    pub closed spec fn args_view(&self) -> Seq<Seq<char>> {
        self.args.deep_view()
    }

    /// The bytes destined for the child's standard input, if any.
    pub closed spec fn stdin_view(&self) -> Option<Seq<u8>> {
        match self.stdin_contents {
            Some(b) => Some(b@),
            None => None,
        }
    }

    /// The argument-list invariant: a command always names a program.
    pub open spec fn wf(&self) -> bool {
        self.args_view().len() >= 1
    }

    /// A command that runs `program`, with no arguments and no stdin bytes.
    pub fn new(program: &str) -> (c: Cmd)
        ensures
            c.wf(),
            c.args_view() =~= seq![program@],
            c.stdin_view() is None,
    {
        let mut args: Vec<String> = Vec::new();
        args.push(String::from_str(program));
        Cmd { args, stdin_contents: None }
    }

    /// Append one argument.
    pub fn arg(self, arg: &str) -> (c: Cmd)
        ensures
            c.args_view() =~= self.args_view().push(arg@),
            c.stdin_view() == self.stdin_view(),
            self.wf() ==> c.wf(),
    {
        let mut c = self;
        c.args.push(String::from_str(arg));
        c
    }

    /// Append each of the given arguments, in order.
    pub fn args(self, args: &Vec<String>) -> (c: Cmd)
        ensures
            c.args_view() =~= self.args_view() + args.deep_view(),
            c.stdin_view() == self.stdin_view(),
            self.wf() ==> c.wf(),
    {
        let mut c = self;
        let mut i: usize = 0;
        while i < args.len()
            invariant
                i <= args.len(),
                c.args.deep_view() =~= self.args.deep_view() + args.deep_view().take(i as int),
                c.stdin_contents == self.stdin_contents,
            decreases args.len() - i,
        {
            let ghost pre = c.args.deep_view();
            c.args.push(args[i].clone());
            proof {
                assert(c.args.deep_view() =~= pre.push(args.deep_view()[i as int]));
                assert(args.deep_view().take(i as int + 1) =~= args.deep_view().take(i as int).push(
                    args.deep_view()[i as int],
                ));
                assert(c.args.deep_view() =~= self.args.deep_view() + args.deep_view().take(
                    i as int + 1,
                ));
            }
            i = i + 1;
        }
        proof {
            assert(args.deep_view().take(args@.len() as int) =~= args.deep_view());
        }
        c
    }

    /// Concatenate text onto the last argument in place ("glue").
    pub fn __extend_arg(self, arg: &str) -> (c: Cmd)
        requires
            self.wf(),
        ensures
            c.wf(),
            c.args_view() =~= self.args_view().update(
                self.args_view().len() - 1,
                self.args_view().last() + arg@,
            ),
            c.stdin_view() == self.stdin_view(),
    {
        let mut c = self;
        let last = c.args.pop().unwrap();
        c.args.push(last.concat(arg));
        c
    }

    /// A command over an already-built argument list, stdin unset.
    pub(crate) fn from_args(args: Vec<String>) -> (c: Cmd)
        requires
            args@.len() >= 1,
        ensures
            c.wf(),
            c.args_view() == args.deep_view(),
            c.stdin_view() is None,
    {
        Cmd { args, stdin_contents: None }
    }

    /// Provide bytes for the child's standard input.
    pub fn stdin(self, stdin: &[u8]) -> (c: Cmd)
        ensures
            c.args_view() == self.args_view(),
            c.stdin_view() == Some(stdin@),
            self.wf() ==> c.wf(),
    {
        let mut c = self;
        c.stdin_contents = Some(vstd::slice::slice_to_vec(stdin));
        c
    }

    /// The bytes destined for the child's standard input, if any.
    pub fn stdin_bytes(&self) -> (r: &Option<Vec<u8>>)
        ensures
            r is Some <==> self.stdin_view() is Some,
            r matches Some(b) ==> self.stdin_view() == Some(b@),
    {
        &self.stdin_contents
    }

    /// The argument list as owned text, element 0 the program.
    pub fn arguments(&self) -> (v: Vec<String>)
        ensures
            v.deep_view() == self.args_view(),
    {
        let mut v: Vec<String> = Vec::new();
        let mut i: usize = 0;
        while i < self.args.len()
            invariant
                i <= self.args@.len(),
                v.deep_view() =~= self.args.deep_view().take(i as int),
            decreases self.args@.len() - i,
        {
            let ghost pre = v.deep_view();
            v.push(self.args[i].clone());
            proof {
                assert(v.deep_view() =~= pre.push(self.args.deep_view()[i as int]));
                assert(self.args.deep_view().take(i as int + 1) =~= self.args.deep_view().take(
                    i as int,
                ).push(self.args.deep_view()[i as int]));
            }
            i = i + 1;
        }
        proof {
            assert(self.args.deep_view().take(self.args@.len() as int) =~= self.args.deep_view());
        }
        v
    }

    /// The rendered command line (see `rendered_line`): arguments joined by
    /// single spaces, whitespace-bearing arguments quoted and escaped.
    ///
    /// Rendering depends on the argument text alone, so it is deterministic
    /// and repeating it yields identical text.
    pub fn render(&self) -> (r: String)
        ensures
            r@ == rendered_line(self.args_view()),
    {
        let mut out = String::new();
        let n = self.args.len();
        let mut i: usize = 0;
        while i < n
            invariant
                n == self.args@.len(),
                i <= n,
                out@ == rendered_line(self.args_view().take(i as int)),
            decreases n - i,
        {
            if i > 0 {
                push_char(&mut out, ' ');
            }
            push_rendered_arg(&mut out, &self.args[i]);
            proof {
                assert(self.args_view().take(i as int + 1).drop_last() =~= self.args_view().take(
                    i as int,
                ));
                assert(self.args_view().take(i as int + 1).last() == self.args_view()[i as int]);
                assert(out@ =~= rendered_line(self.args_view().take(i as int + 1)));
            }
            i = i + 1;
        }
        proof {
            assert(self.args_view().take(n as int) =~= self.args_view());
        }
        out
    }

    /// The line echoed before an inheriting run: `$ ` followed by the
    /// rendered command line.
    pub fn echo_line(&self) -> (r: String)
        ensures
            r@ == seq!['$', ' '] + rendered_line(self.args_view()),
    {
        let mut out = String::new();
        push_char(&mut out, '$');
        push_char(&mut out, ' ');
        let rendered = self.render();
        out.append(rendered.as_str());
        proof {
            assert(Seq::<char>::empty().push('$').push(' ') + rendered@ =~= seq!['$', ' ']
                + rendered_line(self.args_view()));
        }
        out
    }
}

/// Whether `c` is ASCII whitespace, executable form.
fn is_shell_whitespace_exec(c: char) -> (r: bool)
    ensures
        r == is_shell_whitespace(c),
{
    c == ' ' || c == '\t' || c == '\n' || c == '\u{000C}' || c == '\r'
}

/// Whether some character of `s` is ASCII whitespace, executable form.
fn contains_whitespace(s: &str) -> (r: bool)
    ensures
        r == has_whitespace(s@),
{
    let n = s.unicode_len();
    let mut i: usize = 0;
    while i < n
        invariant
            n == s@.len(),
            i <= n,
            forall|j: int| 0 <= j < i ==> !is_shell_whitespace(s@[j]),
        decreases n - i,
    {
        if is_shell_whitespace_exec(s.get_char(i)) {
            proof {
                assert(is_shell_whitespace(s@[i as int]));
            }
            return true;
        }
        i = i + 1;
    }
    false
}

/// Append the quoted-argument text of `s` to `out`.
fn push_escaped(out: &mut String, s: &str)
    ensures
        final(out)@ == old(out)@ + escaped_text(s@),
{
    let n = s.unicode_len();
    let mut i: usize = 0;
    while i < n
        invariant
            n == s@.len(),
            i <= n,
            out@ == old(out)@ + escaped_text(s@.take(i as int)),
        decreases n - i,
    {
        let c = s.get_char(i);
        if c == '"' {
            push_char(out, '\\');
            push_char(out, '"');
        } else if c == '\\' {
            push_char(out, '\\');
            push_char(out, '\\');
        } else if c == '\n' {
            push_char(out, '\\');
            push_char(out, 'n');
        } else if c == '\t' {
            push_char(out, '\\');
            push_char(out, 't');
        } else if c == '\r' {
            push_char(out, '\\');
            push_char(out, 'r');
        } else {
            push_char(out, c);
        }
        proof {
            assert(s@.take(i as int + 1).drop_last() =~= s@.take(i as int));
            assert(s@.take(i as int + 1).last() == s@[i as int]);
            assert(out@ =~= old(out)@ + escaped_text(s@.take(i as int + 1)));
        }
        i = i + 1;
    }
    proof {
        assert(s@.take(n as int) =~= s@);
    }
}

/// Append the rendered form of one argument to `out`.
fn push_rendered_arg(out: &mut String, a: &String)
    ensures
        final(out)@ == old(out)@ + rendered_arg(a@),
{
    if contains_whitespace(a.as_str()) {
        push_char(out, '"');
        push_escaped(out, a.as_str());
        push_char(out, '"');
        proof {
            assert((old(out)@.push('"') + escaped_text(a@)).push('"') =~= old(out)@ + (seq!['"']
                + escaped_text(a@) + seq!['"']));
        }
    } else {
        out.append(a.as_str());
    }
}

} // verus!
