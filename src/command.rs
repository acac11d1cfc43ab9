use vstd::prelude::*;

verus! {

/// Whether `c` has the Unicode White_Space property.
pub open spec fn is_white_space(c: char) -> bool {
    let u = c as u32;
    (0x9 <= u && u <= 0xd) || u == 0x20 || u == 0x85 || u == 0xa0 || u == 0x1680 || (0x2000 <= u
        && u <= 0x200a) || u == 0x2028 || u == 0x2029 || u == 0x202f || u == 0x205f || u == 0x3000
}

/// `s` without its leading white space.
pub open spec fn trim_start(s: Seq<char>) -> Seq<char>
    decreases s.len(),
{
    if s.len() > 0 && is_white_space(s[0]) {
        trim_start(s.drop_first())
    } else {
        s
    }
}

/// `s` without its trailing white space.
pub open spec fn trim_end(s: Seq<char>) -> Seq<char>
    decreases s.len(),
{
    if s.len() > 0 && is_white_space(s.last()) {
        trim_end(s.drop_last())
    } else {
        s
    }
}

/// `s` without its leading and trailing white space.
pub open spec fn trimmed(s: Seq<char>) -> Seq<char> {
    trim_end(trim_start(s))
}

/// Relies on `str::trim`: it removes the leading and trailing characters that have the
/// Unicode White_Space property, and nothing else.
#[verifier::external_body]
fn trim<'a>(s: &'a str) -> (r: &'a str)
    ensures
        r@ == trimmed(s@),
{
    s.trim()
}

/// The prefix that introduces a pushed item.
pub open spec fn push_prefix() -> Seq<char> {
    seq!['p', 'u', 's', 'h', ' ']
}

/// A command as the line it came from describes it.
pub enum CommandView {
    Push(Seq<char>),
    Pop,
    Print,
    Exit,
    Copy,
    Invalid,
}

/// The command that the input line `line` stands for. The line is trimmed first; the
/// first rule that matches wins.
pub open spec fn parse(line: Seq<char>) -> CommandView {
    let t = trimmed(line);
    if t.len() >= 5 && t.take(5) == push_prefix() {
        CommandView::Push(trimmed(t.skip(5)))
    } else if t == seq!['p', 'o', 'p'] {
        CommandView::Pop
    } else if t == seq!['p', 'r', 'i', 'n', 't'] {
        CommandView::Print
    } else if t == seq!['e', 'x', 'i', 't'] || t == seq!['q'] {
        CommandView::Exit
    } else if t == seq!['c', 'o', 'p', 'y'] || t == seq!['c', 'l', 'i', 'p'] {
        CommandView::Copy
    } else {
        CommandView::Invalid
    }
}

/// One command of the interpreter, read from one input line.
#[derive(Debug, PartialEq, Eq)]
pub enum Command {
    Push(String),
    Pop,
    Print,
    Exit,
    Copy,
    Invalid,
}

impl View for Command {
    type V = CommandView;

    open spec fn view(&self) -> CommandView {
        match self {
            Command::Push(s) => CommandView::Push(s@),
            Command::Pop => CommandView::Pop,
            Command::Print => CommandView::Print,
            Command::Exit => CommandView::Exit,
            Command::Copy => CommandView::Copy,
            Command::Invalid => CommandView::Invalid,
        }
    }
}

/// Whether two strings hold the same characters.
fn same_text(a: &str, b: &str) -> (r: bool)
    ensures
        r == (a@ == b@),
{
    String::from_str(a) == String::from_str(b)
}

impl Command {
    /// Reads a command from an input line; every line gives exactly one command.
    pub fn from_input(input: &str) -> (r: Command)
        ensures
            r@ == parse(input@),
    {
        proof {
            reveal_strlit("push ");
            reveal_strlit("pop");
            reveal_strlit("print");
            reveal_strlit("exit");
            reveal_strlit("q");
            reveal_strlit("copy");
            reveal_strlit("clip");
            assert("push "@ =~= push_prefix());
            assert("pop"@ =~= seq!['p', 'o', 'p']);
            assert("print"@ =~= seq!['p', 'r', 'i', 'n', 't']);
            assert("exit"@ =~= seq!['e', 'x', 'i', 't']);
            assert("q"@ =~= seq!['q']);
            assert("copy"@ =~= seq!['c', 'o', 'p', 'y']);
            assert("clip"@ =~= seq!['c', 'l', 'i', 'p']);
        }
        let t = trim(input);
        let n = t.unicode_len();
        let starts_push = n >= 5 && same_text(t.substring_char(0, 5), "push ");
        assert(starts_push == (t@.len() >= 5 && t@.take(5) == push_prefix())) by {
            if t@.len() >= 5 {
                assert(t@.subrange(0, 5) =~= t@.take(5));
            }
        }
        if starts_push {
            let rest = trim(t.substring_char(5, n));
            assert(t@.subrange(5, n as int) =~= t@.skip(5));
            Command::Push(String::from_str(rest))
        } else if same_text(t, "pop") {
            Command::Pop
        } else if same_text(t, "print") {
            Command::Print
        } else if same_text(t, "exit") || same_text(t, "q") {
            Command::Exit
        } else if same_text(t, "copy") || same_text(t, "clip") {
            Command::Copy
        } else {
            Command::Invalid
        }
    }
}

} // verus!
