use vstd::prelude::*;

use crate::command::{Command, CommandView};
use crate::render::render;
use crate::stack::{pop_spec, Stack};

verus! {

/// What the interpreter says when there is nothing to pop or print.
pub open spec fn empty_message() -> Seq<char> {
    seq!['S', 't', 'a', 'c', 'k', ' ', 'i', 's', ' ', 'e', 'm', 'p', 't', 'y']
}

/// What the interpreter says of a line that is no command.
pub open spec fn invalid_message() -> Seq<char> {
    seq!['I', 'n', 'v', 'a', 'l', 'i', 'd', ' ', 'c', 'o', 'm', 'm', 'a', 'n', 'd']
}

/// What comes before a popped item in the interpreter's answer.
pub open spec fn popped_prefix() -> Seq<char> {
    seq!['P', 'o', 'p', 'p', 'e', 'd', ':', ' ']
}

/// The answer to a pop on a stack whose items are `s`.
pub open spec fn pop_message(s: Seq<Seq<char>>) -> Seq<char> {
    match pop_spec(s).1 {
        Some(x) => popped_prefix() + x,
        None => empty_message(),
    }
}

/// The answer to a print on a stack whose items are `s`.
pub open spec fn print_message(s: Seq<Seq<char>>) -> Seq<char> {
    if s.len() == 0 {
        empty_message()
    } else {
        render(s)
    }
}

/// What the interpreter does after one command.
#[derive(Debug, PartialEq, Eq)]
pub enum Reply {
    /// Shows this text as one line of output.
    Show(String),
    /// Shows nothing.
    Quiet,
    /// Puts this text on the clipboard.
    CopyText(String),
    /// Ends the session.
    Exit,
}

/// Pushes `element` onto `stack`.
pub fn handle_push(stack: &mut Stack, element: String)
    ensures
        final(stack)@ == old(stack)@.push(element@),
{
    stack.push(element);
}

/// Pops `stack` and returns the answer: the popped item after `Popped: `, or
/// `Stack is empty`, in which case the stack stays as it was.
pub fn handle_pop(stack: &mut Stack) -> (r: String)
    ensures
        final(stack)@ == pop_spec(old(stack)@).0,
        r@ == pop_message(old(stack)@),
{
    proof {
        reveal_strlit("Popped: ");
        reveal_strlit("Stack is empty");
        assert("Popped: "@ =~= popped_prefix());
        assert("Stack is empty"@ =~= empty_message());
    }
    match stack.pop() {
        Some(item) => {
            let mut out = String::from_str("Popped: ");
            out.append(item.as_str());
            out
        },
        None => String::from_str("Stack is empty"),
    }
}

/// The answer to a print: the box diagram, or `Stack is empty`.
pub fn handle_print(stack: &Stack) -> (r: String)
    ensures
        r@ == print_message(stack@),
{
    proof {
        reveal_strlit("Stack is empty");
        assert("Stack is empty"@ =~= empty_message());
    }
    if stack.is_empty() {
        String::from_str("Stack is empty")
    } else {
        stack.to_display_string()
    }
}

/// Carries out one command on `stack` and says what is to follow.
pub fn run_command(stack: &mut Stack, command: Command) -> (r: Reply)
    ensures
        match command@ {
            CommandView::Push(s) => final(stack)@ == old(stack)@.push(s) && r == Reply::Quiet,
            CommandView::Pop => final(stack)@ == pop_spec(old(stack)@).0 && r is Show && r->Show_0@
                == pop_message(old(stack)@),
            CommandView::Print => final(stack)@ == old(stack)@ && r is Show && r->Show_0@
                == print_message(old(stack)@),
            CommandView::Copy => final(stack)@ == old(stack)@ && r is CopyText && r->CopyText_0@
                == render(old(stack)@),
            CommandView::Exit => final(stack)@ == old(stack)@ && r == Reply::Exit,
            CommandView::Invalid => final(stack)@ == old(stack)@ && r is Show && r->Show_0@
                == invalid_message(),
        },
{
    proof {
        reveal_strlit("Invalid command");
        assert("Invalid command"@ =~= invalid_message());
    }
    match command {
        Command::Push(item) => {
            handle_push(stack, item);
            Reply::Quiet
        },
        Command::Pop => Reply::Show(handle_pop(stack)),
        Command::Print => Reply::Show(handle_print(stack)),
        Command::Exit => Reply::Exit,
        Command::Copy => Reply::CopyText(stack.to_display_string()),
        Command::Invalid => Reply::Show(String::from_str("Invalid command")),
    }
}

} // verus!
