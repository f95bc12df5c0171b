//! Paints the frames of one prompt on a terminal and erases, before each new
//! frame, exactly the lines that the last one painted.

use crate::error::{InquireError, InquireResult};
use crate::key::Key;
use crate::terminal::{LineKind, Terminal};
use vstd::prelude::*;
use vstd::string::StringExecFns;

verus! {

/// The text of a question line: the message, the default in parentheses if
/// there is one, and the current answer if it is shown.
pub open spec fn prompt_text(
    message: Seq<char>,
    default: Option<Seq<char>>,
    answer: Option<Seq<char>>,
) -> Seq<char> {
    let with_default = match default {
        Some(d) => message + " ("@ + d + ")"@,
        None => message,
    };
    match answer {
        Some(a) => with_default + " "@ + a,
        None => with_default,
    }
}

/// The text of a list item: an arrow if the cursor is on it, and the item.
pub open spec fn option_text(focused: bool, item: Seq<char>) -> Seq<char> {
    (if focused {
        "> "@
    } else {
        "  "@
    }) + item
}

/// The text of a list item that can be selected: an arrow if the cursor is
/// on it, a box that is crossed if the item is selected, and the item.
pub open spec fn choice_text(focused: bool, checked: bool, item: Seq<char>) -> Seq<char> {
    (if focused {
        "> "@
    } else {
        "  "@
    }) + (if checked {
        "[x] "@
    } else {
        "[ ] "@
    }) + item
}

/// The text of the line that a finished prompt leaves behind.
pub open spec fn answer_text(message: Seq<char>, answer: Seq<char>) -> Seq<char> {
    message + " "@ + answer
}

/// The view of an optional string.
pub open spec fn opt_view(text: Option<&str>) -> Option<Seq<char>> {
    match text {
        Some(t) => Some(t@),
        None => None,
    }
}

/// Owns the terminal for the time of one prompt.
#[derive(Debug)]
pub struct Renderer {
    pub terminal: Terminal,
    /// How many lines at the bottom of the screen belong to the current frame.
    pub painted: usize,
}

impl Renderer {
    /// The current frame is on the screen.
    pub open spec fn wf(&self) -> bool {
        &&& self.terminal.wf()
        &&& self.painted <= self.terminal.screen().len()
    }

    /// The lines on the screen, from the top.
    pub open spec fn screen(&self) -> Seq<(LineKind, Seq<char>)> {
        self.terminal.screen()
    }

    /// The lines on the screen that no later frame of this prompt erases.
    pub open spec fn settled(&self) -> Seq<(LineKind, Seq<char>)> {
        self.screen().take(self.screen().len() - self.painted)
    }

    /// The lines of the current frame.
    pub open spec fn frame(&self) -> Seq<(LineKind, Seq<char>)> {
        self.screen().skip(self.screen().len() - self.painted)
    }

    /// The keys of the terminal's script.
    pub open spec fn keys(&self) -> Seq<Key> {
        self.terminal.keys@
    }

    /// How many keys have been read.
    pub open spec fn consumed(&self) -> nat {
        self.terminal.consumed as nat
    }

    /// Nothing was read between `before` and `self`.
    pub open spec fn same_input(&self, before: &Renderer) -> bool {
        &&& self.keys() == before.keys()
        &&& self.consumed() == before.consumed()
    }

    /// `line` was painted below the frame of `before`.
    pub open spec fn painted_after(&self, before: &Renderer, line: (LineKind, Seq<char>)) -> bool {
        &&& self.wf()
        &&& self.same_input(before)
        &&& self.screen() == before.screen().push(line)
        &&& self.painted == before.painted + 1
        &&& self.settled() == before.settled()
        &&& self.frame() == before.frame().push(line)
    }

    /// A renderer for `terminal` that has painted nothing yet.
    pub fn new(terminal: Terminal) -> (renderer: Renderer)
        requires
            terminal.wf(),
        ensures
            renderer.wf(),
            renderer.terminal == terminal,
            renderer.painted == 0,
    {
        Renderer { terminal, painted: 0 }
    }

    fn paint(&mut self, kind: LineKind, text: String)
        requires
            old(self).wf(),
        ensures
            final(self).painted_after(old(self), (kind, text@)),
    {
        self.terminal.write_line(kind, text);
        let height: usize = self.terminal.lines.len();
        assert(height == self.terminal.screen().len());
        self.painted = self.painted + 1;
        proof {
            let line = (kind, text@);
            assert(self.settled() =~= old(self).settled());
            assert(self.frame() =~= old(self).frame().push(line));
        }
    }

    /// Erases the lines of the current frame, and nothing else.
    pub fn reset_prompt(&mut self)
        requires
            old(self).wf(),
        ensures
            final(self).wf(),
            final(self).same_input(old(self)),
            final(self).screen() == old(self).settled(),
            final(self).painted == 0,
    {
        self.terminal.erase_lines(self.painted);
        self.painted = 0;
    }

    /// Paints a validation error as a line of its own.
    pub fn print_error_message(&mut self, message: &str)
        requires
            old(self).wf(),
        ensures
            final(self).painted_after(old(self), (LineKind::Error, message@)),
    {
        self.paint(LineKind::Error, String::from_str(message));
    }

    /// Paints the question line.
    pub fn print_prompt(&mut self, message: &str, default: Option<&str>, answer: Option<&str>)
        requires
            old(self).wf(),
        ensures
            final(self).painted_after(
                old(self),
                (LineKind::Prompt, prompt_text(message@, opt_view(default), opt_view(answer))),
            ),
    {
        let mut text = String::from_str(message);
        if let Some(d) = default {
            text.append(" (");
            text.append(d);
            text.append(")");
        }
        if let Some(a) = answer {
            text.append(" ");
            text.append(a);
        }
        self.paint(LineKind::Prompt, text);
    }

    /// Paints one item of a list, with an arrow if the cursor is on it.
    pub fn print_option(&mut self, focused: bool, item: &str)
        requires
            old(self).wf(),
        ensures
            final(self).painted_after(old(self), (LineKind::Choice, option_text(focused, item@))),
    {
        let mut text = String::from_str(if focused { "> " } else { "  " });
        text.append(item);
        self.paint(LineKind::Choice, text);
    }

    /// Paints one item of a list with its marks.
    pub fn print_choice(&mut self, focused: bool, checked: bool, item: &str)
        requires
            old(self).wf(),
        ensures
            final(self).painted_after(
                old(self),
                (LineKind::Choice, choice_text(focused, checked, item@)),
            ),
    {
        let mut text = String::from_str(if focused { "> " } else { "  " });
        text.append(if checked { "[x] " } else { "[ ] " });
        text.append(item);
        self.paint(LineKind::Choice, text);
    }

    /// Paints a hint as a line of its own.
    pub fn print_help(&mut self, message: &str)
        requires
            old(self).wf(),
        ensures
            final(self).painted_after(old(self), (LineKind::Help, message@)),
    {
        self.paint(LineKind::Help, String::from_str(message));
    }

    /// Commits the frame.
    pub fn flush(&mut self)
        requires
            old(self).wf(),
        ensures
            final(self).wf(),
            final(self).same_input(old(self)),
            final(self).screen() == old(self).screen(),
            final(self).painted == old(self).painted,
            final(self).terminal.flushed,
    {
        self.terminal.flush();
    }

    /// Delivers the next key, or fails with `IO` when the terminal has none.
    pub fn read_key(&mut self) -> (result: InquireResult<Key>)
        requires
            old(self).wf(),
        ensures
            final(self).wf(),
            final(self).keys() == old(self).keys(),
            final(self).screen() == old(self).screen(),
            final(self).painted == old(self).painted,
            old(self).consumed() < old(self).keys().len() ==> result == Ok::<Key, InquireError>(
                old(self).keys()[old(self).consumed() as int],
            ) && final(self).consumed() == old(self).consumed() + 1,
            old(self).consumed() == old(self).keys().len() ==> result == Err::<Key, InquireError>(
                InquireError::IO,
            ) && final(self).consumed() == old(self).consumed(),
    {
        self.terminal.read_key()
    }

    /// Replaces the current frame by one line, the message followed by the
    /// answer as it is to be shown. No later frame erases that line.
    pub fn cleanup(&mut self, message: &str, answer: &str)
        requires
            old(self).wf(),
        ensures
            final(self).wf(),
            final(self).same_input(old(self)),
            final(self).screen() == old(self).settled().push(
                (LineKind::Answer, answer_text(message@, answer@)),
            ),
            final(self).painted == 0,
            final(self).terminal.flushed,
    {
        self.reset_prompt();
        let mut text = String::from_str(message);
        text.append(" ");
        text.append(answer);
        self.terminal.write_line(LineKind::Answer, text);
        self.terminal.flush();
    }
}

} // verus!
