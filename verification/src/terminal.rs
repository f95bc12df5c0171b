//! An in-memory terminal: a script of keys to read and the lines written so
//! far.

use crate::error::{InquireError, InquireResult};
use crate::key::Key;
use vstd::prelude::*;

verus! {

/// What a line on the screen is for.
#[derive(Clone, Copy, Debug, PartialEq, Eq, Structural)]
pub enum LineKind {
    /// A highlighted validation error.
    Error,
    /// The question.
    Prompt,
    /// One item of a list, with its marks.
    Choice,
    /// A dimmed hint.
    Help,
    /// The question with its committed answer.
    Answer,
}

/// One line on the screen.
#[derive(Debug, PartialEq, Eq)]
pub struct Line {
    pub kind: LineKind,
    pub text: String,
}

impl View for Line {
    type V = (LineKind, Seq<char>);

    open spec fn view(&self) -> (LineKind, Seq<char>) {
        (self.kind, self.text@)
    }
}

/// A terminal that reads keys from a script and keeps what was written.
#[derive(Debug)]
pub struct Terminal {
    /// The keys that the terminal delivers, in order.
    pub keys: Vec<Key>,
    /// How many of them have been read.
    pub consumed: usize,
    /// The lines on the screen, from the top.
    pub lines: Vec<Line>,
    /// Whether everything written has been flushed.
    pub flushed: bool,
}

impl Terminal {
    /// No more keys are read than the script holds.
    pub open spec fn wf(&self) -> bool {
        self.consumed <= self.keys@.len()
    }

    /// The lines on the screen, from the top.
    pub open spec fn screen(&self) -> Seq<(LineKind, Seq<char>)> {
        Seq::new(self.lines@.len(), |i: int| self.lines@[i]@)
    }

    /// The keys that are still to be read.
    pub open spec fn pending(&self) -> Seq<Key> {
        self.keys@.skip(self.consumed as int)
    }

    /// A terminal with an empty screen that will deliver `keys`.
    pub fn new(keys: Vec<Key>) -> (terminal: Terminal)
        ensures
            terminal.wf(),
            terminal.keys@ == keys@,
            terminal.consumed == 0,
            terminal.screen() == Seq::<(LineKind, Seq<char>)>::empty(),
            terminal.flushed,
    {
        let terminal = Terminal { keys, consumed: 0, lines: Vec::new(), flushed: true };
        assert(terminal.screen() =~= Seq::<(LineKind, Seq<char>)>::empty());
        terminal
    }

    /// Delivers the next key of the script, or fails when the script has run
    /// out.
    pub fn read_key(&mut self) -> (result: InquireResult<Key>)
        requires
            old(self).wf(),
        ensures
            final(self).wf(),
            final(self).keys == old(self).keys,
            final(self).lines == old(self).lines,
            final(self).flushed == old(self).flushed,
            old(self).consumed < old(self).keys@.len() ==> result == Ok::<Key, InquireError>(
                old(self).keys@[old(self).consumed as int],
            ) && final(self).consumed == old(self).consumed + 1,
            old(self).consumed == old(self).keys@.len() ==> result == Err::<Key, InquireError>(
                InquireError::IO,
            ) && final(self).consumed == old(self).consumed,
    {
        if self.consumed < self.keys.len() {
            let key = self.keys[self.consumed];
            self.consumed = self.consumed + 1;
            Ok(key)
        } else {
            Err(InquireError::IO)
        }
    }

    /// Writes one line below the others.
    pub fn write_line(&mut self, kind: LineKind, text: String)
        ensures
            final(self).screen() == old(self).screen().push((kind, text@)),
            final(self).keys == old(self).keys,
            final(self).consumed == old(self).consumed,
            !final(self).flushed,
    {
        self.lines.push(Line { kind, text });
        self.flushed = false;
        assert(self.screen() =~= old(self).screen().push((kind, text@)));
    }

    /// Erases the last `count` lines, or the whole screen if it holds fewer.
    pub fn erase_lines(&mut self, count: usize)
        ensures
            count <= old(self).screen().len() ==> final(self).screen() == old(self).screen().take(
                old(self).screen().len() - count,
            ),
            count > old(self).screen().len() ==> final(self).screen() == Seq::<
                (LineKind, Seq<char>),
            >::empty(),
            final(self).keys == old(self).keys,
            final(self).consumed == old(self).consumed,
            !final(self).flushed,
    {
        let len: usize = self.lines.len();
        let kept: usize = if count <= len { len - count } else { 0 };
        self.lines.truncate(kept);
        self.flushed = false;
        assert(self.screen() =~= old(self).screen().take(kept as int));
        assert(old(self).screen().take(0) =~= Seq::<(LineKind, Seq<char>)>::empty());
    }

    /// Commits what was written.
    pub fn flush(&mut self)
        ensures
            final(self).screen() == old(self).screen(),
            final(self).lines == old(self).lines,
            final(self).keys == old(self).keys,
            final(self).consumed == old(self).consumed,
            final(self).flushed,
    {
        self.flushed = true;
    }
}

} // verus!
