//! The select prompt: a cursor on a list that is never empty.
//!
//! The cursor is clamped: Up on the first item and Down on the last one leave
//! it where it is. Submit commits the item under the cursor.

use crate::error::{InquireError, InquireResult};
use crate::key::Key;
use crate::renderer::{answer_text, option_text, prompt_text, Renderer};
use crate::terminal::LineKind;
use vstd::prelude::*;

verus! {

/// The cursor after one key, on a list of `count` items.
pub open spec fn step(cursor: usize, count: nat, key: Key) -> usize {
    match key {
        Key::Up => if cursor > 0 {
            (cursor - 1) as usize
        } else {
            cursor
        },
        Key::Down => if cursor + 1 < count {
            (cursor + 1) as usize
        } else {
            cursor
        },
        _ => cursor,
    }
}

/// The cursor after a sequence of keys.
pub open spec fn run(cursor: usize, count: nat, keys: Seq<Key>) -> usize
    decreases keys.len(),
{
    if keys.len() == 0 {
        cursor
    } else {
        step(run(cursor, count, keys.drop_last()), count, keys.last())
    }
}

/// `result` is the end of a prompt over `options` that starts with the
/// cursor at `start`, is fed `keys` and reads `consumed` of them.
///
/// No key before the last one read is a Submit or a Cancel. An answer comes
/// with a Submit and is the item under the cursor; a cancellation comes with
/// a Cancel; and the terminal fails only after the last key, when none of
/// the keys ended the prompt.
pub open spec fn explains(
    options: Seq<String>,
    start: usize,
    keys: Seq<Key>,
    consumed: int,
    result: InquireResult<String>,
) -> bool {
    &&& 0 <= consumed <= keys.len()
    &&& forall|j: int|
        0 <= j < consumed - 1 ==> keys[j] != Key::Cancel && keys[j] != Key::Submit
    &&& match result {
        Ok(answer) => {
            &&& consumed >= 1
            &&& keys[consumed - 1] == Key::Submit
            &&& answer == options[run(start, options.len(), keys.take(consumed - 1)) as int]
        },
        Err(InquireError::OperationCanceled) => {
            &&& consumed >= 1
            &&& keys[consumed - 1] == Key::Cancel
        },
        Err(InquireError::IO) => {
            &&& consumed == keys.len()
            &&& consumed >= 1 ==> keys[consumed - 1] != Key::Cancel && keys[consumed - 1]
                != Key::Submit
        },
    }
}

/// The cursor stays on the list, whatever keys come.
pub proof fn lemma_cursor_stays_on_list(cursor: usize, count: nat, keys: Seq<Key>)
    requires
        cursor < count,
    ensures
        run(cursor, count, keys) < count,
    decreases keys.len(),
{
    if keys.len() > 0 {
        lemma_cursor_stays_on_list(cursor, count, keys.drop_last());
    }
}

/// The keys decide how the prompt ends: two ends that the same keys explain
/// are the same end, after the same number of keys.
pub proof fn lemma_end_is_determined(
    options: Seq<String>,
    start: usize,
    keys: Seq<Key>,
    consumed: int,
    result: InquireResult<String>,
    other_consumed: int,
    other: InquireResult<String>,
)
    requires
        explains(options, start, keys, consumed, result),
        explains(options, start, keys, other_consumed, other),
    ensures
        consumed == other_consumed,
        result == other,
{
}

/// What one key did to a running select prompt.
#[derive(Clone, Copy, Debug, PartialEq, Eq, Structural)]
pub enum SelectStep {
    /// The prompt goes on.
    Continue,
    /// The user aborted the prompt.
    Canceled,
    /// The user committed the item at this index.
    Submitted(usize),
}

/// The state of a select prompt while it runs.
pub struct SelectPrompt<'a> {
    pub message: &'a str,
    pub help_message: Option<&'a str>,
    /// The items to choose among.
    pub options: Vec<String>,
    /// The index of the item under the cursor.
    pub cursor: usize,
}

impl<'a> SelectPrompt<'a> {
    /// The cursor is on an item.
    pub open spec fn wf(&self) -> bool {
        self.cursor < self.options@.len()
    }

    /// The two states differ at most in the cursor.
    pub open spec fn same_options(&self, other: &Self) -> bool {
        &&& self.message == other.message
        &&& self.help_message == other.help_message
        &&& self.options == other.options
    }

    /// The line of the item at `index`.
    pub open spec fn choice_line(&self, index: int) -> (LineKind, Seq<char>) {
        (LineKind::Choice, option_text(index == self.cursor, self.options@[index]@))
    }

    /// The lines of a frame: the question, the items in list order, and the
    /// help message if there is one.
    pub open spec fn frame(&self) -> Seq<(LineKind, Seq<char>)> {
        let help = match self.help_message {
            Some(h) => seq![(LineKind::Help, h@)],
            None => seq![],
        };
        seq![(LineKind::Prompt, prompt_text(self.message@, None, None))] + Seq::new(
            self.options@.len(),
            |i: int| self.choice_line(i),
        ) + help
    }

    /// A prompt over `options` with the cursor on the first item, or nothing
    /// if there is no item to choose.
    pub fn new(message: &'a str, options: Vec<String>) -> (prompt: Option<Self>)
        ensures
            prompt.is_some() <==> options@.len() > 0,
            match prompt {
                Some(p) => {
                    &&& p.message == message
                    &&& p.help_message.is_none()
                    &&& p.options == options
                    &&& p.cursor == 0
                    &&& p.wf()
                },
                None => true,
            },
    {
        if options.len() == 0 {
            None
        } else {
            Some(SelectPrompt { message, help_message: None, options, cursor: 0 })
        }
    }

    /// Sets the help message of the prompt.
    pub fn with_help_message(self, message: &'a str) -> (prompt: Self)
        ensures
            prompt.message == self.message,
            prompt.help_message == Some(message),
            prompt.options == self.options,
            prompt.cursor == self.cursor,
    {
        let mut prompt = self;
        prompt.help_message = Some(message);
        prompt
    }

    /// Moves the cursor as `key` asks.
    pub fn on_change(&mut self, key: Key)
        requires
            old(self).wf(),
        ensures
            final(self).wf(),
            final(self).cursor == step(old(self).cursor, old(self).options@.len(), key),
            final(self).same_options(old(self)),
    {
        match key {
            Key::Up => {
                if self.cursor > 0 {
                    self.cursor = self.cursor - 1;
                }
            },
            Key::Down => {
                let count: usize = self.options.len();
                if self.cursor + 1 < count {
                    self.cursor = self.cursor + 1;
                }
            },
            _ => {},
        }
    }

    /// The item under the cursor.
    pub fn get_final_answer(&self) -> (answer: String)
        requires
            self.wf(),
        ensures
            answer == self.options@[self.cursor as int],
    {
        self.options[self.cursor].clone()
    }

    /// Reacts to one key: Cancel ends the prompt, Submit commits the index
    /// of the item under the cursor, and every other key moves the cursor or
    /// does nothing.
    pub fn handle_key(&mut self, key: Key) -> (outcome: SelectStep)
        requires
            old(self).wf(),
        ensures
            final(self).wf(),
            final(self).same_options(old(self)),
            match key {
                Key::Cancel => outcome == SelectStep::Canceled && final(self).cursor == old(
                    self,
                ).cursor,
                Key::Submit => outcome == SelectStep::Submitted(old(self).cursor)
                    && final(self).cursor == old(self).cursor,
                _ => outcome == SelectStep::Continue && final(self).cursor == step(
                    old(self).cursor,
                    old(self).options@.len(),
                    key,
                ),
            },
    {
        match key {
            Key::Cancel => SelectStep::Canceled,
            Key::Submit => SelectStep::Submitted(self.cursor),
            key => {
                self.on_change(key);
                SelectStep::Continue
            },
        }
    }

    /// Paints a frame in place of the last one.
    pub fn render(&self, renderer: &mut Renderer)
        requires
            self.wf(),
            old(renderer).wf(),
        ensures
            final(renderer).wf(),
            final(renderer).same_input(old(renderer)),
            final(renderer).settled() == old(renderer).settled(),
            final(renderer).frame() == self.frame(),
            final(renderer).screen() == old(renderer).settled() + self.frame(),
            final(renderer).terminal.flushed,
    {
        renderer.reset_prompt();
        assert(renderer.settled() =~= old(renderer).settled());
        assert(renderer.frame() =~= Seq::<(LineKind, Seq<char>)>::empty());
        renderer.print_prompt(self.message, None, None);
        let ghost head = renderer.frame();
        let mut i: usize = 0;
        assert(renderer.frame() =~= head + Seq::new(0, |j: int| self.choice_line(j)));
        while i < self.options.len()
            invariant
                0 <= i <= self.options@.len(),
                renderer.wf(),
                renderer.same_input(old(renderer)),
                renderer.settled() == old(renderer).settled(),
                renderer.frame() == head + Seq::new(i as nat, |j: int| self.choice_line(j)),
            decreases self.options@.len() - i,
        {
            let ghost before = renderer.frame();
            renderer.print_option(i == self.cursor, self.options[i].as_str());
            assert(renderer.frame() == before.push(self.choice_line(i as int)));
            i = i + 1;
            assert(renderer.frame() =~= head + Seq::new(i as nat, |j: int| self.choice_line(j)));
        }
        if let Some(message) = self.help_message {
            renderer.print_help(message);
        }
        renderer.flush();
        assert(renderer.frame() =~= self.frame());
        assert(renderer.screen() =~= renderer.settled() + renderer.frame());
    }

    /// Paints the line that the prompt leaves behind: the message and the
    /// item.
    pub fn finish(&self, renderer: &mut Renderer, answer: &str)
        requires
            old(renderer).wf(),
        ensures
            final(renderer).wf(),
            final(renderer).same_input(old(renderer)),
            final(renderer).painted == 0,
            final(renderer).terminal.flushed,
            final(renderer).screen() == old(renderer).settled().push(
                (LineKind::Answer, answer_text(self.message@, answer@)),
            ),
    {
        renderer.cleanup(self.message, answer);
    }

    /// Runs the prompt: paints a frame, reads a key and reacts to it, until
    /// the user commits an item or cancels, or the terminal fails.
    ///
    /// After an answer the frame is replaced by one line, the message and
    /// the item. Otherwise the last frame stays, below the lines that were
    /// settled before.
    pub fn prompt(self, renderer: &mut Renderer) -> (result: InquireResult<String>)
        requires
            self.wf(),
            old(renderer).wf(),
        ensures
            final(renderer).wf(),
            final(renderer).keys() == old(renderer).keys(),
            old(renderer).consumed() <= final(renderer).consumed(),
            explains(
                self.options@,
                self.cursor,
                old(renderer).terminal.pending(),
                final(renderer).consumed() - old(renderer).consumed(),
                result,
            ),
            match result {
                Ok(answer) => final(renderer).painted == 0 && final(renderer).screen() == old(
                    renderer,
                ).settled().push((LineKind::Answer, answer_text(self.message@, answer@))),
                Err(_) => final(renderer).settled() == old(renderer).settled(),
            },
    {
        let ghost start = self.cursor;
        let ghost count = self.options@.len();
        let ghost keys = renderer.terminal.pending();
        let ghost before = renderer.consumed();
        let ghost settled = renderer.settled();
        let mut state = self;
        loop
            invariant
                state.wf(),
                state.same_options(&self),
                renderer.wf(),
                renderer.keys() == old(renderer).keys(),
                before <= renderer.consumed(),
                keys == old(renderer).keys().skip(before as int),
                before == old(renderer).consumed(),
                start == self.cursor,
                count == self.options@.len(),
                settled == old(renderer).settled(),
                renderer.settled() == settled,
                state.cursor == run(start, count, keys.take(renderer.consumed() - before)),
                forall|j: int|
                    0 <= j < renderer.consumed() - before ==> keys[j] != Key::Cancel && keys[j]
                        != Key::Submit,
            decreases renderer.keys().len() - renderer.consumed(),
        {
            state.render(renderer);
            let ghost read = renderer.consumed() - before;
            let key = match renderer.read_key() {
                Ok(key) => key,
                Err(err) => {
                    return Err(err);
                },
            };
            assert(key == keys[read]);
            match state.handle_key(key) {
                SelectStep::Canceled => {
                    return Err(InquireError::OperationCanceled);
                },
                SelectStep::Submitted(_) => {
                    let answer = state.get_final_answer();
                    state.finish(renderer, answer.as_str());
                    return Ok(answer);
                },
                SelectStep::Continue => {
                    proof {
                        assert(keys.take(read + 1).drop_last() =~= keys.take(read));
                        assert(keys.take(read + 1).last() == key);
                    }
                },
            }
        }
    }
}

} // verus!
