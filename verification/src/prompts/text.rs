//! The free-text prompt: a line of text that is echoed while it is edited.
//!
//! The caret stands between two parts of the content. Characters are
//! inserted before it; Backspace and Delete remove the grapheme cluster
//! before and after it; Left and Right move it by one grapheme cluster, Home
//! and End to the ends of the content.

use crate::error::{InquireError, InquireResult};
use crate::grapheme::{
    drop_last_grapheme, first_grapheme, last_grapheme, split_first_grapheme, split_last_grapheme,
    without_first_grapheme, without_last_grapheme,
};
use crate::key::Key;
use crate::prompts::password::{
    accepts, formatter_is_total, rejects, validate, validator_is_total,
};
use crate::renderer::{answer_text, prompt_text, Renderer};
use crate::terminal::LineKind;
use vstd::prelude::*;
use vstd::string::StringExecFns;

verus! {

/// The content, parted at the caret.
pub struct Buffer {
    pub before: Seq<char>,
    pub after: Seq<char>,
}

impl Buffer {
    /// The whole content.
    pub open spec fn content(self) -> Seq<char> {
        self.before + self.after
    }
}

/// Whether `key` only moves the caret.
pub open spec fn is_navigation(key: Key) -> bool {
    key == Key::Left || key == Key::Right || key == Key::Home || key == Key::End
}

/// The buffer after one key.
pub open spec fn step(buffer: Buffer, key: Key) -> Buffer {
    match key {
        Key::Backspace => Buffer {
            before: without_last_grapheme(buffer.before),
            after: buffer.after,
        },
        Key::Delete => Buffer {
            before: buffer.before,
            after: without_first_grapheme(buffer.after),
        },
        Key::Left => Buffer {
            before: without_last_grapheme(buffer.before),
            after: last_grapheme(buffer.before) + buffer.after,
        },
        Key::Right => Buffer {
            before: buffer.before + first_grapheme(buffer.after),
            after: without_first_grapheme(buffer.after),
        },
        Key::Home => Buffer { before: Seq::empty(), after: buffer.before + buffer.after },
        Key::End => Buffer { before: buffer.before + buffer.after, after: Seq::empty() },
        Key::Char(c, modifiers) => if modifiers.is_none() {
            Buffer { before: buffer.before.push(c), after: buffer.after }
        } else {
            buffer
        },
        _ => buffer,
    }
}

/// The buffer after a sequence of keys.
pub open spec fn run(buffer: Buffer, keys: Seq<Key>) -> Buffer
    decreases keys.len(),
{
    if keys.len() == 0 {
        buffer
    } else {
        step(run(buffer, keys.drop_last()), keys.last())
    }
}

/// `shown` may be what the formatter makes of `answer`; without a formatter
/// the answer is shown as it is.
pub open spec fn shows<F: Fn(&str) -> String>(
    formatter: Option<F>,
    answer: Seq<char>,
    shown: Seq<char>,
) -> bool {
    match formatter {
        Some(f) => exists|text: &str, out: String| #[trigger]
            call_ensures(f, (text,), out) && text@ == answer && out@ == shown,
        None => shown == answer,
    }
}

/// After an answer the screen holds the settled lines and one more: the
/// message and the answer as the formatter shows it.
pub open spec fn left_behind<F: Fn(&str) -> String>(
    formatter: Option<F>,
    message: Seq<char>,
    settled: Seq<(LineKind, Seq<char>)>,
    screen: Seq<(LineKind, Seq<char>)>,
    answer: Seq<char>,
) -> bool {
    exists|shown: Seq<char>| #[trigger]
        shows(formatter, answer, shown) && screen == settled.push(
            (LineKind::Answer, answer_text(message, shown)),
        )
}

/// The key at `index` leaves the prompt running: it is no Cancel, and if it
/// is a Submit, the validators may reject the content typed so far.
pub open spec fn keeps_running<V: Fn(&str) -> Result<(), String>>(
    validators: Seq<V>,
    start: Buffer,
    keys: Seq<Key>,
    index: int,
) -> bool {
    &&& keys[index] != Key::Cancel
    &&& keys[index] == Key::Submit ==> exists|message: Seq<char>| #[trigger]
        rejects(validators, run(start, keys.take(index)).content(), message)
}

/// `result` is a possible end of a prompt that starts with the buffer
/// `start`, is fed `keys` and reads `consumed` of them.
///
/// All keys but the last one read leave the prompt running. An answer comes
/// with a Submit whose content the validators accept, and is that content;
/// a cancellation comes with a Cancel; and the terminal fails only after the
/// last key, when none of the keys ended the prompt.
pub open spec fn explains<V: Fn(&str) -> Result<(), String>>(
    validators: Seq<V>,
    start: Buffer,
    keys: Seq<Key>,
    consumed: int,
    result: InquireResult<String>,
) -> bool {
    &&& 0 <= consumed <= keys.len()
    &&& forall|j: int| 0 <= j < consumed - 1 ==> keeps_running(validators, start, keys, j)
    &&& match result {
        Ok(answer) => {
            &&& consumed >= 1
            &&& keys[consumed - 1] == Key::Submit
            &&& answer@ == run(start, keys.take(consumed - 1)).content()
            &&& accepts(validators, answer@)
        },
        Err(InquireError::OperationCanceled) => {
            &&& consumed >= 1
            &&& keys[consumed - 1] == Key::Cancel
        },
        Err(InquireError::IO) => {
            &&& consumed == keys.len()
            &&& consumed >= 1 ==> keeps_running(validators, start, keys, consumed - 1)
        },
    }
}

/// A Cancel that no Submit precedes ends the prompt with a cancellation,
/// whatever was typed before it and whatever the validators are.
pub proof fn lemma_cancel_before_submit<V: Fn(&str) -> Result<(), String>>(
    validators: Seq<V>,
    start: Buffer,
    keys: Seq<Key>,
    consumed: int,
    result: InquireResult<String>,
    at: int,
)
    requires
        explains(validators, start, keys, consumed, result),
        0 <= at < keys.len(),
        keys[at] == Key::Cancel,
        forall|j: int| 0 <= j < at ==> keys[j] != Key::Submit,
    ensures
        result == Err::<String, InquireError>(InquireError::OperationCanceled),
        consumed <= at + 1,
{
    if consumed - 1 > at {
        assert(keeps_running(validators, start, keys, at));
    }
    match result {
        Ok(_) => {
            assert(keys[consumed - 1] == Key::Submit);
        },
        Err(InquireError::OperationCanceled) => {},
        Err(InquireError::IO) => {
            assert(keeps_running(validators, start, keys, at));
        },
    }
}

/// Without validators the first Submit commits what was typed up to it,
/// unless a Cancel comes first.
pub proof fn lemma_first_submit_commits<V: Fn(&str) -> Result<(), String>>(
    validators: Seq<V>,
    start: Buffer,
    keys: Seq<Key>,
    consumed: int,
    result: InquireResult<String>,
    at: int,
)
    requires
        explains(validators, start, keys, consumed, result),
        validators.len() == 0,
        0 <= at < keys.len(),
        keys[at] == Key::Submit,
        forall|j: int| 0 <= j < at ==> keys[j] != Key::Submit && keys[j] != Key::Cancel,
    ensures
        consumed == at + 1,
        match result {
            Ok(answer) => answer@ == run(start, keys.take(at)).content(),
            Err(_) => false,
        },
{
    assert(!keeps_running(validators, start, keys, at)) by {
        assert forall|message: Seq<char>| !rejects(
            validators,
            run(start, keys.take(at)).content(),
            message,
        ) by {}
    }
    if consumed - 1 > at {
        assert(keeps_running(validators, start, keys, at));
    }
    match result {
        Ok(_) => {},
        Err(InquireError::OperationCanceled) => {},
        Err(InquireError::IO) => {
            if consumed - 1 == at {
                assert(keeps_running(validators, start, keys, at));
            }
        },
    }
}

/// What one key did to a running text prompt.
#[derive(Debug, PartialEq, Eq)]
pub enum TextStep {
    /// The prompt goes on.
    Continue,
    /// The user aborted the prompt.
    Canceled,
    /// The user committed this answer.
    Submitted(String),
}

/// The state of a free-text prompt while it runs.
pub struct TextPrompt<'a, V, F> {
    pub message: &'a str,
    pub help_message: Option<&'a str>,
    /// The content before the caret.
    pub before: String,
    /// The content after the caret.
    pub after: String,
    /// Makes the text that stands for the answer once it is committed.
    pub formatter: Option<F>,
    /// Asked in order when the user submits; the first rejection is shown.
    pub validators: Vec<V>,
    /// Why the last submission was rejected, if it was.
    pub error: Option<String>,
}

impl<'a, V: Fn(&str) -> Result<(), String>, F: Fn(&str) -> String> TextPrompt<'a, V, F> {
    /// The validators and the formatter can be called on every text.
    pub open spec fn wf(&self) -> bool {
        &&& forall|i: int|
            0 <= i < self.validators@.len() ==> validator_is_total(#[trigger] self.validators@[i])
        &&& match self.formatter {
            Some(f) => formatter_is_total(f),
            None => true,
        }
    }

    /// The content, parted at the caret.
    pub open spec fn buffer(&self) -> Buffer {
        Buffer { before: self.before@, after: self.after@ }
    }

    /// The two states differ at most in content, caret and error.
    pub open spec fn same_options(&self, other: &Self) -> bool {
        &&& self.message == other.message
        &&& self.help_message == other.help_message
        &&& self.formatter == other.formatter
        &&& self.validators == other.validators
    }

    /// The lines of a frame: the error if there is one, the question with
    /// the content, and the help message if there is one.
    pub open spec fn frame(&self) -> Seq<(LineKind, Seq<char>)> {
        let error = match self.error {
            Some(e) => seq![(LineKind::Error, e@)],
            None => seq![],
        };
        let help = match self.help_message {
            Some(h) => seq![(LineKind::Help, h@)],
            None => seq![],
        };
        error + seq![
            (LineKind::Prompt, prompt_text(self.message@, None, Some(self.buffer().content()))),
        ] + help
    }

    /// A prompt with empty content, and without help message, formatter or
    /// validators.
    pub fn new(message: &'a str) -> (prompt: Self)
        ensures
            prompt.message == message,
            prompt.help_message.is_none(),
            prompt.formatter.is_none(),
            prompt.validators@.len() == 0,
            prompt.before@ == Seq::<char>::empty(),
            prompt.after@ == Seq::<char>::empty(),
            prompt.error.is_none(),
            prompt.wf(),
    {
        TextPrompt {
            message,
            help_message: None,
            before: String::new(),
            after: String::new(),
            formatter: None,
            validators: Vec::new(),
            error: None,
        }
    }

    /// Sets the help message of the prompt.
    pub fn with_help_message(self, message: &'a str) -> (prompt: Self)
        ensures
            prompt.message == self.message,
            prompt.help_message == Some(message),
            prompt.formatter == self.formatter,
            prompt.validators == self.validators,
            prompt.buffer() == self.buffer(),
            prompt.error == self.error,
            self.wf() ==> prompt.wf(),
    {
        let mut prompt = self;
        prompt.help_message = Some(message);
        prompt
    }

    /// Sets the formatter.
    pub fn with_formatter(self, formatter: F) -> (prompt: Self)
        ensures
            prompt.message == self.message,
            prompt.help_message == self.help_message,
            prompt.formatter == Some(formatter),
            prompt.validators == self.validators,
            prompt.buffer() == self.buffer(),
            prompt.error == self.error,
            self.wf() && formatter_is_total(formatter) ==> prompt.wf(),
    {
        let mut prompt = self;
        prompt.formatter = Some(formatter);
        prompt
    }

    /// Adds a validator to the collection of validators.
    pub fn with_validator(self, validator: V) -> (prompt: Self)
        ensures
            prompt.message == self.message,
            prompt.help_message == self.help_message,
            prompt.formatter == self.formatter,
            prompt.validators@ == self.validators@.push(validator),
            prompt.buffer() == self.buffer(),
            prompt.error == self.error,
            self.wf() && validator_is_total(validator) ==> prompt.wf(),
    {
        let mut prompt = self;
        prompt.validators.push(validator);
        prompt
    }

    /// The whole content.
    pub fn content(&self) -> (content: String)
        ensures
            content@ == self.buffer().content(),
    {
        let mut content = self.before.clone();
        content.append(self.after.as_str());
        content
    }

    /// Edits the content or moves the caret, as `key` asks.
    ///
    /// Moving the caret leaves the content as it is. Backspace and Delete
    /// shorten the part they work on, unless it is empty already.
    pub fn on_change(&mut self, key: Key)
        ensures
            final(self).buffer() == step(old(self).buffer(), key),
            final(self).error == old(self).error,
            final(self).same_options(old(self)),
            is_navigation(key) ==> final(self).buffer().content() == old(self).buffer().content(),
            key == Key::Backspace ==> final(self).after@ == old(self).after@ && final(self).before@.len() <= old(self).before@.len() && (old(self).before@.len() > 0
                ==> final(self).before@.len() < old(self).before@.len()),
            key == Key::Delete ==> final(self).before@ == old(self).before@ && final(self).after@.len() <= old(self).after@.len() && (old(self).after@.len() > 0 ==> final(self).after@.len() < old(self).after@.len()),
    {
        match key {
            Key::Backspace => {
                self.before = drop_last_grapheme(self.before.as_str());
            },
            Key::Delete => {
                let (_, rest) = split_first_grapheme(self.after.as_str());
                self.after = rest;
            },
            Key::Left => {
                let (kept, last) = split_last_grapheme(self.before.as_str());
                let mut moved = last;
                moved.append(self.after.as_str());
                self.before = kept;
                self.after = moved;
                assert(self.before@ + self.after@ =~= old(self).before@ + old(self).after@);
            },
            Key::Right => {
                let (first, rest) = split_first_grapheme(self.after.as_str());
                self.before.append(first.as_str());
                self.after = rest;
                assert(self.before@ + self.after@ =~= old(self).before@ + old(self).after@);
            },
            Key::Home => {
                let content = self.content();
                self.after = content;
                self.before = String::new();
                assert(self.before@ + self.after@ =~= old(self).before@ + old(self).after@);
            },
            Key::End => {
                self.before.append(self.after.as_str());
                self.after = String::new();
                assert(self.before@ + self.after@ =~= old(self).before@ + old(self).after@);
            },
            Key::Char(c, modifiers) => {
                if modifiers.is_none() {
                    self.before.push(c);
                }
            },
            _ => {},
        }
    }

    /// Asks the validators in order. The answer is the content if all accept
    /// it, and otherwise the first rejection decides.
    pub fn get_final_answer(&self) -> (result: Result<String, String>)
        requires
            self.wf(),
        ensures
            match result {
                Ok(answer) => answer@ == self.buffer().content() && accepts(
                    self.validators@,
                    answer@,
                ),
                Err(message) => rejects(self.validators@, self.buffer().content(), message@),
            },
    {
        let content = self.content();
        match validate(&self.validators, content.as_str()) {
            Ok(_) => Ok(content),
            Err(message) => Err(message),
        }
    }

    /// Reacts to one key.
    ///
    /// Cancel ends the prompt whatever was typed. Submit asks the validators:
    /// if they accept, the content is the answer and the error is cleared;
    /// if one rejects, its message becomes the error, and content and caret
    /// stay. Every other key edits the content or moves the caret, and leaves
    /// the error as it is.
    pub fn handle_key(&mut self, key: Key) -> (outcome: TextStep)
        requires
            old(self).wf(),
        ensures
            final(self).wf(),
            final(self).same_options(old(self)),
            match key {
                Key::Cancel => outcome == TextStep::Canceled && final(self).buffer() == old(
                    self,
                ).buffer() && final(self).error == old(self).error,
                Key::Submit => final(self).buffer() == old(self).buffer() && match outcome {
                    TextStep::Submitted(answer) => answer@ == old(self).buffer().content()
                        && accepts(old(self).validators@, answer@) && final(self).error.is_none(),
                    TextStep::Continue => match final(self).error {
                        Some(message) => rejects(
                            old(self).validators@,
                            old(self).buffer().content(),
                            message@,
                        ),
                        None => false,
                    },
                    TextStep::Canceled => false,
                },
                _ => outcome == TextStep::Continue && final(self).buffer() == step(
                    old(self).buffer(),
                    key,
                ) && final(self).error == old(self).error,
            },
    {
        match key {
            Key::Cancel => TextStep::Canceled,
            Key::Submit => match self.get_final_answer() {
                Ok(answer) => {
                    self.error = None;
                    TextStep::Submitted(answer)
                },
                Err(message) => {
                    self.error = Some(message);
                    TextStep::Continue
                },
            },
            key => {
                self.on_change(key);
                TextStep::Continue
            },
        }
    }

    /// Paints a frame in place of the last one.
    pub fn render(&self, renderer: &mut Renderer)
        requires
            old(renderer).wf(),
        ensures
            final(renderer).wf(),
            final(renderer).same_input(old(renderer)),
            final(renderer).settled() == old(renderer).settled(),
            final(renderer).frame() == self.frame(),
            final(renderer).screen() == old(renderer).settled() + self.frame(),
            final(renderer).terminal.flushed,
    {
        renderer.reset_prompt();
        assert(renderer.settled() =~= old(renderer).settled());
        assert(renderer.frame() =~= Seq::<(LineKind, Seq<char>)>::empty());
        if let Some(err) = &self.error {
            renderer.print_error_message(err.as_str());
        }
        let content = self.content();
        renderer.print_prompt(self.message, None, Some(content.as_str()));
        if let Some(message) = self.help_message {
            renderer.print_help(message);
        }
        renderer.flush();
        assert(renderer.frame() =~= self.frame());
        assert(renderer.screen() =~= renderer.settled() + renderer.frame());
    }

    /// Paints the line that the prompt leaves behind: the message and the
    /// answer as the formatter shows it, or as it is if there is no
    /// formatter.
    pub fn finish(&self, renderer: &mut Renderer, answer: &str)
        requires
            self.wf(),
            old(renderer).wf(),
        ensures
            final(renderer).wf(),
            final(renderer).same_input(old(renderer)),
            final(renderer).painted == 0,
            final(renderer).terminal.flushed,
            left_behind(
                self.formatter,
                self.message@,
                old(renderer).settled(),
                final(renderer).screen(),
                answer@,
            ),
    {
        match &self.formatter {
            Some(formatter) => {
                let shown = formatter(answer);
                renderer.cleanup(self.message, shown.as_str());
                assert(shows(self.formatter, answer@, shown@));
            },
            None => {
                renderer.cleanup(self.message, answer);
                assert(shows(self.formatter, answer@, answer@));
            },
        }
    }

    /// Runs the prompt: paints a frame, reads a key and reacts to it, until
    /// the user commits an answer or cancels, or the terminal fails.
    ///
    /// After an answer the frame is replaced by one line, the message and
    /// the answer as the formatter shows it. Otherwise the last frame stays,
    /// below the lines that were settled before.
    pub fn prompt(self, renderer: &mut Renderer) -> (result: InquireResult<String>)
        requires
            self.wf(),
            old(renderer).wf(),
        ensures
            final(renderer).wf(),
            final(renderer).keys() == old(renderer).keys(),
            old(renderer).consumed() <= final(renderer).consumed(),
            explains(
                self.validators@,
                self.buffer(),
                old(renderer).terminal.pending(),
                final(renderer).consumed() - old(renderer).consumed(),
                result,
            ),
            match result {
                Ok(answer) => final(renderer).painted == 0 && left_behind(
                    self.formatter,
                    self.message@,
                    old(renderer).settled(),
                    final(renderer).screen(),
                    answer@,
                ),
                Err(_) => final(renderer).settled() == old(renderer).settled(),
            },
    {
        let ghost start = self.buffer();
        let ghost keys = renderer.terminal.pending();
        let ghost before = renderer.consumed();
        let ghost settled = renderer.settled();
        let mut state = self;
        loop
            invariant
                state.wf(),
                state.same_options(&self),
                renderer.wf(),
                renderer.keys() == old(renderer).keys(),
                before <= renderer.consumed(),
                keys == old(renderer).keys().skip(before as int),
                before == old(renderer).consumed(),
                start == self.buffer(),
                settled == old(renderer).settled(),
                renderer.settled() == settled,
                state.buffer() == run(start, keys.take(renderer.consumed() - before)),
                forall|j: int|
                    0 <= j < renderer.consumed() - before ==> keeps_running(
                        self.validators@,
                        start,
                        keys,
                        j,
                    ),
            decreases renderer.keys().len() - renderer.consumed(),
        {
            state.render(renderer);
            let ghost read = renderer.consumed() - before;
            let key = match renderer.read_key() {
                Ok(key) => key,
                Err(err) => {
                    return Err(err);
                },
            };
            assert(key == keys[read]);
            let ghost content = state.buffer().content();
            match state.handle_key(key) {
                TextStep::Canceled => {
                    return Err(InquireError::OperationCanceled);
                },
                TextStep::Submitted(answer) => {
                    state.finish(renderer, answer.as_str());
                    return Ok(answer);
                },
                TextStep::Continue => {
                    proof {
                        assert(keys.take(read + 1).drop_last() =~= keys.take(read));
                        assert(keys.take(read + 1).last() == key);
                        if key == Key::Submit {
                            assert(rejects(self.validators@, content, state.error.unwrap()@));
                        }
                    }
                },
            }
        }
    }
}

} // verus!
