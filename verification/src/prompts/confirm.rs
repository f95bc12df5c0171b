//! The confirm prompt: a yes-or-no question.
//!
//! `y` and `n`, in either case and typed without modifiers, set the answer.
//! Backspace unsets it. Submit commits the answer, or the default if no
//! answer is set; with neither, the user is asked to answer.

use crate::error::{InquireError, InquireResult};
use crate::key::Key;
use crate::renderer::{answer_text, prompt_text, Renderer};
use crate::terminal::LineKind;
use vstd::prelude::*;
use vstd::string::StringExecFns;

verus! {

/// What the user is told when there is neither an answer nor a default.
pub open spec fn unanswered_message() -> Seq<char> {
    "Please answer y or n"@
}

/// The answer after one key.
pub open spec fn step(answer: Option<bool>, key: Key) -> Option<bool> {
    match key {
        Key::Backspace => None,
        Key::Char(c, modifiers) => if !modifiers.is_none() {
            answer
        } else if c == 'y' || c == 'Y' {
            Some(true)
        } else if c == 'n' || c == 'N' {
            Some(false)
        } else {
            answer
        },
        _ => answer,
    }
}

/// The answer after a sequence of keys.
pub open spec fn run(answer: Option<bool>, keys: Seq<Key>) -> Option<bool>
    decreases keys.len(),
{
    if keys.len() == 0 {
        answer
    } else {
        step(run(answer, keys.drop_last()), keys.last())
    }
}

/// What a Submit commits: the answer if one is set, else the default.
pub open spec fn resolved(answer: Option<bool>, default: Option<bool>) -> Option<bool> {
    match answer {
        Some(_) => answer,
        None => default,
    }
}

/// The key at `index` leaves the prompt running: it is no Cancel, and if it
/// is a Submit, there is neither an answer nor a default.
pub open spec fn keeps_running(
    start: Option<bool>,
    default: Option<bool>,
    keys: Seq<Key>,
    index: int,
) -> bool {
    &&& keys[index] != Key::Cancel
    &&& keys[index] == Key::Submit ==> resolved(run(start, keys.take(index)), default).is_none()
}

/// `result` is the end of a prompt that starts with the answer `start`, is
/// fed `keys` and reads `consumed` of them.
///
/// All keys but the last one read leave the prompt running. An answer comes
/// with a Submit that finds an answer or a default; a cancellation comes with
/// a Cancel; and the terminal fails only after the last key, when none of
/// the keys ended the prompt.
pub open spec fn explains(
    start: Option<bool>,
    default: Option<bool>,
    keys: Seq<Key>,
    consumed: int,
    result: InquireResult<bool>,
) -> bool {
    &&& 0 <= consumed <= keys.len()
    &&& forall|j: int| 0 <= j < consumed - 1 ==> keeps_running(start, default, keys, j)
    &&& match result {
        Ok(answer) => {
            &&& consumed >= 1
            &&& keys[consumed - 1] == Key::Submit
            &&& resolved(run(start, keys.take(consumed - 1)), default) == Some(answer)
        },
        Err(InquireError::OperationCanceled) => {
            &&& consumed >= 1
            &&& keys[consumed - 1] == Key::Cancel
        },
        Err(InquireError::IO) => {
            &&& consumed == keys.len()
            &&& consumed >= 1 ==> keeps_running(start, default, keys, consumed - 1)
        },
    }
}

/// The keys decide how the prompt ends: two ends that the same keys explain
/// are the same end, after the same number of keys.
pub proof fn lemma_end_is_determined(
    start: Option<bool>,
    default: Option<bool>,
    keys: Seq<Key>,
    consumed: int,
    result: InquireResult<bool>,
    other_consumed: int,
    other: InquireResult<bool>,
)
    requires
        explains(start, default, keys, consumed, result),
        explains(start, default, keys, other_consumed, other),
    ensures
        consumed == other_consumed,
        result == other,
{
    if consumed < other_consumed {
        assert(keeps_running(start, default, keys, consumed - 1));
    }
    if other_consumed < consumed {
        assert(keeps_running(start, default, keys, other_consumed - 1));
    }
}

/// A Cancel that no Submit precedes ends the prompt with a cancellation,
/// whatever was answered before it.
pub proof fn lemma_cancel_before_submit(
    start: Option<bool>,
    default: Option<bool>,
    keys: Seq<Key>,
    consumed: int,
    result: InquireResult<bool>,
    at: int,
)
    requires
        explains(start, default, keys, consumed, result),
        0 <= at < keys.len(),
        keys[at] == Key::Cancel,
        forall|j: int| 0 <= j < at ==> keys[j] != Key::Submit,
    ensures
        result == Err::<bool, InquireError>(InquireError::OperationCanceled),
        consumed <= at + 1,
{
    if consumed - 1 > at {
        assert(keeps_running(start, default, keys, at));
    }
    match result {
        Ok(_) => {
            assert(keys[consumed - 1] == Key::Submit);
        },
        Err(InquireError::OperationCanceled) => {},
        Err(InquireError::IO) => {
            assert(keeps_running(start, default, keys, at));
        },
    }
}

/// What one key did to a running confirm prompt.
#[derive(Clone, Copy, Debug, PartialEq, Eq, Structural)]
pub enum ConfirmStep {
    /// The prompt goes on.
    Continue,
    /// The user aborted the prompt.
    Canceled,
    /// The user committed this answer.
    Submitted(bool),
}

/// The state of a confirm prompt while it runs.
pub struct ConfirmPrompt<'a> {
    pub message: &'a str,
    pub help_message: Option<&'a str>,
    /// What a Submit commits when no answer is set.
    pub default: Option<bool>,
    /// The answer, if one is set.
    pub answer: Option<bool>,
    /// Set when a Submit found neither an answer nor a default.
    pub error: Option<String>,
}

impl<'a> ConfirmPrompt<'a> {
    /// The two states differ at most in answer and error.
    pub open spec fn same_options(&self, other: &Self) -> bool {
        &&& self.message == other.message
        &&& self.help_message == other.help_message
        &&& self.default == other.default
    }

    /// The hint that stands for the default on the question line.
    pub open spec fn default_hint(default: Option<bool>) -> Seq<char> {
        match default {
            Some(true) => "Y/n"@,
            Some(false) => "y/N"@,
            None => "y/n"@,
        }
    }

    /// How an answer is shown.
    pub open spec fn answer_word(answer: bool) -> Seq<char> {
        if answer {
            "Yes"@
        } else {
            "No"@
        }
    }

    /// The lines of a frame: the error if there is one, the question with
    /// the hint and the answer if one is set, and the help message if there
    /// is one.
    pub open spec fn frame(&self) -> Seq<(LineKind, Seq<char>)> {
        let error = match self.error {
            Some(e) => seq![(LineKind::Error, e@)],
            None => seq![],
        };
        let help = match self.help_message {
            Some(h) => seq![(LineKind::Help, h@)],
            None => seq![],
        };
        let shown = match self.answer {
            Some(a) => Some(Self::answer_word(a)),
            None => None,
        };
        error + seq![
            (
                LineKind::Prompt,
                prompt_text(self.message@, Some(Self::default_hint(self.default)), shown),
            ),
        ] + help
    }

    /// A prompt without default, help message or answer.
    pub fn new(message: &'a str) -> (prompt: Self)
        ensures
            prompt.message == message,
            prompt.help_message.is_none(),
            prompt.default.is_none(),
            prompt.answer.is_none(),
            prompt.error.is_none(),
    {
        ConfirmPrompt { message, help_message: None, default: None, answer: None, error: None }
    }

    /// Sets what a Submit commits when no answer is set.
    pub fn with_default(self, default: bool) -> (prompt: Self)
        ensures
            prompt.message == self.message,
            prompt.help_message == self.help_message,
            prompt.default == Some(default),
            prompt.answer == self.answer,
            prompt.error == self.error,
    {
        let mut prompt = self;
        prompt.default = Some(default);
        prompt
    }

    /// Sets the help message of the prompt.
    pub fn with_help_message(self, message: &'a str) -> (prompt: Self)
        ensures
            prompt.message == self.message,
            prompt.help_message == Some(message),
            prompt.default == self.default,
            prompt.answer == self.answer,
            prompt.error == self.error,
    {
        let mut prompt = self;
        prompt.help_message = Some(message);
        prompt
    }

    /// Sets or unsets the answer as `key` asks.
    pub fn on_change(&mut self, key: Key)
        ensures
            final(self).answer == step(old(self).answer, key),
            final(self).error == old(self).error,
            final(self).same_options(old(self)),
    {
        match key {
            Key::Backspace => {
                self.answer = None;
            },
            Key::Char(c, modifiers) => {
                if modifiers.is_none() {
                    if c == 'y' || c == 'Y' {
                        self.answer = Some(true);
                    } else if c == 'n' || c == 'N' {
                        self.answer = Some(false);
                    }
                }
            },
            _ => {},
        }
    }

    /// What a Submit commits: the answer if one is set, else the default,
    /// and with neither a request to answer.
    pub fn get_final_answer(&self) -> (result: Result<bool, String>)
        ensures
            match result {
                Ok(answer) => resolved(self.answer, self.default) == Some(answer),
                Err(message) => resolved(self.answer, self.default).is_none() && message@
                    == unanswered_message(),
            },
    {
        match self.answer {
            Some(answer) => Ok(answer),
            None => match self.default {
                Some(default) => Ok(default),
                None => Err(String::from_str("Please answer y or n")),
            },
        }
    }

    /// Reacts to one key.
    ///
    /// Cancel ends the prompt. Submit commits the answer or the default and
    /// clears the error; with neither, the request to answer becomes the
    /// error. Every other
    /// key sets or unsets the answer, or does nothing, and leaves the error
    /// as it is.
    pub fn handle_key(&mut self, key: Key) -> (outcome: ConfirmStep)
        ensures
            final(self).same_options(old(self)),
            match key {
                Key::Cancel => outcome == ConfirmStep::Canceled && final(self).answer == old(
                    self,
                ).answer && final(self).error == old(self).error,
                Key::Submit => final(self).answer == old(self).answer && match resolved(
                    old(self).answer,
                    old(self).default,
                ) {
                    Some(answer) => outcome == ConfirmStep::Submitted(answer)
                        && final(self).error.is_none(),
                    None => outcome == ConfirmStep::Continue && match final(self).error {
                        Some(message) => message@ == unanswered_message(),
                        None => false,
                    },
                },
                _ => outcome == ConfirmStep::Continue && final(self).answer == step(
                    old(self).answer,
                    key,
                ) && final(self).error == old(self).error,
            },
    {
        match key {
            Key::Cancel => ConfirmStep::Canceled,
            Key::Submit => match self.get_final_answer() {
                Ok(answer) => {
                    self.error = None;
                    ConfirmStep::Submitted(answer)
                },
                Err(message) => {
                    self.error = Some(message);
                    ConfirmStep::Continue
                },
            },
            key => {
                self.on_change(key);
                ConfirmStep::Continue
            },
        }
    }

    /// Paints a frame in place of the last one.
    pub fn render(&self, renderer: &mut Renderer)
        requires
            old(renderer).wf(),
        ensures
            final(renderer).wf(),
            final(renderer).same_input(old(renderer)),
            final(renderer).settled() == old(renderer).settled(),
            final(renderer).frame() == self.frame(),
            final(renderer).screen() == old(renderer).settled() + self.frame(),
            final(renderer).terminal.flushed,
    {
        renderer.reset_prompt();
        assert(renderer.settled() =~= old(renderer).settled());
        assert(renderer.frame() =~= Seq::<(LineKind, Seq<char>)>::empty());
        if let Some(err) = &self.error {
            renderer.print_error_message(err.as_str());
        }
        let hint = match self.default {
            Some(true) => "Y/n",
            Some(false) => "y/N",
            None => "y/n",
        };
        let shown = match self.answer {
            Some(true) => Some("Yes"),
            Some(false) => Some("No"),
            None => None,
        };
        renderer.print_prompt(self.message, Some(hint), shown);
        if let Some(message) = self.help_message {
            renderer.print_help(message);
        }
        renderer.flush();
        assert(renderer.frame() =~= self.frame());
        assert(renderer.screen() =~= renderer.settled() + renderer.frame());
    }

    /// Paints the line that the prompt leaves behind: the message and Yes
    /// or No.
    pub fn finish(&self, renderer: &mut Renderer, answer: bool)
        requires
            old(renderer).wf(),
        ensures
            final(renderer).wf(),
            final(renderer).same_input(old(renderer)),
            final(renderer).painted == 0,
            final(renderer).terminal.flushed,
            final(renderer).screen() == old(renderer).settled().push(
                (LineKind::Answer, answer_text(self.message@, Self::answer_word(answer))),
            ),
    {
        renderer.cleanup(self.message, if answer { "Yes" } else { "No" });
    }

    /// Runs the prompt: paints a frame, reads a key and reacts to it, until
    /// the user commits an answer or cancels, or the terminal fails.
    ///
    /// After an answer the frame is replaced by one line, the message and
    /// Yes or No. Otherwise the last frame stays, below the lines that were
    /// settled before.
    pub fn prompt(self, renderer: &mut Renderer) -> (result: InquireResult<bool>)
        requires
            old(renderer).wf(),
        ensures
            final(renderer).wf(),
            final(renderer).keys() == old(renderer).keys(),
            old(renderer).consumed() <= final(renderer).consumed(),
            explains(
                self.answer,
                self.default,
                old(renderer).terminal.pending(),
                final(renderer).consumed() - old(renderer).consumed(),
                result,
            ),
            match result {
                Ok(answer) => final(renderer).painted == 0 && final(renderer).screen() == old(
                    renderer,
                ).settled().push(
                    (LineKind::Answer, answer_text(self.message@, Self::answer_word(answer))),
                ),
                Err(_) => final(renderer).settled() == old(renderer).settled(),
            },
    {
        let ghost start = self.answer;
        let ghost keys = renderer.terminal.pending();
        let ghost before = renderer.consumed();
        let ghost settled = renderer.settled();
        let mut state = self;
        loop
            invariant
                state.same_options(&self),
                renderer.wf(),
                renderer.keys() == old(renderer).keys(),
                before <= renderer.consumed(),
                keys == old(renderer).keys().skip(before as int),
                before == old(renderer).consumed(),
                start == self.answer,
                settled == old(renderer).settled(),
                renderer.settled() == settled,
                state.answer == run(start, keys.take(renderer.consumed() - before)),
                forall|j: int|
                    0 <= j < renderer.consumed() - before ==> keeps_running(
                        start,
                        self.default,
                        keys,
                        j,
                    ),
            decreases renderer.keys().len() - renderer.consumed(),
        {
            state.render(renderer);
            let ghost read = renderer.consumed() - before;
            let key = match renderer.read_key() {
                Ok(key) => key,
                Err(err) => {
                    return Err(err);
                },
            };
            assert(key == keys[read]);
            match state.handle_key(key) {
                ConfirmStep::Canceled => {
                    return Err(InquireError::OperationCanceled);
                },
                ConfirmStep::Submitted(answer) => {
                    state.finish(renderer, answer);
                    return Ok(answer);
                },
                ConfirmStep::Continue => {
                    proof {
                        assert(keys.take(read + 1).drop_last() =~= keys.take(read));
                        assert(keys.take(read + 1).last() == key);
                    }
                },
            }
        }
    }
}

} // verus!
