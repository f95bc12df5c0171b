//! The masked-input prompt: a line of text that is never echoed.

use crate::error::{InquireError, InquireResult};
use crate::key::Key;
use crate::renderer::{answer_text, prompt_text, Renderer};
use crate::terminal::{LineKind, Terminal};
use crate::grapheme::{
    drop_last_grapheme, lemma_deleting_from_empty, without_last_grapheme, without_last_graphemes,
};
use vstd::prelude::*;
use vstd::string::StringExecFns;

verus! {

/// `validator` can be called on every text.
pub open spec fn validator_is_total<V: Fn(&str) -> Result<(), String>>(validator: V) -> bool {
    forall|text: &str| call_requires(validator, (text,))
}

/// `formatter` can be called on every text.
pub open spec fn formatter_is_total<F: Fn(&str) -> String>(formatter: F) -> bool {
    forall|text: &str| call_requires(formatter, (text,))
}

/// Every validator may accept `text`.
pub open spec fn passes_all<V: Fn(&str) -> Result<(), String>>(
    validators: Seq<V>,
    text: &str,
) -> bool {
    forall|i: int|
        0 <= i < validators.len() ==> #[trigger] call_ensures(validators[i], (text,), Ok(()))
}

/// The validator at `index` may reject `text` with `message`, and those
/// before it may accept it.
pub open spec fn first_rejection<V: Fn(&str) -> Result<(), String>>(
    validators: Seq<V>,
    text: &str,
    index: int,
    message: String,
) -> bool {
    &&& 0 <= index < validators.len()
    &&& call_ensures(validators[index], (text,), Err(message))
    &&& passes_all(validators.take(index), text)
}

/// The validators, asked in order, may all accept `content`.
pub open spec fn accepts<V: Fn(&str) -> Result<(), String>>(
    validators: Seq<V>,
    content: Seq<char>,
) -> bool {
    exists|text: &str| #[trigger] passes_all(validators, text) && text@ == content
}

/// The validators, asked in order, may reject `content`, the first one that
/// does so with `message`.
pub open spec fn rejects<V: Fn(&str) -> Result<(), String>>(
    validators: Seq<V>,
    content: Seq<char>,
    message: Seq<char>,
) -> bool {
    exists|text: &str, index: int, reason: String| #[trigger]
        first_rejection(validators, text, index, reason) && text@ == content && reason@
            == message
}

/// What is shown in place of the answer when no formatter is set.
pub open spec fn default_mask() -> Seq<char> {
    "********"@
}

/// `shown` may be what the formatter, or the default mask in its absence,
/// makes of `answer`.
pub open spec fn formats<F: Fn(&str) -> String>(
    formatter: Option<F>,
    answer: Seq<char>,
    shown: Seq<char>,
) -> bool {
    match formatter {
        Some(f) => exists|text: &str, out: String| #[trigger]
            call_ensures(f, (text,), out) && text@ == answer && out@ == shown,
        None => shown == default_mask(),
    }
}

/// The content after one key: Backspace removes the last grapheme cluster, a
/// character typed without modifiers is appended, and every other key leaves
/// the content as it is.
pub open spec fn edit(content: Seq<char>, key: Key) -> Seq<char> {
    match key {
        Key::Backspace => without_last_grapheme(content),
        Key::Char(c, modifiers) => if modifiers.is_none() {
            content.push(c)
        } else {
            content
        },
        _ => content,
    }
}

/// The content after a sequence of keys, starting from `content`.
pub open spec fn apply_keys(content: Seq<char>, keys: Seq<Key>) -> Seq<char>
    decreases keys.len(),
{
    if keys.len() == 0 {
        content
    } else {
        edit(apply_keys(content, keys.drop_last()), keys.last())
    }
}

/// The key at `index` leaves the prompt running: it is no Cancel, and if it
/// is a Submit, the validators may reject the content typed so far.
pub open spec fn keeps_running<V: Fn(&str) -> Result<(), String>>(
    validators: Seq<V>,
    start: Seq<char>,
    keys: Seq<Key>,
    index: int,
) -> bool {
    &&& keys[index] != Key::Cancel
    &&& keys[index] == Key::Submit ==> exists|message: Seq<char>| #[trigger]
        rejects(validators, apply_keys(start, keys.take(index)), message)
}

/// `result` is a possible end of a prompt that starts with the content
/// `start`, is fed `keys` and reads `consumed` of them.
///
/// All keys but the last one read leave the prompt running. An answer comes
/// with a Submit whose content the validators accept, and is that content;
/// a cancellation comes with a Cancel; and the terminal fails only after the
/// last key, when none of the keys ended the prompt.
pub open spec fn explains<V: Fn(&str) -> Result<(), String>>(
    validators: Seq<V>,
    start: Seq<char>,
    keys: Seq<Key>,
    consumed: int,
    result: InquireResult<String>,
) -> bool {
    &&& 0 <= consumed <= keys.len()
    &&& forall|j: int| 0 <= j < consumed - 1 ==> keeps_running(validators, start, keys, j)
    &&& match result {
        Ok(answer) => {
            &&& consumed >= 1
            &&& keys[consumed - 1] == Key::Submit
            &&& answer@ == apply_keys(start, keys.take(consumed - 1))
            &&& accepts(validators, answer@)
        },
        Err(InquireError::OperationCanceled) => {
            &&& consumed >= 1
            &&& keys[consumed - 1] == Key::Cancel
        },
        Err(InquireError::IO) => {
            &&& consumed == keys.len()
            &&& consumed >= 1 ==> keeps_running(validators, start, keys, consumed - 1)
        },
    }
}

/// Whether `key` is a character typed without modifiers.
pub open spec fn is_plain_char(key: Key) -> bool {
    match key {
        Key::Char(_, modifiers) => modifiers.is_none(),
        _ => false,
    }
}

/// The character that `key` types.
pub open spec fn char_of(key: Key) -> char {
    match key {
        Key::Char(c, _) => c,
        _ => ' ',
    }
}

/// The text that `keys` type, if each of them is a plain character.
pub open spec fn typed_text(keys: Seq<Key>) -> Seq<char> {
    Seq::new(keys.len(), |i: int| char_of(keys[i]))
}

/// `count` presses of Backspace.
pub open spec fn backspaces(count: nat) -> Seq<Key> {
    Seq::new(count, |i: int| Key::Backspace)
}

/// The content after a sequence of keys is the content after all but the
/// last, edited by the last.
pub proof fn lemma_apply_keys_push(content: Seq<char>, keys: Seq<Key>, key: Key)
    ensures
        apply_keys(content, keys.push(key)) == edit(apply_keys(content, keys), key),
{
    assert(keys.push(key).drop_last() =~= keys);
}

/// Feeding one sequence of keys and then another is feeding both in a row.
pub proof fn lemma_apply_keys_concat(content: Seq<char>, first: Seq<Key>, second: Seq<Key>)
    ensures
        apply_keys(content, first + second) == apply_keys(apply_keys(content, first), second),
    decreases second.len(),
{
    if second.len() == 0 {
        assert(first + second =~= first);
    } else {
        lemma_apply_keys_concat(content, first, second.drop_last());
        assert((first + second).drop_last() =~= first + second.drop_last());
        assert((first + second).last() == second.last());
    }
}

/// Keys that are all plain characters append the text they type, whatever
/// the content holds and whatever the characters are.
pub proof fn lemma_typing_appends(content: Seq<char>, keys: Seq<Key>)
    requires
        forall|i: int| 0 <= i < keys.len() ==> is_plain_char(#[trigger] keys[i]),
    ensures
        apply_keys(content, keys) == content + typed_text(keys),
    decreases keys.len(),
{
    if keys.len() == 0 {
        assert(content + typed_text(keys) =~= content);
    } else {
        lemma_typing_appends(content, keys.drop_last());
        assert(is_plain_char(keys.last()));
        assert((content + typed_text(keys.drop_last())).push(char_of(keys.last())) =~= content
            + typed_text(keys));
    }
}

/// Backspace is deletion of the last grapheme cluster, once for each press.
pub proof fn lemma_backspaces_delete(content: Seq<char>, count: nat)
    ensures
        apply_keys(content, backspaces(count)) == without_last_graphemes(content, count),
    decreases count,
{
    if count > 0 {
        let rest = (count - 1) as nat;
        assert(backspaces(count) =~= seq![Key::Backspace] + backspaces(rest));
        lemma_apply_keys_concat(content, seq![Key::Backspace], backspaces(rest));
        assert(seq![Key::Backspace] =~= Seq::<Key>::empty().push(Key::Backspace));
        lemma_apply_keys_push(content, Seq::empty(), Key::Backspace);
        lemma_backspaces_delete(without_last_grapheme(content), rest);
    }
}

/// Backspace on empty content leaves it empty, however often it is pressed.
pub proof fn lemma_backspaces_on_empty(count: nat)
    ensures
        apply_keys(Seq::empty(), backspaces(count)) == Seq::<char>::empty(),
{
    lemma_backspaces_delete(Seq::empty(), count);
    lemma_deleting_from_empty(count);
}

/// A Cancel that no Submit precedes ends the prompt with a cancellation,
/// whatever was typed before it and whatever the validators are.
pub proof fn lemma_cancel_before_submit<V: Fn(&str) -> Result<(), String>>(
    validators: Seq<V>,
    start: Seq<char>,
    keys: Seq<Key>,
    consumed: int,
    result: InquireResult<String>,
    at: int,
)
    requires
        explains(validators, start, keys, consumed, result),
        0 <= at < keys.len(),
        keys[at] == Key::Cancel,
        forall|j: int| 0 <= j < at ==> keys[j] != Key::Submit,
    ensures
        result == Err::<String, InquireError>(InquireError::OperationCanceled),
        consumed <= at + 1,
{
    if consumed - 1 > at {
        assert(keeps_running(validators, start, keys, at));
    }
    match result {
        Ok(_) => {
            assert(keys[consumed - 1] == Key::Submit);
        },
        Err(InquireError::OperationCanceled) => {},
        Err(InquireError::IO) => {
            assert(keeps_running(validators, start, keys, at));
        },
    }
}

/// Without validators the first Submit commits what was typed up to it,
/// unless a Cancel comes first.
pub proof fn lemma_first_submit_commits<V: Fn(&str) -> Result<(), String>>(
    validators: Seq<V>,
    start: Seq<char>,
    keys: Seq<Key>,
    consumed: int,
    result: InquireResult<String>,
    at: int,
)
    requires
        explains(validators, start, keys, consumed, result),
        validators.len() == 0,
        0 <= at < keys.len(),
        keys[at] == Key::Submit,
        forall|j: int| 0 <= j < at ==> keys[j] != Key::Submit && keys[j] != Key::Cancel,
    ensures
        consumed == at + 1,
        match result {
            Ok(answer) => answer@ == apply_keys(start, keys.take(at)),
            Err(_) => false,
        },
{
    assert(!keeps_running(validators, start, keys, at)) by {
        assert forall|message: Seq<char>| !rejects(
            validators,
            apply_keys(start, keys.take(at)),
            message,
        ) by {}
    }
    if consumed - 1 > at {
        assert(keeps_running(validators, start, keys, at));
    }
    match result {
        Ok(_) => {},
        Err(InquireError::OperationCanceled) => {},
        Err(InquireError::IO) => {
            if consumed - 1 == at {
                assert(keeps_running(validators, start, keys, at));
            }
        },
    }
}

/// A Submit that the validators reject leaves the content as it was: what
/// was typed before it is still there for the keys that follow.
pub proof fn lemma_submit_keeps_content(content: Seq<char>, before: Seq<Key>, after: Seq<Key>)
    ensures
        apply_keys(content, before.push(Key::Submit) + after) == apply_keys(
            content,
            before + after,
        ),
{
    lemma_apply_keys_concat(content, before.push(Key::Submit), after);
    lemma_apply_keys_concat(content, before, after);
    lemma_apply_keys_push(content, before, Key::Submit);
}

/// After an answer the screen holds the settled lines and one more: the
/// message and the answer as the formatter shows it.
pub open spec fn left_behind<F: Fn(&str) -> String>(
    formatter: Option<F>,
    message: Seq<char>,
    settled: Seq<(LineKind, Seq<char>)>,
    screen: Seq<(LineKind, Seq<char>)>,
    answer: Seq<char>,
) -> bool {
    exists|shown: Seq<char>| #[trigger]
        formats(formatter, answer, shown) && screen == settled.push(
            (LineKind::Answer, answer_text(message, shown)),
        )
}

/// What a prompt leaves on the screen: after an answer, the settled lines
/// followed by one line that holds the message and the answer as the
/// formatter shows it; otherwise the last frame, below the settled lines.
pub open spec fn committed<F: Fn(&str) -> String>(
    message: Seq<char>,
    formatter: Option<F>,
    before: &Renderer,
    after: &Renderer,
    result: InquireResult<String>,
) -> bool {
    match result {
        Ok(answer) => {
            &&& after.painted == 0
            &&& left_behind(formatter, message, before.settled(), after.screen(), answer@)
        },
        Err(_) => after.settled() == before.settled(),
    }
}

/// Asks the validators in order about `content`, up to the first that
/// rejects it.
pub fn validate<V: Fn(&str) -> Result<(), String>>(validators: &Vec<V>, content: &str) -> (result:
    Result<(), String>)
    requires
        forall|i: int|
            0 <= i < validators@.len() ==> validator_is_total(#[trigger] validators@[i]),
    ensures
        match result {
            Ok(_) => accepts(validators@, content@),
            Err(message) => rejects(validators@, content@, message@),
        },
{
    let mut i: usize = 0;
    while i < validators.len()
        invariant
            forall|j: int|
                0 <= j < validators@.len() ==> validator_is_total(#[trigger] validators@[j]),
            0 <= i <= validators@.len(),
            passes_all(validators@.take(i as int), content),
        decreases validators@.len() - i,
    {
        let verdict = (validators[i])(content);
        match verdict {
            Ok(unit) => {
                assert(unit == ());
                assert(verdict == Ok::<(), String>(unit));
            },
            Err(message) => {
                assert(first_rejection(validators@, content, i as int, message));
                return Err(message);
            },
        }
        assert forall|j: int| 0 <= j < i + 1 implies #[trigger] call_ensures(
            validators@.take(i + 1)[j],
            (content,),
            Ok(()),
        ) by {
            if j < i {
                assert(validators@.take(i + 1)[j] == validators@.take(i as int)[j]);
                assert(call_ensures(validators@.take(i as int)[j], (content,), Ok(())));
            }
        }
        i = i + 1;
    }
    assert(validators@.take(i as int) =~= validators@);
    assert(passes_all(validators@, content));
    Ok(())
}

/// The mask that hides an answer when no formatter is set.
pub fn default_formatter(answer: &str) -> (shown: String)
    ensures
        shown@ == default_mask(),
{
    String::from_str("********")
}

/// The options of a masked-input prompt.
///
/// The input is never echoed, and the committed answer is shown through the
/// formatter, or as a fixed mask if none is set.
#[derive(Clone)]
pub struct Password<'a, V, F> {
    /// Message to be presented to the user.
    pub message: &'a str,
    /// Help message to be presented to the user.
    pub help_message: Option<&'a str>,
    /// Makes the text that stands for the answer once it is committed.
    pub formatter: Option<F>,
    /// Asked in order when the user submits; the first rejection is shown.
    pub validators: Vec<V>,
}

impl<'a, V: Fn(&str) -> Result<(), String>, F: Fn(&str) -> String> Password<'a, V, F> {
    /// The validators and the formatter can be called on every text.
    pub open spec fn wf(&self) -> bool {
        &&& forall|i: int|
            0 <= i < self.validators@.len() ==> validator_is_total(#[trigger] self.validators@[i])
        &&& match self.formatter {
            Some(f) => formatter_is_total(f),
            None => true,
        }
    }

    /// Creates a [`Password`] with the provided message and default options.
    pub fn new(message: &'a str) -> (password: Self)
        ensures
            password.message == message,
            password.help_message.is_none(),
            password.formatter.is_none(),
            password.validators@.len() == 0,
            password.wf(),
    {
        Password { message, help_message: None, formatter: None, validators: Vec::new() }
    }

    /// Creates a [`Password`] with the provided message and default options.
    pub fn from(val: &'a str) -> (password: Self)
        ensures
            password.message == val,
            password.help_message.is_none(),
            password.formatter.is_none(),
            password.validators@.len() == 0,
            password.wf(),
    {
        Password::new(val)
    }

    /// Sets the help message of the prompt.
    pub fn with_help_message(self, message: &'a str) -> (password: Self)
        ensures
            password.message == self.message,
            password.help_message == Some(message),
            password.formatter == self.formatter,
            password.validators == self.validators,
            self.wf() ==> password.wf(),
    {
        let mut password = self;
        password.help_message = Some(message);
        password
    }

    /// Sets the formatter.
    pub fn with_formatter(self, formatter: F) -> (password: Self)
        ensures
            password.message == self.message,
            password.help_message == self.help_message,
            password.formatter == Some(formatter),
            password.validators == self.validators,
            self.wf() && formatter_is_total(formatter) ==> password.wf(),
    {
        let mut password = self;
        password.formatter = Some(formatter);
        password
    }

    /// Adds a validator to the collection of validators.
    pub fn with_validator(self, validator: V) -> (password: Self)
        ensures
            password.message == self.message,
            password.help_message == self.help_message,
            password.formatter == self.formatter,
            password.validators@ == self.validators@.push(validator),
            self.wf() && validator_is_total(validator) ==> password.wf(),
    {
        let mut password = self;
        password.validators.push(validator);
        password
    }

    /// Adds the validators to the collection of validators, in their order.
    pub fn with_validators(self, validators: Vec<V>) -> (password: Self)
        ensures
            password.message == self.message,
            password.help_message == self.help_message,
            password.formatter == self.formatter,
            password.validators@ == self.validators@ + validators@,
            self.wf() && (forall|i: int|
                0 <= i < validators@.len() ==> validator_is_total(#[trigger] validators@[i]))
                ==> password.wf(),
    {
        let mut password = self;
        let mut added = validators;
        password.validators.append(&mut added);
        password
    }

    /// Prompts on `terminal`: paints the question, reads its keys and returns
    /// the answer that the user commits.
    pub fn prompt(self, terminal: Terminal) -> (result: InquireResult<String>)
        requires
            self.wf(),
            terminal.wf(),
        ensures
            exists|consumed: int| #[trigger]
                explains(
                    self.validators@,
                    Seq::<char>::empty(),
                    terminal.pending(),
                    consumed,
                    result,
                ),
    {
        let ghost keys = terminal.pending();
        let ghost validators = self.validators@;
        let ghost before = terminal.consumed;
        let mut renderer = Renderer::new(terminal);
        let result = self.prompt_with_renderer(&mut renderer);
        assert(explains(
            validators,
            Seq::<char>::empty(),
            keys,
            renderer.consumed() - before,
            result,
        ));
        result
    }

    /// Prompts through a renderer that the caller has set up.
    ///
    /// The keys are read from the renderer's terminal. An answer is the raw
    /// content; the formatter only makes the text of the line that the
    /// prompt leaves on the screen, below the lines that were settled before.
    pub fn prompt_with_renderer(self, renderer: &mut Renderer) -> (result: InquireResult<String>)
        requires
            self.wf(),
            old(renderer).wf(),
        ensures
            final(renderer).wf(),
            final(renderer).keys() == old(renderer).keys(),
            old(renderer).consumed() <= final(renderer).consumed(),
            explains(
                self.validators@,
                Seq::<char>::empty(),
                old(renderer).terminal.pending(),
                final(renderer).consumed() - old(renderer).consumed(),
                result,
            ),
            committed(self.message@, self.formatter, old(renderer), final(renderer), result),
    {
        PasswordPrompt::from(self).prompt(renderer)
    }
}

/// What one key did to a running prompt.
#[derive(Debug, PartialEq, Eq)]
pub enum Step {
    /// The prompt goes on.
    Continue,
    /// The user aborted the prompt.
    Canceled,
    /// The user committed this answer.
    Submitted(String),
}

/// The state of a masked-input prompt while it runs.
pub struct PasswordPrompt<'a, V, F> {
    pub message: &'a str,
    pub help_message: Option<&'a str>,
    /// What the user has typed so far.
    pub content: String,
    pub formatter: Option<F>,
    pub validators: Vec<V>,
    /// Why the last submission was rejected, if it was.
    pub error: Option<String>,
}

impl<'a, V: Fn(&str) -> Result<(), String>, F: Fn(&str) -> String> PasswordPrompt<'a, V, F> {
    /// The validators and the formatter can be called on every text.
    pub open spec fn wf(&self) -> bool {
        &&& forall|i: int|
            0 <= i < self.validators@.len() ==> validator_is_total(#[trigger] self.validators@[i])
        &&& match self.formatter {
            Some(f) => formatter_is_total(f),
            None => true,
        }
    }

    /// The state in which a prompt with these options starts: nothing typed
    /// and no error.
    pub fn from(so: Password<'a, V, F>) -> (prompt: Self)
        ensures
            prompt.message == so.message,
            prompt.help_message == so.help_message,
            prompt.formatter == so.formatter,
            prompt.validators == so.validators,
            prompt.content@ == Seq::<char>::empty(),
            prompt.error.is_none(),
            so.wf() ==> prompt.wf(),
    {
        PasswordPrompt {
            message: so.message,
            help_message: so.help_message,
            formatter: so.formatter,
            validators: so.validators,
            content: String::new(),
            error: None,
        }
    }

    /// The two states differ at most in content and error.
    pub open spec fn same_options(&self, other: &Self) -> bool {
        &&& self.message == other.message
        &&& self.help_message == other.help_message
        &&& self.formatter == other.formatter
        &&& self.validators == other.validators
    }

    /// The lines of a frame: the error if there is one, the question
    /// without the content, and the help message if there is one.
    pub open spec fn frame(&self) -> Seq<(LineKind, Seq<char>)> {
        let error = match self.error {
            Some(e) => seq![(LineKind::Error, e@)],
            None => seq![],
        };
        let help = match self.help_message {
            Some(h) => seq![(LineKind::Help, h@)],
            None => seq![],
        };
        error + seq![(LineKind::Prompt, prompt_text(self.message@, None, None))] + help
    }

    /// Edits the content as `key` asks.
    ///
    /// Backspace leaves a prefix of the content, and a shorter one unless the
    /// content was empty already: deleting never fails, and repeated often
    /// enough it empties the content.
    pub fn on_change(&mut self, key: Key)
        ensures
            final(self).content@ == edit(old(self).content@, key),
            final(self).error == old(self).error,
            final(self).same_options(old(self)),
            key == Key::Backspace ==> {
                &&& final(self).content@.len() <= old(self).content@.len()
                &&& final(self).content@ == old(self).content@.take(
                    final(self).content@.len() as int,
                )
                &&& old(self).content@.len() > 0 ==> final(self).content@.len() < old(
                    self,
                ).content@.len()
            },
    {
        match key {
            Key::Backspace => {
                self.content = drop_last_grapheme(self.content.as_str());
            },
            Key::Char(c, modifiers) => {
                if modifiers.is_none() {
                    self.content.push(c);
                }
            },
            _ => {},
        }
    }

    /// Asks the validators in order. The answer is the content if all accept
    /// it, and otherwise the first rejection decides.
    pub fn get_final_answer(&self) -> (result: Result<String, String>)
        requires
            self.wf(),
        ensures
            match result {
                Ok(answer) => answer@ == self.content@ && accepts(
                    self.validators@,
                    self.content@,
                ),
                Err(message) => rejects(self.validators@, self.content@, message@),
            },
    {
        match validate(&self.validators, self.content.as_str()) {
            Ok(_) => Ok(self.content.clone()),
            Err(message) => Err(message),
        }
    }

    /// Reacts to one key.
    ///
    /// Cancel ends the prompt whatever was typed. Submit asks the validators:
    /// if they accept, the content is the answer and the error is cleared;
    /// if one rejects, its message becomes the error and the content stays.
    /// Every other key edits the content and leaves the error as it is.
    pub fn handle_key(&mut self, key: Key) -> (step: Step)
        requires
            old(self).wf(),
        ensures
            final(self).wf(),
            final(self).same_options(old(self)),
            match key {
                Key::Cancel => step == Step::Canceled && final(self).content == old(self).content
                    && final(self).error == old(self).error,
                Key::Submit => final(self).content == old(self).content && match step {
                    Step::Submitted(answer) => answer@ == old(self).content@ && accepts(
                        old(self).validators@,
                        old(self).content@,
                    ) && final(self).error.is_none(),
                    Step::Continue => match final(self).error {
                        Some(message) => rejects(
                            old(self).validators@,
                            old(self).content@,
                            message@,
                        ),
                        None => false,
                    },
                    Step::Canceled => false,
                },
                _ => step == Step::Continue && final(self).content@ == edit(
                    old(self).content@,
                    key,
                ) && final(self).error == old(self).error,
            },
    {
        match key {
            Key::Cancel => Step::Canceled,
            Key::Submit => match self.get_final_answer() {
                Ok(answer) => {
                    self.error = None;
                    Step::Submitted(answer)
                },
                Err(message) => {
                    self.error = Some(message);
                    Step::Continue
                },
            },
            key => {
                self.on_change(key);
                Step::Continue
            },
        }
    }

    /// Paints a frame in place of the last one.
    pub fn render(&self, renderer: &mut Renderer)
        requires
            old(renderer).wf(),
        ensures
            final(renderer).wf(),
            final(renderer).same_input(old(renderer)),
            final(renderer).settled() == old(renderer).settled(),
            final(renderer).frame() == self.frame(),
            final(renderer).screen() == old(renderer).settled() + self.frame(),
            final(renderer).terminal.flushed,
    {
        renderer.reset_prompt();
        assert(renderer.settled() =~= old(renderer).settled());
        assert(renderer.frame() =~= Seq::<(LineKind, Seq<char>)>::empty());
        if let Some(err) = &self.error {
            renderer.print_error_message(err.as_str());
        }
        renderer.print_prompt(self.message, None, None);
        if let Some(message) = self.help_message {
            renderer.print_help(message);
        }
        renderer.flush();
        assert(renderer.frame() =~= self.frame());
        assert(renderer.screen() =~= renderer.settled() + renderer.frame());
    }

    /// Paints the line that the prompt leaves behind: the message and the
    /// answer as the formatter shows it, or masked if there is no formatter.
    /// The answer itself does not reach the screen otherwise.
    pub fn finish(&self, renderer: &mut Renderer, answer: &str)
        requires
            self.wf(),
            old(renderer).wf(),
        ensures
            final(renderer).wf(),
            final(renderer).same_input(old(renderer)),
            final(renderer).painted == 0,
            final(renderer).terminal.flushed,
            left_behind(
                self.formatter,
                self.message@,
                old(renderer).settled(),
                final(renderer).screen(),
                answer@,
            ),
    {
        let shown = match &self.formatter {
            Some(formatter) => formatter(answer),
            None => default_formatter(answer),
        };
        renderer.cleanup(self.message, shown.as_str());
        assert(formats(self.formatter, answer@, shown@));
    }

    /// Runs the prompt: paints a frame, reads a key and reacts to it, until
    /// the user commits an answer or cancels, or the terminal fails.
    pub fn prompt(self, renderer: &mut Renderer) -> (result: InquireResult<String>)
        requires
            self.wf(),
            old(renderer).wf(),
        ensures
            final(renderer).wf(),
            final(renderer).keys() == old(renderer).keys(),
            old(renderer).consumed() <= final(renderer).consumed(),
            explains(
                self.validators@,
                self.content@,
                old(renderer).terminal.pending(),
                final(renderer).consumed() - old(renderer).consumed(),
                result,
            ),
            committed(self.message@, self.formatter, old(renderer), final(renderer), result),
    {
        let ghost start = self.content@;
        let ghost keys = renderer.terminal.pending();
        let ghost before = renderer.consumed();
        let ghost settled = renderer.settled();
        let mut state = self;
        loop
            invariant
                state.wf(),
                state.same_options(&self),
                renderer.wf(),
                renderer.keys() == old(renderer).keys(),
                before <= renderer.consumed(),
                keys == old(renderer).keys().skip(before as int),
                before == old(renderer).consumed(),
                start == self.content@,
                settled == old(renderer).settled(),
                renderer.settled() == settled,
                state.content@ == apply_keys(start, keys.take(renderer.consumed() - before)),
                forall|j: int|
                    0 <= j < renderer.consumed() - before ==> keeps_running(
                        self.validators@,
                        start,
                        keys,
                        j,
                    ),
            decreases renderer.keys().len() - renderer.consumed(),
        {
            state.render(renderer);
            let ghost read = renderer.consumed() - before;
            let key = match renderer.read_key() {
                Ok(key) => key,
                Err(err) => {
                    return Err(err);
                },
            };
            assert(key == keys[read]);
            let ghost content = state.content@;
            match state.handle_key(key) {
                Step::Canceled => {
                    return Err(InquireError::OperationCanceled);
                },
                Step::Submitted(answer) => {
                    state.finish(renderer, answer.as_str());
                    return Ok(answer);
                },
                Step::Continue => {
                    proof {
                        assert(keys.take(read + 1).drop_last() =~= keys.take(read));
                        assert(keys.take(read + 1).last() == key);
                        if key == Key::Submit {
                            assert(rejects(self.validators@, content, state.error.unwrap()@));
                        }
                    }
                },
            }
        }
    }
}

} // verus!
