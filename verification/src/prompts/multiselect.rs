//! The multi-select prompt: a cursor that moves over a list and a set of
//! selected items.
//!
//! The cursor is clamped: Up on the first item and Down on the last one leave
//! it where it is. A space typed without modifiers toggles the item under the
//! cursor.

use crate::error::{InquireError, InquireResult};
use crate::key::{Key, KeyModifiers};
use crate::renderer::{answer_text, choice_text, prompt_text, Renderer};
use crate::terminal::LineKind;
use vstd::prelude::*;
use vstd::string::StringExecFns;

verus! {

/// Where the cursor is and which items are selected.
pub struct Selection {
    pub cursor: usize,
    pub checked: Seq<bool>,
}

/// Whether `key` toggles the item under the cursor.
pub open spec fn is_toggle(key: Key) -> bool {
    key == Key::Char(' ', KeyModifiers::spec_none())
}

/// The selection after one key.
pub open spec fn step(selection: Selection, key: Key) -> Selection {
    let count = selection.checked.len();
    let cursor = selection.cursor;
    match key {
        Key::Up => Selection {
            cursor: if cursor > 0 {
                (cursor - 1) as usize
            } else {
                cursor
            },
            checked: selection.checked,
        },
        Key::Down => Selection {
            cursor: if cursor + 1 < count {
                (cursor + 1) as usize
            } else {
                cursor
            },
            checked: selection.checked,
        },
        _ => if is_toggle(key) && cursor < count {
            Selection {
                cursor,
                checked: selection.checked.update(cursor as int, !selection.checked[cursor as int]),
            }
        } else {
            selection
        },
    }
}

/// The selection after a sequence of keys.
pub open spec fn run(selection: Selection, keys: Seq<Key>) -> Selection
    decreases keys.len(),
{
    if keys.len() == 0 {
        selection
    } else {
        step(run(selection, keys.drop_last()), keys.last())
    }
}

/// The indices of the selected items, in list order.
pub open spec fn selected_indices(checked: Seq<bool>) -> Seq<usize>
    decreases checked.len(),
{
    if checked.len() == 0 {
        Seq::empty()
    } else if checked.last() {
        selected_indices(checked.drop_last()).push((checked.len() - 1) as usize)
    } else {
        selected_indices(checked.drop_last())
    }
}

/// The items at `indices`, separated by a comma and a space.
pub open spec fn listed(options: Seq<String>, indices: Seq<usize>) -> Seq<char>
    decreases indices.len(),
{
    if indices.len() == 0 {
        Seq::empty()
    } else if indices.len() == 1 {
        options[indices[0] as int]@
    } else {
        listed(options, indices.drop_last()) + ", "@ + options[indices.last() as int]@
    }
}

/// The indices of the selected items are indices of the list, in rising
/// order.
pub proof fn lemma_selected_indices(checked: Seq<bool>)
    requires
        checked.len() <= usize::MAX,
    ensures
        selected_indices(checked).len() <= checked.len(),
        forall|i: int|
            0 <= i < selected_indices(checked).len() ==> (#[trigger] selected_indices(
                checked,
            )[i]) < checked.len() && checked[selected_indices(checked)[i] as int],
        forall|i: int, j: int|
            0 <= i < j < selected_indices(checked).len() ==> selected_indices(checked)[i]
                < selected_indices(checked)[j],
    decreases checked.len(),
{
    if checked.len() > 0 {
        let rest = checked.drop_last();
        lemma_selected_indices(rest);
        let indices = selected_indices(checked);
        assert forall|i: int| 0 <= i < indices.len() implies (#[trigger] indices[i])
            < checked.len() && checked[indices[i] as int] by {
            if i < selected_indices(rest).len() {
                assert(indices[i] == selected_indices(rest)[i]);
                assert(rest[indices[i] as int] == checked[indices[i] as int]);
            }
        }
        assert forall|i: int, j: int| 0 <= i < j < indices.len() implies indices[i]
            < indices[j] by {
            assert(indices[i] == selected_indices(rest)[i]);
            if j < selected_indices(rest).len() {
                assert(indices[j] == selected_indices(rest)[j]);
            }
        }
    }
}

/// `validator` can be called on every selection.
pub open spec fn validator_is_total<V: Fn(&Vec<usize>) -> Result<(), String>>(
    validator: V,
) -> bool {
    forall|selected: &Vec<usize>| call_requires(validator, (selected,))
}

/// Every validator may accept `selected`.
pub open spec fn passes_all<V: Fn(&Vec<usize>) -> Result<(), String>>(
    validators: Seq<V>,
    selected: &Vec<usize>,
) -> bool {
    forall|i: int|
        0 <= i < validators.len() ==> #[trigger] call_ensures(
            validators[i],
            (selected,),
            Ok(()),
        )
}

/// The validator at `index` may reject `selected` with `message`, and those
/// before it may accept it.
pub open spec fn first_rejection<V: Fn(&Vec<usize>) -> Result<(), String>>(
    validators: Seq<V>,
    selected: &Vec<usize>,
    index: int,
    message: String,
) -> bool {
    &&& 0 <= index < validators.len()
    &&& call_ensures(validators[index], (selected,), Err(message))
    &&& passes_all(validators.take(index), selected)
}

/// The validators, asked in order, may all accept the selection.
pub open spec fn accepts<V: Fn(&Vec<usize>) -> Result<(), String>>(
    validators: Seq<V>,
    indices: Seq<usize>,
) -> bool {
    exists|selected: &Vec<usize>| #[trigger]
        passes_all(validators, selected) && selected@ == indices
}

/// The validators, asked in order, may reject the selection, the first one
/// that does so with `message`.
pub open spec fn rejects<V: Fn(&Vec<usize>) -> Result<(), String>>(
    validators: Seq<V>,
    indices: Seq<usize>,
    message: Seq<char>,
) -> bool {
    exists|selected: &Vec<usize>, index: int, reason: String| #[trigger]
        first_rejection(validators, selected, index, reason) && selected@ == indices && reason@
            == message
}

/// The key at `index` leaves the prompt running: it is no Cancel, and if it
/// is a Submit, the validators may reject the selection made so far.
pub open spec fn keeps_running<V: Fn(&Vec<usize>) -> Result<(), String>>(
    validators: Seq<V>,
    start: Selection,
    keys: Seq<Key>,
    index: int,
) -> bool {
    &&& keys[index] != Key::Cancel
    &&& keys[index] == Key::Submit ==> exists|message: Seq<char>| #[trigger]
        rejects(validators, selected_indices(run(start, keys.take(index)).checked), message)
}

/// `result` is a possible end of a prompt that starts with the selection
/// `start`, is fed `keys` and reads `consumed` of them.
///
/// All keys but the last one read leave the prompt running. An answer comes
/// with a Submit whose selection the validators accept, and names that
/// selection; a cancellation comes with a Cancel; and the terminal fails only
/// after the last key, when none of the keys ended the prompt.
pub open spec fn explains<V: Fn(&Vec<usize>) -> Result<(), String>>(
    validators: Seq<V>,
    start: Selection,
    keys: Seq<Key>,
    consumed: int,
    result: InquireResult<Vec<usize>>,
) -> bool {
    &&& 0 <= consumed <= keys.len()
    &&& forall|j: int| 0 <= j < consumed - 1 ==> keeps_running(validators, start, keys, j)
    &&& match result {
        Ok(answer) => {
            &&& consumed >= 1
            &&& keys[consumed - 1] == Key::Submit
            &&& answer@ == selected_indices(run(start, keys.take(consumed - 1)).checked)
            &&& accepts(validators, answer@)
        },
        Err(InquireError::OperationCanceled) => {
            &&& consumed >= 1
            &&& keys[consumed - 1] == Key::Cancel
        },
        Err(InquireError::IO) => {
            &&& consumed == keys.len()
            &&& consumed >= 1 ==> keeps_running(validators, start, keys, consumed - 1)
        },
    }
}

/// A Cancel that no Submit precedes ends the prompt with a cancellation,
/// whatever was selected before it and whatever the validators are.
pub proof fn lemma_cancel_before_submit<V: Fn(&Vec<usize>) -> Result<(), String>>(
    validators: Seq<V>,
    start: Selection,
    keys: Seq<Key>,
    consumed: int,
    result: InquireResult<Vec<usize>>,
    at: int,
)
    requires
        explains(validators, start, keys, consumed, result),
        0 <= at < keys.len(),
        keys[at] == Key::Cancel,
        forall|j: int| 0 <= j < at ==> keys[j] != Key::Submit,
    ensures
        result == Err::<Vec<usize>, InquireError>(InquireError::OperationCanceled),
        consumed <= at + 1,
{
    if consumed - 1 > at {
        assert(keeps_running(validators, start, keys, at));
    }
    match result {
        Ok(_) => {
            assert(keys[consumed - 1] == Key::Submit);
        },
        Err(InquireError::OperationCanceled) => {},
        Err(InquireError::IO) => {
            assert(keeps_running(validators, start, keys, at));
        },
    }
}

/// Without validators the first Submit commits the selection made up to it,
/// unless a Cancel comes first.
pub proof fn lemma_first_submit_commits<V: Fn(&Vec<usize>) -> Result<(), String>>(
    validators: Seq<V>,
    start: Selection,
    keys: Seq<Key>,
    consumed: int,
    result: InquireResult<Vec<usize>>,
    at: int,
)
    requires
        explains(validators, start, keys, consumed, result),
        validators.len() == 0,
        0 <= at < keys.len(),
        keys[at] == Key::Submit,
        forall|j: int| 0 <= j < at ==> keys[j] != Key::Submit && keys[j] != Key::Cancel,
    ensures
        consumed == at + 1,
        match result {
            Ok(answer) => answer@ == selected_indices(run(start, keys.take(at)).checked),
            Err(_) => false,
        },
{
    assert(!keeps_running(validators, start, keys, at)) by {
        assert forall|message: Seq<char>| !rejects(
            validators,
            selected_indices(run(start, keys.take(at)).checked),
            message,
        ) by {}
    }
    if consumed - 1 > at {
        assert(keeps_running(validators, start, keys, at));
    }
    match result {
        Ok(_) => {},
        Err(InquireError::OperationCanceled) => {},
        Err(InquireError::IO) => {
            if consumed - 1 == at {
                assert(keeps_running(validators, start, keys, at));
            }
        },
    }
}

/// A Submit leaves cursor and selection as they were, whether the validators
/// accept or reject: the keys that follow a rejection find the selection
/// that was made before it.
pub proof fn lemma_submit_keeps_selection(start: Selection, before: Seq<Key>, after: Seq<Key>)
    ensures
        run(start, before.push(Key::Submit) + after) == run(start, before + after),
    decreases after.len(),
{
    if after.len() == 0 {
        assert(before.push(Key::Submit) + after =~= before.push(Key::Submit));
        assert(before + after =~= before);
        assert(before.push(Key::Submit).drop_last() =~= before);
    } else {
        lemma_submit_keeps_selection(start, before, after.drop_last());
        assert((before.push(Key::Submit) + after).drop_last() =~= before.push(Key::Submit)
            + after.drop_last());
        assert((before + after).drop_last() =~= before + after.drop_last());
        assert((before.push(Key::Submit) + after).last() == after.last());
        assert((before + after).last() == after.last());
    }
}

/// Moving the cursor leaves the selection as it is.
pub proof fn lemma_moving_keeps_selection(selection: Selection, key: Key)
    requires
        !is_toggle(key),
    ensures
        step(selection, key).checked == selection.checked,
{
}

/// Keys among which none toggles leave the selection as it is, wherever they
/// take the cursor.
pub proof fn lemma_moves_keep_selection(selection: Selection, keys: Seq<Key>)
    requires
        forall|i: int| 0 <= i < keys.len() ==> !is_toggle(#[trigger] keys[i]),
    ensures
        run(selection, keys).checked == selection.checked,
    decreases keys.len(),
{
    if keys.len() > 0 {
        lemma_moves_keep_selection(selection, keys.drop_last());
        assert(!is_toggle(keys.last()));
    }
}

/// The cursor stays on the list, whatever keys come.
pub proof fn lemma_cursor_stays_on_list(selection: Selection, key: Key)
    requires
        selection.cursor < selection.checked.len(),
    ensures
        step(selection, key).cursor < step(selection, key).checked.len(),
        step(selection, key).checked.len() == selection.checked.len(),
{
}

/// What one key did to a running multi-select prompt.
#[derive(Debug, PartialEq, Eq)]
pub enum SelectionStep {
    /// The prompt goes on.
    Continue,
    /// The user aborted the prompt.
    Canceled,
    /// The user committed the items at these indices.
    Submitted(Vec<usize>),
}

/// The state of a multi-select prompt while it runs.
pub struct MultiSelectPrompt<'a, V> {
    pub message: &'a str,
    pub help_message: Option<&'a str>,
    /// The items to choose among.
    pub options: Vec<String>,
    /// The index of the item under the cursor.
    pub cursor: usize,
    /// For each item, whether it is selected.
    pub checked: Vec<bool>,
    pub validators: Vec<V>,
    /// Why the last submission was rejected, if it was.
    pub error: Option<String>,
}

impl<'a, V: Fn(&Vec<usize>) -> Result<(), String>> MultiSelectPrompt<'a, V> {
    /// Each item has its mark, and the validators can be called on every
    /// selection.
    pub open spec fn wf(&self) -> bool {
        &&& self.checked@.len() == self.options@.len()
        &&& forall|i: int|
            0 <= i < self.validators@.len() ==> validator_is_total(#[trigger] self.validators@[i])
    }

    /// Cursor and marks.
    pub open spec fn selection(&self) -> Selection {
        Selection { cursor: self.cursor, checked: self.checked@ }
    }

    /// The two states differ at most in cursor, marks and error.
    pub open spec fn same_options(&self, other: &Self) -> bool {
        &&& self.message == other.message
        &&& self.help_message == other.help_message
        &&& self.options == other.options
        &&& self.validators == other.validators
    }

    /// A prompt over `options` with the cursor on the first item and nothing
    /// selected.
    pub fn new(message: &'a str, options: Vec<String>) -> (prompt: Self)
        ensures
            prompt.message == message,
            prompt.help_message.is_none(),
            prompt.options == options,
            prompt.cursor == 0,
            prompt.checked@ == Seq::new(options@.len(), |i: int| false),
            prompt.validators@.len() == 0,
            prompt.error.is_none(),
            prompt.wf(),
    {
        let mut checked: Vec<bool> = Vec::new();
        let mut i: usize = 0;
        while i < options.len()
            invariant
                0 <= i <= options@.len(),
                checked@ == Seq::new(i as nat, |j: int| false),
            decreases options@.len() - i,
        {
            checked.push(false);
            i = i + 1;
            assert(checked@ =~= Seq::new(i as nat, |j: int| false));
        }
        MultiSelectPrompt {
            message,
            help_message: None,
            options,
            cursor: 0,
            checked,
            validators: Vec::new(),
            error: None,
        }
    }

    /// Adds a validator to the collection of validators.
    pub fn with_validator(self, validator: V) -> (prompt: Self)
        ensures
            prompt.message == self.message,
            prompt.help_message == self.help_message,
            prompt.options == self.options,
            prompt.validators@ == self.validators@.push(validator),
            prompt.selection() == self.selection(),
            prompt.error == self.error,
            self.wf() && validator_is_total(validator) ==> prompt.wf(),
    {
        let mut prompt = self;
        prompt.validators.push(validator);
        prompt
    }

    /// Sets the help message of the prompt.
    pub fn with_help_message(self, message: &'a str) -> (prompt: Self)
        ensures
            prompt.message == self.message,
            prompt.help_message == Some(message),
            prompt.options == self.options,
            prompt.validators == self.validators,
            prompt.selection() == self.selection(),
            prompt.error == self.error,
            self.wf() ==> prompt.wf(),
    {
        let mut prompt = self;
        prompt.help_message = Some(message);
        prompt
    }

    /// Moves the cursor or toggles the item under it, as `key` asks.
    pub fn on_change(&mut self, key: Key)
        requires
            old(self).wf(),
        ensures
            final(self).wf(),
            final(self).selection() == step(old(self).selection(), key),
            final(self).error == old(self).error,
            final(self).same_options(old(self)),
    {
        match key {
            Key::Up => {
                if self.cursor > 0 {
                    self.cursor = self.cursor - 1;
                }
            },
            Key::Down => {
                if self.cursor < self.checked.len() && self.cursor + 1 < self.checked.len() {
                    self.cursor = self.cursor + 1;
                }
            },
            Key::Char(c, modifiers) => {
                if c == ' ' && modifiers.is_none() && self.cursor < self.checked.len() {
                    let mark: bool = self.checked[self.cursor];
                    self.checked.set(self.cursor, !mark);
                }
            },
            _ => {},
        }
        assert(self.selection().checked =~= step(old(self).selection(), key).checked);
    }

    /// The indices of the selected items, in list order.
    pub fn selected(&self) -> (indices: Vec<usize>)
        ensures
            indices@ == selected_indices(self.checked@),
    {
        let mut indices: Vec<usize> = Vec::new();
        let mut i: usize = 0;
        assert(self.checked@.take(0) =~= Seq::<bool>::empty());
        while i < self.checked.len()
            invariant
                0 <= i <= self.checked@.len(),
                indices@ == selected_indices(self.checked@.take(i as int)),
            decreases self.checked@.len() - i,
        {
            assert(self.checked@.take(i + 1).drop_last() =~= self.checked@.take(i as int));
            if self.checked[i] {
                indices.push(i);
            }
            i = i + 1;
        }
        assert(self.checked@.take(i as int) =~= self.checked@);
        indices
    }

    /// Asks the validators in order about the selection. The answer is the
    /// selection if all accept it, and otherwise the first rejection decides.
    pub fn get_final_answer(&self) -> (result: Result<Vec<usize>, String>)
        requires
            self.wf(),
        ensures
            match result {
                Ok(answer) => answer@ == selected_indices(self.checked@) && accepts(
                    self.validators@,
                    answer@,
                ),
                Err(message) => rejects(
                    self.validators@,
                    selected_indices(self.checked@),
                    message@,
                ),
            },
    {
        let selected = self.selected();
        let mut i: usize = 0;
        while i < self.validators.len()
            invariant
                self.wf(),
                0 <= i <= self.validators@.len(),
                selected@ == selected_indices(self.checked@),
                passes_all(self.validators@.take(i as int), &selected),
            decreases self.validators@.len() - i,
        {
            let verdict = (self.validators[i])(&selected);
            match verdict {
                Ok(unit) => {
                    assert(unit == ());
                    assert(verdict == Ok::<(), String>(unit));
                },
                Err(message) => {
                    assert(first_rejection(self.validators@, &selected, i as int, message));
                    return Err(message);
                },
            }
            assert forall|j: int| 0 <= j < i + 1 implies #[trigger] call_ensures(
                self.validators@.take(i + 1)[j],
                (&selected,),
                Ok(()),
            ) by {
                if j < i {
                    assert(self.validators@.take(i + 1)[j] == self.validators@.take(i as int)[j]);
                    assert(call_ensures(
                        self.validators@.take(i as int)[j],
                        (&selected,),
                        Ok(()),
                    ));
                }
            }
            i = i + 1;
        }
        assert(self.validators@.take(i as int) =~= self.validators@);
        assert(passes_all(self.validators@, &selected));
        Ok(selected)
    }

    /// Reacts to one key.
    ///
    /// Cancel ends the prompt. Submit asks the validators about the
    /// selection: if they accept, it is the answer and the error is cleared;
    /// if one rejects, its message becomes the error, and cursor and
    /// selection stay. Every other key moves the cursor or toggles, and
    /// leaves the error as it is.
    pub fn handle_key(&mut self, key: Key) -> (outcome: SelectionStep)
        requires
            old(self).wf(),
        ensures
            final(self).wf(),
            final(self).same_options(old(self)),
            match key {
                Key::Cancel => outcome == SelectionStep::Canceled && final(self).selection() == old(
                    self,
                ).selection() && final(self).error == old(self).error,
                Key::Submit => final(self).selection() == old(self).selection() && match outcome {
                    SelectionStep::Submitted(answer) => answer@ == selected_indices(
                        old(self).checked@,
                    ) && accepts(old(self).validators@, answer@) && final(self).error.is_none(),
                    SelectionStep::Continue => match final(self).error {
                        Some(message) => rejects(
                            old(self).validators@,
                            selected_indices(old(self).checked@),
                            message@,
                        ),
                        None => false,
                    },
                    SelectionStep::Canceled => false,
                },
                _ => outcome == SelectionStep::Continue && final(self).selection() == step(
                    old(self).selection(),
                    key,
                ) && final(self).error == old(self).error,
            },
    {
        match key {
            Key::Cancel => SelectionStep::Canceled,
            Key::Submit => match self.get_final_answer() {
                Ok(answer) => {
                    self.error = None;
                    SelectionStep::Submitted(answer)
                },
                Err(message) => {
                    self.error = Some(message);
                    SelectionStep::Continue
                },
            },
            key => {
                self.on_change(key);
                SelectionStep::Continue
            },
        }
    }

    /// The line of the item at `index`.
    pub open spec fn choice_line(&self, index: int) -> (LineKind, Seq<char>) {
        (
            LineKind::Choice,
            choice_text(index == self.cursor, self.checked@[index], self.options@[index]@),
        )
    }

    /// The lines of a frame: the error if there is one, the question, the
    /// items in list order, and the help message if there is one.
    pub open spec fn frame(&self) -> Seq<(LineKind, Seq<char>)> {
        let error = match self.error {
            Some(e) => seq![(LineKind::Error, e@)],
            None => seq![],
        };
        let help = match self.help_message {
            Some(h) => seq![(LineKind::Help, h@)],
            None => seq![],
        };
        error + seq![(LineKind::Prompt, prompt_text(self.message@, None, None))] + Seq::new(
            self.options@.len(),
            |i: int| self.choice_line(i),
        ) + help
    }

    /// Paints a frame in place of the last one.
    pub fn render(&self, renderer: &mut Renderer)
        requires
            self.wf(),
            old(renderer).wf(),
        ensures
            final(renderer).wf(),
            final(renderer).same_input(old(renderer)),
            final(renderer).settled() == old(renderer).settled(),
            final(renderer).frame() == self.frame(),
            final(renderer).screen() == old(renderer).settled() + self.frame(),
            final(renderer).terminal.flushed,
    {
        renderer.reset_prompt();
        assert(renderer.settled() =~= old(renderer).settled());
        assert(renderer.frame() =~= Seq::<(LineKind, Seq<char>)>::empty());
        if let Some(err) = &self.error {
            renderer.print_error_message(err.as_str());
        }
        renderer.print_prompt(self.message, None, None);
        let ghost head = renderer.frame();
        let mut i: usize = 0;
        assert(renderer.frame() =~= head + Seq::new(0, |j: int| self.choice_line(j)));
        while i < self.options.len()
            invariant
                self.wf(),
                0 <= i <= self.options@.len(),
                renderer.wf(),
                renderer.same_input(old(renderer)),
                renderer.settled() == old(renderer).settled(),
                renderer.frame() == head + Seq::new(i as nat, |j: int| self.choice_line(j)),
            decreases self.options@.len() - i,
        {
            let ghost before = renderer.frame();
            renderer.print_choice(i == self.cursor, self.checked[i], self.options[i].as_str());
            assert(renderer.frame() == before.push(self.choice_line(i as int)));
            i = i + 1;
            assert(renderer.frame() =~= head + Seq::new(i as nat, |j: int| self.choice_line(j)));
        }
        if let Some(message) = self.help_message {
            renderer.print_help(message);
        }
        renderer.flush();
        assert(renderer.frame() =~= self.frame());
        assert(renderer.screen() =~= renderer.settled() + renderer.frame());
    }

    /// The items at `indices`, separated by a comma and a space.
    pub fn list(&self, indices: &Vec<usize>) -> (text: String)
        requires
            forall|i: int| 0 <= i < indices@.len() ==> (#[trigger] indices@[i]) < self.options@.len(),
        ensures
            text@ == listed(self.options@, indices@),
    {
        let mut text = String::new();
        let mut i: usize = 0;
        assert(indices@.take(0) =~= Seq::<usize>::empty());
        while i < indices.len()
            invariant
                0 <= i <= indices@.len(),
                forall|j: int|
                    0 <= j < indices@.len() ==> (#[trigger] indices@[j]) < self.options@.len(),
                text@ == listed(self.options@, indices@.take(i as int)),
            decreases indices@.len() - i,
        {
            proof {
                let next = indices@.take(i + 1);
                assert(next.drop_last() =~= indices@.take(i as int));
                assert(next.last() == indices@[i as int]);
                if i == 0 {
                    assert(next[0] == indices@[0]);
                    assert(Seq::<char>::empty() + self.options@[indices@[0] as int]@
                        =~= self.options@[indices@[0] as int]@);
                }
            }
            if i > 0 {
                text.append(", ");
            }
            text.append(self.options[indices[i]].as_str());
            i = i + 1;
        }
        assert(indices@.take(i as int) =~= indices@);
        text
    }

    /// Paints the line that the prompt leaves behind: the message and the
    /// selected items.
    pub fn finish(&self, renderer: &mut Renderer, answer: &Vec<usize>)
        requires
            old(renderer).wf(),
            forall|i: int| 0 <= i < answer@.len() ==> (#[trigger] answer@[i]) < self.options@.len(),
        ensures
            final(renderer).wf(),
            final(renderer).same_input(old(renderer)),
            final(renderer).painted == 0,
            final(renderer).terminal.flushed,
            final(renderer).screen() == old(renderer).settled().push(
                (LineKind::Answer, answer_text(self.message@, listed(self.options@, answer@))),
            ),
    {
        let shown = self.list(answer);
        renderer.cleanup(self.message, shown.as_str());
    }

    /// Runs the prompt: paints a frame, reads a key and reacts to it, until
    /// the user commits a selection or cancels, or the terminal fails.
    ///
    /// After an answer the frame is replaced by one line, the message and
    /// the selected items. Otherwise the last frame stays, below the lines
    /// that were settled before.
    pub fn prompt(self, renderer: &mut Renderer) -> (result: InquireResult<Vec<usize>>)
        requires
            self.wf(),
            old(renderer).wf(),
        ensures
            final(renderer).wf(),
            final(renderer).keys() == old(renderer).keys(),
            old(renderer).consumed() <= final(renderer).consumed(),
            explains(
                self.validators@,
                self.selection(),
                old(renderer).terminal.pending(),
                final(renderer).consumed() - old(renderer).consumed(),
                result,
            ),
            match result {
                Ok(answer) => final(renderer).painted == 0 && final(renderer).screen() == old(
                    renderer,
                ).settled().push(
                    (LineKind::Answer, answer_text(self.message@, listed(self.options@, answer@))),
                ),
                Err(_) => final(renderer).settled() == old(renderer).settled(),
            },
    {
        let ghost start = self.selection();
        let ghost keys = renderer.terminal.pending();
        let ghost before = renderer.consumed();
        let ghost settled = renderer.settled();
        let mut state = self;
        loop
            invariant
                state.wf(),
                state.same_options(&self),
                renderer.wf(),
                renderer.keys() == old(renderer).keys(),
                before <= renderer.consumed(),
                keys == old(renderer).keys().skip(before as int),
                before == old(renderer).consumed(),
                start == self.selection(),
                settled == old(renderer).settled(),
                renderer.settled() == settled,
                state.selection() == run(start, keys.take(renderer.consumed() - before)),
                forall|j: int|
                    0 <= j < renderer.consumed() - before ==> keeps_running(
                        self.validators@,
                        start,
                        keys,
                        j,
                    ),
            decreases renderer.keys().len() - renderer.consumed(),
        {
            state.render(renderer);
            let ghost read = renderer.consumed() - before;
            let key = match renderer.read_key() {
                Ok(key) => key,
                Err(err) => {
                    return Err(err);
                },
            };
            assert(key == keys[read]);
            let ghost checked = state.checked@;
            match state.handle_key(key) {
                SelectionStep::Canceled => {
                    return Err(InquireError::OperationCanceled);
                },
                SelectionStep::Submitted(answer) => {
                    proof {
                        lemma_selected_indices(checked);
                    }
                    state.finish(renderer, &answer);
                    return Ok(answer);
                },
                SelectionStep::Continue => {
                    proof {
                        assert(keys.take(read + 1).drop_last() =~= keys.take(read));
                        assert(keys.take(read + 1).last() == key);
                        if key == Key::Submit {
                            assert(rejects(
                                self.validators@,
                                selected_indices(checked),
                                state.error.unwrap()@,
                            ));
                        }
                    }
                },
            }
        }
    }
}

} // verus!
