//! The prompt variants, and what they have in common: each can be run on a
//! renderer and yields an answer of its kind, or fails.

pub mod confirm;
pub mod multiselect;
pub mod password;
pub mod select;
pub mod text;

use crate::error::InquireResult;
use crate::key::Key;
use crate::prompts::confirm::ConfirmPrompt;
use crate::prompts::multiselect::MultiSelectPrompt;
use crate::prompts::password::PasswordPrompt;
use crate::prompts::select::SelectPrompt;
use crate::prompts::text::TextPrompt;
use crate::renderer::Renderer;
use vstd::prelude::*;

verus! {

/// The answer of a prompt, by the kind of prompt that gave it.
#[derive(Debug, PartialEq, Eq)]
pub enum Answer {
    /// The text that was typed.
    Content(String),
    /// Yes or no.
    Confirm(bool),
    /// The item that was chosen.
    Selected(String),
    /// The indices of the items that were chosen, in list order.
    SelectedMany(Vec<usize>),
}

/// One question that can be run on a renderer.
pub trait Prompt: Sized {
    /// The prompt can be run.
    spec fn ready(&self) -> bool;

    /// `result` is a possible end of this prompt when it is fed `keys` and
    /// reads `consumed` of them.
    spec fn explained(&self, keys: Seq<Key>, consumed: int, result: InquireResult<Answer>) -> bool;

    /// Runs the prompt on the keys that the renderer's terminal delivers.
    fn prompt(self, renderer: &mut Renderer) -> (result: InquireResult<Answer>)
        requires
            self.ready(),
            old(renderer).wf(),
        ensures
            final(renderer).wf(),
            final(renderer).keys() == old(renderer).keys(),
            old(renderer).consumed() <= final(renderer).consumed(),
            self.explained(
                old(renderer).terminal.pending(),
                final(renderer).consumed() - old(renderer).consumed(),
                result,
            ),
    ;
}

impl<'a, V: Fn(&str) -> Result<(), String>, F: Fn(&str) -> String> Prompt for PasswordPrompt<
    'a,
    V,
    F,
> {
    open spec fn ready(&self) -> bool {
        self.wf()
    }

    open spec fn explained(
        &self,
        keys: Seq<Key>,
        consumed: int,
        result: InquireResult<Answer>,
    ) -> bool {
        match result {
            Ok(Answer::Content(answer)) => password::explains(
                self.validators@,
                self.content@,
                keys,
                consumed,
                Ok(answer),
            ),
            Ok(_) => false,
            Err(error) => password::explains(
                self.validators@,
                self.content@,
                keys,
                consumed,
                Err(error),
            ),
        }
    }

    fn prompt(self, renderer: &mut Renderer) -> (result: InquireResult<Answer>) {
        match PasswordPrompt::prompt(self, renderer) {
            Ok(answer) => Ok(Answer::Content(answer)),
            Err(error) => Err(error),
        }
    }
}

impl<'a, V: Fn(&str) -> Result<(), String>, F: Fn(&str) -> String> Prompt for TextPrompt<
    'a,
    V,
    F,
> {
    open spec fn ready(&self) -> bool {
        self.wf()
    }

    open spec fn explained(
        &self,
        keys: Seq<Key>,
        consumed: int,
        result: InquireResult<Answer>,
    ) -> bool {
        match result {
            Ok(Answer::Content(answer)) => text::explains(
                self.validators@,
                self.buffer(),
                keys,
                consumed,
                Ok(answer),
            ),
            Ok(_) => false,
            Err(error) => text::explains(
                self.validators@,
                self.buffer(),
                keys,
                consumed,
                Err(error),
            ),
        }
    }

    fn prompt(self, renderer: &mut Renderer) -> (result: InquireResult<Answer>) {
        match TextPrompt::prompt(self, renderer) {
            Ok(answer) => Ok(Answer::Content(answer)),
            Err(error) => Err(error),
        }
    }
}

impl<'a> Prompt for ConfirmPrompt<'a> {
    open spec fn ready(&self) -> bool {
        true
    }

    open spec fn explained(
        &self,
        keys: Seq<Key>,
        consumed: int,
        result: InquireResult<Answer>,
    ) -> bool {
        match result {
            Ok(Answer::Confirm(answer)) => confirm::explains(
                self.answer,
                self.default,
                keys,
                consumed,
                Ok(answer),
            ),
            Ok(_) => false,
            Err(error) => confirm::explains(self.answer, self.default, keys, consumed, Err(error)),
        }
    }

    fn prompt(self, renderer: &mut Renderer) -> (result: InquireResult<Answer>) {
        match ConfirmPrompt::prompt(self, renderer) {
            Ok(answer) => Ok(Answer::Confirm(answer)),
            Err(error) => Err(error),
        }
    }
}

impl<'a> Prompt for SelectPrompt<'a> {
    open spec fn ready(&self) -> bool {
        self.wf()
    }

    open spec fn explained(
        &self,
        keys: Seq<Key>,
        consumed: int,
        result: InquireResult<Answer>,
    ) -> bool {
        match result {
            Ok(Answer::Selected(answer)) => select::explains(
                self.options@,
                self.cursor,
                keys,
                consumed,
                Ok(answer),
            ),
            Ok(_) => false,
            Err(error) => select::explains(self.options@, self.cursor, keys, consumed, Err(error)),
        }
    }

    fn prompt(self, renderer: &mut Renderer) -> (result: InquireResult<Answer>) {
        match SelectPrompt::prompt(self, renderer) {
            Ok(answer) => Ok(Answer::Selected(answer)),
            Err(error) => Err(error),
        }
    }
}

impl<'a, V: Fn(&Vec<usize>) -> Result<(), String>> Prompt for MultiSelectPrompt<'a, V> {
    open spec fn ready(&self) -> bool {
        self.wf()
    }

    open spec fn explained(
        &self,
        keys: Seq<Key>,
        consumed: int,
        result: InquireResult<Answer>,
    ) -> bool {
        match result {
            Ok(Answer::SelectedMany(answer)) => multiselect::explains(
                self.validators@,
                self.selection(),
                keys,
                consumed,
                Ok(answer),
            ),
            Ok(_) => false,
            Err(error) => multiselect::explains(
                self.validators@,
                self.selection(),
                keys,
                consumed,
                Err(error),
            ),
        }
    }

    fn prompt(self, renderer: &mut Renderer) -> (result: InquireResult<Answer>) {
        match MultiSelectPrompt::prompt(self, renderer) {
            Ok(answer) => Ok(Answer::SelectedMany(answer)),
            Err(error) => Err(error),
        }
    }
}

} // verus!
