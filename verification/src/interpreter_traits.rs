//! What translation gives back, and what every translator offers.

use crate::text_lines::{joined_with, line_break};
use crate::text_wrap::lines_view;
use vstd::prelude::*;

verus! {

/// Why translation gave no result. It never ends the program: the text is
/// then shown without its translation.
#[derive(Debug)]
pub enum TranslateError {
    /// The translator ran and complained; this is what it wrote on its
    /// error stream.
    BackendFailed(String),
}

/// The translated text, whole and line by line. An empty result stands for
/// a translation that failed.
#[derive(Debug)]
pub struct InterpreterTraitResult {
    pub text: String,
    pub lines: Vec<String>,
}

impl InterpreterTraitResult {
    /// The text is its lines, joined by line breaks.
    pub open spec fn coherent(self) -> bool {
        self.text@ == joined_with(lines_view(self.lines@), seq![line_break()])
    }

    /// The result that holds nothing.
    pub fn new() -> (result: InterpreterTraitResult)
        ensures
            result.text@.len() == 0,
            result.lines@.len() == 0,
            result.coherent(),
    {
        InterpreterTraitResult { text: String::new(), lines: Vec::new() }
    }

    /// The translated text, as it is shown.
    pub fn to_text(&self) -> (text: String)
        ensures
            text@ == self.text@,
    {
        self.text.clone()
    }
}

/// A translator: from the text that was read to the text that is shown.
pub trait InterpreterTrait {
    /// The languages that the translator knows. Called once, before any
    /// translation.
    fn init(&self) -> Vec<String>;

    /// Translates `text`. The call returns when the translation is done.
    fn convert(&self, text: &str) -> Result<InterpreterTraitResult, TranslateError>;
}

} // verus!
