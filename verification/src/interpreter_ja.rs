//! The translator for Japanese: kanji and katakana to hiragana.

use crate::interpreter_traits::{InterpreterTrait, InterpreterTraitResult, TranslateError};
use crate::text_lines::{
    join_lines, joined_with, lemma_join_split, line_break, split_lines, split_on,
};
use crate::text_wrap::lines_view;
use vstd::prelude::*;
use vstd::string::*;

verus! {

/// The `hiragana` of what `kakasi::convert` makes of `text`: the text with
/// kanji and katakana written in hiragana.
pub uninterp spec fn hiragana_of(text: Seq<char>) -> Seq<char>;

/// Calls `kakasi::convert` and keeps the hiragana. The conversion goes by
/// the dictionary built into that crate, so the same text always gives the
/// same result.
#[verifier::external_body]
fn to_hiragana(text: &str) -> (out: String)
    ensures
        out@ == hiragana_of(text@),
{
    kakasi::convert(text).hiragana
}

/// The translator from kanji to hiragana.
#[derive(Debug)]
pub struct InterpreterJa {}

impl InterpreterTrait for InterpreterJa {
    /// Japanese and English.
    fn init(&self) -> (languages: Vec<String>)
        ensures
            lines_view(languages@) == seq!["ja"@, "en"@],
    {
        let mut languages: Vec<String> = Vec::new();
        languages.push(String::from_str("ja"));
        languages.push(String::from_str("en"));
        assert(lines_view(languages@) =~= seq!["ja"@, "en"@]);
        languages
    }

    /// Writes `text` in hiragana. The lines of the result are those of
    /// the rewritten text. This translator never fails.
    fn convert(&self, text: &str) -> (out: Result<InterpreterTraitResult, TranslateError>)
        ensures
            out matches Ok(result) && result.text@ == hiragana_of(text@) && lines_view(
                result.lines@,
            ) == split_on(hiragana_of(text@), line_break()) && result.coherent(),
    {
        let hiragana = to_hiragana(text);
        let lines = split_lines(hiragana.as_str());
        proof {
            lemma_join_split(hiragana@, line_break());
        }
        Ok(InterpreterTraitResult { text: hiragana, lines })
    }
}

impl InterpreterJa {
    /// The translator. It holds nothing.
    pub fn new() -> (interpreter: InterpreterJa) {
        InterpreterJa {  }
    }

    /// What a run of the `kakasi` program comes to: its output, joined by
    /// line breaks, if it wrote nothing on its error stream; else what it
    /// wrote there, as the error.
    pub fn result_from_output(stdout_lines: Vec<String>, stderr_lines: &Vec<String>) -> (out: Result<
        InterpreterTraitResult,
        TranslateError,
    >)
        ensures
            stderr_lines@.len() == 0 ==> (out matches Ok(result) && result.lines@ == stdout_lines@
                && result.coherent()),
            stderr_lines@.len() > 0 ==> (out matches Err(TranslateError::BackendFailed(message))
                && message@ == joined_with(lines_view(stderr_lines@), seq![line_break()])),
    {
        if stderr_lines.len() == 0 {
            let text = join_lines(&stdout_lines);
            Ok(InterpreterTraitResult { text, lines: stdout_lines })
        } else {
            Err(TranslateError::BackendFailed(join_lines(stderr_lines)))
        }
    }
}

} // verus!
