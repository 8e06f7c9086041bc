//! The engine that the platform brings along: what it needs before it can
//! start, and how what it reads becomes a result. Calling the engine is the
//! caller's business.

use crate::ocr_tesseract::{placed_lines, OcrTesseract};
use crate::ocr_traits::{rects_view, OcrError, OcrTraitResult};
use crate::text_lines::join_lines;
use crate::text_wrap::lines_view;
use vstd::prelude::*;
use vstd::string::*;

verus! {

/// The longest that one recognition may take, in seconds. A recognition
/// that takes longer has failed; the program goes on.
pub const RECOGNITION_TIMEOUT_SECONDS: u64 = 15;

/// Why the program cannot start.
#[derive(Clone, Copy, Debug, PartialEq, Eq, Structural)]
pub enum ConfigurationError {
    /// The language to read is not installed in the user's profile, and
    /// there is nowhere to get it from.
    LanguageNotInstalled,
    /// The platform could not say which languages are installed.
    BackendUnavailable,
}

/// The tag of the language that the engine reads.
pub open spec fn language_tag() -> Seq<char> {
    "ja"@
}

/// The tag of the language that the engine reads.
pub fn japanese_language() -> (tag: &'static str)
    ensures
        tag@ == language_tag(),
{
    "ja"
}

/// What is said of a recognition that ran out of time.
pub open spec fn deadline_message() -> Seq<char> {
    "timed out"@
}

/// The platform engine, as far as its set-up goes.
#[derive(Debug)]
pub struct OcrWinMedia {}

impl OcrWinMedia {
    /// The engine. It holds nothing.
    pub fn new() -> (engine: OcrWinMedia) {
        OcrWinMedia {  }
    }

    /// The languages that the engine reads, given what the platform said
    /// when asked whether Japanese is installed in the user's profile:
    /// `Some(true)` that it is, `Some(false)` that it is not, `None` that
    /// the platform gave no answer. Only an installed language lets the
    /// program start.
    pub fn languages(profile_has_japanese: Option<bool>) -> (out: Result<
        Vec<String>,
        ConfigurationError,
    >)
        ensures
            match profile_has_japanese {
                Some(true) => out matches Ok(languages) && lines_view(languages@) == seq![
                    language_tag(),
                ],
                Some(false) => out == Err::<Vec<String>, ConfigurationError>(
                    ConfigurationError::LanguageNotInstalled,
                ),
                None => out == Err::<Vec<String>, ConfigurationError>(
                    ConfigurationError::BackendUnavailable,
                ),
            },
    {
        match profile_has_japanese {
            Some(true) => {
                let mut languages: Vec<String> = Vec::new();
                languages.push(String::from_str(japanese_language()));
                assert(lines_view(languages@) =~= seq![language_tag()]);
                Ok(languages)
            },
            Some(false) => Err(ConfigurationError::LanguageNotInstalled),
            None => Err(ConfigurationError::BackendUnavailable),
        }
    }

    /// The result that stands for the lines the engine read: the lines as
    /// they are, the text that joins them by line breaks, and the words of
    /// each line in placeholder boxes.
    pub fn result_from_lines(lines: Vec<String>) -> (result: OcrTraitResult)
        ensures
            result.lines@ == lines@,
            result.coherent(),
            rects_view(result.rects@) == placed_lines(lines_view(lines@)),
    {
        let text = join_lines(&lines);
        let rects = OcrTesseract::to_ocr_lines(&lines);
        OcrTraitResult { text, lines, rects }
    }

    /// What a wait for the engine comes to. `waited` is nothing if the wait
    /// ran out after `RECOGNITION_TIMEOUT_SECONDS`; else the lines that the
    /// engine read, or what it said of its failure. A wait that ran out is
    /// a failed recognition, not the end of the program.
    pub fn result_from_wait(waited: Option<Result<Vec<String>, String>>) -> (out: Result<
        OcrTraitResult,
        OcrError,
    >)
        ensures
            match waited {
                Some(Ok(lines)) => out matches Ok(result) && result.lines@ == lines@
                    && result.coherent() && rects_view(result.rects@) == placed_lines(
                    lines_view(lines@),
                ),
                Some(Err(detail)) => out matches Err(OcrError::RecognitionFailed(said)) && said@
                    == detail@,
                None => out matches Err(OcrError::RecognitionFailed(said)) && said@
                    == deadline_message(),
            },
    {
        match waited {
            Some(Ok(lines)) => Ok(Self::result_from_lines(lines)),
            Some(Err(detail)) => Err(OcrError::RecognitionFailed(detail)),
            None => Err(OcrError::RecognitionFailed(String::from_str("timed out"))),
        }
    }
}

} // verus!
