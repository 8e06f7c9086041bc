//! The cross-platform engine: how it is set up, and how the text it prints
//! becomes a structured result. Running the engine itself is the caller's
//! business.

use crate::ocr_traits::{
    rects_view, OcrError, OcrLine, OcrRect, OcrTraitResult, OcrWord, RectView, WordView,
};
use crate::text_lines::{
    join_text, joined_with, lemma_join_split, line_break, split_lines, split_on, split_words,
    words_of,
};
use crate::text_wrap::lines_view;
use vstd::prelude::*;
use vstd::string::*;

verus! {

/// The side of the box that stands in for a word's place, which this
/// engine does not report.
pub const PLACEHOLDER_EXTENT: i32 = 8;

/// The page segmentation mode for a single block of vertical text: the
/// nearest there is to pages that mix vertical and horizontal script.
pub const VERTICAL_BLOCK_MODE: i32 = 5;

/// How the engine is called.
#[derive(Debug)]
pub struct TesseractArgs {
    /// The languages to read, joined by `+`. Each one more costs about as
    /// much time again.
    pub lang: String,
    /// Configuration variables of the engine, each with its value, in the
    /// order in which they are handed over.
    pub config_variables: Vec<(String, String)>,
    /// Dots per inch of the image.
    pub dpi: Option<i32>,
    /// Page segmentation mode.
    pub psm: Option<i32>,
    /// Engine mode.
    pub oem: Option<i32>,
}

/// What configuration variables are: names with their values.
pub open spec fn variables_view(variables: Seq<(String, String)>) -> Seq<(Seq<char>, Seq<char>)> {
    Seq::new(variables.len(), |index: int| (variables[index].0@, variables[index].1@))
}

/// A copy of `variables` that shares nothing with them.
pub fn copy_variables(variables: &Vec<(String, String)>) -> (out: Vec<(String, String)>)
    ensures
        variables_view(out@) == variables_view(variables@),
{
    let mut out: Vec<(String, String)> = Vec::new();
    let mut index: usize = 0;
    while index < variables.len()
        invariant
            index <= variables@.len(),
            out@.len() == index,
            forall|done: int|
                0 <= done < index ==> (#[trigger] out@[done]).0@ == variables@[done].0@
                    && out@[done].1@ == variables@[done].1@,
        decreases variables@.len() - index,
    {
        let name = variables[index].0.clone();
        let value = variables[index].1.clone();
        out.push((name, value));
        index = index + 1;
    }
    assert(variables_view(out@) =~= variables_view(variables@));
    out
}

impl Clone for TesseractArgs {
    fn clone(&self) -> (out: TesseractArgs)
        ensures
            out.lang@ == self.lang@,
            variables_view(out.config_variables@) == variables_view(self.config_variables@),
            out.dpi == self.dpi,
            out.psm == self.psm,
            out.oem == self.oem,
    {
        TesseractArgs {
            lang: self.lang.clone(),
            config_variables: copy_variables(&self.config_variables),
            dpi: self.dpi,
            psm: self.psm,
            oem: self.oem,
        }
    }
}

/// Calls `rusty_tesseract::Args::default` and keeps what it sets: English,
/// no configuration variables, 150 dots per inch, automatic page
/// segmentation, the engine's default mode.
#[verifier::external_body]
fn default_args() -> (args: TesseractArgs)
    ensures
        args.lang@ == "eng"@,
        args.config_variables@.len() == 0,
        args.dpi == Some(150i32),
        args.psm == Some(3i32),
        args.oem == Some(3i32),
{
    let args = rusty_tesseract::Args::default();
    TesseractArgs {
        lang: args.lang,
        config_variables: args.config_variables.into_iter().collect(),
        dpi: args.dpi,
        psm: args.psm,
        oem: args.oem,
    }
}

/// The box that stands in for the place of every word.
pub open spec fn placeholder() -> RectView {
    RectView { x_min: 0, y_min: 0, x_max: PLACEHOLDER_EXTENT as int, y_max: PLACEHOLDER_EXTENT as int }
}

/// The words of line `index`, each in the placeholder box. Line numbers
/// start over after 65536 lines.
pub open spec fn placed_words(line: Seq<char>, index: int) -> Seq<WordView> {
    Seq::new(
        words_of(line).len(),
        |at: int|
            WordView { word: words_of(line)[at], line_index: index % 0x1_0000, rect: placeholder() },
    )
}

/// The structured lines that stand for `lines`.
pub open spec fn placed_lines(lines: Seq<Seq<char>>) -> Seq<Seq<WordView>> {
    Seq::new(lines.len(), |index: int| placed_words(lines[index], index))
}

/// The cross-platform recognition engine, as far as its set-up goes.
#[derive(Debug)]
pub struct OcrTesseract {
    ocr_args: TesseractArgs,
}

impl OcrTesseract {
    /// The engine set up for Japanese, horizontal and vertical, with
    /// orientation detection, reading the page as one vertical block.
    pub fn new() -> (engine: OcrTesseract)
        ensures
            engine.args().lang@ == "jpn+jp_vert+osd"@,
            engine.args().psm == Some(VERTICAL_BLOCK_MODE),
            engine.args().config_variables@.len() == 0,
            engine.args().dpi == Some(150i32),
            engine.args().oem == Some(3i32),
    {
        let defaults = default_args();
        OcrTesseract {
            ocr_args: TesseractArgs {
                lang: String::from_str("jpn+jp_vert+osd"),
                config_variables: defaults.config_variables,
                dpi: defaults.dpi,
                psm: Some(VERTICAL_BLOCK_MODE),
                oem: defaults.oem,
            },
        }
    }

    /// The engine set up as `ocr_args` say.
    pub fn new_with_args(ocr_args: TesseractArgs) -> (engine: OcrTesseract)
        ensures
            engine.args() == ocr_args,
    {
        OcrTesseract { ocr_args }
    }

    /// How the engine is set up.
    pub closed spec fn args(self) -> TesseractArgs {
        self.ocr_args
    }

    /// How the engine is set up.
    pub fn get_args(&self) -> (args: &TesseractArgs)
        ensures
            *args == self.args(),
    {
        &self.ocr_args
    }

    /// How to call the engine so that it reads all of `languages`: their
    /// names joined by `+`, and the rest as the engine was set up.
    pub fn recognition_args(&self, languages: &Vec<String>) -> (args: TesseractArgs)
        ensures
            args.lang@ == joined_with(lines_view(languages@), seq!['+']),
            variables_view(args.config_variables@) == variables_view(
                self.args().config_variables@,
            ),
            args.dpi == self.args().dpi,
            args.psm == self.args().psm,
            args.oem == self.args().oem,
    {
        proof {
            reveal_strlit("+");
            assert("+"@ =~= seq!['+']);
        }
        TesseractArgs {
            lang: join_text(languages, "+"),
            config_variables: copy_variables(&self.ocr_args.config_variables),
            dpi: self.ocr_args.dpi,
            psm: self.ocr_args.psm,
            oem: self.ocr_args.oem,
        }
    }

    /// The words of one line, each in the placeholder box.
    pub fn to_ocr_line(line: &str, index: usize) -> (out: OcrLine)
        ensures
            out@ == placed_words(line@, index as int),
    {
        let words = split_words(line);
        let number: u16 = (index % 0x1_0000) as u16;
        let mut placed: Vec<OcrWord> = Vec::new();
        let mut at: usize = 0;
        while at < words.len()
            invariant
                at <= words@.len(),
                lines_view(words@) == words_of(line@),
                number == index % 0x1_0000,
                placed@.len() == at,
                forall|done: int|
                    0 <= done < at ==> (#[trigger] placed@[done])@ == placed_words(
                        line@,
                        index as int,
                    )[done],
            decreases words@.len() - at,
        {
            let rect = OcrRect::new(0, 0, PLACEHOLDER_EXTENT, PLACEHOLDER_EXTENT);
            assert(lines_view(words@)[at as int] == words@[at as int]@);
            placed.push(OcrWord::new(words[at].clone(), number, rect));
            at = at + 1;
        }
        let out = OcrLine::new(placed);
        assert(out@ =~= placed_words(line@, index as int));
        out
    }

    /// The structured lines that stand for `lines`: the words of each line,
    /// cut at white space, each in the placeholder box.
    pub fn to_ocr_lines(lines: &Vec<String>) -> (out: Vec<OcrLine>)
        ensures
            rects_view(out@) == placed_lines(lines_view(lines@)),
    {
        let mut out: Vec<OcrLine> = Vec::new();
        let mut index: usize = 0;
        while index < lines.len()
            invariant
                index <= lines@.len(),
                out@.len() == index,
                forall|done: int|
                    0 <= done < index ==> (#[trigger] out@[done])@ == placed_words(
                        lines@[done]@,
                        done,
                    ),
            decreases lines@.len() - index,
        {
            out.push(Self::to_ocr_line(lines[index].as_str(), index));
            index = index + 1;
        }
        assert(rects_view(out@) =~= placed_lines(lines_view(lines@)));
        out
    }

    /// The result that stands for the text the engine printed: the text as
    /// it is, its lines, and the words of each line.
    pub fn result_from_text(text: String) -> (result: OcrTraitResult)
        ensures
            result.text@ == text@,
            lines_view(result.lines@) == split_on(text@, line_break()),
            rects_view(result.rects@) == placed_lines(split_on(text@, line_break())),
            result.coherent(),
    {
        let lines = split_lines(text.as_str());
        let rects = Self::to_ocr_lines(&lines);
        proof {
            lemma_join_split(text@, line_break());
        }
        OcrTraitResult { text, lines, rects }
    }

    /// What a run of the engine comes to: the result that stands for the
    /// text it printed, or the failure with what the engine said of it.
    pub fn result_from_outcome(outcome: Result<String, String>) -> (out: Result<
        OcrTraitResult,
        OcrError,
    >)
        ensures
            match outcome {
                Ok(text) => out matches Ok(result) && result.text@ == text@ && lines_view(
                    result.lines@,
                ) == split_on(text@, line_break()) && rects_view(result.rects@) == placed_lines(
                    split_on(text@, line_break()),
                ) && result.coherent(),
                Err(detail) => out matches Err(OcrError::RecognitionFailed(said)) && said@
                    == detail@,
            },
    {
        match outcome {
            Ok(text) => Ok(Self::result_from_text(text)),
            Err(detail) => Err(OcrError::RecognitionFailed(detail)),
        }
    }
}

} // verus!
