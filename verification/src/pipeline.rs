//! One tick of the magnifier: what is to be done in each state, in what
//! order, and which image is shown at the end of a capture.

use crate::captured_image::{CapturedImage, ImageView};
use crate::cursor_data::{CursorData, CursorFrame};
use crate::image_handling::{OCRImage, OcrImageView};
use crate::interpreter_traits::{InterpreterTrait, InterpreterTraitResult, TranslateError};
use crate::ocr_traits::{OcrTrait, OcrTraitResult};
use crate::overlay::composed;
use crate::toggle_state::ToggleState;
use vstd::prelude::*;
use vstd::string::*;

verus! {

/// One thing for the caller to do in a tick.
#[derive(Clone, Copy, Debug, PartialEq, Eq, Structural)]
pub enum TickStep {
    /// Move the window so that its top left corner is here.
    MoveWindow { x: i32, y: i32 },
    /// Make the window invisible to a capture.
    HideWindow,
    /// Capture this rectangle of the desktop.
    Grab { x: i32, y: i32, width: u32, height: u32 },
    /// Make the window visible again.
    ShowWindow,
    /// Hand the capture to `capture_and_ocr` and keep what it gives.
    Recognize,
    /// Show the image in the window: the capture, or what recognition
    /// made of it.
    Present,
}

/// The capture of the window's frame, with the window out of sight while
/// it is taken.
pub open spec fn guarded_grab(frame: CursorFrame) -> Seq<TickStep> {
    seq![
        TickStep::HideWindow,
        TickStep::Grab {
            x: frame.window_x as i32,
            y: frame.window_y as i32,
            width: frame.window_width as u32,
            height: frame.window_height as u32,
        },
        TickStep::ShowWindow,
    ]
}

/// What is to be done in one tick, in order. `Free` mirrors what is under
/// the window; `MoveWindow` first moves the window to the cursor;
/// `Capturing` runs recognition on what it captured; `Frozen` does nothing.
pub open spec fn tick_steps(state: ToggleState, frame: CursorFrame) -> Seq<TickStep> {
    match state {
        ToggleState::Free => guarded_grab(frame).push(TickStep::Present),
        ToggleState::MoveWindow => seq![
            TickStep::MoveWindow { x: frame.window_x as i32, y: frame.window_y as i32 },
        ] + guarded_grab(frame).push(TickStep::Present),
        ToggleState::Capturing => guarded_grab(frame).push(TickStep::Recognize).push(
            TickStep::Present,
        ),
        ToggleState::Frozen => Seq::empty(),
    }
}

/// Every capture stands between a step that hides the window and one that
/// shows it again, so that no capture holds the window itself. Every tick
/// that captures also presents, and only a capture cycle recognizes.
pub proof fn lemma_grab_is_guarded(state: ToggleState, frame: CursorFrame)
    ensures
        forall|at: int|
            0 <= at < tick_steps(state, frame).len() && (#[trigger] tick_steps(state, frame)[at])
                is Grab ==> 0 < at < tick_steps(state, frame).len() - 1 && tick_steps(
                state,
                frame,
            )[at - 1] == TickStep::HideWindow && tick_steps(state, frame)[at + 1]
                == TickStep::ShowWindow,
        state != ToggleState::Frozen ==> tick_steps(state, frame).last() == TickStep::Present,
        state == ToggleState::Frozen ==> tick_steps(state, frame).len() == 0,
        tick_steps(state, frame).contains(TickStep::Recognize) <==> state
            == ToggleState::Capturing,
{
    let steps = tick_steps(state, frame);
    match state {
        ToggleState::Free => {
            assert(steps[3] == TickStep::Present);
            assert(!steps.contains(TickStep::Recognize));
        },
        ToggleState::MoveWindow => {
            assert(steps[4] == TickStep::Present);
            assert(!steps.contains(TickStep::Recognize));
        },
        ToggleState::Capturing => {
            assert(steps[3] == TickStep::Recognize);
        },
        ToggleState::Frozen => {
            assert(!steps.contains(TickStep::Recognize));
        },
    }
}

/// What is to be done in this tick, in order.
pub fn plan_tick(state: ToggleState, frame: &CursorData) -> (steps: Vec<TickStep>)
    ensures
        steps@ == tick_steps(state, frame@),
{
    let mut steps: Vec<TickStep> = Vec::new();
    let x = frame.window_x();
    let y = frame.window_y();
    match state {
        ToggleState::Frozen => {
            assert(steps@ =~= tick_steps(state, frame@));
            return steps;
        },
        ToggleState::MoveWindow => {
            steps.push(TickStep::MoveWindow { x, y });
        },
        _ => {},
    }
    steps.push(TickStep::HideWindow);
    steps.push(TickStep::Grab { x, y, width: frame.window_width(), height: frame.window_height() });
    steps.push(TickStep::ShowWindow);
    match state {
        ToggleState::Capturing => {
            steps.push(TickStep::Recognize);
        },
        _ => {},
    }
    steps.push(TickStep::Present);
    assert(steps@ =~= tick_steps(state, frame@));
    steps
}

/// The image that a capture ends with: the capture itself where nothing
/// was translated, where the translation is empty, or where the text could
/// not be laid over it; else the capture with the translation over it.
pub open spec fn shown_image(capture: ImageView, translated: Option<Seq<char>>, font: Seq<u8>) -> ImageView {
    match translated {
        None => capture,
        Some(text) => match composed(capture, text, 0, 0, font) {
            Ok(image) => image,
            Err(_) => capture,
        },
    }
}

/// The text that came out of recognition and translation, if recognition
/// read anything.
pub open spec fn translated_text(outcome: Option<(OcrTraitResult, InterpreterTraitResult)>) -> Option<
    Seq<char>,
> {
    match outcome {
        Some(pair) => Some(pair.1.text@),
        None => None,
    }
}

/// The translation, or the empty result where translation failed.
pub fn translation_or_empty(translated: Result<InterpreterTraitResult, TranslateError>) -> (out:
    InterpreterTraitResult)
    ensures
        match translated {
            Ok(result) => out == result,
            Err(_) => out.text@.len() == 0 && out.lines@.len() == 0,
        },
{
    match translated {
        Ok(result) => result,
        Err(_) => InterpreterTraitResult::new(),
    }
}

/// The image to show at the end of a capture. `outcome` is what
/// recognition read and what translation made of it, or nothing where
/// recognition failed. Where there is a text to lay over the capture,
/// `ocr_font` is handed the capture as its image at hand.
pub fn recognized_image(
    screenshot: CapturedImage,
    outcome: Option<(OcrTraitResult, InterpreterTraitResult)>,
    ocr_font: &mut OCRImage,
) -> (shown: CapturedImage)
    ensures
        shown@ == shown_image(screenshot@, translated_text(outcome), old(ocr_font)@.font_bold),
        match outcome {
            Some(pair) => if pair.1.text@.len() > 0 {
                final(ocr_font)@ == (OcrImageView { image: Some(screenshot@), ..old(ocr_font)@ })
            } else {
                final(ocr_font)@ == old(ocr_font)@
            },
            None => final(ocr_font)@ == old(ocr_font)@,
        },
{
    match outcome {
        Some((_, translated)) => {
            if translated.text.as_str().unicode_len() == 0 {
                screenshot
            } else {
                ocr_font.set_image(screenshot.duplicate());
                match ocr_font.overlay_text(translated.text.as_str(), 0, 0) {
                    Ok(image) => image,
                    Err(_) => screenshot,
                }
            }
        },
        None => screenshot,
    }
}

/// Runs one capture through recognition, translation and composition and
/// gives the image to show. Recognition reads the capture in shades of
/// gray. Whatever the engine and the translator do, an image comes back:
/// the capture itself, or the capture with some text over it.
pub fn capture_and_ocr<O: OcrTrait, I: InterpreterTrait>(
    ocr: &O,
    interpreter: &I,
    screenshot: CapturedImage,
    ocr_font: &mut OCRImage,
) -> (shown: CapturedImage)
    ensures
        exists|translated: Option<Seq<char>>|
            shown@ == #[trigger] shown_image(screenshot@, translated, old(ocr_font)@.font_bold),
        final(ocr_font)@ == old(ocr_font)@ || final(ocr_font)@ == (OcrImageView {
            image: Some(screenshot@),
            ..old(ocr_font)@
        }),
{
    let gray = screenshot.to_grayscale();
    let outcome = match ocr.evaluate(&gray) {
        Ok(recognized) => {
            let translated = translation_or_empty(interpreter.convert(recognized.text.as_str()));
            Some((recognized, translated))
        },
        Err(_) => None,
    };
    let ghost translated = translated_text(outcome);
    let shown = recognized_image(screenshot, outcome, ocr_font);
    assert(shown@ == shown_image(screenshot@, translated, old(ocr_font)@.font_bold));
    shown
}

} // verus!
