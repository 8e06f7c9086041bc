use lenzu::captured_image::{CapturedImage, PixelFormat};
use lenzu::cursor_data::{CursorData, ScreenPoint, WorkArea};
use lenzu::image_handling::OCRImage;
use lenzu::interpreter_ja::InterpreterJa;
use lenzu::interpreter_traits::{InterpreterTrait, InterpreterTraitResult, TranslateError};
use lenzu::ocr_tesseract::OcrTesseract;
use lenzu::ocr_traits::{OcrError, OcrTrait, OcrTraitResult};
use lenzu::pipeline::{
    capture_and_ocr, plan_tick, recognized_image, translation_or_empty, TickStep,
};
use lenzu::toggle_state::ToggleState;

/// A font of one glyph: `A` is a filled rectangle; every other character is
/// blank.
fn one_glyph_font() -> Vec<u8> {
    vec![
        0, 1, 0, 0, 0, 7, 0, 64, 0, 2, 0, 48, 99, 109, 97, 112,
        0, 0, 0, 0, 0, 0, 0, 124, 0, 0, 0, 44, 103, 108, 121, 102,
        0, 0, 0, 0, 0, 0, 0, 168, 0, 0, 0, 34, 104, 101, 97, 100,
        0, 0, 0, 0, 0, 0, 0, 204, 0, 0, 0, 54, 104, 104, 101, 97,
        0, 0, 0, 0, 0, 0, 1, 4, 0, 0, 0, 36, 104, 109, 116, 120,
        0, 0, 0, 0, 0, 0, 1, 40, 0, 0, 0, 8, 108, 111, 99, 97,
        0, 0, 0, 0, 0, 0, 1, 48, 0, 0, 0, 6, 109, 97, 120, 112,
        0, 0, 0, 0, 0, 0, 1, 56, 0, 0, 0, 32, 0, 0, 0, 1,
        0, 3, 0, 1, 0, 0, 0, 12, 0, 4, 0, 32, 0, 0, 0, 4,
        0, 4, 0, 1, 0, 0, 0, 65, 255, 255, 0, 0, 0, 65, 255, 255,
        255, 192, 0, 1, 0, 0, 0, 0, 0, 1, 0, 100, 0, 0, 3, 132,
        3, 32, 0, 3, 0, 0, 1, 1, 1, 1, 0, 100, 0, 0, 3, 32,
        0, 0, 0, 0, 3, 32, 0, 0, 252, 224, 0, 0, 0, 1, 0, 0,
        0, 1, 0, 0, 0, 0, 0, 0, 95, 15, 60, 245, 0, 11, 3, 232,
        0, 0, 0, 0, 0, 0, 0, 0, 0, 0, 0, 0, 0, 0, 0, 0,
        0, 0, 0, 0, 3, 232, 3, 32, 0, 0, 0, 8, 0, 2, 0, 0,
        0, 0, 0, 0, 0, 1, 0, 0, 3, 32, 255, 56, 0, 0, 3, 232,
        0, 0, 0, 0, 3, 232, 0, 1, 0, 0, 0, 0, 0, 0, 0, 0,
        0, 0, 0, 0, 0, 0, 0, 2, 3, 232, 0, 0, 3, 232, 0, 100,
        0, 0, 0, 0, 0, 17, 0, 0, 0, 1, 0, 0, 0, 2, 0, 4,
        0, 1, 0, 0, 0, 0, 0, 1, 0, 0, 0, 0, 0, 0, 0, 0,
        0, 0, 0, 0, 0, 0, 0, 0,
    ]
}

/// An engine that reads the same text off every image, or fails.
struct FixedOcr {
    reads: Option<&'static str>,
}

impl OcrTrait for FixedOcr {
    fn init(&self) -> Vec<String> {
        vec!["en".to_string()]
    }

    fn evaluate_by_paths(&self, _image_path: &str) -> Result<OcrTraitResult, OcrError> {
        Err(OcrError::BackendUnavailable)
    }

    fn evaluate(&self, image: &CapturedImage) -> Result<OcrTraitResult, OcrError> {
        assert_eq!(image.format(), PixelFormat::LumaA8);
        match self.reads {
            Some(text) => Ok(OcrTesseract::result_from_text(text.to_string())),
            None => Err(OcrError::RecognitionFailed("nothing to read".to_string())),
        }
    }
}

/// A translator that changes nothing, or fails.
struct Echo {
    works: bool,
}

impl InterpreterTrait for Echo {
    fn init(&self) -> Vec<String> {
        vec!["en".to_string()]
    }

    fn convert(&self, text: &str) -> Result<InterpreterTraitResult, TranslateError> {
        if self.works {
            Ok(InterpreterTraitResult { text: text.to_string(), lines: vec![text.to_string()] })
        } else {
            Err(TranslateError::BackendFailed("no dictionary".to_string()))
        }
    }
}

fn capture() -> CapturedImage {
    let samples: Vec<u8> = (0..640u32 * 64 * 4).map(|i| (i % 200) as u8).collect();
    CapturedImage::from_raw(PixelFormat::Rgba8, 640, 64, samples).unwrap()
}

fn fonts() -> OCRImage {
    OCRImage::new(one_glyph_font(), one_glyph_font()).unwrap()
}

fn red_at(image: &CapturedImage, x: usize, y: usize) -> bool {
    let at = (y * image.width() as usize + x) * 4;
    image.as_bytes()[at..at + 4] == [255, 64, 64, 255]
}

#[test]
fn failed_recognition_shows_the_raw_capture() {
    let mut font = fonts();
    let shown = capture_and_ocr(&FixedOcr { reads: None }, &Echo { works: true }, capture(), &mut font);
    assert_eq!(shown.format(), PixelFormat::Rgba8);
    assert_eq!((shown.width(), shown.height()), (640, 64));
    assert_eq!(shown.as_bytes(), capture().as_bytes());
    assert!(font.get_possible_image().is_none());
}

#[test]
fn failed_translation_shows_the_raw_capture() {
    let mut font = fonts();
    let shown =
        capture_and_ocr(&FixedOcr { reads: Some("AAA") }, &Echo { works: false }, capture(), &mut font);
    assert_eq!(shown.as_bytes(), capture().as_bytes());
}

#[test]
fn translated_text_is_laid_over_the_capture() {
    let mut font = fonts();
    let shown =
        capture_and_ocr(&FixedOcr { reads: Some("AAA") }, &Echo { works: true }, capture(), &mut font);
    assert_eq!((shown.width(), shown.height()), (640, 64));
    assert!(red_at(&shown, 40, 40));
    assert!(red_at(&shown, 100, 40));
    assert!(!red_at(&shown, 10, 10));
    assert_eq!(shown.as_bytes()[..4], capture().as_bytes()[..4]);
    assert_eq!(font.get_image().as_bytes(), capture().as_bytes());
}

#[test]
fn kanji_go_through_the_real_translator() {
    let mut font = fonts();
    let shown = capture_and_ocr(
        &FixedOcr { reads: Some("世界") },
        &InterpreterJa::new(),
        capture(),
        &mut font,
    );
    assert_eq!((shown.width(), shown.height()), (640, 64));
    assert_eq!(shown.as_bytes(), capture().as_bytes());
}

#[test]
fn nothing_read_shows_the_raw_capture() {
    let mut font = fonts();
    let shown = capture_and_ocr(&FixedOcr { reads: Some("") }, &Echo { works: true }, capture(), &mut font);
    assert_eq!(shown.as_bytes(), capture().as_bytes());
    assert!(font.get_possible_image().is_none());
}

#[test]
fn outcome_decides_the_image() {
    let mut font = fonts();
    let raw = recognized_image(capture(), None, &mut font);
    assert_eq!(raw.as_bytes(), capture().as_bytes());
    let read = OcrTesseract::result_from_text("A".to_string());
    let empty = recognized_image(capture(), Some((read, InterpreterTraitResult::new())), &mut font);
    assert_eq!(empty.as_bytes(), capture().as_bytes());
    let read = OcrTesseract::result_from_text("A".to_string());
    let translated = InterpreterTraitResult { text: "A".to_string(), lines: vec!["A".to_string()] };
    let composed = recognized_image(capture(), Some((read, translated)), &mut font);
    assert!(red_at(&composed, 40, 40));
}

#[test]
fn failed_translation_is_an_empty_one() {
    let failed = translation_or_empty(Err(TranslateError::BackendFailed("x".to_string())));
    assert_eq!(failed.text, "");
    assert!(failed.lines.is_empty());
    let fine = translation_or_empty(Ok(InterpreterTraitResult {
        text: "a\nb".to_string(),
        lines: vec!["a".to_string(), "b".to_string()],
    }));
    assert_eq!(fine.text, "a\nb");
    assert_eq!(fine.lines, vec!["a", "b"]);
}

fn frame() -> CursorData {
    let mut data = CursorData::new();
    data.update(
        Some(ScreenPoint { x: 1900, y: 20 }),
        WorkArea { left: 0, top: 0, right: 1920, bottom: 1040 },
        300,
        200,
    );
    data
}

const GRAB: TickStep = TickStep::Grab { x: 1750, y: -80, width: 300, height: 200 };

#[test]
fn free_mirrors_what_is_under_the_window() {
    assert_eq!(
        plan_tick(ToggleState::Free, &frame()),
        vec![TickStep::HideWindow, GRAB, TickStep::ShowWindow, TickStep::Present]
    );
}

#[test]
fn move_window_moves_first() {
    assert_eq!(
        plan_tick(ToggleState::MoveWindow, &frame()),
        vec![
            TickStep::MoveWindow { x: 1750, y: -80 },
            TickStep::HideWindow,
            GRAB,
            TickStep::ShowWindow,
            TickStep::Present
        ]
    );
}

#[test]
fn capturing_recognizes_before_it_presents() {
    assert_eq!(
        plan_tick(ToggleState::Capturing, &frame()),
        vec![
            TickStep::HideWindow,
            GRAB,
            TickStep::ShowWindow,
            TickStep::Recognize,
            TickStep::Present
        ]
    );
}

#[test]
fn frozen_does_nothing() {
    assert_eq!(plan_tick(ToggleState::Frozen, &frame()), vec![]);
}

#[test]
fn every_grab_is_taken_with_the_window_hidden() {
    for state in
        [ToggleState::Free, ToggleState::MoveWindow, ToggleState::Capturing, ToggleState::Frozen]
    {
        let steps = plan_tick(state, &frame());
        for (at, step) in steps.iter().enumerate() {
            if matches!(step, TickStep::Grab { .. }) {
                assert_eq!(steps[at - 1], TickStep::HideWindow);
                assert_eq!(steps[at + 1], TickStep::ShowWindow);
            }
        }
    }
}
