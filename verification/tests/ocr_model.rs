use lenzu::ocr_tesseract::{OcrTesseract, TesseractArgs, PLACEHOLDER_EXTENT, VERTICAL_BLOCK_MODE};
use lenzu::ocr_traits::{OcrError, OcrLine, OcrRect, OcrTraitResult, OcrWord};

fn word(text: &str, line: u16, x: i32, y: i32, width: u32, height: u32) -> OcrWord {
    OcrWord::from(text.to_string(), line, x, y, width, height)
}

#[test]
fn rect_by_corners_and_by_size() {
    let by_corners = OcrRect::new(-5, -7, 10, 3);
    assert_eq!((by_corners.x_min, by_corners.y_min), (-5, -7));
    assert_eq!((by_corners.x_max, by_corners.y_max), (10, 3));
    assert_eq!(by_corners.width(), 15);
    assert_eq!(by_corners.height(), 10);
    let by_size = OcrRect::from(-5, -7, 15, 10);
    assert_eq!(by_size, by_corners);
    assert_eq!(OcrRect::new(i32::MIN, i32::MIN, i32::MAX, i32::MAX).width(), u32::MAX);
    assert_eq!(OcrRect::new(4, 4, 4, 4).height(), 0);
}

#[test]
fn rect_with_corners_out_of_order_has_no_extent() {
    let inverted = OcrRect::new(10, 3, -5, -7);
    assert_eq!(inverted.width(), 0);
    assert_eq!(inverted.height(), 0);
    assert_eq!((inverted.x_min, inverted.x_max), (10, -5));
    let half = OcrRect::new(0, 5, 7, 4);
    assert_eq!((half.width(), half.height()), (7, 0));
    assert_eq!(OcrRect::new(i32::MAX, 0, i32::MIN, 0).width(), 0);
}

#[test]
fn word_knows_its_place() {
    let made = OcrWord::new("漢字".to_string(), 3, OcrRect::new(1, 2, 11, 22));
    assert_eq!(made.word(), "漢字");
    assert_eq!(made.line_index(), 3);
    assert_eq!(made.rect(), OcrRect::new(1, 2, 11, 22));
    assert_eq!((made.x_min(), made.y_min()), (1, 2));
    assert_eq!((made.width(), made.height()), (10, 20));
    assert_eq!(made.clone(), made);
    assert_eq!(word("漢字", 3, 1, 2, 10, 20), made);
}

#[test]
fn line_bounds_are_taken_over_its_words() {
    let mut line = OcrLine::new(vec![word("a", 0, 10, -4, 30, 12), word("bc", 0, -2, 6, 8, 40)]);
    assert_eq!(line.width(), 30);
    assert_eq!(line.height(), 40);
    assert_eq!(line.x_min(), -2);
    assert_eq!(line.y_min(), -4);
    line.add_word(word("d", 0, 100, -9, 31, 1));
    assert_eq!(line.width(), 31);
    assert_eq!(line.height(), 40);
    assert_eq!(line.x_min(), -2);
    assert_eq!(line.y_min(), -9);
    let words = line.words();
    assert_eq!(words.len(), 3);
    assert_eq!(words[1].word(), "bc");
    assert_eq!(words[2], word("d", 0, 100, -9, 31, 1));
    assert_eq!(line.clone(), line);
}

#[test]
fn line_without_words_has_the_neutral_bounds() {
    let line = OcrLine::new(vec![]);
    assert_eq!(line.width(), 0);
    assert_eq!(line.height(), 0);
    assert_eq!(line.x_min(), i32::MAX);
    assert_eq!(line.y_min(), i32::MAX);
    assert!(line.words().is_empty());
}

#[test]
fn fresh_result_is_empty() {
    let result = OcrTraitResult::new();
    assert_eq!(result.text, "");
    assert!(result.lines.is_empty());
    assert!(result.rects.is_empty());
}

#[test]
fn engine_is_set_up_for_japanese() {
    let engine = OcrTesseract::new();
    assert_eq!(engine.get_args().lang, "jpn+jp_vert+osd");
    assert_eq!(engine.get_args().psm, Some(5));
    assert_eq!(engine.get_args().dpi, Some(150));
    assert_eq!(engine.get_args().oem, Some(3));
    assert!(engine.get_args().config_variables.is_empty());
    assert_eq!(VERTICAL_BLOCK_MODE, 5);
}

#[test]
fn engine_keeps_the_arguments_it_is_given() {
    let variables = vec![
        ("tessedit_char_whitelist".to_string(), "0123456789".to_string()),
        ("preserve_interword_spaces".to_string(), "1".to_string()),
    ];
    let args = TesseractArgs {
        lang: "eng".to_string(),
        config_variables: variables.clone(),
        dpi: None,
        psm: Some(6),
        oem: Some(1),
    };
    assert_eq!(args.clone().config_variables, variables);
    let engine = OcrTesseract::new_with_args(args.clone());
    assert_eq!(engine.get_args().lang, "eng");
    assert_eq!(engine.get_args().dpi, None);
    assert_eq!(engine.get_args().psm, Some(6));
    assert_eq!(engine.get_args().oem, Some(1));
    let languages = vec!["jpn".to_string(), "jpn_vert".to_string(), "osd".to_string()];
    let call = engine.recognition_args(&languages);
    assert_eq!(call.lang, "jpn+jpn_vert+osd");
    assert_eq!(call.config_variables, variables);
    assert_eq!(engine.get_args().config_variables, variables);
    assert_eq!((call.dpi, call.psm, call.oem), (None, Some(6), Some(1)));
    assert_eq!(engine.recognition_args(&vec![]).lang, "");
    assert_eq!(engine.recognition_args(&vec!["eng".to_string()]).lang, "eng");
}

#[test]
fn words_get_placeholder_boxes() {
    let lines = vec!["the quick  fox".to_string(), "".to_string(), " 最近 人気".to_string()];
    let placed = OcrTesseract::to_ocr_lines(&lines);
    assert_eq!(placed.len(), 3);
    let first = placed[0].words();
    assert_eq!(first.len(), 3);
    assert_eq!(first[1].word(), "quick");
    assert_eq!(first[1].line_index(), 0);
    assert_eq!(first[1].rect(), OcrRect::new(0, 0, 8, 8));
    assert!(placed[1].words().is_empty());
    let third = placed[2].words();
    assert_eq!(third.len(), 2);
    assert_eq!(third[0].word(), "最近");
    assert_eq!(third[1].line_index(), 2);
    assert_eq!(placed[2].width(), 8);
    assert_eq!(placed[2].x_min(), 0);
    assert_eq!(PLACEHOLDER_EXTENT, 8);
}

#[test]
fn line_numbers_start_over_after_sixteen_bits() {
    assert_eq!(OcrTesseract::to_ocr_line("a", 65535).words()[0].line_index(), 65535);
    assert_eq!(OcrTesseract::to_ocr_line("a", 65536).words()[0].line_index(), 0);
    assert_eq!(OcrTesseract::to_ocr_line("a", 65539).words()[0].line_index(), 3);
}

#[test]
fn printed_text_becomes_a_result() {
    let result = OcrTesseract::result_from_text("最近 人気の\nデスクトップ\n".to_string());
    assert_eq!(result.text, "最近 人気の\nデスクトップ\n");
    assert_eq!(result.lines, vec!["最近 人気の", "デスクトップ", ""]);
    assert_eq!(result.lines.join("\n"), result.text);
    assert_eq!(result.rects.len(), 3);
    assert_eq!(result.rects[0].words().len(), 2);
    assert_eq!(result.rects[0].words()[1].word(), "人気の");
    assert_eq!(result.rects[1].words()[0].line_index(), 1);
    assert!(result.rects[2].words().is_empty());
    let nothing = OcrTesseract::result_from_text(String::new());
    assert_eq!(nothing.lines, vec![""]);
    assert_eq!(nothing.rects.len(), 1);
}

#[test]
fn run_of_the_engine_becomes_a_result_or_a_failure() {
    let read = OcrTesseract::result_from_outcome(Ok("a b\nc".to_string())).unwrap();
    assert_eq!(read.text, "a b\nc");
    assert_eq!(read.lines, vec!["a b", "c"]);
    assert_eq!(read.rects[0].words().len(), 2);
    match OcrTesseract::result_from_outcome(Err("no such language".to_string())) {
        Err(OcrError::RecognitionFailed(said)) => assert_eq!(said, "no such language"),
        other => panic!("expected a failed recognition, got {:?}", other),
    }
}
