use lenzu::interpreter_ja::InterpreterJa;
use lenzu::interpreter_traits::{InterpreterTrait, InterpreterTraitResult, TranslateError};
use lenzu::startup::{create_interpreter, create_ocr, OcrBackend};

fn owned(pieces: &[&str]) -> Vec<String> {
    pieces.iter().map(|piece| piece.to_string()).collect()
}

#[test]
fn fresh_translation_is_empty() {
    let result = InterpreterTraitResult::new();
    assert_eq!(result.text, "");
    assert!(result.lines.is_empty());
    assert_eq!(result.to_text(), "");
}

#[test]
fn translator_knows_japanese_and_english() {
    assert_eq!(InterpreterJa::new().init(), vec!["ja", "en"]);
}

#[test]
fn kanji_become_hiragana() {
    let result = InterpreterJa::new().convert("こんにちは世界!").unwrap();
    assert_eq!(result.text, "こんにちはせかい!");
    assert_eq!(result.lines, vec!["こんにちはせかい!"]);
    assert_eq!(result.to_text(), "こんにちはせかい!");
}

#[test]
fn lines_of_the_translation_follow_the_text() {
    let result = InterpreterJa::new().convert("最近人気の\nデスクトップな\nリナックスです!").unwrap();
    assert_eq!(result.lines.len(), 3);
    assert_eq!(result.lines.join("\n"), result.text);
    assert_eq!(result.lines[0], "さいきんにんきの");
    assert_eq!(result.lines[1], "ですくとっぷな");
    assert_eq!(result.lines[2], "りなっくすです!");
}

#[test]
fn empty_text_translates_to_one_empty_line() {
    let result = InterpreterJa::new().convert("").unwrap();
    assert_eq!(result.text, "");
    assert_eq!(result.lines, vec![""]);
}

#[test]
fn silent_process_gives_its_output() {
    let out = InterpreterJa::result_from_output(owned(&["さいきん", "にんき"]), &vec![]).unwrap();
    assert_eq!(out.text, "さいきん\nにんき");
    assert_eq!(out.lines, vec!["さいきん", "にんき"]);
    let nothing = InterpreterJa::result_from_output(vec![], &vec![]).unwrap();
    assert_eq!(nothing.text, "");
    assert!(nothing.lines.is_empty());
}

#[test]
fn complaining_process_gives_its_complaint() {
    let out = InterpreterJa::result_from_output(
        owned(&["half a result"]),
        &owned(&["kakasi: no dictionary", "giving up"]),
    );
    match out {
        Err(TranslateError::BackendFailed(message)) => {
            assert_eq!(message, "kakasi: no dictionary\ngiving up")
        }
        other => panic!("expected a failure, got {:?}", other),
    }
}

#[test]
fn native_engine_is_preferred_where_there_is_one() {
    assert_eq!(create_ocr(&owned(&["lenzu"]), true), OcrBackend::PlatformNative);
    assert_eq!(create_ocr(&owned(&[]), true), OcrBackend::PlatformNative);
    assert_eq!(
        create_ocr(&owned(&["lenzu", "--use-winmedia-ocr"]), true),
        OcrBackend::PlatformNative
    );
    assert_eq!(create_ocr(&owned(&["lenzu", "--anything-else"]), true), OcrBackend::Tesseract);
    assert_eq!(
        create_ocr(&owned(&["lenzu", "x", "--use-winmedia-ocr"]), true),
        OcrBackend::Tesseract
    );
}

#[test]
fn cross_platform_engine_reads_everywhere_else() {
    assert_eq!(create_ocr(&owned(&["lenzu"]), false), OcrBackend::Tesseract);
    assert_eq!(create_ocr(&owned(&["lenzu", "--use-winmedia-ocr"]), false), OcrBackend::Tesseract);
    assert_eq!(create_ocr(&owned(&["lenzu", "--anything-else"]), false), OcrBackend::Tesseract);
}

#[test]
fn there_is_one_translator() {
    let interpreter = create_interpreter(&owned(&["lenzu", "--whatever"]));
    assert_eq!(interpreter.init(), vec!["ja", "en"]);
}
