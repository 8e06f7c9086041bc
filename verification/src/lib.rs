//! Capture, recognize, translate, compose: the logic of a cursor-following
//! screen magnifier that reads the text under the cursor and writes its
//! phonetic rendering back onto the captured image.

pub mod captured_image;
pub mod cursor_data;
pub mod image_handling;
pub mod interpreter_ja;
pub mod interpreter_traits;
pub mod my_desktop;
pub mod ocr_tesseract;
pub mod ocr_traits;
pub mod ocr_winmedia;
pub mod overlay;
pub mod pipeline;
pub mod raster;
pub mod startup;
pub mod text_lines;
pub mod text_wrap;
pub mod toggle_state;
pub mod window_style;
