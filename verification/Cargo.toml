[package]
name = "lenzu"
version = "0.1.0"
edition = "2021"
publish = false

[dependencies]
ab_glyph = "=0.2.32"
anyhow = "=1.0.104"
bytemuck = { version = "=1.25.2", features = ["extern_crate_alloc"] }
futures = "=0.3.34"
image = { version = "=0.25.10", default-features = false, features = ["png"] }
imageproc = { version = "=0.25.1", default-features = false }
kakasi = "=0.1.0"
rusty-tesseract = "=1.1.10"
tokio = { version = "=1.54.1", features = ["rt", "macros", "time"] }
winapi = { version = "=0.3.9", features = ["windef", "minwindef", "winuser", "wingdi"] }
windows = { version = "=0.52.0", features = ["Foundation", "Foundation_Collections", "Globalization", "Graphics_Imaging", "Media_Ocr", "Storage_Streams"] }
