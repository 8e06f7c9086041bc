//! What is settled once, before the first tick: which recognition engine
//! reads, and which translator translates.

use crate::interpreter_ja::InterpreterJa;
use vstd::prelude::*;
use vstd::string::*;

verus! {

/// A recognition engine to start.
#[derive(Clone, Copy, Debug, PartialEq, Eq, Structural)]
pub enum OcrBackend {
    /// The cross-platform engine.
    Tesseract,
    /// The engine that the platform brings along.
    PlatformNative,
}

/// The one argument that asks for the platform's engine by name.
pub open spec fn native_flag() -> Seq<char> {
    "--use-winmedia-ocr"@
}

/// The engine to start. Where the platform brings one along, that one is
/// preferred, unless the first argument after the program's name is
/// something other than the flag that asks for it; everywhere else the
/// cross-platform engine reads.
pub open spec fn chosen_backend(args: Seq<Seq<char>>, native_available: bool) -> OcrBackend {
    if native_available && !(args.len() > 1 && args[1] != native_flag()) {
        OcrBackend::PlatformNative
    } else {
        OcrBackend::Tesseract
    }
}

/// What the program's arguments are.
pub open spec fn args_view(args: Seq<String>) -> Seq<Seq<char>> {
    Seq::new(args.len(), |index: int| args[index]@)
}

/// Chooses the recognition engine. `args` are the program's arguments, its
/// name first; `native_available` says whether the platform brings an
/// engine along.
pub fn create_ocr(args: &Vec<String>, native_available: bool) -> (backend: OcrBackend)
    ensures
        backend == chosen_backend(args_view(args@), native_available),
{
    if native_available {
        if args.len() > 1 {
            let flag = String::from_str("--use-winmedia-ocr");
            assert(args_view(args@)[1] == args@[1]@);
            if args[1] != flag {
                return OcrBackend::Tesseract;
            }
        }
        return OcrBackend::PlatformNative;
    }
    OcrBackend::Tesseract
}

/// Chooses the translator: there is one, and the arguments do not matter.
pub fn create_interpreter(_args: &Vec<String>) -> (interpreter: InterpreterJa) {
    InterpreterJa::new()
}

} // verus!
