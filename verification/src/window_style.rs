//! How the window is taken out of a capture and put back: its layered
//! style bit and its opacity.

use vstd::prelude::*;

verus! {

/// The extended style bit that makes a window layered, and so able to be
/// transparent.
pub const LAYERED_STYLE: i32 = 0x0008_0000;

/// How opaque the window is while a capture is taken, in percent: not at
/// all, so that no capture holds the window itself.
pub const HIDDEN_PERCENT: u32 = 0;

/// How opaque the window is otherwise, in percent.
pub const SHOWN_PERCENT: u32 = 100;

/// The opacity of a layered window that is `percent` percent opaque, on
/// the scale from 0 to 255.
pub open spec fn alpha_of(percent: int) -> int {
    percent * 255 / 100
}

/// The opacity of a layered window that is `percent` percent opaque.
pub fn layered_alpha(percent: u32) -> (alpha: u8)
    requires
        percent <= 100,
    ensures
        alpha == alpha_of(percent as int),
        percent == 0 <==> alpha == 0,
        percent == 100 <==> alpha == 255,
{
    (percent * 255 / 100) as u8
}

/// The extended style of a window that is about to be hidden from a
/// capture: its style with the layered bit set, and all else as it was.
pub fn hidden_style(current: i32) -> (style: i32)
    ensures
        style == current | LAYERED_STYLE,
        style & LAYERED_STYLE == LAYERED_STYLE,
        style & !LAYERED_STYLE == current & !LAYERED_STYLE,
{
    let style = current | LAYERED_STYLE;
    assert(style & 0x0008_0000i32 == 0x0008_0000i32 && style & !0x0008_0000i32 == current
        & !0x0008_0000i32) by (bit_vector)
        requires
            style == current | 0x0008_0000i32,
    ;
    style
}

/// The extended style of a window that is shown again: its style with the
/// layered bit cleared, and all else as it was.
pub fn shown_style(current: i32) -> (style: i32)
    ensures
        style == current & !LAYERED_STYLE,
        style & LAYERED_STYLE == 0,
{
    let style = current & !LAYERED_STYLE;
    assert(style & 0x0008_0000i32 == 0) by (bit_vector)
        requires
            style == current & !0x0008_0000i32,
    ;
    style
}

/// Hiding a window and showing it again leaves its style as it was, but
/// for the layered bit, which is cleared.
pub proof fn lemma_show_undoes_hide(current: i32)
    ensures
        (current | LAYERED_STYLE) & !LAYERED_STYLE == current & !LAYERED_STYLE,
{
    assert((current | 0x0008_0000i32) & !0x0008_0000i32 == current & !0x0008_0000i32)
        by (bit_vector);
}

} // verus!
