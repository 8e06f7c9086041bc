//! Greedy fixed-width wrapping: a line break after every N-th character,
//! wherever that falls. Made for scripts that put no space between words.

use vstd::prelude::*;
use vstd::string::*;

verus! {

/// The side of the square that one glyph is given, in pixels.
pub const GLYPH_ADVANCE_PIXELS: u32 = 32;

/// Characters kept free at the right edge of the image.
pub const RIGHT_MARGIN_CHARS: u32 = 10;

/// The characters that fit one line on an image `image_width` pixels wide:
/// the glyphs that fit, less the margin, and never less than one.
pub open spec fn available_width(image_width: int) -> int {
    let fit = image_width / (GLYPH_ADVANCE_PIXELS as int) - RIGHT_MARGIN_CHARS;
    if fit >= 1 {
        fit
    } else {
        1
    }
}

/// The number of lines that `len` characters take at `per_line` a line:
/// one if they fit, else `len / per_line` rounded up.
pub open spec fn line_count(len: int, per_line: int) -> int {
    if len <= per_line {
        1
    } else if len % per_line == 0 {
        len / per_line
    } else {
        len / per_line + 1
    }
}

/// The `index`-th line of `text` at `per_line` characters a line.
pub open spec fn wrapped_line(text: Seq<char>, per_line: int, index: int) -> Seq<char> {
    let start = index * per_line;
    let end = if start + per_line <= text.len() {
        start + per_line
    } else {
        text.len() as int
    };
    text.subrange(start, end)
}

/// `text` cut into lines of `per_line` characters; the last line holds what
/// is left.
pub open spec fn wrapped(text: Seq<char>, per_line: int) -> Seq<Seq<char>> {
    Seq::new(
        line_count(text.len() as int, per_line) as nat,
        |index: int| wrapped_line(text, per_line, index),
    )
}

/// The lines written one after the other, with nothing between them.
pub open spec fn joined(lines: Seq<Seq<char>>) -> Seq<char>
    decreases lines.len(),
{
    if lines.len() == 0 {
        Seq::empty()
    } else {
        joined(lines.drop_last()) + lines.last()
    }
}

/// What a vector of strings holds, as sequences of characters.
pub open spec fn lines_view(lines: Seq<String>) -> Seq<Seq<char>> {
    Seq::new(lines.len(), |index: int| lines[index]@)
}

/// As many lines as the line count says reach the end of the text, and one
/// line fewer does not.
pub proof fn lemma_line_count_bounds(len: int, per_line: int)
    requires
        0 <= len,
        1 <= per_line,
    ensures
        1 <= line_count(len, per_line),
        (line_count(len, per_line) - 1) * per_line < len || len == 0,
        len <= line_count(len, per_line) * per_line,
{
    let q = len / per_line;
    let r = len % per_line;
    assert(len == q * per_line + r && 0 <= r < per_line) by {
        vstd::arithmetic::div_mod::lemma_fundamental_div_mod(len, per_line);
        vstd::arithmetic::div_mod::lemma_mod_bound(len, per_line);
        assert(per_line * q == q * per_line) by (nonlinear_arith);
    }
    assert(0 <= q) by {
        vstd::arithmetic::div_mod::lemma_div_pos_is_pos(len, per_line);
    }
    if len <= per_line {
        assert(1 * per_line == per_line);
        assert((1 - 1) * per_line == 0);
    } else {
        assert(q >= 1) by (nonlinear_arith)
            requires
                len == q * per_line + r,
                r < per_line,
                len > per_line,
                per_line >= 1,
        ;
        assert((q - 1) * per_line == q * per_line - per_line) by (nonlinear_arith);
        assert((q + 1) * per_line == q * per_line + per_line) by (nonlinear_arith);
    }
}

/// Only the line count is such that as many lines reach the end of the
/// text while one line fewer does not.
pub proof fn lemma_line_count_unique(len: int, per_line: int, count: int)
    requires
        0 < len,
        1 <= per_line,
        1 <= count,
        (count - 1) * per_line < len,
        len <= count * per_line,
    ensures
        count == line_count(len, per_line),
{
    lemma_line_count_bounds(len, per_line);
    let c = line_count(len, per_line);
    if count < c {
        assert(count * per_line <= (c - 1) * per_line) by (nonlinear_arith)
            requires
                count <= c - 1,
                per_line >= 1,
        ;
    } else if count > c {
        assert(c * per_line <= (count - 1) * per_line) by (nonlinear_arith)
            requires
                c <= count - 1,
                per_line >= 1,
        ;
    }
}

/// The characters of the longest line of a text of `len` characters at
/// `per_line` a line.
pub open spec fn widest_line(len: int, per_line: int) -> int {
    if len <= per_line {
        len
    } else {
        per_line
    }
}

/// No line of a wrapped text is longer than its longest line.
pub proof fn lemma_wrapped_line_len(text: Seq<char>, per_line: int, index: int)
    requires
        1 <= per_line,
        0 <= index < line_count(text.len() as int, per_line),
    ensures
        wrapped_line(text, per_line, index).len() <= widest_line(text.len() as int, per_line),
{
    let len = text.len() as int;
    lemma_line_count_bounds(len, per_line);
    let count = line_count(len, per_line);
    let start = index * per_line;
    assert(0 <= start) by (nonlinear_arith)
        requires
            start == index * per_line,
            index >= 0,
            per_line >= 1,
    ;
    assert(start <= (count - 1) * per_line) by (nonlinear_arith)
        requires
            start == index * per_line,
            index <= count - 1,
            per_line >= 1,
    ;
    if len <= per_line {
        assert(count == 1);
        assert(start == 0) by (nonlinear_arith)
            requires
                start == index * per_line,
                index == 0,
        ;
    }
}

/// The characters that fit one line on an image `image_width` pixels wide.
pub fn available_char_width(image_width: u32) -> (per_line: u32)
    ensures
        per_line == available_width(image_width as int),
        per_line >= 1,
{
    let glyphs = image_width / GLYPH_ADVANCE_PIXELS;
    if glyphs > RIGHT_MARGIN_CHARS {
        glyphs - RIGHT_MARGIN_CHARS
    } else {
        1
    }
}

/// The number of lines that `len` characters take at `per_line` a line.
pub fn count_lines(len: usize, per_line: u32) -> (count: usize)
    requires
        per_line >= 1,
    ensures
        count == line_count(len as int, per_line as int),
{
    let per_line = per_line as usize;
    if len <= per_line {
        1
    } else if len % per_line == 0 {
        len / per_line
    } else {
        proof {
            lemma_line_count_bounds(len as int, per_line as int);
            assert(line_count(len as int, per_line as int) * 1 <= line_count(
                len as int,
                per_line as int,
            ) * per_line) by (nonlinear_arith)
                requires
                    per_line >= 1,
                    line_count(len as int, per_line as int) >= 1,
            ;
            assert(len / per_line + 1 <= len) by (nonlinear_arith)
                requires
                    (len / per_line) * (per_line as int) < len,
                    per_line >= 2,
                    len / per_line >= 0,
            ;
        }
        len / per_line + 1
    }
}

/// Cuts `text` into lines of `per_line` characters. A text that fits one
/// line stays whole, an empty one too; a text that ends a line exactly is
/// followed by no empty line.
pub fn wrap_text(text: &str, per_line: u32) -> (lines: Vec<String>)
    requires
        per_line >= 1,
    ensures
        lines_view(lines@) == wrapped(text@, per_line as int),
        lines@.len() == line_count(text@.len() as int, per_line as int),
        joined(lines_view(lines@)) == text@,
{
    proof {
        lemma_wrap_round_trip(text@, per_line as int);
    }
    let len = text.unicode_len();
    let step = per_line as usize;
    let mut lines: Vec<String> = Vec::new();
    if len <= step {
        lines.push(String::from_str(text));
        proof {
            assert(0 * (per_line as int) == 0);
            assert(text@.subrange(0, text@.len() as int) =~= text@);
            assert(lines@[0]@ == wrapped_line(text@, per_line as int, 0));
            assert(lines_view(lines@) =~= wrapped(text@, per_line as int));
        }
        return lines;
    }
    let mut start: usize = 0;
    proof {
        assert(0 * (step as int) == 0);
        lemma_line_count_bounds(len as int, step as int);
    }
    while start < len
        invariant
            step == per_line,
            step >= 1,
            len == text@.len(),
            len > step,
            start < len ==> start == lines@.len() * step,
            start == len ==> lines@.len() == line_count(len as int, step as int),
            start <= len,
            lines@.len() <= line_count(len as int, step as int),
            start < len ==> lines@.len() < line_count(len as int, step as int),
            forall|index: int|
                0 <= index < lines@.len() ==> (#[trigger] lines@[index])@ == wrapped_line(
                    text@,
                    step as int,
                    index,
                ),
        decreases len - start,
    {
        let ghost done = lines@.len() as int;
        let end = if len - start <= step {
            len
        } else {
            start + step
        };
        let piece = text.substring_char(start, end);
        lines.push(String::from_str(piece));
        proof {
            assert((done + 1) * step == done * step + step) by (nonlinear_arith);
            assert(piece@ == wrapped_line(text@, step as int, done));
            if end == len {
                assert((done + 1 - 1) * step < len);
                lemma_line_count_unique(len as int, step as int, done + 1);
            } else {
                lemma_line_count_bounds(len as int, step as int);
                let c = line_count(len as int, step as int);
                if done + 1 >= c {
                    assert(c * step <= (done + 1) * step) by (nonlinear_arith)
                        requires
                            c <= done + 1,
                            step >= 1,
                    ;
                }
            }
        }
        start = end;
    }
    proof {
        assert(lines_view(lines@) =~= wrapped(text@, per_line as int));
    }
    lines
}

/// Wrapping loses nothing and adds nothing: the lines of a text, written
/// one after the other, are the text; and there are as many of them as the
/// length divided by the line width, rounded up, or one where the text fits
/// a single line.
pub proof fn lemma_wrap_round_trip(text: Seq<char>, per_line: int)
    requires
        1 <= per_line,
    ensures
        wrapped(text, per_line).len() == line_count(text.len() as int, per_line),
        text.len() <= per_line ==> wrapped(text, per_line).len() == 1,
        text.len() > per_line ==> (wrapped(text, per_line).len() - 1) * per_line < text.len()
            <= wrapped(text, per_line).len() * per_line,
        joined(wrapped(text, per_line)) == text,
{
    let len = text.len() as int;
    lemma_line_count_bounds(len, per_line);
    let lines = wrapped(text, per_line);
    lemma_joined_prefix(text, per_line, lines.len() as int);
    assert(lines.take(lines.len() as int) =~= lines);
    let reach = lines.len() * per_line;
    assert(text.take(len) =~= text);
}

/// The first `count` lines of a wrapped text, written one after the other,
/// are the text up to where the `count`-th line ends.
proof fn lemma_joined_prefix(text: Seq<char>, per_line: int, count: int)
    requires
        1 <= per_line,
        0 <= count <= wrapped(text, per_line).len(),
    ensures
        joined(wrapped(text, per_line).take(count)) == text.take(
            if count * per_line <= text.len() {
                count * per_line
            } else {
                text.len() as int
            },
        ),
    decreases count,
{
    let lines = wrapped(text, per_line);
    let len = text.len() as int;
    lemma_line_count_bounds(len, per_line);
    if count == 0 {
        assert(lines.take(0).len() == 0);
        assert(0 * per_line == 0);
        assert(text.take(0) =~= Seq::<char>::empty());
    } else {
        lemma_joined_prefix(text, per_line, count - 1);
        let head = lines.take(count);
        assert(head.drop_last() =~= lines.take(count - 1));
        assert(head.last() == wrapped_line(text, per_line, count - 1));
        assert((count - 1) * per_line + per_line == count * per_line) by (nonlinear_arith);
        let start = (count - 1) * per_line;
        assert(0 <= start) by (nonlinear_arith)
            requires
                start == (count - 1) * per_line,
                count >= 1,
                per_line >= 1,
        ;
        assert(start <= len) by {
            let c = line_count(len, per_line);
            assert((count - 1) * per_line <= (c - 1) * per_line) by (nonlinear_arith)
                requires
                    count <= c,
                    per_line >= 1,
            ;
        }
        let end = if start + per_line <= len {
            start + per_line
        } else {
            len
        };
        assert(text.take(start) + text.subrange(start, end) =~= text.take(end));
    }
}

} // verus!
