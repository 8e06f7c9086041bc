//! Texts as lines and words: cutting a text at its line breaks, joining
//! lines back into a text, and cutting a line at its white space.

use crate::text_wrap::lines_view;
use vstd::prelude::*;
use vstd::string::*;

verus! {

/// The character that ends a line.
pub open spec fn line_break() -> char {
    '\n'
}

/// Whether `char::is_whitespace` holds of `c`: whether Unicode gives it the
/// property `White_Space`.
pub uninterp spec fn white_space(c: char) -> bool;

/// `char::is_whitespace` decides the Unicode property `White_Space`, a
/// matter of the character alone.
pub assume_specification[ char::is_whitespace ](c: char) -> (space: bool)
    ensures
        space == white_space(c),
;

/// The pieces of `text` between occurrences of `separator`. A text without
/// one is a single piece; a separator at either end leaves an empty piece
/// there.
pub open spec fn split_on(text: Seq<char>, separator: char) -> Seq<Seq<char>>
    decreases text.len(),
{
    if text.len() == 0 {
        seq![Seq::empty()]
    } else {
        let before = split_on(text.drop_last(), separator);
        if text.last() == separator {
            before.push(Seq::empty())
        } else {
            before.drop_last().push(before.last().push(text.last()))
        }
    }
}

/// The pieces written one after the other with `separator` between each two.
pub open spec fn joined_with(pieces: Seq<Seq<char>>, separator: Seq<char>) -> Seq<char>
    decreases pieces.len(),
{
    if pieces.len() == 0 {
        Seq::empty()
    } else if pieces.len() == 1 {
        pieces[0]
    } else {
        joined_with(pieces.drop_last(), separator) + separator + pieces.last()
    }
}

/// The words of `text`: its longest runs of characters that are not white
/// space, in order. `pending` is the run that the end of the text closes.
pub open spec fn words_before(text: Seq<char>) -> (Seq<Seq<char>>, Seq<char>)
    decreases text.len(),
{
    if text.len() == 0 {
        (Seq::empty(), Seq::empty())
    } else {
        let (words, pending) = words_before(text.drop_last());
        if white_space(text.last()) {
            if pending.len() == 0 {
                (words, pending)
            } else {
                (words.push(pending), Seq::empty())
            }
        } else {
            (words, pending.push(text.last()))
        }
    }
}

/// The words of `text`: its longest runs of characters that are not white
/// space, in order. None of them is empty.
pub open spec fn words_of(text: Seq<char>) -> Seq<Seq<char>> {
    let (words, pending) = words_before(text);
    if pending.len() == 0 {
        words
    } else {
        words.push(pending)
    }
}

/// `text` with every `from` replaced by `to`.
pub open spec fn replaced(text: Seq<char>, from: char, to: char) -> Seq<char> {
    Seq::new(
        text.len(),
        |index: int|
            if text[index] == from {
                to
            } else {
                text[index]
            },
    )
}

/// Splitting never gives nothing, and no piece holds the separator.
pub proof fn lemma_split_pieces(text: Seq<char>, separator: char)
    ensures
        split_on(text, separator).len() >= 1,
        forall|index: int, at: int|
            0 <= index < split_on(text, separator).len() && 0 <= at < split_on(
                text,
                separator,
            )[index].len() ==> #[trigger] split_on(text, separator)[index][at] != separator,
    decreases text.len(),
{
    if text.len() > 0 {
        lemma_split_pieces(text.drop_last(), separator);
    }
}

/// Every one of `words` is a run of characters that are not white space,
/// and not an empty one.
pub open spec fn solid(words: Seq<Seq<char>>) -> bool {
    forall|index: int|
        0 <= index < words.len() ==> (#[trigger] words[index]).len() > 0 && spaceless(
            words[index],
        )
}

/// No character of `word` is white space.
pub open spec fn spaceless(word: Seq<char>) -> bool {
    forall|at: int| 0 <= at < word.len() ==> !white_space(#[trigger] word[at])
}

/// No word is empty, and no word holds white space.
pub proof fn lemma_words_are_solid(text: Seq<char>)
    ensures
        solid(words_of(text)),
{
    lemma_words_before_are_solid(text);
    let (words, pending) = words_before(text);
    if pending.len() > 0 {
        let all = words.push(pending);
        assert forall|index: int| 0 <= index < all.len() implies (#[trigger] all[index]).len() > 0
            && spaceless(all[index]) by {
            if index < words.len() {
                assert(all[index] == words[index]);
            } else {
                assert(all[index] == pending);
            }
        }
    }
}

/// The words closed so far are not empty and hold no white space, and the
/// word still open holds none either.
proof fn lemma_words_before_are_solid(text: Seq<char>)
    ensures
        solid(words_before(text).0),
        spaceless(words_before(text).1),
    decreases text.len(),
{
    if text.len() > 0 {
        lemma_words_before_are_solid(text.drop_last());
        let (words, pending) = words_before(text.drop_last());
        if white_space(text.last()) {
            if pending.len() > 0 {
                let closed = words.push(pending);
                assert forall|index: int| 0 <= index < closed.len() implies (#[trigger] closed[index]).len()
                    > 0 && spaceless(closed[index]) by {
                    if index < words.len() {
                        assert(closed[index] == words[index]);
                    } else {
                        assert(closed[index] == pending);
                    }
                }
            }
        } else {
            let grown = pending.push(text.last());
            assert forall|at: int| 0 <= at < grown.len() implies !white_space(
                #[trigger] grown[at],
            ) by {
                if at < pending.len() {
                    assert(grown[at] == pending[at]);
                }
            }
        }
    }
}

/// Joining what splitting gave restores the text.
pub proof fn lemma_join_split(text: Seq<char>, separator: char)
    ensures
        joined_with(split_on(text, separator), seq![separator]) == text,
    decreases text.len(),
{
    let between = seq![separator];
    if text.len() == 0 {
        assert(joined_with(split_on(text, separator), between) =~= text);
    } else {
        let shorter = text.drop_last();
        let before = split_on(shorter, separator);
        lemma_join_split(shorter, separator);
        lemma_split_pieces(shorter, separator);
        if text.last() == separator {
            let after = before.push(Seq::empty());
            assert(after.drop_last() =~= before);
            assert(joined_with(after, between) =~= shorter.push(separator));
            assert(shorter.push(separator) =~= text);
        } else {
            let grown = before.last().push(text.last());
            let after = before.drop_last().push(grown);
            assert(after.drop_last() =~= before.drop_last());
            if before.len() == 1 {
                assert(joined_with(before, between) == before[0]);
                assert(joined_with(after, between) == grown);
                assert(grown =~= shorter.push(text.last()));
            } else {
                assert(joined_with(after, between) =~= (joined_with(before.drop_last(), between)
                    + between + before.last()).push(text.last()));
            }
            assert(shorter.push(text.last()) =~= text);
        }
    }
}

/// Joining the pieces between one character with another character
/// replaces the one by the other and leaves the rest.
pub proof fn lemma_join_split_replaces(text: Seq<char>, from: char, to: char)
    ensures
        joined_with(split_on(text, from), seq![to]) == replaced(text, from, to),
    decreases text.len(),
{
    let between = seq![to];
    if text.len() == 0 {
        assert(joined_with(split_on(text, from), between) =~= replaced(text, from, to));
    } else {
        let shorter = text.drop_last();
        let before = split_on(shorter, from);
        lemma_join_split_replaces(shorter, from, to);
        lemma_split_pieces(shorter, from);
        if text.last() == from {
            let after = before.push(Seq::empty());
            assert(after.drop_last() =~= before);
            assert(joined_with(after, between) =~= replaced(shorter, from, to).push(to));
            assert(replaced(shorter, from, to).push(to) =~= replaced(text, from, to));
        } else {
            let grown = before.last().push(text.last());
            let after = before.drop_last().push(grown);
            assert(after.drop_last() =~= before.drop_last());
            if before.len() == 1 {
                assert(joined_with(before, between) == before[0]);
                assert(joined_with(after, between) == grown);
            } else {
                assert(joined_with(after, between) =~= (joined_with(before.drop_last(), between)
                    + between + before.last()).push(text.last()));
            }
            assert(replaced(shorter, from, to).push(text.last()) =~= replaced(text, from, to));
        }
    }
}

/// Splitting what joining gave restores the pieces, where no piece holds
/// the separator and there is at least one piece.
pub proof fn lemma_split_join(pieces: Seq<Seq<char>>, separator: char)
    requires
        pieces.len() >= 1,
        forall|index: int, at: int|
            0 <= index < pieces.len() && 0 <= at < pieces[index].len()
                ==> #[trigger] pieces[index][at] != separator,
    ensures
        split_on(joined_with(pieces, seq![separator]), separator) == pieces,
    decreases pieces.len(),
{
    let between = seq![separator];
    if pieces.len() == 1 {
        lemma_split_clean(pieces[0], separator);
        assert(seq![pieces[0]] =~= pieces);
    } else {
        let front = pieces.drop_last();
        lemma_split_join(front, separator);
        let head = joined_with(front, between) + between;
        assert(head.drop_last() =~= joined_with(front, between));
        assert(head.last() == separator);
        assert(split_on(head, separator) == front.push(Seq::empty()));
        lemma_split_append(head, pieces.last(), separator);
        assert(front.push(Seq::<char>::empty()).drop_last() =~= front);
        assert(Seq::<char>::empty() + pieces.last() =~= pieces.last());
        assert(front.push(pieces.last()) =~= pieces);
    }
}

/// A text without the separator is its own single piece.
proof fn lemma_split_clean(text: Seq<char>, separator: char)
    requires
        forall|at: int| 0 <= at < text.len() ==> text[at] != separator,
    ensures
        split_on(text, separator) == seq![text],
    decreases text.len(),
{
    if text.len() == 0 {
        assert(text =~= Seq::<char>::empty());
    } else {
        lemma_split_clean(text.drop_last(), separator);
        let before = split_on(text.drop_last(), separator);
        assert(before.drop_last().push(before.last().push(text.last())) =~= seq![text]) by {
            assert(text.drop_last().push(text.last()) =~= text);
        }
    }
}

/// Text without the separator, put behind a text, only lengthens that
/// text's last piece.
proof fn lemma_split_append(head: Seq<char>, tail: Seq<char>, separator: char)
    requires
        forall|at: int| 0 <= at < tail.len() ==> tail[at] != separator,
    ensures
        split_on(head + tail, separator) == split_on(head, separator).drop_last().push(
            split_on(head, separator).last() + tail,
        ),
    decreases tail.len(),
{
    let pieces = split_on(head, separator);
    lemma_split_pieces(head, separator);
    if tail.len() == 0 {
        assert(head + tail =~= head);
        assert(pieces.last() + tail =~= pieces.last());
        assert(pieces.drop_last().push(pieces.last()) =~= pieces);
    } else {
        let shorter = tail.drop_last();
        lemma_split_append(head, shorter, separator);
        assert((head + tail).drop_last() =~= head + shorter);
        assert((head + tail).last() == tail.last());
        let before = split_on(head + shorter, separator);
        assert(before.last() == pieces.last() + shorter);
        assert(before.drop_last() =~= pieces.drop_last());
        assert((pieces.last() + shorter).push(tail.last()) =~= pieces.last() + tail);
    }
}

/// Cuts `text` at each line break.
pub fn split_lines(text: &str) -> (lines: Vec<String>)
    ensures
        lines_view(lines@) == split_on(text@, line_break()),
        lines@.len() >= 1,
        joined_with(lines_view(lines@), seq![line_break()]) == text@,
{
    proof {
        lemma_join_split(text@, line_break());
    }
    split_text(text, '\n')
}

/// Cuts `text` at each occurrence of `separator`.
pub fn split_text(text: &str, separator: char) -> (pieces: Vec<String>)
    ensures
        lines_view(pieces@) == split_on(text@, separator),
        pieces@.len() >= 1,
        joined_with(lines_view(pieces@), seq![separator]) == text@,
{
    proof {
        lemma_join_split(text@, separator);
    }
    let len = text.unicode_len();
    let mut pieces: Vec<String> = Vec::new();
    let mut start: usize = 0;
    let mut at: usize = 0;
    assert(text@.take(0) =~= Seq::<char>::empty());
    assert(lines_view(pieces@).push(text@.subrange(0, 0)) =~= split_on(text@.take(0), separator));
    for c in it: text.chars()
        invariant
            it.seq() == text@,
            len == text@.len(),
            at == it.index(),
            start <= at <= len,
            split_on(text@.take(at as int), separator) == lines_view(pieces@).push(
                text@.subrange(start as int, at as int),
            ),
    {
        proof {
            assert(text@.take(at + 1).drop_last() =~= text@.take(at as int));
            assert(text@.take(at + 1).last() == c);
        }
        if c == separator {
            let piece = text.substring_char(start, at);
            let ghost before = lines_view(pieces@);
            pieces.push(String::from_str(piece));
            start = at + 1;
            proof {
                assert(lines_view(pieces@) =~= before.push(piece@));
                assert(text@.subrange(start as int, at + 1) =~= Seq::<char>::empty());
            }
        } else {
            proof {
                let before = lines_view(pieces@).push(text@.subrange(start as int, at as int));
                assert(before.drop_last() =~= lines_view(pieces@));
                assert(text@.subrange(start as int, at as int).push(c) =~= text@.subrange(
                    start as int,
                    at + 1,
                ));
            }
        }
        at = at + 1;
    }
    let piece = text.substring_char(start, len);
    let ghost before = lines_view(pieces@);
    pieces.push(String::from_str(piece));
    proof {
        assert(text@.take(len as int) =~= text@);
        assert(lines_view(pieces@) =~= before.push(piece@));
    }
    pieces
}

/// Writes `lines` one after the other with a line break between each two.
pub fn join_lines(lines: &Vec<String>) -> (text: String)
    ensures
        text@ == joined_with(lines_view(lines@), seq![line_break()]),
{
    proof {
        reveal_strlit("\n");
        assert("\n"@ =~= seq![line_break()]);
    }
    join_text(lines, "\n")
}

/// Writes `pieces` one after the other with `separator` between each two.
pub fn join_text(pieces: &Vec<String>, separator: &str) -> (text: String)
    ensures
        text@ == joined_with(lines_view(pieces@), separator@),
{
    let mut text = String::new();
    let mut index: usize = 0;
    assert(lines_view(pieces@).take(0) =~= Seq::<Seq<char>>::empty());
    while index < pieces.len()
        invariant
            index <= pieces@.len(),
            text@ == joined_with(lines_view(pieces@).take(index as int), separator@),
        decreases pieces@.len() - index,
    {
        let ghost so_far = lines_view(pieces@).take(index as int);
        let ghost next = lines_view(pieces@).take(index + 1);
        proof {
            assert(next.drop_last() =~= so_far);
            assert(next.last() == pieces@[index as int]@);
        }
        if index > 0 {
            text.append(separator);
        } else {
            assert(joined_with(so_far, separator@) =~= Seq::<char>::empty());
            assert(Seq::<char>::empty() + pieces@[index as int]@ =~= pieces@[index as int]@);
        }
        text.append(pieces[index].as_str());
        index = index + 1;
    }
    assert(lines_view(pieces@).take(pieces@.len() as int) =~= lines_view(pieces@));
    text
}

/// A path as the platform writes it: with `\\` between its parts where
/// `windows` holds, with `/` everywhere else.
pub fn normalize_separators(path: &str, windows: bool) -> (out: String)
    ensures
        out@ == if windows {
            replaced(path@, '/', '\\')
        } else {
            replaced(path@, '\\', '/')
        },
{
    proof {
        reveal_strlit("/");
        reveal_strlit("\\");
        assert("/"@ =~= seq!['/']);
        assert("\\"@ =~= seq!['\\']);
        lemma_join_split_replaces(path@, '/', '\\');
        lemma_join_split_replaces(path@, '\\', '/');
    }
    if windows {
        join_text(&split_text(path, '/'), "\\")
    } else {
        join_text(&split_text(path, '\\'), "/")
    }
}

/// Cuts `text` into its words: the runs of characters between white space.
pub fn split_words(text: &str) -> (words: Vec<String>)
    ensures
        lines_view(words@) == words_of(text@),
        solid(lines_view(words@)),
{
    proof {
        lemma_words_are_solid(text@);
    }
    let len = text.unicode_len();
    let mut words: Vec<String> = Vec::new();
    let mut start: usize = 0;
    let mut at: usize = 0;
    assert(text@.take(0) =~= Seq::<char>::empty());
    assert(lines_view(words@) =~= Seq::<Seq<char>>::empty());
    assert(text@.subrange(0, 0) =~= Seq::<char>::empty());
    for c in it: text.chars()
        invariant
            it.seq() == text@,
            len == text@.len(),
            at == it.index(),
            start <= at <= len,
            words_before(text@.take(at as int)) == (
                lines_view(words@),
                text@.subrange(start as int, at as int),
            ),
    {
        proof {
            assert(text@.take(at + 1).drop_last() =~= text@.take(at as int));
            assert(text@.take(at + 1).last() == c);
        }
        if c.is_whitespace() {
            if start < at {
                let word = text.substring_char(start, at);
                let ghost before = lines_view(words@);
                words.push(String::from_str(word));
                proof {
                    assert(lines_view(words@) =~= before.push(word@));
                }
            }
            start = at + 1;
            proof {
                assert(text@.subrange(start as int, at + 1) =~= Seq::<char>::empty());
                assert(text@.subrange(at as int, at as int) =~= Seq::<char>::empty());
            }
        } else {
            proof {
                assert(text@.subrange(start as int, at as int).push(c) =~= text@.subrange(
                    start as int,
                    at + 1,
                ));
            }
        }
        at = at + 1;
    }
    proof {
        assert(text@.take(len as int) =~= text@);
    }
    if start < len {
        let word = text.substring_char(start, len);
        let ghost before = lines_view(words@);
        words.push(String::from_str(word));
        proof {
            assert(lines_view(words@) =~= before.push(word@));
        }
    }
    words
}

} // verus!
