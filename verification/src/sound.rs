//! The buffer stays in order: whatever the editing commands make of a buffer
//! whose cursor and anchor lie in the text and whose lines hold no line feed
//! is such a buffer again.

use vstd::prelude::*;
use crate::buffer::fresh;
use crate::buffer::in_text;
use crate::buffer::precedes;
use crate::buffer::BufferView;
use crate::text::all_unbroken;
use crate::text::unbroken;
use crate::buffer::Motion;

verus! {

/// A buffer made from lines without line feeds is in order.
pub proof fn lemma_fresh_sound(lines: Seq<Seq<char>>)
    requires
        all_unbroken(lines),
    ensures
        fresh(lines).sound(),
{
}

/// A motion that is no word motion keeps the buffer in order, and so does a
/// word motion that leads to a place in the text.
pub proof fn lemma_moved_sound(v: BufferView, motion: Motion, word: (nat, nat))
    requires
        v.sound(),
        in_text(v.lines, word),
    ensures
        v.moved_to(motion, word).sound(),
{
}

/// What is selected lies between two places in the text.
pub proof fn lemma_span(v: BufferView)
    requires
        v.sound(),
    ensures
        v.span() matches Some((from, to)) ==> in_text(v.lines, from) && in_text(v.lines, to)
            && precedes(from, to),
{
}

/// The text between two places holds no line feed.
pub proof fn lemma_between_unbroken(v: BufferView, from: (nat, nat), to: (nat, nat))
    requires
        v.sound(),
        in_text(v.lines, from),
        in_text(v.lines, to),
        from == to || precedes(from, to),
    ensures
        v.between(from, to).len() > 0,
        all_unbroken(v.between(from, to)),
        v.yanked(from, to).sound(),
{
}

/// Taking out the text between two places keeps the buffer in order.
pub proof fn lemma_without_sound(v: BufferView, from: (nat, nat), to: (nat, nat))
    requires
        v.sound(),
        in_text(v.lines, from),
        in_text(v.lines, to),
        from == to || precedes(from, to),
    ensures
        v.without(from, to).sound(),
{
}

/// Dropping the selection, cutting and copying keep the buffer in order.
pub proof fn lemma_selection_sound(v: BufferView)
    requires
        v.sound(),
    ensures
        v.unselected().sound(),
        v.selecting().sound(),
        v.cleared().sound(),
        v.cut().sound(),
        v.copied().sound(),
{
    lemma_span(v);
    if let Some((from, to)) = v.span() {
        lemma_without_sound(v, from, to);
        lemma_between_unbroken(v, from, to);
        lemma_without_sound(v.yanked(from, to), from, to);
    }
}

/// An edit that first takes out what is selected keeps the buffer in order
/// if what it does otherwise keeps it so.
pub proof fn lemma_edited_sound(v: BufferView, otherwise: BufferView)
    requires
        v.sound(),
        otherwise.sound(),
    ensures
        v.edited(otherwise).sound(),
{
    lemma_selection_sound(v);
    lemma_selection_sound(otherwise);
}

/// Where nothing is selected, breaking a line and typing a character that
/// is no line feed keep the buffer in order.
pub proof fn lemma_typing_sound(v: BufferView, c: char)
    requires
        v.sound(),
        v.anchor is None,
        c != '\n',
    ensures
        v.line_broken().sound(),
        v.typed(c).sound(),
{
    let (row, col) = v.cursor;
    let broken = v.line_broken().lines;
    assert forall|i: int| 0 <= i < broken.len() implies unbroken(#[trigger] broken[i]) by {
        if i < row {
            assert(broken[i] == v.lines[i]);
        } else if i == row {
            assert(broken[i] == v.line(row).take(col as int));
        } else if i == row + 1 {
            assert(broken[i] == v.line(row).skip(col as int));
        } else {
            assert(broken[i] == v.lines[i - 1]);
        }
    }
}

/// Where nothing is selected, pasting keeps the buffer in order.
pub proof fn lemma_pasted_sound(v: BufferView)
    requires
        v.sound(),
        v.anchor is None,
    ensures
        v.pasted().sound(),
{
    let (row, col) = v.cursor;
    let head = v.line(row).take(col as int);
    let tail = v.line(row).skip(col as int);
    let first = v.yank.first();
    let last = v.yank.last();
    let count = v.yank.len() as int;
    let pasted = v.pasted().lines;
    assert(unbroken(first));
    assert(unbroken(last));
    if count > 1 {
        assert forall|i: int| 0 <= i < pasted.len() implies unbroken(#[trigger] pasted[i]) by {
            if i < row {
                assert(pasted[i] == v.lines[i]);
            } else if i == row {
                assert(pasted[i] == head + first);
            } else if i < row + count - 1 {
                assert(pasted[i] == v.yank[i - row]);
            } else if i == row + count - 1 {
                assert(pasted[i] == last + tail);
            } else {
                assert(pasted[i] == v.lines[i - count + 1]);
            }
        }
        assert(pasted[row + count - 1] == last + tail);
    }
}

/// Joining lines and deleting characters keep the buffer in order.
pub proof fn lemma_deleting_sound(v: BufferView)
    requires
        v.sound(),
    ensures
        v.line_joined().sound(),
        v.next_char_deleted().sound(),
        v.line_end_deleted().sound(),
{
    let (row, col) = v.cursor;
    let end = (row, v.line(row).len());
    if row > 0 {
        lemma_without_sound(v, ((row - 1) as nat, v.line((row - 1) as nat).len()), (row, 0));
    }
    if col < v.line(row).len() {
        lemma_without_sound(v, (row, col), (row, col + 1));
        lemma_between_unbroken(v, (row, col), end);
        lemma_without_sound(v.yanked((row, col), end), (row, col), end);
    } else if row + 1 < v.lines.len() {
        lemma_without_sound(v, end, (row + 1, 0));
    }
}

/// Deleting a piece of the cursor's line that ends in the line keeps the
/// buffer in order.
pub proof fn lemma_piece_deleted_sound(v: BufferView, from: nat, to: nat)
    requires
        v.sound(),
        to <= v.line(v.cursor.0).len(),
    ensures
        v.piece_deleted(from, to).sound(),
{
    let row = v.cursor.0;
    if from < to {
        lemma_between_unbroken(v, (row, from), (row, to));
        lemma_without_sound(v.yanked((row, from), (row, to)), (row, from), (row, to));
    }
}

/// Deleting the word before the cursor keeps the buffer in order, wherever
/// the word starts.
pub proof fn lemma_word_deleted_sound(v: BufferView, start: Option<nat>)
    requires
        v.sound(),
    ensures
        v.word_deleted(start).sound(),
        v.edited(v.word_deleted(start)).sound(),
{
    lemma_deleting_sound(v);
    match start {
        Some(from) => lemma_piece_deleted_sound(v, from, v.cursor.1),
        None => lemma_piece_deleted_sound(v, 0, v.cursor.1),
    }
    lemma_edited_sound(v, v.word_deleted(start));
}

/// Deleting the word at the cursor keeps the buffer in order, where the word
/// ends in the line.
pub proof fn lemma_next_word_deleted_sound(v: BufferView, end: Option<nat>)
    requires
        v.sound(),
        end matches Some(to) ==> to <= v.line(v.cursor.0).len(),
    ensures
        v.next_word_deleted(end).sound(),
        v.edited(v.next_word_deleted(end)).sound(),
{
    lemma_deleting_sound(v);
    if let Some(to) = end {
        lemma_piece_deleted_sound(v, v.cursor.1, to);
    }
    lemma_edited_sound(v, v.next_word_deleted(end));
}

/// Putting a line without line feed in the cursor's row of a buffer made
/// anew keeps the buffer in order.
pub proof fn lemma_rebuilt_sound(v: BufferView, line: Seq<char>)
    requires
        v.sound(),
        unbroken(line),
    ensures
        v.rebuilt(line).sound(),
{
}

/// Deleting the cursor's line keeps the buffer in order.
pub proof fn lemma_line_deleted_sound(v: BufferView)
    requires
        v.sound(),
    ensures
        v.line_deleted().sound(),
{
}

} // verus!
