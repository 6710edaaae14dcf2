//! The editable text buffer and the operations the dispatcher drives on it.

use vstd::prelude::*;
use tui_textarea::CursorMove;
use tui_textarea::Input as AreaInput;
use tui_textarea::Key as AreaKey;
use tui_textarea::TextArea;
use crate::key::Input;
use crate::key::Key;
use crate::sound::lemma_fresh_sound;
use crate::text::all_unbroken;
use crate::text::joined;

verus! {

/// The editable text buffer: lines of text, a cursor, a selection anchor, one
/// clipboard slot and an undo history, all kept by a `tui_textarea::TextArea`.
#[verifier::external_body]
pub struct TextBuffer {
    area: TextArea<'static>,
}

/// The lines that the buffer holds, first line first.
pub uninterp spec fn buffer_lines(buffer: TextBuffer) -> Seq<Seq<char>>;

/// The cursor of the buffer: its row, then its column counted in characters.
pub uninterp spec fn buffer_cursor(buffer: TextBuffer) -> (nat, nat);

/// Where the selection of the buffer started, if one is under way.
pub uninterp spec fn buffer_anchor(buffer: TextBuffer) -> Option<(nat, nat)>;

/// The clipboard of the buffer: the lines of the text last cut or copied. It
/// holds one line at least, which may be empty.
pub uninterp spec fn buffer_yank(buffer: TextBuffer) -> Seq<Seq<char>>;

/// The steps that undo can take back, the latest last: for each, the text and
/// the cursor that taking it back restores.
pub uninterp spec fn buffer_undo(buffer: TextBuffer) -> Seq<(Seq<Seq<char>>, (nat, nat))>;

/// The steps that redo can do again, the next one last: for each, the text
/// and the cursor that doing it again restores.
pub uninterp spec fn buffer_redo(buffer: TextBuffer) -> Seq<(Seq<Seq<char>>, (nat, nat))>;

/// Where a word motion takes the cursor from row `row` and column `col`.
pub uninterp spec fn word_target(lines: Seq<Seq<char>>, row: nat, col: nat, motion: Motion) -> (
    nat,
    nat,
);

/// The column at which the word before column `col` of `line` starts, if the
/// buffer finds one.
pub uninterp spec fn word_start_before(line: Seq<char>, col: nat) -> Option<nat>;

/// The column behind the end of the word at column `col` of `line`, if the
/// buffer finds one.
pub uninterp spec fn word_end_after(line: Seq<char>, col: nat) -> Option<nat>;

/// A way to move the cursor.
#[derive(Clone, Copy, Debug, PartialEq, Eq, Structural)]
pub enum Motion {
    /// One character on; from the end of a line to the head of the next.
    Forward,
    /// One character back; from the head of a line to the end of the one before.
    Back,
    /// One line up, the column kept as far as the line reaches.
    Up,
    /// One line down, the column kept as far as the line reaches.
    Down,
    /// To the head of the line.
    Head,
    /// To the end of the line.
    End,
    /// To the first line.
    Top,
    /// To the last line.
    Bottom,
    /// To the start of the next word.
    WordForward,
    /// To the end of the word.
    WordEnd,
    /// To the start of the word before.
    WordBack,
    /// To the given row and column, as far as the text reaches.
    Jump(u16, u16),
}

/// What a contract sees of a buffer.
pub struct BufferView {
    pub lines: Seq<Seq<char>>,
    pub cursor: (nat, nat),
    pub anchor: Option<(nat, nat)>,
    pub yank: Seq<Seq<char>>,
}

impl View for TextBuffer {
    type V = BufferView;

    open spec fn view(&self) -> BufferView {
        BufferView {
            lines: buffer_lines(*self),
            cursor: buffer_cursor(*self),
            anchor: buffer_anchor(*self),
            yank: buffer_yank(*self),
        }
    }
}

/// What a contract sees of a buffer's history of edits.
pub struct History {
    /// The steps that undo can take back, the latest last.
    pub undo: Seq<(Seq<Seq<char>>, (nat, nat))>,
    /// The steps that redo can do again, the next one last.
    pub redo: Seq<(Seq<Seq<char>>, (nat, nat))>,
}

impl History {
    /// The history without a step.
    pub open spec fn empty() -> History {
        History { undo: Seq::empty(), redo: Seq::empty() }
    }

    /// `after` is this history after one step went from `from` to `to`,
    /// out of a buffer that held `lines`: the step is gone from `from`, and
    /// `to` has got the step that brings `lines` back.
    pub open spec fn shifted(
        from: Seq<(Seq<Seq<char>>, (nat, nat))>,
        to: Seq<(Seq<Seq<char>>, (nat, nat))>,
        lines: Seq<Seq<char>>,
        from_after: Seq<(Seq<Seq<char>>, (nat, nat))>,
        to_after: Seq<(Seq<Seq<char>>, (nat, nat))>,
    ) -> bool {
        if from.len() == 0 {
            from_after == from && to_after == to
        } else {
            &&& from_after == from.drop_last()
            &&& to_after.len() == to.len() + 1
            &&& to_after.drop_last() == to
            &&& to_after.last().0 == lines
        }
    }

    /// `after` is this history after an undo in a buffer that held `lines`.
    pub open spec fn undone(self, lines: Seq<Seq<char>>, after: History) -> bool {
        History::shifted(self.undo, self.redo, lines, after.undo, after.redo)
    }

    /// `after` is this history after a redo in a buffer that held `lines`.
    pub open spec fn redone(self, lines: Seq<Seq<char>>, after: History) -> bool {
        History::shifted(self.redo, self.undo, lines, after.redo, after.undo)
    }
}

/// `a` lies before `b` in the text.
pub open spec fn precedes(a: (nat, nat), b: (nat, nat)) -> bool {
    a.0 < b.0 || (a.0 == b.0 && a.1 < b.1)
}

/// The smaller of two numbers.
pub open spec fn least(a: nat, b: nat) -> nat {
    if a <= b {
        a
    } else {
        b
    }
}

/// `at` is a place in the text `lines`: a row of it, and a column in that
/// row or just behind its end.
pub open spec fn in_text(lines: Seq<Seq<char>>, at: (nat, nat)) -> bool {
    at.0 < lines.len() && at.1 <= lines[at.0 as int].len()
}

/// The buffer made from `lines`: an empty line if there are none, the cursor
/// at the start, nothing selected, the clipboard empty.
pub open spec fn fresh(lines: Seq<Seq<char>>) -> BufferView {
    BufferView {
        lines: if lines.len() == 0 {
            seq![Seq::<char>::empty()]
        } else {
            lines
        },
        cursor: (0, 0),
        anchor: None,
        yank: seq![Seq::<char>::empty()],
    }
}

impl BufferView {
    /// The buffer is in order: cursor and anchor are places in the text, the
    /// clipboard holds a line, and no line of the text or of the clipboard
    /// holds a line feed.
    pub open spec fn sound(self) -> bool {
        &&& in_text(self.lines, self.cursor)
        &&& self.anchor matches Some(anchor) ==> in_text(self.lines, anchor)
        &&& self.yank.len() > 0
        &&& all_unbroken(self.lines)
        &&& all_unbroken(self.yank)
    }

    /// The buffer after the last of `steps` was taken: it holds the text and
    /// the cursor of that step and has no selection. Without a step nothing
    /// changes.
    pub open spec fn stepped(self, steps: Seq<(Seq<Seq<char>>, (nat, nat))>) -> BufferView {
        if steps.len() == 0 {
            self
        } else {
            BufferView { lines: steps.last().0, cursor: steps.last().1, anchor: None, ..self }
        }
    }

    /// The line at `row`.
    pub open spec fn line(self, row: nat) -> Seq<char> {
        self.lines[row as int]
    }

    /// The number of the last row.
    pub open spec fn last_row(self) -> nat {
        (self.lines.len() - 1) as nat
    }

    /// This buffer with the cursor at `cursor`.
    pub open spec fn at(self, cursor: (nat, nat)) -> BufferView {
        BufferView { cursor, ..self }
    }

    /// This buffer with the cursor in `row`, its column kept as far as that
    /// line reaches.
    pub open spec fn at_row(self, row: nat) -> BufferView {
        self.at((row, least(self.cursor.1, self.line(row).len())))
    }

    /// This buffer with nothing selected.
    pub open spec fn unselected(self) -> BufferView {
        BufferView { anchor: None, ..self }
    }

    /// The selected stretch of text, from its start to its end: it lies
    /// between the anchor and the cursor, and is none where the two meet.
    pub open spec fn span(self) -> Option<((nat, nat), (nat, nat))> {
        match self.anchor {
            Some(anchor) => if precedes(anchor, self.cursor) {
                Some((anchor, self.cursor))
            } else if precedes(self.cursor, anchor) {
                Some((self.cursor, anchor))
            } else {
                None
            },
            None => None,
        }
    }

    /// The anchor and the cursor, the earlier of the two first, while a
    /// selection is under way.
    pub open spec fn stretch(self) -> Option<((nat, nat), (nat, nat))> {
        match self.anchor {
            Some(anchor) => if precedes(self.cursor, anchor) {
                Some((self.cursor, anchor))
            } else {
                Some((anchor, self.cursor))
            },
            None => None,
        }
    }

    /// The buffer after the cursor moved; text and selection anchor stay.
    pub open spec fn moved(self, motion: Motion) -> BufferView {
        self.moved_to(motion, word_target(self.lines, self.cursor.0, self.cursor.1, motion))
    }

    /// The buffer after the cursor moved, where a word motion leads to `word`.
    pub open spec fn moved_to(self, motion: Motion, word: (nat, nat)) -> BufferView {
        let (row, col) = self.cursor;
        match motion {
            Motion::Forward => if col < self.line(row).len() {
                self.at((row, col + 1))
            } else if row + 1 < self.lines.len() {
                self.at((row + 1, 0))
            } else {
                self
            },
            Motion::Back => if col > 0 {
                self.at((row, (col - 1) as nat))
            } else if row > 0 {
                self.at(((row - 1) as nat, self.line((row - 1) as nat).len()))
            } else {
                self
            },
            Motion::Up => if row > 0 {
                self.at_row((row - 1) as nat)
            } else {
                self
            },
            Motion::Down => if row + 1 < self.lines.len() {
                self.at_row(row + 1)
            } else {
                self
            },
            Motion::Head => self.at((row, 0)),
            Motion::End => self.at((row, self.line(row).len())),
            Motion::Top => self.at_row(0),
            Motion::Bottom => self.at_row(self.last_row()),
            Motion::Jump(r, c) => {
                let target = least(r as nat, self.last_row());
                self.at((target, least(c as nat, self.line(target).len())))
            },
            _ => self.at(word),
        }
    }

    /// The buffer without the text between `from` and `to`: the cursor stands
    /// where the text was, and nothing is selected.
    pub open spec fn without(self, from: (nat, nat), to: (nat, nat)) -> BufferView {
        BufferView {
            lines: self.lines.take(from.0 as int) + seq![
                self.line(from.0).take(from.1 as int) + self.line(to.0).skip(to.1 as int),
            ] + self.lines.skip(to.0 as int + 1),
            cursor: from,
            anchor: None,
            ..self
        }
    }

    /// The text between `from` and `to`, line by line.
    pub open spec fn between(self, from: (nat, nat), to: (nat, nat)) -> Seq<Seq<char>> {
        if from.0 == to.0 {
            seq![self.line(from.0).subrange(from.1 as int, to.1 as int)]
        } else {
            seq![self.line(from.0).skip(from.1 as int)] + self.lines.subrange(
                from.0 as int + 1,
                to.0 as int,
            ) + seq![self.line(to.0).take(to.1 as int)]
        }
    }

    /// This buffer with the text between `from` and `to` in the clipboard.
    pub open spec fn yanked(self, from: (nat, nat), to: (nat, nat)) -> BufferView {
        BufferView { yank: self.between(from, to), ..self }
    }

    /// The buffer after a cut: what is selected goes to the clipboard. No
    /// selection is left.
    pub open spec fn cut(self) -> BufferView {
        match self.span() {
            Some((from, to)) => self.yanked(from, to).without(from, to),
            None => self.unselected(),
        }
    }

    /// The buffer after a copy: what is selected is in the clipboard too. No
    /// selection is left.
    pub open spec fn copied(self) -> BufferView {
        match self.span() {
            Some((from, to)) => self.yanked(from, to).unselected(),
            None => self.unselected(),
        }
    }

    /// The text of the clipboard put in at the cursor, which then stands
    /// behind it.
    pub open spec fn pasted(self) -> BufferView {
        let (row, col) = self.cursor;
        let head = self.line(row).take(col as int);
        let tail = self.line(row).skip(col as int);
        let first = self.yank.first();
        let last = self.yank.last();
        if self.yank.len() <= 1 {
            BufferView {
                lines: self.lines.update(row as int, head + first + tail),
                cursor: (row, col + first.len()),
                ..self
            }
        } else {
            BufferView {
                lines: self.lines.take(row as int) + seq![head + first] + self.yank.subrange(
                    1,
                    self.yank.len() - 1,
                ) + seq![last + tail] + self.lines.skip(row as int + 1),
                cursor: ((row + self.yank.len() - 1) as nat, last.len()),
                ..self
            }
        }
    }

    /// The buffer after an edit that removes what is selected and, only if
    /// nothing is, does what `otherwise` says. No selection is left.
    pub open spec fn edited(self, otherwise: BufferView) -> BufferView {
        match self.span() {
            Some((from, to)) => self.without(from, to),
            None => otherwise.unselected(),
        }
    }

    /// The buffer without what is selected, and with no selection left.
    pub open spec fn cleared(self) -> BufferView {
        self.edited(self)
    }

    /// The line under the cursor broken in two at the cursor, which goes to
    /// the head of the second part.
    pub open spec fn line_broken(self) -> BufferView {
        let (row, col) = self.cursor;
        BufferView {
            lines: self.lines.take(row as int) + seq![
                self.line(row).take(col as int),
                self.line(row).skip(col as int),
            ] + self.lines.skip(row as int + 1),
            cursor: (row + 1, 0),
            ..self
        }
    }

    /// The character `c` put in at the cursor, which then stands behind it.
    pub open spec fn typed(self, c: char) -> BufferView {
        let (row, col) = self.cursor;
        BufferView {
            lines: self.lines.update(
                row as int,
                self.line(row).take(col as int).push(c) + self.line(row).skip(col as int),
            ),
            cursor: (row, col + 1),
            ..self
        }
    }

    /// This buffer with a selection that starts at the cursor.
    pub open spec fn selecting(self) -> BufferView {
        BufferView { anchor: Some(self.cursor), ..self }
    }

    /// The line under the cursor joined to the end of the line before, where
    /// the cursor then stands; in the first row nothing changes.
    pub open spec fn line_joined(self) -> BufferView {
        let row = self.cursor.0;
        if row == 0 {
            self
        } else {
            self.without(((row - 1) as nat, self.line((row - 1) as nat).len()), (row, 0))
        }
    }

    /// The character under the cursor removed; at the end of a line the next
    /// line is joined to it; at the end of the text nothing changes.
    pub open spec fn next_char_deleted(self) -> BufferView {
        let (row, col) = self.cursor;
        if col < self.line(row).len() {
            self.without((row, col), (row, col + 1))
        } else if row + 1 < self.lines.len() {
            self.without((row, self.line(row).len()), (row + 1, 0))
        } else {
            self
        }
    }

    /// The cursor's line without its characters from column `from` up to
    /// column `to`, which go to the clipboard; the cursor stands at `from`.
    /// Where there are no such characters nothing changes.
    pub open spec fn piece_deleted(self, from: nat, to: nat) -> BufferView {
        let row = self.cursor.0;
        if from < to && from < self.line(row).len() {
            self.yanked((row, from), (row, to)).without((row, from), (row, to))
        } else {
            self
        }
    }

    /// The word before the cursor moved to the clipboard, where it starts at
    /// `start`; without such a start, the line up to the cursor; and at the
    /// head of a line, as `line_joined`.
    pub open spec fn word_deleted(self, start: Option<nat>) -> BufferView {
        let col = self.cursor.1;
        match start {
            Some(from) => self.piece_deleted(from, col),
            None => if col > 0 {
                self.piece_deleted(0, col)
            } else {
                self.line_joined()
            },
        }
    }

    /// The word at the cursor moved to the clipboard, where it ends before
    /// `end`; without such an end, as `line_end_deleted`.
    pub open spec fn next_word_deleted(self, end: Option<nat>) -> BufferView {
        match end {
            Some(to) => self.piece_deleted(self.cursor.1, to),
            None => self.line_end_deleted(),
        }
    }

    /// The rest of the line from the cursor on moved to the clipboard; at the
    /// end of a line as `next_char_deleted`.
    pub open spec fn line_end_deleted(self) -> BufferView {
        let (row, col) = self.cursor;
        let end = (row, self.line(row).len());
        if col < self.line(row).len() {
            self.yanked((row, col), end).without((row, col), end)
        } else {
            self.next_char_deleted()
        }
    }

    /// The buffer after the word before the cursor was deleted, or what was
    /// selected.
    pub open spec fn word_back_deleted(self) -> BufferView {
        self.edited(
            self.word_deleted(word_start_before(self.line(self.cursor.0), self.cursor.1)),
        )
    }

    /// The buffer after the word at the cursor was deleted, or what was
    /// selected.
    pub open spec fn word_on_deleted(self) -> BufferView {
        self.edited(
            self.next_word_deleted(word_end_after(self.line(self.cursor.0), self.cursor.1)),
        )
    }
}

/// `TextArea::new`: a buffer that holds `lines`, or one empty line if there
/// are none, with the cursor at the start, nothing selected and an empty
/// clipboard and an empty history. The lines are to hold no line feed.
#[verifier::external_body]
pub(crate) fn textarea_new(lines: Vec<String>) -> (buffer: TextBuffer)
    requires
        all_unbroken(lines.deep_view()),
    ensures
        buffer@ == fresh(lines.deep_view()),
        buffer_undo(buffer) == Seq::<(Seq<Seq<char>>, (nat, nat))>::empty(),
        buffer_redo(buffer) == Seq::<(Seq<Seq<char>>, (nat, nat))>::empty(),
{
    TextBuffer { area: TextArea::new(lines) }
}

/// `TextArea::lines`: the lines of the buffer, copied.
#[verifier::external_body]
pub(crate) fn textarea_lines(buffer: &TextBuffer) -> (lines: Vec<String>)
    ensures
        lines.deep_view() == buffer_lines(*buffer),
{
    buffer.area.lines().to_vec()
}

/// `TextArea::cursor`: row and column of the cursor.
#[verifier::external_body]
pub(crate) fn textarea_cursor(buffer: &TextBuffer) -> (at: (usize, usize))
    ensures
        (at.0 as nat, at.1 as nat) == buffer_cursor(*buffer),
{
    buffer.area.cursor()
}

/// `TextArea::yank_text`: the text of the clipboard, its lines joined by
/// line breaks.
#[verifier::external_body]
pub(crate) fn textarea_yank_text(buffer: &TextBuffer) -> (text: String)
    ensures
        text@ == joined(buffer_yank(*buffer)),
{
    buffer.area.yank_text()
}

/// `TextArea::selection_range`: the anchor and the cursor, the earlier of
/// the two first, while a selection is under way.
#[verifier::external_body]
pub(crate) fn textarea_selection_range(buffer: &TextBuffer) -> (range: Option<
    ((usize, usize), (usize, usize)),
>)
    ensures
        match range {
            Some((from, to)) => buffer@.stretch() == Some(
                ((from.0 as nat, from.1 as nat), (to.0 as nat, to.1 as nat)),
            ),
            None => buffer_anchor(*buffer) is None,
        },
{
    buffer.area.selection_range()
}

/// `TextArea::move_cursor`: the cursor goes where the motion says, as far as
/// the text reaches; text, selection anchor, clipboard and history stay. A
/// word motion too leads to a place in the text.
#[verifier::external_body]
pub(crate) fn textarea_move_cursor(buffer: &mut TextBuffer, motion: Motion)
    ensures
        final(buffer)@ == old(buffer)@.moved_to(
            motion,
            word_target(
                buffer_lines(*old(buffer)),
                buffer_cursor(*old(buffer)).0,
                buffer_cursor(*old(buffer)).1,
                motion,
            ),
        ),
        old(buffer)@.sound() ==> final(buffer)@.sound(),
        final(buffer).history() == old(buffer).history(),
{
    buffer.area.move_cursor(match motion {
        Motion::Forward => CursorMove::Forward, Motion::Back => CursorMove::Back,
        Motion::Up => CursorMove::Up, Motion::Down => CursorMove::Down,
        Motion::Head => CursorMove::Head, Motion::End => CursorMove::End,
        Motion::Top => CursorMove::Top, Motion::Bottom => CursorMove::Bottom,
        Motion::WordForward => CursorMove::WordForward,
        Motion::WordEnd => CursorMove::WordEnd,
        Motion::WordBack => CursorMove::WordBack,
        Motion::Jump(row, col) => CursorMove::Jump(row, col),
    })
}

/// `TextArea::insert_newline`: what is selected goes, then the line breaks
/// at the cursor.
#[verifier::external_body]
pub(crate) fn textarea_insert_newline(buffer: &mut TextBuffer)
    ensures
        final(buffer)@ == old(buffer)@.cleared().line_broken(),
{
    buffer.area.insert_newline()
}

/// `TextArea::delete_newline`: what is selected goes; else the line break
/// before the cursor's line.
#[verifier::external_body]
pub(crate) fn textarea_delete_newline(buffer: &mut TextBuffer)
    ensures
        final(buffer)@ == old(buffer)@.edited(old(buffer)@.line_joined()),
{
    buffer.area.delete_newline();
}

/// `TextArea::delete_next_char`: what is selected goes; else the character
/// under the cursor.
#[verifier::external_body]
pub(crate) fn textarea_delete_next_char(buffer: &mut TextBuffer)
    ensures
        final(buffer)@ == old(buffer)@.edited(old(buffer)@.next_char_deleted()),
{
    buffer.area.delete_next_char();
}

/// `TextArea::delete_line_by_end`: what is selected goes; else the rest of
/// the line from the cursor on goes to the clipboard.
#[verifier::external_body]
pub(crate) fn textarea_delete_line_by_end(buffer: &mut TextBuffer)
    ensures
        final(buffer)@ == old(buffer)@.edited(old(buffer)@.line_end_deleted()),
{
    buffer.area.delete_line_by_end();
}

/// `TextArea::delete_word`: what is selected goes; else the word before the
/// cursor goes to the clipboard.
#[verifier::external_body]
pub(crate) fn textarea_delete_word(buffer: &mut TextBuffer)
    ensures
        final(buffer)@ == old(buffer)@.edited(
            old(buffer)@.word_deleted(
                word_start_before(
                    old(buffer)@.line(buffer_cursor(*old(buffer)).0),
                    buffer_cursor(*old(buffer)).1,
                ),
            ),
        ),
{
    buffer.area.delete_word();
}

/// `TextArea::delete_next_word`: what is selected goes; else the word at the
/// cursor goes to the clipboard. The word ends in its line, so a buffer in
/// order stays so.
#[verifier::external_body]
pub(crate) fn textarea_delete_next_word(buffer: &mut TextBuffer)
    ensures
        final(buffer)@ == old(buffer)@.edited(
            old(buffer)@.next_word_deleted(
                word_end_after(
                    old(buffer)@.line(buffer_cursor(*old(buffer)).0),
                    buffer_cursor(*old(buffer)).1,
                ),
            ),
        ),
        old(buffer)@.sound() ==> final(buffer)@.sound(),
{
    buffer.area.delete_next_word();
}

/// `TextArea::cut`: what is selected goes to the clipboard; without a
/// selection text and clipboard stay.
#[verifier::external_body]
pub(crate) fn textarea_cut(buffer: &mut TextBuffer)
    ensures
        final(buffer)@ == old(buffer)@.cut(),
{
    buffer.area.cut();
}

/// `TextArea::copy`: what is selected is copied to the clipboard; the text
/// and the cursor stay, and no selection is left.
#[verifier::external_body]
pub(crate) fn textarea_copy(buffer: &mut TextBuffer)
    ensures
        final(buffer)@ == old(buffer)@.copied(),
{
    buffer.area.copy()
}

/// `TextArea::paste`: what is selected goes, then the clipboard's text comes
/// in at the cursor. The clipboard is to hold no line feed.
#[verifier::external_body]
pub(crate) fn textarea_paste(buffer: &mut TextBuffer)
    requires
        old(buffer)@.sound(),
    ensures
        final(buffer)@ == old(buffer)@.cleared().pasted(),
{
    buffer.area.paste();
}

/// `TextArea::start_selection`: a selection starts at the cursor. The
/// history stays.
#[verifier::external_body]
pub(crate) fn textarea_start_selection(buffer: &mut TextBuffer)
    ensures
        final(buffer)@ == old(buffer)@.selecting(),
        final(buffer).history() == old(buffer).history(),
{
    buffer.area.start_selection()
}

/// `TextArea::cancel_selection`: no selection is left. The history stays.
#[verifier::external_body]
pub(crate) fn textarea_cancel_selection(buffer: &mut TextBuffer)
    ensures
        final(buffer)@ == old(buffer)@.unselected(),
        final(buffer).history() == old(buffer).history(),
{
    buffer.area.cancel_selection()
}

/// `TextArea::undo`: takes back the last edit, if the history holds one. The
/// buffer then has that edit's text and cursor and no selection, and redo can
/// do the edit again. A buffer in order stays so.
#[verifier::external_body]
pub(crate) fn textarea_undo(buffer: &mut TextBuffer)
    ensures
        final(buffer)@ == old(buffer)@.stepped(buffer_undo(*old(buffer))),
        old(buffer).history().undone(buffer_lines(*old(buffer)), final(buffer).history()),
        old(buffer)@.sound() ==> final(buffer)@.sound(),
{
    buffer.area.undo();
}

/// `TextArea::redo`: does again the edit last taken back, if there is one.
/// The buffer then has that edit's text and cursor and no selection, and undo
/// can take the edit back again. A buffer in order stays so.
#[verifier::external_body]
pub(crate) fn textarea_redo(buffer: &mut TextBuffer)
    ensures
        final(buffer)@ == old(buffer)@.stepped(buffer_redo(*old(buffer))),
        old(buffer).history().redone(buffer_lines(*old(buffer)), final(buffer).history()),
        old(buffer)@.sound() ==> final(buffer)@.sound(),
{
    buffer.area.redo();
}

/// Whether `input` is a character that the buffer takes as text: any but a
/// line feed or a carriage return, with neither Ctrl nor Alt held.
pub open spec fn is_text(input: Input) -> bool {
    input.key matches Key::Char(c) && c != '\n' && c != '\r' && !input.ctrl && !input.alt
}

/// Whether `input` asks the buffer for a line break: the Enter key, a line
/// feed or carriage return with neither Ctrl nor Alt held, or Ctrl with `m`.
pub open spec fn is_break(input: Input) -> bool {
    ||| input.key is Enter
    ||| (input.key == Key::Char('\n') || input.key == Key::Char('\r')) && !input.ctrl && !input.alt
    ||| input.key == Key::Char('m') && input.ctrl && !input.alt
}

/// `TextArea::input`: the buffer's own answer to a key, by its default key
/// map. A character of text replaces what is selected, or comes in at the
/// cursor; a line break does so too. Of the other keys only this is claimed,
/// that they leave the buffer in order. One of them pastes, so the clipboard
/// is to hold no line feed.
#[verifier::external_body]
pub(crate) fn textarea_input(buffer: &mut TextBuffer, key: Key, ctrl: bool, alt: bool, shift: bool)
    requires
        old(buffer)@.sound(),
    ensures
        final(buffer)@.sound(),
        is_text(Input { key, ctrl, alt, shift }) ==> final(buffer)@ == old(buffer)@.cleared().typed(
            key->Char_0,
        ),
        is_break(Input { key, ctrl, alt, shift }) ==> final(buffer)@
            == old(buffer)@.cleared().line_broken(),
{
    let key = match key {
        Key::Char(c) => AreaKey::Char(c), Key::F(n) => AreaKey::F(n),
        Key::Backspace => AreaKey::Backspace, Key::Enter => AreaKey::Enter,
        Key::Left => AreaKey::Left, Key::Right => AreaKey::Right,
        Key::Up => AreaKey::Up, Key::Down => AreaKey::Down,
        Key::Tab => AreaKey::Tab, Key::Delete => AreaKey::Delete,
        Key::Home => AreaKey::Home, Key::End => AreaKey::End,
        Key::PageUp => AreaKey::PageUp, Key::PageDown => AreaKey::PageDown,
        Key::Esc => AreaKey::Esc, Key::Null => AreaKey::Null,
        Key::MouseScrollDown => AreaKey::MouseScrollDown,
        Key::MouseScrollUp => AreaKey::MouseScrollUp,
    };
    buffer.area.input(AreaInput { key, ctrl, alt, shift });
}

impl TextBuffer {
    /// The history of edits of the buffer.
    pub open spec fn history(&self) -> History {
        History { undo: buffer_undo(*self), redo: buffer_redo(*self) }
    }

    /// A buffer that holds `lines`, or one empty line if there are none, with
    /// the cursor at the start and nothing selected. No line may hold a line
    /// feed: a line break belongs between two lines.
    pub fn new(lines: Vec<String>) -> (buffer: TextBuffer)
        requires
            all_unbroken(lines.deep_view()),
        ensures
            buffer@ == fresh(lines.deep_view()),
            buffer@.sound(),
            buffer.history() == History::empty(),
    {
        proof {
            lemma_fresh_sound(lines.deep_view());
        }
        textarea_new(lines)
    }

    /// The lines of the buffer.
    pub fn lines(&self) -> (lines: Vec<String>)
        ensures
            lines.deep_view() == self@.lines,
    {
        textarea_lines(self)
    }

    /// Row and column of the cursor.
    pub fn cursor(&self) -> (at: (usize, usize))
        ensures
            (at.0 as nat, at.1 as nat) == self@.cursor,
    {
        textarea_cursor(self)
    }

    /// While a selection is under way: its anchor and the cursor, the earlier
    /// of the two first.
    pub fn selection_range(&self) -> (range: Option<((usize, usize), (usize, usize))>)
        ensures
            match range {
                Some((from, to)) => self@.stretch() == Some(
                    ((from.0 as nat, from.1 as nat), (to.0 as nat, to.1 as nat)),
                ),
                None => self@.anchor is None,
            },
    {
        textarea_selection_range(self)
    }

    /// The text of the clipboard, a line break between its lines.
    pub fn yank_text(&self) -> (text: String)
        ensures
            text@ == joined(self@.yank),
    {
        textarea_yank_text(self)
    }
}

} // verus!
