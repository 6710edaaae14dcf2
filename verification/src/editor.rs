//! The editing commands of the modal editor and what each does to the buffer.

use vstd::prelude::*;
use crate::buffer::textarea_cancel_selection;
use crate::buffer::textarea_copy;
use crate::buffer::textarea_cursor;
use crate::buffer::textarea_cut;
use crate::buffer::textarea_delete_line_by_end;
use crate::buffer::textarea_delete_newline;
use crate::buffer::textarea_delete_next_char;
use crate::buffer::textarea_delete_next_word;
use crate::buffer::textarea_delete_word;
use crate::buffer::textarea_input;
use crate::buffer::textarea_insert_newline;
use crate::buffer::textarea_lines;
use crate::buffer::textarea_move_cursor;
use crate::buffer::textarea_new;
use crate::buffer::textarea_paste;
use crate::buffer::textarea_redo;
use crate::buffer::textarea_start_selection;
use crate::buffer::textarea_undo;
use crate::buffer::fresh;
use crate::buffer::History;
use crate::buffer::is_break;
use crate::buffer::is_text;
use crate::buffer::word_start_before;
use crate::buffer::least;
use crate::buffer::BufferView;
use crate::buffer::Motion;
use crate::buffer::TextBuffer;
use crate::key::Input;
use crate::sound::lemma_deleting_sound;
use crate::sound::lemma_edited_sound;
use crate::sound::lemma_pasted_sound;
use crate::sound::lemma_selection_sound;
use crate::sound::lemma_typing_sound;
use crate::sound::lemma_word_deleted_sound;
use crate::text::all_unbroken;
use crate::text::indent_line;
use crate::text::indented;
use crate::text::lemma_shifted_unbroken;
use crate::text::lemma_outdent_indent;
use crate::text::outdent_line;
use crate::text::outdented;
use crate::text::unbroken;

verus! {

/// One command of the editor, as a key or a key sequence calls for it.
#[derive(Clone, Copy, Debug, PartialEq, Eq, Structural)]
pub enum EditCommand {
    /// Hand the key to the buffer, which takes it as typed text.
    Type(Input),
    /// Go to the end of the line.
    Append,
    /// Open a new line below the cursor's line.
    OpenBelow,
    /// Open a new line above the cursor's line.
    OpenAbove,
    /// Put in the text last cut or copied.
    Paste,
    /// Take back one edit.
    Undo,
    /// Do again one edit taken back.
    Redo,
    /// Start a selection at the cursor.
    Select,
    /// Delete the character under the cursor.
    DeleteChar,
    /// Move the cursor.
    Move(Motion),
    /// Put four spaces in front of the cursor's line.
    Indent,
    /// Take up to four leading spaces off the cursor's line.
    Outdent,
    /// Delete the cursor's line with its line break.
    DeleteLine,
    /// Cut from the cursor to the start of the next word.
    DeleteWord,
    /// Delete the word before the cursor.
    DeleteWordBack,
    /// Delete the word under the cursor from its start on.
    DeleteInnerWord,
    /// Cut the selection, the character under the cursor included.
    CutSelection,
    /// Copy the selection, the character under the cursor included.
    CopySelection,
    /// Give the selection up.
    Deselect,
}

impl BufferView {
    /// The cursor's row lies in the text.
    pub open spec fn on_line(self) -> bool {
        self.cursor.0 < self.lines.len()
    }

    /// A new buffer with the same lines but `line` in the cursor's row, the
    /// cursor in its row and column, or at the end of `line` if that is
    /// shorter.
    pub open spec fn rebuilt(self, line: Seq<char>) -> BufferView {
        if self.on_line() {
            fresh(self.lines.update(self.cursor.0 as int, line)).at(
                (self.cursor.0, least(self.cursor.1, line.len())),
            )
        } else {
            self
        }
    }

    /// The buffer without the cursor's line and its line break: the cursor
    /// stands at the head of the line that followed, or, where none did, at
    /// the end of the line before. The only line of a buffer is emptied. The
    /// text of the line, unless it was empty, is in the clipboard.
    pub open spec fn line_deleted(self) -> BufferView {
        let row = self.cursor.0;
        let yank = if self.line(row).len() > 0 {
            seq![self.line(row)]
        } else {
            self.yank
        };
        if !self.on_line() {
            self.unselected().at((row, 0))
        } else if row + 1 < self.lines.len() {
            BufferView { lines: self.lines.remove(row as int), cursor: (row, 0), anchor: None, yank }
        } else if row > 0 {
            BufferView {
                lines: self.lines.remove(row as int),
                cursor: ((row - 1) as nat, self.line((row - 1) as nat).len()),
                anchor: None,
                yank,
            }
        } else {
            BufferView {
                lines: self.lines.update(0, Seq::<char>::empty()),
                cursor: (0, 0),
                anchor: None,
                yank,
            }
        }
    }

    /// What `command` makes of this buffer and its history `past`: `after`
    /// with the history `future` is a possible outcome. A motion and a
    /// change of the selection leave the history as it is, and a buffer made
    /// anew has none; of the history after another edit nothing is said.
    pub open spec fn performed(
        self,
        past: History,
        command: EditCommand,
        after: BufferView,
        future: History,
    ) -> bool {
        match command {
            EditCommand::Type(input) => {
                &&& is_text(input) ==> after == self.cleared().typed(input.key->Char_0)
                &&& is_break(input) ==> after == self.cleared().line_broken()
            },
            EditCommand::Append => after == self.moved(Motion::End) && future == past,
            EditCommand::OpenBelow => after == self.moved(Motion::End).cleared().line_broken(),
            EditCommand::OpenAbove => after == self.moved(Motion::Head).cleared().line_broken().moved(
                Motion::Up,
            ),
            EditCommand::Paste => after == self.cleared().pasted(),
            EditCommand::Undo => after == self.stepped(past.undo) && past.undone(
                self.lines,
                future,
            ),
            EditCommand::Redo => after == self.stepped(past.redo) && past.redone(
                self.lines,
                future,
            ),
            EditCommand::Select => after == self.selecting() && future == past,
            EditCommand::DeleteChar => after == self.edited(self.next_char_deleted()),
            EditCommand::Move(motion) => after == self.moved(motion) && future == past,
            EditCommand::Indent => {
                &&& after == self.rebuilt(indented(self.line(self.cursor.0)))
                &&& self.on_line() ==> future == History::empty()
            },
            EditCommand::Outdent => {
                &&& after == self.rebuilt(outdented(self.line(self.cursor.0)))
                &&& self.on_line() ==> future == History::empty()
            },
            EditCommand::DeleteLine => after == self.line_deleted(),
            EditCommand::DeleteWord => after == self.selecting().moved(Motion::WordForward).cut(),
            EditCommand::DeleteWordBack => after == self.word_back_deleted(),
            EditCommand::DeleteInnerWord => after == self.moved(Motion::WordBack).word_on_deleted(),
            EditCommand::CutSelection => after == self.moved(Motion::Forward).cut(),
            EditCommand::CopySelection => after == self.moved(Motion::Forward).copied(),
            EditCommand::Deselect => after == self.unselected() && future == past,
        }
    }
}

/// A redo right after an undo that took a step gives the text back.
pub proof fn lemma_undo_redo(
    v: BufferView,
    past: History,
    between: BufferView,
    present: History,
    after: BufferView,
    future: History,
)
    requires
        past.undo.len() > 0,
        v.performed(past, EditCommand::Undo, between, present),
        between.performed(present, EditCommand::Redo, after, future),
    ensures
        after.lines == v.lines,
        future.undo.len() == past.undo.len(),
        future.redo == past.redo,
{
    assert(present.redo.len() > 0);
    assert(future.redo == present.redo.drop_last());
}

/// An undo right after a redo that took a step gives the text back.
pub proof fn lemma_redo_undo(
    v: BufferView,
    past: History,
    between: BufferView,
    present: History,
    after: BufferView,
    future: History,
)
    requires
        past.redo.len() > 0,
        v.performed(past, EditCommand::Redo, between, present),
        between.performed(present, EditCommand::Undo, after, future),
    ensures
        after.lines == v.lines,
        future.redo.len() == past.redo.len(),
        future.undo == past.undo,
{
    assert(present.undo.len() > 0);
    assert(future.undo == present.undo.drop_last());
}

/// Deleting the cursor's line takes exactly that line out of a text of
/// several lines and leaves the others in their order. The cursor then stands
/// in the line that followed, or, where none did, in the last line.
pub proof fn lemma_line_deleted(v: BufferView)
    requires
        v.on_line(),
        v.lines.len() > 1,
    ensures
        v.line_deleted().lines == v.lines.remove(v.cursor.0 as int),
        v.cursor.0 + 1 < v.lines.len() ==> v.line_deleted().cursor.0 == v.cursor.0
            && v.line_deleted().line(v.cursor.0) == v.line(v.cursor.0 + 1),
        v.cursor.0 + 1 == v.lines.len() ==> v.line_deleted().cursor.0
            == v.line_deleted().last_row(),
{
}

/// Indenting the cursor's line and then outdenting it gives the text back,
/// and leaves the cursor in its row and column, or at the end of its line if
/// it stood behind that.
pub proof fn lemma_indent_outdent(v: BufferView)
    requires
        v.on_line(),
    ensures
        ({
            let shifted = v.rebuilt(indented(v.line(v.cursor.0)));
            let back = shifted.rebuilt(outdented(shifted.line(shifted.cursor.0)));
            &&& back.lines == v.lines
            &&& back.cursor == (v.cursor.0, least(v.cursor.1, v.line(v.cursor.0).len()))
            &&& v.cursor.1 <= v.line(v.cursor.0).len() ==> back.cursor == v.cursor
        }),
{
    let row = v.cursor.0;
    let shifted = v.rebuilt(indented(v.line(row)));
    assert(shifted.cursor.0 == row);
    assert(shifted.line(row) == indented(v.line(row)));
    lemma_outdent_indent(v.line(row));
    assert(shifted.lines.update(row as int, v.line(row)) =~= v.lines);
}

/// The row or column `n` as a jump can name it: 65535 at most.
fn jump_to(n: usize) -> (c: u16)
    ensures
        c == if n <= 0xffff {
            n as int
        } else {
            0xffff
        },
{
    if n <= 0xffff {
        n as u16
    } else {
        0xffffu16
    }
}

impl TextBuffer {
    /// Puts `line` where the cursor's line was, in a buffer made anew, and
    /// takes the cursor back to its place.
    fn rebuild(&mut self, row: usize, col: usize, lines: Vec<String>)
        requires
            old(self)@.cursor == (row as nat, col as nat),
            old(self)@.on_line(),
            row < lines.len(),
            lines.deep_view() == old(self)@.lines.update(row as int, lines@[row as int]@),
            all_unbroken(lines.deep_view()),
        ensures
            final(self)@ == old(self)@.rebuilt(lines@[row as int]@),
            final(self)@.sound(),
            final(self).history() == History::empty(),
    {
        let len = lines[row].as_str().unicode_len();
        let target = if col < len {
            col
        } else {
            len
        };
        let ghost made = fresh(lines.deep_view());
        proof {
            assert(made.lines == lines.deep_view());
            assert(made.line(row as nat) == lines@[row as int]@);
        }
        // A jump names rows and columns up to 65535; the cursor walks the rest.
        let start_row = jump_to(row);
        let start_col = if row <= 0xffff {
            jump_to(target)
        } else {
            0u16
        };
        *self = textarea_new(lines);
        textarea_move_cursor(self, Motion::Jump(start_row, start_col));
        let mut r: usize = start_row as usize;
        while r < row
            invariant
                r <= row,
                row < made.lines.len(),
                r < row ==> start_col == 0,
                self@ == made.at((r as nat, start_col as nat)),
                self.history() == History::empty(),
            decreases row - r,
        {
            textarea_move_cursor(self, Motion::Down);
            r += 1;
        }
        let mut c: usize = start_col as usize;
        if c < target && target == len {
            textarea_move_cursor(self, Motion::End);
            c = target;
        }
        while c < target
            invariant
                c <= target,
                target <= made.line(row as nat).len(),
                self@ == made.at((row as nat, c as nat)),
                self.history() == History::empty(),
            decreases target - c,
        {
            textarea_move_cursor(self, Motion::Forward);
            c += 1;
        }
    }

    /// Shifts the cursor's line right by four spaces.
    fn indent(&mut self)
        requires
            old(self)@.sound(),
        ensures
            final(self)@ == old(self)@.rebuilt(indented(old(self)@.line(old(self)@.cursor.0))),
            final(self)@.sound(),
            final(self).history() == History::empty(),
    {
        let (row, col) = textarea_cursor(self);
        let mut lines = textarea_lines(self);
        if row < lines.len() {
            let line = indent_line(&lines[row]);
            let ghost was = lines.deep_view();
            lines.set(row, line);
            proof {
                lemma_shifted_unbroken(was[row as int]);
                assert(lines.deep_view() == was.update(row as int, lines@[row as int]@));
            }
            self.rebuild(row, col, lines);
        }
    }

    /// Shifts the cursor's line left by up to four spaces.
    fn outdent(&mut self)
        requires
            old(self)@.sound(),
        ensures
            final(self)@ == old(self)@.rebuilt(outdented(old(self)@.line(old(self)@.cursor.0))),
            final(self)@.sound(),
            final(self).history() == History::empty(),
    {
        let (row, col) = textarea_cursor(self);
        let mut lines = textarea_lines(self);
        if row < lines.len() {
            let line = outdent_line(&lines[row]);
            let ghost was = lines.deep_view();
            lines.set(row, line);
            proof {
                lemma_shifted_unbroken(was[row as int]);
                assert(lines.deep_view() == was.update(row as int, lines@[row as int]@));
            }
            self.rebuild(row, col, lines);
        }
    }

    /// Deletes the cursor's line with its line break.
    fn delete_line(&mut self)
        requires
            old(self)@.sound(),
        ensures
            final(self)@ == old(self)@.line_deleted(),
            final(self)@.sound(),
    {
        proof {
            lemma_selection_sound(self@);
        }
        textarea_cancel_selection(self);
        textarea_move_cursor(self, Motion::Head);
        let (row, _) = textarea_cursor(self);
        let lines = textarea_lines(self);
        if row < lines.len() {
            let ghost whole = self@;
            let ghost gone = whole.lines.update(row as int, Seq::<char>::empty());
            proof {
                assert(whole.lines == lines.deep_view());
                assert(whole.line(row as nat) == lines@[row as int]@);
                assert(whole.span() is None);
                lemma_deleting_sound(whole);
                lemma_edited_sound(whole, whole.line_end_deleted());
            }
            if !lines[row].as_str().is_empty() {
                textarea_delete_line_by_end(self);
                assert(self@.lines =~~= gone);
                assert(self@.yank =~~= seq![whole.line(row as nat)]);
            } else {
                assert(whole.lines =~~= gone);
            }
            let ghost emptied = self@;
            proof {
                assert(emptied.lines == gone);
                assert(emptied.cursor == (row as nat, 0nat));
                assert(emptied.span() is None);
                assert(emptied.line(row as nat).len() == 0);
                lemma_deleting_sound(emptied);
                lemma_edited_sound(emptied, emptied.next_char_deleted());
                lemma_edited_sound(emptied, emptied.line_joined());
            }
            if row + 1 < lines.len() {
                textarea_delete_next_char(self);
                assert(self@.lines =~~= whole.lines.remove(row as int));
            } else if row > 0 {
                textarea_delete_newline(self);
                assert(self@.lines =~~= whole.lines.remove(row as int));
            }
        }
    }

    /// Carries out one editing command on the buffer, which is to be in
    /// order and is left so.
    pub fn perform(&mut self, command: EditCommand)
        requires
            old(self)@.sound(),
        ensures
            old(self)@.performed(old(self).history(), command, final(self)@, final(self).history()),
            final(self)@.sound(),
    {
        let ghost start = self@;
        proof {
            lemma_selection_sound(start);
            lemma_deleting_sound(start);
            lemma_edited_sound(start, start.next_char_deleted());
        }
        match command {
            EditCommand::Type(input) => textarea_input(
                self,
                input.key,
                input.ctrl,
                input.alt,
                input.shift,
            ),
            EditCommand::Append => textarea_move_cursor(self, Motion::End),
            EditCommand::OpenBelow => {
                textarea_move_cursor(self, Motion::End);
                proof {
                    lemma_selection_sound(self@);
                    lemma_typing_sound(self@.cleared(), ' ');
                }
                textarea_insert_newline(self);
            },
            EditCommand::OpenAbove => {
                textarea_move_cursor(self, Motion::Head);
                proof {
                    lemma_selection_sound(self@);
                    lemma_typing_sound(self@.cleared(), ' ');
                }
                textarea_insert_newline(self);
                textarea_move_cursor(self, Motion::Up);
            },
            EditCommand::Paste => {
                proof {
                    lemma_pasted_sound(start.cleared());
                }
                textarea_paste(self);
            },
            EditCommand::Undo => textarea_undo(self),
            EditCommand::Redo => textarea_redo(self),
            EditCommand::Select => textarea_start_selection(self),
            EditCommand::DeleteChar => textarea_delete_next_char(self),
            EditCommand::Move(motion) => textarea_move_cursor(self, motion),
            EditCommand::Indent => self.indent(),
            EditCommand::Outdent => self.outdent(),
            EditCommand::DeleteLine => self.delete_line(),
            EditCommand::DeleteWord => {
                textarea_start_selection(self);
                textarea_move_cursor(self, Motion::WordForward);
                proof {
                    lemma_selection_sound(self@);
                    lemma_selection_sound(self@.cut());
                }
                textarea_cut(self);
                textarea_cancel_selection(self);
            },
            EditCommand::DeleteWordBack => {
                proof {
                    lemma_word_deleted_sound(
                        start,
                        word_start_before(start.line(start.cursor.0), start.cursor.1),
                    );
                }
                textarea_delete_word(self);
            },
            EditCommand::DeleteInnerWord => {
                textarea_move_cursor(self, Motion::WordBack);
                textarea_delete_next_word(self);
            },
            EditCommand::CutSelection => {
                textarea_move_cursor(self, Motion::Forward);
                proof {
                    lemma_selection_sound(self@);
                }
                textarea_cut(self);
            },
            EditCommand::CopySelection => {
                textarea_move_cursor(self, Motion::Forward);
                proof {
                    lemma_selection_sound(self@);
                    lemma_selection_sound(self@.copied());
                }
                textarea_copy(self);
                textarea_cancel_selection(self);
            },
            EditCommand::Deselect => textarea_cancel_selection(self),
        }
    }
}

} // verus!
