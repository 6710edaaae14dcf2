//! What a key means: the transition table of the modal input dispatcher.
//!
//! A key is read in the light of the focus, the editing mode and the keys of
//! a sequence that came before it. A sequence such as `dd` or `diw` is held
//! as a pending prefix; a key that does not carry the sequence on drops it,
//! and is itself swallowed.

use vstd::prelude::*;
use crate::buffer::Motion;
use crate::editor::EditCommand;
use crate::key::Input;
use crate::key::Key;

verus! {

/// The part of the screen that owns the keyboard.
#[derive(Clone, Copy, Debug, PartialEq, Eq, Structural)]
pub enum Focus {
    /// The editor, on the text of a note.
    NewNote,
    /// The list of notes.
    Feed,
    /// The editor, on the filter.
    Filter,
}

/// The mode of the editor.
#[derive(Clone, Copy, Debug, PartialEq, Eq, Structural)]
pub enum InputMode {
    /// Keys are commands.
    Normal,
    /// Keys are text.
    Insert,
    /// Keys are commands, and motions stretch the selection.
    View,
}

/// The keys of a sequence read so far.
#[derive(Clone, Copy, Debug, PartialEq, Eq, Structural)]
pub enum Pending {
    /// No sequence is under way.
    Idle,
    /// `d` in the feed.
    FeedDelete,
    /// `>` in the editor.
    Indent,
    /// `<` in the editor.
    Outdent,
    /// `g` in the editor.
    Goto,
    /// `d` in the editor.
    Delete,
    /// `di` in the editor.
    DeleteInner,
}

/// What a key asks the dispatcher to do.
#[derive(Clone, Copy, Debug, PartialEq, Eq, Structural)]
pub enum Command {
    /// Nothing, beyond a change of mode or of the pending prefix.
    Ignore,
    /// Leave the program.
    Quit,
    /// Select the next note of the feed.
    SelectNext,
    /// Select the note before.
    SelectPrevious,
    /// Delete the selected note.
    DeleteNote,
    /// Start to write a new note.
    NewNote,
    /// Start to edit the selected note.
    EditNote,
    /// Start to edit the filter.
    EditFilter,
    /// Store the text of the editor as a note.
    CommitNote,
    /// Take the text of the editor as the filter.
    CommitFilter,
    /// Leave the editor and drop its text.
    Abandon,
    /// Carry out an editing command on the buffer.
    Edit(EditCommand),
}

/// What a key leads to: a command, and the mode and pending prefix after it.
#[derive(Clone, Copy, Debug, PartialEq, Eq, Structural)]
pub struct Decision {
    pub command: Command,
    pub inputmode: InputMode,
    pub pending: Pending,
}

/// The motion that a character stands for in the editor, if any.
pub open spec fn motion_of(c: char) -> Option<Motion> {
    if c == 'h' {
        Some(Motion::Back)
    } else if c == 'j' {
        Some(Motion::Down)
    } else if c == 'k' {
        Some(Motion::Up)
    } else if c == 'l' {
        Some(Motion::Forward)
    } else if c == 'w' {
        Some(Motion::WordForward)
    } else if c == 'b' {
        Some(Motion::WordBack)
    } else if c == 'e' {
        Some(Motion::WordEnd)
    } else if c == '^' {
        Some(Motion::Head)
    } else if c == '$' {
        Some(Motion::End)
    } else if c == 'G' {
        Some(Motion::Bottom)
    } else {
        None
    }
}

/// The decision that only changes mode and pending prefix.
pub open spec fn quiet(inputmode: InputMode, pending: Pending) -> Decision {
    Decision { command: Command::Ignore, inputmode, pending }
}

/// The decision to carry out `command` on the buffer and go on in
/// `inputmode`.
pub open spec fn edit(command: EditCommand, inputmode: InputMode) -> Decision {
    Decision { command: Command::Edit(command), inputmode, pending: Pending::Idle }
}

/// The decision to do `command` and return to the feed.
pub open spec fn leave(command: Command) -> Decision {
    Decision { command, inputmode: InputMode::Normal, pending: Pending::Idle }
}

/// What the key that follows a pending prefix leads to. A key that does not
/// fit the prefix is swallowed, and the prefix dropped.
pub open spec fn pending_decision(
    pending: Pending,
    inputmode: InputMode,
    selecting: bool,
    key: Key,
) -> Decision {
    let dropped = quiet(inputmode, Pending::Idle);
    match pending {
        Pending::Idle => dropped,
        Pending::FeedDelete => if key == Key::Char('d') && selecting {
            Decision { command: Command::DeleteNote, inputmode, pending: Pending::Idle }
        } else {
            dropped
        },
        Pending::Indent => if key == Key::Char('>') {
            edit(EditCommand::Indent, inputmode)
        } else {
            dropped
        },
        Pending::Outdent => if key == Key::Char('<') {
            edit(EditCommand::Outdent, inputmode)
        } else {
            dropped
        },
        Pending::Goto => if key == Key::Char('g') {
            edit(EditCommand::Move(Motion::Top), inputmode)
        } else {
            dropped
        },
        Pending::Delete => if key == Key::Char('d') {
            edit(EditCommand::DeleteLine, inputmode)
        } else if key == Key::Char('w') {
            edit(EditCommand::DeleteWord, inputmode)
        } else if key == Key::Char('b') {
            edit(EditCommand::DeleteWordBack, inputmode)
        } else if key == Key::Char('i') {
            quiet(inputmode, Pending::DeleteInner)
        } else {
            dropped
        },
        Pending::DeleteInner => if key == Key::Char('w') {
            edit(EditCommand::DeleteInnerWord, inputmode)
        } else {
            dropped
        },
    }
}

/// What a key leads to in the feed.
pub open spec fn feed_decision(selecting: bool, filtering: bool, key: Key) -> Decision {
    let normal = InputMode::Normal;
    if key == Key::Char('q') {
        leave(Command::Quit)
    } else if key == Key::Char('j') {
        leave(Command::SelectNext)
    } else if key == Key::Char('k') {
        leave(Command::SelectPrevious)
    } else if key == Key::Char('d') && selecting {
        quiet(normal, Pending::FeedDelete)
    } else if key == Key::Char('n') {
        leave(Command::NewNote)
    } else if key == Key::Char('i') && selecting {
        leave(Command::EditNote)
    } else if key == Key::Char('/') && filtering {
        Decision { command: Command::EditFilter, inputmode: InputMode::Insert, pending: Pending::Idle }
    } else {
        quiet(normal, Pending::Idle)
    }
}

/// What a key leads to in the editor while keys are text: Escape ends the
/// typing, every other key goes to the buffer.
pub open spec fn insert_decision(input: Input) -> Decision {
    if input.key == Key::Esc {
        quiet(InputMode::Normal, Pending::Idle)
    } else {
        edit(EditCommand::Type(input), InputMode::Insert)
    }
}

/// What a key leads to in the editor while keys are commands.
pub open spec fn command_decision(inputmode: InputMode, input: Input) -> Decision {
    let key = input.key;
    let normal = inputmode == InputMode::Normal;
    let view = inputmode == InputMode::View;
    let ignored = quiet(inputmode, Pending::Idle);
    if key == Key::Backspace {
        if normal {
            leave(Command::Abandon)
        } else {
            ignored
        }
    } else if let Key::Char(c) = key {
        if c == 'i' {
            if normal {
                quiet(InputMode::Insert, Pending::Idle)
            } else {
                ignored
            }
        } else if c == 'A' {
            if normal {
                edit(EditCommand::Append, InputMode::Insert)
            } else {
                ignored
            }
        } else if c == 'o' {
            if normal {
                edit(EditCommand::OpenBelow, InputMode::Insert)
            } else {
                ignored
            }
        } else if c == 'O' {
            if normal {
                edit(EditCommand::OpenAbove, InputMode::Insert)
            } else {
                ignored
            }
        } else if c == 'p' {
            edit(EditCommand::Paste, inputmode)
        } else if c == 'u' {
            edit(EditCommand::Undo, inputmode)
        } else if c == 'r' {
            if input.ctrl {
                edit(EditCommand::Redo, inputmode)
            } else {
                ignored
            }
        } else if c == 'v' {
            if normal {
                edit(EditCommand::Select, InputMode::View)
            } else {
                ignored
            }
        } else if c == 'x' {
            edit(EditCommand::DeleteChar, inputmode)
        } else if c == '>' {
            if normal {
                quiet(inputmode, Pending::Indent)
            } else {
                ignored
            }
        } else if c == '<' {
            if normal {
                quiet(inputmode, Pending::Outdent)
            } else {
                ignored
            }
        } else if c == 'g' {
            quiet(inputmode, Pending::Goto)
        } else if c == 'd' {
            if normal {
                quiet(inputmode, Pending::Delete)
            } else if view {
                edit(EditCommand::CutSelection, InputMode::Normal)
            } else {
                ignored
            }
        } else if c == 'y' {
            if view {
                edit(EditCommand::CopySelection, InputMode::Normal)
            } else {
                ignored
            }
        } else {
            match motion_of(c) {
                Some(motion) => edit(EditCommand::Move(motion), inputmode),
                None => ignored,
            }
        }
    } else if key == Key::Esc {
        if view {
            edit(EditCommand::Deselect, InputMode::Normal)
        } else {
            ignored
        }
    } else {
        ignored
    }
}

/// What a key leads to in the editor, on a note or on the filter.
pub open spec fn editor_decision(focus: Focus, inputmode: InputMode, input: Input) -> Decision {
    if focus == Focus::Filter && input.key == Key::Enter {
        leave(Command::CommitFilter)
    } else if inputmode == InputMode::Insert {
        insert_decision(input)
    } else if focus == Focus::NewNote && inputmode == InputMode::Normal && input.key == Key::Char(
        'W',
    ) {
        leave(Command::CommitNote)
    } else {
        command_decision(inputmode, input)
    }
}

/// What the key `input` leads to, given the focus, the mode, the pending
/// prefix, whether a note is selected and whether filtering is enabled.
pub open spec fn decision(
    focus: Focus,
    inputmode: InputMode,
    pending: Pending,
    selecting: bool,
    filtering: bool,
    input: Input,
) -> Decision {
    if pending != Pending::Idle {
        pending_decision(pending, inputmode, selecting, input.key)
    } else if focus == Focus::Feed {
        feed_decision(selecting, filtering, input.key)
    } else {
        editor_decision(focus, inputmode, input)
    }
}

/// The motion that the character `c` stands for in the editor, if any.
pub fn motion_for(c: char) -> (motion: Option<Motion>)
    ensures
        motion == motion_of(c),
{
    if c == 'h' {
        Some(Motion::Back)
    } else if c == 'j' {
        Some(Motion::Down)
    } else if c == 'k' {
        Some(Motion::Up)
    } else if c == 'l' {
        Some(Motion::Forward)
    } else if c == 'w' {
        Some(Motion::WordForward)
    } else if c == 'b' {
        Some(Motion::WordBack)
    } else if c == 'e' {
        Some(Motion::WordEnd)
    } else if c == '^' {
        Some(Motion::Head)
    } else if c == '$' {
        Some(Motion::End)
    } else if c == 'G' {
        Some(Motion::Bottom)
    } else {
        None
    }
}

fn decide_quiet(inputmode: InputMode, pending: Pending) -> (d: Decision)
    ensures
        d == quiet(inputmode, pending),
{
    Decision { command: Command::Ignore, inputmode, pending }
}

fn decide_edit(command: EditCommand, inputmode: InputMode) -> (d: Decision)
    ensures
        d == edit(command, inputmode),
{
    Decision { command: Command::Edit(command), inputmode, pending: Pending::Idle }
}

fn decide_leave(command: Command) -> (d: Decision)
    ensures
        d == leave(command),
{
    Decision { command, inputmode: InputMode::Normal, pending: Pending::Idle }
}

fn decide_pending(pending: Pending, inputmode: InputMode, selecting: bool, key: Key) -> (d:
    Decision)
    ensures
        d == pending_decision(pending, inputmode, selecting, key),
{
    let dropped = decide_quiet(inputmode, Pending::Idle);
    match pending {
        Pending::Idle => dropped,
        Pending::FeedDelete => if key == Key::Char('d') && selecting {
            Decision { command: Command::DeleteNote, inputmode, pending: Pending::Idle }
        } else {
            dropped
        },
        Pending::Indent => if key == Key::Char('>') {
            decide_edit(EditCommand::Indent, inputmode)
        } else {
            dropped
        },
        Pending::Outdent => if key == Key::Char('<') {
            decide_edit(EditCommand::Outdent, inputmode)
        } else {
            dropped
        },
        Pending::Goto => if key == Key::Char('g') {
            decide_edit(EditCommand::Move(Motion::Top), inputmode)
        } else {
            dropped
        },
        Pending::Delete => if key == Key::Char('d') {
            decide_edit(EditCommand::DeleteLine, inputmode)
        } else if key == Key::Char('w') {
            decide_edit(EditCommand::DeleteWord, inputmode)
        } else if key == Key::Char('b') {
            decide_edit(EditCommand::DeleteWordBack, inputmode)
        } else if key == Key::Char('i') {
            decide_quiet(inputmode, Pending::DeleteInner)
        } else {
            dropped
        },
        Pending::DeleteInner => if key == Key::Char('w') {
            decide_edit(EditCommand::DeleteInnerWord, inputmode)
        } else {
            dropped
        },
    }
}

fn decide_feed(selecting: bool, filtering: bool, key: Key) -> (d: Decision)
    ensures
        d == feed_decision(selecting, filtering, key),
{
    let normal = InputMode::Normal;
    if key == Key::Char('q') {
        decide_leave(Command::Quit)
    } else if key == Key::Char('j') {
        decide_leave(Command::SelectNext)
    } else if key == Key::Char('k') {
        decide_leave(Command::SelectPrevious)
    } else if key == Key::Char('d') && selecting {
        decide_quiet(normal, Pending::FeedDelete)
    } else if key == Key::Char('n') {
        decide_leave(Command::NewNote)
    } else if key == Key::Char('i') && selecting {
        decide_leave(Command::EditNote)
    } else if key == Key::Char('/') && filtering {
        Decision { command: Command::EditFilter, inputmode: InputMode::Insert, pending: Pending::Idle }
    } else {
        decide_quiet(normal, Pending::Idle)
    }
}

fn decide_insert(input: Input) -> (d: Decision)
    ensures
        d == insert_decision(input),
{
    if input.key == Key::Esc {
        decide_quiet(InputMode::Normal, Pending::Idle)
    } else {
        decide_edit(EditCommand::Type(input), InputMode::Insert)
    }
}

fn decide_command(inputmode: InputMode, input: Input) -> (d: Decision)
    ensures
        d == command_decision(inputmode, input),
{
    let key = input.key;
    let normal = inputmode == InputMode::Normal;
    let view = inputmode == InputMode::View;
    let ignored = decide_quiet(inputmode, Pending::Idle);
    if key == Key::Backspace {
        if normal {
            decide_leave(Command::Abandon)
        } else {
            ignored
        }
    } else if let Key::Char(c) = key {
        if c == 'i' {
            if normal {
                decide_quiet(InputMode::Insert, Pending::Idle)
            } else {
                ignored
            }
        } else if c == 'A' {
            if normal {
                decide_edit(EditCommand::Append, InputMode::Insert)
            } else {
                ignored
            }
        } else if c == 'o' {
            if normal {
                decide_edit(EditCommand::OpenBelow, InputMode::Insert)
            } else {
                ignored
            }
        } else if c == 'O' {
            if normal {
                decide_edit(EditCommand::OpenAbove, InputMode::Insert)
            } else {
                ignored
            }
        } else if c == 'p' {
            decide_edit(EditCommand::Paste, inputmode)
        } else if c == 'u' {
            decide_edit(EditCommand::Undo, inputmode)
        } else if c == 'r' {
            if input.ctrl {
                decide_edit(EditCommand::Redo, inputmode)
            } else {
                ignored
            }
        } else if c == 'v' {
            if normal {
                decide_edit(EditCommand::Select, InputMode::View)
            } else {
                ignored
            }
        } else if c == 'x' {
            decide_edit(EditCommand::DeleteChar, inputmode)
        } else if c == '>' {
            if normal {
                decide_quiet(inputmode, Pending::Indent)
            } else {
                ignored
            }
        } else if c == '<' {
            if normal {
                decide_quiet(inputmode, Pending::Outdent)
            } else {
                ignored
            }
        } else if c == 'g' {
            decide_quiet(inputmode, Pending::Goto)
        } else if c == 'd' {
            if normal {
                decide_quiet(inputmode, Pending::Delete)
            } else if view {
                decide_edit(EditCommand::CutSelection, InputMode::Normal)
            } else {
                ignored
            }
        } else if c == 'y' {
            if view {
                decide_edit(EditCommand::CopySelection, InputMode::Normal)
            } else {
                ignored
            }
        } else {
            match motion_for(c) {
                Some(motion) => decide_edit(EditCommand::Move(motion), inputmode),
                None => ignored,
            }
        }
    } else if key == Key::Esc {
        if view {
            decide_edit(EditCommand::Deselect, InputMode::Normal)
        } else {
            ignored
        }
    } else {
        ignored
    }
}

fn decide_editor(focus: Focus, inputmode: InputMode, input: Input) -> (d: Decision)
    ensures
        d == editor_decision(focus, inputmode, input),
{
    if focus == Focus::Filter && input.key == Key::Enter {
        decide_leave(Command::CommitFilter)
    } else if inputmode == InputMode::Insert {
        decide_insert(input)
    } else if focus == Focus::NewNote && inputmode == InputMode::Normal && input.key == Key::Char(
        'W',
    ) {
        decide_leave(Command::CommitNote)
    } else {
        decide_command(inputmode, input)
    }
}

/// Reads one key: what it leads to, given the focus, the mode, the pending
/// prefix, whether a note is selected and whether filtering is enabled.
pub fn decide(
    focus: Focus,
    inputmode: InputMode,
    pending: Pending,
    selecting: bool,
    filtering: bool,
    input: Input,
) -> (d: Decision)
    ensures
        d == decision(focus, inputmode, pending, selecting, filtering, input),
{
    if pending != Pending::Idle {
        decide_pending(pending, inputmode, selecting, input.key)
    } else if focus == Focus::Feed {
        decide_feed(selecting, filtering, input.key)
    } else {
        decide_editor(focus, inputmode, input)
    }
}

} // verus!
