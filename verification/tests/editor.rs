use feednotes::buffer::Motion;
use feednotes::buffer::TextBuffer;
use feednotes::clock::Timestamp;
use feednotes::dispatch::Focus;
use feednotes::dispatch::InputMode;
use feednotes::dispatcher::Dispatcher;
use feednotes::editor::EditCommand;
use feednotes::feed::Feed;
use feednotes::key::Input;
use feednotes::key::Key;
use feednotes::state::Action;

fn buffer_of(lines: &[&str]) -> TextBuffer {
    TextBuffer::new(lines.iter().map(|l| l.to_string()).collect())
}

fn buffer_at(lines: &[&str], row: u16, col: u16) -> TextBuffer {
    let mut buffer = buffer_of(lines);
    buffer.perform(EditCommand::Move(Motion::Jump(row, col)));
    assert_eq!(buffer.cursor(), (row as usize, col as usize));
    buffer
}

/// A dispatcher in the editor, on a note with the text `text`.
fn editing(text: &str) -> Dispatcher {
    let mut feed = Feed::new();
    feed.insert_front(text.to_string(), Timestamp { secs: 1, nanos: 0, offset: 0 });
    let mut d = Dispatcher::new(feed, true);
    press(&mut d, "ji");
    assert_eq!(d.focus(), Focus::NewNote);
    d
}

fn press(d: &mut Dispatcher, keys: &str) {
    for c in keys.chars() {
        let now = Timestamp { secs: 5, nanos: 0, offset: 0 };
        assert_eq!(d.handle_key_at(Input::char(c), now), Action::Continue);
    }
}

fn key(d: &mut Dispatcher, key: Key) {
    let now = Timestamp { secs: 5, nanos: 0, offset: 0 };
    assert_eq!(d.handle_key_at(Input::plain(key), now), Action::Continue);
}

fn lines(d: &Dispatcher) -> Vec<String> {
    d.textarea().lines()
}

fn cursor(d: &Dispatcher) -> (usize, usize) {
    d.textarea().cursor()
}

#[test]
fn new_buffer_holds_the_lines() {
    let buffer = buffer_of(&["one", "two"]);
    assert_eq!(buffer.lines(), ["one", "two"]);
    assert_eq!(buffer.cursor(), (0, 0));
    assert_eq!(buffer.selection_range(), None);
    assert_eq!(buffer.yank_text(), "");
}

#[test]
fn new_buffer_without_lines_holds_one_empty_line() {
    let buffer = TextBuffer::new(Vec::new());
    assert_eq!(buffer.lines(), [""]);
    assert_eq!(buffer.cursor(), (0, 0));
}

#[test]
fn motions_by_character() {
    let mut buffer = buffer_of(&["ab", "", "cde"]);
    let mut go = |motion, expected| {
        buffer.perform(EditCommand::Move(motion));
        assert_eq!(buffer.cursor(), expected, "after {:?}", motion);
    };
    go(Motion::Back, (0, 0));
    go(Motion::Forward, (0, 1));
    go(Motion::Forward, (0, 2));
    go(Motion::Forward, (1, 0));
    go(Motion::Forward, (2, 0));
    go(Motion::End, (2, 3));
    go(Motion::Forward, (2, 3));
    go(Motion::Back, (2, 2));
    go(Motion::Head, (2, 0));
    go(Motion::Back, (1, 0));
    go(Motion::Back, (0, 2));
}

#[test]
fn motions_by_line_keep_the_column_where_they_can() {
    let mut buffer = buffer_at(&["abcd", "x", "abc"], 0, 3);
    let mut go = |motion, expected| {
        buffer.perform(EditCommand::Move(motion));
        assert_eq!(buffer.cursor(), expected, "after {:?}", motion);
    };
    go(Motion::Up, (0, 3));
    go(Motion::Down, (1, 1));
    go(Motion::Down, (2, 1));
    go(Motion::Down, (2, 1));
    go(Motion::End, (2, 3));
    go(Motion::Top, (0, 3));
    go(Motion::End, (0, 4));
    go(Motion::Bottom, (2, 3));
    go(Motion::Up, (1, 1));
}

#[test]
fn jump_fits_the_target_to_the_text() {
    let mut buffer = buffer_of(&["aaaa", "bb", "cccc"]);
    buffer.perform(EditCommand::Move(Motion::Jump(1, 1)));
    assert_eq!(buffer.cursor(), (1, 1));
    buffer.perform(EditCommand::Move(Motion::Jump(1, 9)));
    assert_eq!(buffer.cursor(), (1, 2));
    buffer.perform(EditCommand::Move(Motion::Jump(10, 10)));
    assert_eq!(buffer.cursor(), (2, 4));
    buffer.perform(EditCommand::Move(Motion::Jump(u16::MAX, 0)));
    assert_eq!(buffer.cursor(), (2, 0));
}

#[test]
fn motions_by_word() {
    let mut buffer = buffer_of(&["aaa bbb ccc", "dd"]);
    let mut go = |motion, expected| {
        buffer.perform(EditCommand::Move(motion));
        assert_eq!(buffer.cursor(), expected, "after {:?}", motion);
    };
    go(Motion::WordForward, (0, 4));
    go(Motion::WordForward, (0, 8));
    go(Motion::WordEnd, (0, 10));
    go(Motion::WordBack, (0, 8));
    go(Motion::WordBack, (0, 4));
    go(Motion::WordEnd, (0, 6));
    go(Motion::WordForward, (0, 8));
    go(Motion::WordForward, (1, 0));
    go(Motion::WordBack, (0, 11));
}

#[test]
fn motions_leave_the_text_alone() {
    let mut buffer = buffer_of(&["ab cd", "ef"]);
    for motion in [Motion::Forward, Motion::WordForward, Motion::Down, Motion::End, Motion::Back,
        Motion::WordBack, Motion::Up, Motion::Head, Motion::Bottom, Motion::WordEnd, Motion::Top,
        Motion::Jump(1, 1)]
    {
        buffer.perform(EditCommand::Move(motion));
        assert_eq!(buffer.lines(), ["ab cd", "ef"]);
        assert_eq!(buffer.selection_range(), None);
    }
}

#[test]
fn typing_puts_characters_in_at_the_cursor() {
    let mut buffer = buffer_at(&["ad"], 0, 1);
    buffer.perform(EditCommand::Type(Input::char('b')));
    buffer.perform(EditCommand::Type(Input { key: Key::Char('C'), ctrl: false, alt: false, shift: true }));
    assert_eq!(buffer.lines(), ["abCd"]);
    assert_eq!(buffer.cursor(), (0, 3));
    buffer.perform(EditCommand::Type(Input::char('é')));
    assert_eq!(buffer.lines(), ["abCéd"]);
    assert_eq!(buffer.cursor(), (0, 4));
}

#[test]
fn typing_enter_breaks_the_line() {
    let mut buffer = buffer_at(&["abcd", "e"], 0, 2);
    buffer.perform(EditCommand::Type(Input::plain(Key::Enter)));
    assert_eq!(buffer.lines(), ["ab", "cd", "e"]);
    assert_eq!(buffer.cursor(), (1, 0));
}

#[test]
fn typing_replaces_the_selection() {
    let mut buffer = buffer_at(&["abcd", "efgh"], 0, 1);
    buffer.perform(EditCommand::Select);
    buffer.perform(EditCommand::Move(Motion::Jump(1, 2)));
    buffer.perform(EditCommand::Type(Input::char('X')));
    assert_eq!(buffer.lines(), ["aXgh"]);
    assert_eq!(buffer.cursor(), (0, 2));
    assert_eq!(buffer.selection_range(), None);
}

#[test]
fn insert_key_types_at_the_cursor() {
    let mut d = editing("ad");
    press(&mut d, "l");
    press(&mut d, "i");
    assert_eq!(d.inputmode(), InputMode::Insert);
    assert_eq!(cursor(&d), (0, 1));
    press(&mut d, "bc");
    assert_eq!(lines(&d), ["abcd"]);
    key(&mut d, Key::Esc);
    assert_eq!(d.inputmode(), InputMode::Normal);
    assert_eq!(lines(&d), ["abcd"]);
}

#[test]
fn append_key_types_at_the_end_of_the_line() {
    let mut d = editing("ab\ncd");
    press(&mut d, "A");
    assert_eq!(d.inputmode(), InputMode::Insert);
    assert_eq!(cursor(&d), (0, 2));
    press(&mut d, "!");
    assert_eq!(lines(&d), ["ab!", "cd"]);
}

#[test]
fn open_below_starts_a_line_after_the_current_one() {
    let mut d = editing("ab\ncd");
    press(&mut d, "l");
    press(&mut d, "o");
    assert_eq!(d.inputmode(), InputMode::Insert);
    assert_eq!(lines(&d), ["ab", "", "cd"]);
    assert_eq!(cursor(&d), (1, 0));
    press(&mut d, "x");
    assert_eq!(lines(&d), ["ab", "x", "cd"]);
}

#[test]
fn open_above_starts_a_line_before_the_current_one() {
    let mut d = editing("ab\ncd");
    press(&mut d, "jl");
    assert_eq!(cursor(&d), (1, 1));
    press(&mut d, "O");
    assert_eq!(d.inputmode(), InputMode::Insert);
    assert_eq!(lines(&d), ["ab", "", "cd"]);
    assert_eq!(cursor(&d), (1, 0));
    press(&mut d, "x");
    assert_eq!(lines(&d), ["ab", "x", "cd"]);
}

#[test]
fn open_above_on_the_first_line() {
    let mut d = editing("ab");
    press(&mut d, "O");
    assert_eq!(lines(&d), ["", "ab"]);
    assert_eq!(cursor(&d), (0, 0));
}

#[test]
fn delete_char_key() {
    let mut d = editing("abc\nd");
    press(&mut d, "lx");
    assert_eq!(lines(&d), ["ac", "d"]);
    assert_eq!(cursor(&d), (0, 1));
    press(&mut d, "x");
    assert_eq!(lines(&d), ["a", "d"]);
    assert_eq!(cursor(&d), (0, 1));
    press(&mut d, "x");
    assert_eq!(lines(&d), ["ad"]);
    assert_eq!(cursor(&d), (0, 1));
    press(&mut d, "xx");
    assert_eq!(lines(&d), ["a"]);
    assert_eq!(cursor(&d), (0, 1));
}

#[test]
fn delete_line_in_the_middle() {
    let mut d = editing("a\nb\nc");
    press(&mut d, "j");
    assert_eq!(cursor(&d), (1, 0));
    press(&mut d, "dd");
    assert_eq!(lines(&d), ["a", "c"]);
    assert_eq!(cursor(&d), (1, 0));
    assert_eq!(d.inputmode(), InputMode::Normal);
}

#[test]
fn delete_line_at_the_end_goes_to_the_line_before() {
    let mut d = editing("ab\ncd\nef");
    press(&mut d, "G$");
    assert_eq!(cursor(&d), (2, 2));
    press(&mut d, "dd");
    assert_eq!(lines(&d), ["ab", "cd"]);
    assert_eq!(cursor(&d), (1, 2));
}

#[test]
fn delete_line_at_the_start() {
    let mut d = editing("ab\ncd\nef");
    press(&mut d, "ldd");
    assert_eq!(lines(&d), ["cd", "ef"]);
    assert_eq!(cursor(&d), (0, 0));
}

#[test]
fn delete_line_that_is_empty_takes_only_that_line() {
    let mut d = editing("a\n\nc");
    press(&mut d, "jdd");
    assert_eq!(lines(&d), ["a", "c"]);
    assert_eq!(cursor(&d), (1, 0));
    let mut d = editing("a\nb\n\n");
    assert_eq!(lines(&d), ["a", "b", ""]);
    press(&mut d, "Gdd");
    assert_eq!(lines(&d), ["a", "b"]);
    assert_eq!(cursor(&d), (1, 1));
}

#[test]
fn delete_line_of_a_single_line_empties_it() {
    let mut d = editing("only");
    press(&mut d, "$dd");
    assert_eq!(lines(&d), [""]);
    assert_eq!(cursor(&d), (0, 0));
    press(&mut d, "dd");
    assert_eq!(lines(&d), [""]);
    assert_eq!(cursor(&d), (0, 0));
}

#[test]
fn delete_line_keeps_the_text_for_paste() {
    let mut d = editing("ab\ncd");
    press(&mut d, "dd");
    assert_eq!(lines(&d), ["cd"]);
    assert_eq!(d.textarea().yank_text(), "ab");
    press(&mut d, "p");
    assert_eq!(lines(&d), ["abcd"]);
    assert_eq!(cursor(&d), (0, 2));
}

#[test]
fn delete_line_drops_a_selection() {
    let mut buffer = buffer_at(&["ab", "cd", "ef"], 0, 1);
    buffer.perform(EditCommand::Select);
    buffer.perform(EditCommand::Move(Motion::Jump(1, 1)));
    buffer.perform(EditCommand::DeleteLine);
    assert_eq!(buffer.lines(), ["ab", "ef"]);
    assert_eq!(buffer.cursor(), (1, 0));
    assert_eq!(buffer.selection_range(), None);
}

#[test]
fn delete_word_cuts_to_the_next_word() {
    let mut d = editing("aaa bbb ccc");
    press(&mut d, "dw");
    assert_eq!(lines(&d), ["bbb ccc"]);
    assert_eq!(cursor(&d), (0, 0));
    assert_eq!(d.textarea().yank_text(), "aaa ");
    assert_eq!(d.textarea().selection_range(), None);
    press(&mut d, "$p");
    assert_eq!(lines(&d), ["bbb cccaaa "]);
}

#[test]
fn delete_word_back_takes_the_word_before() {
    let mut d = editing("aaa bbb ccc");
    press(&mut d, "$db");
    assert_eq!(lines(&d), ["aaa bbb "]);
    assert_eq!(cursor(&d), (0, 8));
    press(&mut d, "db");
    assert_eq!(lines(&d), ["aaa "]);
    assert_eq!(d.textarea().yank_text(), "bbb ");
}

#[test]
fn delete_word_back_at_the_head_joins_the_lines() {
    let mut d = editing("ab\ncd");
    press(&mut d, "jdb");
    assert_eq!(lines(&d), ["abcd"]);
    assert_eq!(cursor(&d), (0, 2));
}

#[test]
fn delete_inner_word_takes_the_word_under_the_cursor() {
    let mut d = editing("aaa bbb ccc");
    press(&mut d, "wl");
    assert_eq!(cursor(&d), (0, 5));
    press(&mut d, "diw");
    assert_eq!(lines(&d), ["aaa  ccc"]);
    assert_eq!(cursor(&d), (0, 4));
    assert_eq!(d.textarea().yank_text(), "bbb");
}

#[test]
fn goto_first_and_last_line() {
    let mut d = editing("ab\ncd\nef");
    press(&mut d, "lG");
    assert_eq!(cursor(&d), (2, 1));
    press(&mut d, "gg");
    assert_eq!(cursor(&d), (0, 1));
    press(&mut d, "vG");
    assert_eq!(d.inputmode(), InputMode::View);
    assert_eq!(d.textarea().selection_range(), Some(((0, 1), (2, 1))));
    press(&mut d, "gg");
    assert_eq!(cursor(&d), (0, 1));
    assert_eq!(d.inputmode(), InputMode::View);
}

#[test]
fn indent_puts_four_spaces_in_front() {
    let mut d = editing("ab\ncd\nef");
    press(&mut d, "jl>>");
    assert_eq!(lines(&d), ["ab", "    cd", "ef"]);
    assert_eq!(cursor(&d), (1, 1));
    press(&mut d, ">>");
    assert_eq!(lines(&d), ["ab", "        cd", "ef"]);
    assert_eq!(cursor(&d), (1, 1));
    assert_eq!(d.inputmode(), InputMode::Normal);
}

#[test]
fn outdent_takes_up_to_four_spaces() {
    let mut d = editing("      ab\n  cd\nef");
    press(&mut d, "$<<");
    assert_eq!(lines(&d), ["  ab", "  cd", "ef"]);
    assert_eq!(cursor(&d), (0, 4));
    press(&mut d, "<<");
    assert_eq!(lines(&d), ["ab", "  cd", "ef"]);
    assert_eq!(cursor(&d), (0, 2));
    press(&mut d, "<<");
    assert_eq!(lines(&d), ["ab", "  cd", "ef"]);
    press(&mut d, "j<<");
    assert_eq!(lines(&d), ["ab", "cd", "ef"]);
}

#[test]
fn outdent_undoes_indent_in_the_buffer() {
    for text in ["ab", "  ab", "    ab", "      ab", "", " "] {
        let mut d = editing(&format!("first\n{}\nlast", text));
        press(&mut d, "j>><<");
        assert_eq!(lines(&d), ["first", text, "last"]);
    }
}

#[test]
fn indent_in_view_mode_is_ignored() {
    let mut d = editing("ab");
    press(&mut d, "v>>");
    assert_eq!(lines(&d), ["ab"]);
    press(&mut d, "<<");
    assert_eq!(lines(&d), ["ab"]);
}

#[test]
fn indent_keeps_the_place_past_row_65535() {
    let mut lines: Vec<String> = vec![String::new(); 70_000];
    lines[69_999] = "x".repeat(2_000);
    lines[69_998] = "  y".to_string();
    let mut buffer = TextBuffer::new(lines);
    buffer.perform(EditCommand::Move(Motion::Bottom));
    buffer.perform(EditCommand::Move(Motion::End));
    assert_eq!(buffer.cursor(), (69_999, 2_000));
    buffer.perform(EditCommand::Indent);
    assert_eq!(buffer.lines()[69_999].len(), 2_004);
    assert_eq!(buffer.cursor(), (69_999, 2_000));
    buffer.perform(EditCommand::Outdent);
    assert_eq!(buffer.lines()[69_999], "x".repeat(2_000));
    assert_eq!(buffer.lines()[69_998], "  y");
    assert_eq!(buffer.cursor(), (69_999, 2_000));
    buffer.perform(EditCommand::Move(Motion::Up));
    buffer.perform(EditCommand::Outdent);
    assert_eq!(buffer.lines()[69_998], "y");
    assert_eq!(buffer.cursor(), (69_998, 1));
    buffer.perform(EditCommand::Move(Motion::Jump(1000, 0)));
    buffer.perform(EditCommand::Indent);
    assert_eq!(buffer.cursor(), (1000, 0));
    assert_eq!(buffer.lines()[1000], "    ");
}

#[test]
fn indent_keeps_the_place_past_column_65535() {
    let mut buffer = TextBuffer::new(vec!["first".to_string(), "x".repeat(66_000)]);
    buffer.perform(EditCommand::Move(Motion::Bottom));
    buffer.perform(EditCommand::Move(Motion::End));
    assert_eq!(buffer.cursor(), (1, 66_000));
    buffer.perform(EditCommand::Indent);
    assert_eq!(buffer.lines()[1].len(), 66_004);
    assert_eq!(buffer.cursor(), (1, 66_000));
    buffer.perform(EditCommand::Outdent);
    assert_eq!(buffer.lines(), ["first".to_string(), "x".repeat(66_000)]);
    assert_eq!(buffer.cursor(), (1, 66_000));
}

#[test]
fn view_mode_cuts_the_selection_with_the_character_under_the_cursor() {
    let mut d = editing("abcdef");
    press(&mut d, "lvll");
    assert_eq!(d.inputmode(), InputMode::View);
    assert_eq!(d.textarea().selection_range(), Some(((0, 1), (0, 3))));
    press(&mut d, "d");
    assert_eq!(d.inputmode(), InputMode::Normal);
    assert_eq!(lines(&d), ["aef"]);
    assert_eq!(cursor(&d), (0, 1));
    assert_eq!(d.textarea().yank_text(), "bcd");
    assert_eq!(d.textarea().selection_range(), None);
}

#[test]
fn view_mode_copies_the_selection() {
    let mut d = editing("abc\ndef");
    press(&mut d, "lvj");
    press(&mut d, "y");
    assert_eq!(d.inputmode(), InputMode::Normal);
    assert_eq!(lines(&d), ["abc", "def"]);
    assert_eq!(d.textarea().yank_text(), "bc\nde");
    assert_eq!(d.textarea().selection_range(), None);
    assert_eq!(cursor(&d), (1, 2));
    press(&mut d, "p");
    assert_eq!(lines(&d), ["abc", "debc", "def"]);
    assert_eq!(cursor(&d), (2, 2));
}

#[test]
fn view_mode_selects_backwards_too() {
    let mut d = editing("abcdef");
    press(&mut d, "$vhh");
    assert_eq!(d.textarea().selection_range(), Some(((0, 4), (0, 6))));
    press(&mut d, "d");
    assert_eq!(lines(&d), ["abcde"]);
    assert_eq!(d.textarea().yank_text(), "f");
}

#[test]
fn escape_gives_the_selection_up() {
    let mut d = editing("abc");
    press(&mut d, "vl");
    key(&mut d, Key::Esc);
    assert_eq!(d.inputmode(), InputMode::Normal);
    assert_eq!(d.textarea().selection_range(), None);
    assert_eq!(lines(&d), ["abc"]);
    assert_eq!(cursor(&d), (0, 1));
    press(&mut d, "y");
    assert_eq!(d.textarea().yank_text(), "");
}

#[test]
fn delete_char_in_view_mode_takes_the_selection() {
    let mut d = editing("abcdef");
    press(&mut d, "vllx");
    assert_eq!(lines(&d), ["cdef"]);
    assert_eq!(d.inputmode(), InputMode::View);
    assert_eq!(d.textarea().selection_range(), None);
}

#[test]
fn paste_replaces_the_selection() {
    let mut d = editing("ab cd");
    press(&mut d, "dw");
    assert_eq!(lines(&d), ["cd"]);
    press(&mut d, "vlp");
    assert_eq!(lines(&d), ["ab d"]);
    assert_eq!(cursor(&d), (0, 3));
}

#[test]
fn paste_of_an_empty_clipboard_changes_nothing() {
    let mut d = editing("ab");
    press(&mut d, "lp");
    assert_eq!(lines(&d), ["ab"]);
    assert_eq!(cursor(&d), (0, 1));
}

#[test]
fn undo_and_redo() {
    let mut d = editing("ab cd");
    press(&mut d, "dw");
    assert_eq!(lines(&d), ["cd"]);
    press(&mut d, "u");
    assert_eq!(lines(&d), ["ab cd"]);
    let redo = Input { key: Key::Char('r'), ctrl: true, alt: false, shift: false };
    let now = Timestamp { secs: 5, nanos: 0, offset: 0 };
    assert_eq!(d.handle_key_at(redo, now), Action::Continue);
    assert_eq!(lines(&d), ["cd"]);
    press(&mut d, "r");
    assert_eq!(lines(&d), ["cd"]);
    press(&mut d, "uu");
    assert_eq!(lines(&d), ["ab cd"]);
}

#[test]
fn undo_without_history_changes_nothing() {
    let mut buffer = buffer_at(&["ab", "cd"], 1, 1);
    buffer.perform(EditCommand::Select);
    buffer.perform(EditCommand::Move(Motion::Forward));
    buffer.perform(EditCommand::Undo);
    assert_eq!(buffer.lines(), ["ab", "cd"]);
    assert_eq!(buffer.cursor(), (1, 2));
    assert_eq!(buffer.selection_range(), Some(((1, 1), (1, 2))));
    buffer.perform(EditCommand::Redo);
    assert_eq!(buffer.lines(), ["ab", "cd"]);
    assert_eq!(buffer.cursor(), (1, 2));
    assert_eq!(buffer.selection_range(), Some(((1, 1), (1, 2))));
}

#[test]
fn redo_brings_back_what_undo_took() {
    let mut buffer = buffer_of(&["ab cd"]);
    buffer.perform(EditCommand::DeleteWord);
    buffer.perform(EditCommand::Type(Input::char('x')));
    assert_eq!(buffer.lines(), ["xcd"]);
    buffer.perform(EditCommand::Select);
    buffer.perform(EditCommand::Undo);
    assert_eq!(buffer.lines(), ["cd"]);
    assert_eq!(buffer.selection_range(), None);
    assert_eq!(buffer.yank_text(), "ab ");
    buffer.perform(EditCommand::Move(Motion::End));
    buffer.perform(EditCommand::Redo);
    assert_eq!(buffer.lines(), ["xcd"]);
    buffer.perform(EditCommand::Undo);
    assert_eq!(buffer.lines(), ["cd"]);
    buffer.perform(EditCommand::Undo);
    assert_eq!(buffer.lines(), ["ab cd"]);
    buffer.perform(EditCommand::Undo);
    assert_eq!(buffer.lines(), ["ab cd"]);
    buffer.perform(EditCommand::Redo);
    assert_eq!(buffer.lines(), ["cd"]);
}

#[test]
fn indent_starts_the_history_anew() {
    let mut buffer = buffer_of(&["ab"]);
    buffer.perform(EditCommand::Type(Input::char('x')));
    buffer.perform(EditCommand::Indent);
    buffer.perform(EditCommand::Undo);
    assert_eq!(buffer.lines(), ["    xab"]);
    buffer.perform(EditCommand::Paste);
    assert_eq!(buffer.lines(), ["    xab"]);
}

#[test]
fn keys_without_a_meaning_change_nothing() {
    let mut d = editing("ab\ncd");
    press(&mut d, "jl");
    for c in ['q', 'n', 'z', 'y', 'Q', '0', ' ', '.', 'r', 'I', 'a'] {
        press(&mut d, &c.to_string());
        assert_eq!(lines(&d), ["ab", "cd"]);
        assert_eq!(cursor(&d), (1, 1));
        assert_eq!(d.inputmode(), InputMode::Normal);
        assert_eq!(d.focus(), Focus::NewNote);
    }
    for k in [Key::Enter, Key::Esc, Key::Tab, Key::Left, Key::Delete, Key::Null, Key::F(1),
        Key::MouseScrollDown]
    {
        key(&mut d, k);
        assert_eq!(lines(&d), ["ab", "cd"]);
        assert_eq!(cursor(&d), (1, 1));
        assert_eq!(d.focus(), Focus::NewNote);
    }
}

#[test]
fn insert_mode_lets_the_buffer_answer_named_keys() {
    let mut d = editing("abc");
    press(&mut d, "A");
    key(&mut d, Key::Backspace);
    assert_eq!(lines(&d), ["ab"]);
    key(&mut d, Key::Left);
    assert_eq!(cursor(&d), (0, 1));
    key(&mut d, Key::Delete);
    assert_eq!(lines(&d), ["a"]);
    key(&mut d, Key::Home);
    assert_eq!(cursor(&d), (0, 0));
    key(&mut d, Key::Tab);
    assert_eq!(lines(&d), ["    a"]);
    key(&mut d, Key::End);
    key(&mut d, Key::Enter);
    assert_eq!(lines(&d), ["    a", ""]);
    key(&mut d, Key::Up);
    assert_eq!(cursor(&d), (0, 0));
    key(&mut d, Key::Right);
    key(&mut d, Key::Down);
    assert_eq!(cursor(&d), (1, 0));
    key(&mut d, Key::Null);
    key(&mut d, Key::F(5));
    assert_eq!(lines(&d), ["    a", ""]);
    assert_eq!(d.inputmode(), InputMode::Insert);
}
