use feednotes::text::concat_lines;
use feednotes::text::indent_line;
use feednotes::text::join_lines;
use feednotes::text::outdent_line;

fn strings(lines: &[&str]) -> Vec<String> {
    lines.iter().map(|l| l.to_string()).collect()
}

#[test]
fn join_puts_one_break_between_lines() {
    assert_eq!(join_lines(&strings(&["a", "b", "c"])), "a\nb\nc");
    assert_eq!(join_lines(&strings(&["a", "", "c"])), "a\n\nc");
    assert_eq!(join_lines(&strings(&["", ""])), "\n");
}

#[test]
fn join_of_one_line_is_the_line() {
    assert_eq!(join_lines(&strings(&["hello"])), "hello");
    assert_eq!(join_lines(&strings(&[""])), "");
}

#[test]
fn join_of_no_lines_is_empty() {
    assert_eq!(join_lines(&Vec::new()), "");
}

#[test]
fn concat_puts_nothing_between_lines() {
    assert_eq!(concat_lines(&strings(&["al", "pha"])), "alpha");
    assert_eq!(concat_lines(&strings(&["a"])), "a");
    assert_eq!(concat_lines(&Vec::new()), "");
}

#[test]
fn indent_adds_four_spaces() {
    assert_eq!(indent_line(&"abc".to_string()), "    abc");
    assert_eq!(indent_line(&"  abc".to_string()), "      abc");
    assert_eq!(indent_line(&"".to_string()), "    ");
    assert_eq!(indent_line(&"é🐱".to_string()), "    é🐱");
}

#[test]
fn outdent_takes_up_to_four_leading_spaces() {
    assert_eq!(outdent_line(&"    abc".to_string()), "abc");
    assert_eq!(outdent_line(&"      abc".to_string()), "  abc");
    assert_eq!(outdent_line(&"  abc".to_string()), "abc");
    assert_eq!(outdent_line(&" abc".to_string()), "abc");
    assert_eq!(outdent_line(&"abc".to_string()), "abc");
    assert_eq!(outdent_line(&"".to_string()), "");
    assert_eq!(outdent_line(&"   ".to_string()), "");
    assert_eq!(outdent_line(&"     ".to_string()), " ");
}

#[test]
fn outdent_leaves_inner_spaces_and_tabs() {
    assert_eq!(outdent_line(&"a   b".to_string()), "a   b");
    assert_eq!(outdent_line(&"\t  abc".to_string()), "\t  abc");
    assert_eq!(outdent_line(&"  é 🐱".to_string()), "é 🐱");
}

#[test]
fn outdent_undoes_indent() {
    for line in ["", "abc", " abc", "  abc", "   abc", "    abc", "      abc", " ", "é🐱 x"] {
        let line = line.to_string();
        assert_eq!(outdent_line(&indent_line(&line)), line);
    }
}
