//! Text helpers shared by the feed and the dispatcher: substring tests,
//! joining and splitting lines, and line indentation.

use vstd::prelude::*;
use vstd::string::StringExecFns;
use vstd::string::StrSliceExecFns;

verus! {

/// `pat` occurs in `text` as a contiguous run of characters.
pub open spec fn is_substring(text: Seq<char>, pat: Seq<char>) -> bool {
    exists|i: int|
        0 <= i && i + pat.len() <= text.len() && #[trigger] text.subrange(i, i + pat.len()) == pat
}

/// No character of `line` is a line feed.
pub open spec fn unbroken(line: Seq<char>) -> bool {
    forall|i: int| 0 <= i < line.len() ==> line[i] != '\n'
}

/// No line of `lines` holds a line feed.
pub open spec fn all_unbroken(lines: Seq<Seq<char>>) -> bool {
    forall|i: int| 0 <= i < lines.len() ==> unbroken(#[trigger] lines[i])
}

/// The lines joined with one line break between neighbours.
pub open spec fn joined(lines: Seq<Seq<char>>) -> Seq<char>
    decreases lines.len(),
{
    if lines.len() == 0 {
        Seq::empty()
    } else if lines.len() == 1 {
        lines[0]
    } else {
        joined(lines.drop_last()) + seq!['\n'] + lines.last()
    }
}

/// The lines glued together with nothing between them.
pub open spec fn concatenated(lines: Seq<Seq<char>>) -> Seq<char>
    decreases lines.len(),
{
    if lines.len() == 0 {
        Seq::empty()
    } else {
        concatenated(lines.drop_last()) + lines.last()
    }
}

/// Position of the first line break in `s`, or `s.len()` if there is none.
pub open spec fn first_break(s: Seq<char>) -> int
    decreases s.len(),
{
    if s.len() == 0 || s[0] == '\n' {
        0
    } else {
        1 + first_break(s.drop_first())
    }
}

/// `s` without one trailing carriage return.
pub open spec fn strip_cr(s: Seq<char>) -> Seq<char> {
    if s.len() > 0 && s.last() == '\r' {
        s.drop_last()
    } else {
        s
    }
}

/// The lines of a text. A line ends at a line feed, or at a carriage return
/// directly followed by one; the terminator belongs to no line. A last line
/// without terminator keeps a trailing carriage return, and the empty text has
/// no lines.
pub open spec fn text_lines(s: Seq<char>) -> Seq<Seq<char>>
    decreases s.len(),
{
    let i = first_break(s);
    if s.len() == 0 {
        Seq::empty()
    } else if 0 <= i < s.len() {
        seq![strip_cr(s.take(i))] + text_lines(s.skip(i + 1))
    } else {
        seq![s]
    }
}

/// Number of spaces at the head of `line`, counted up to `limit`.
pub open spec fn leading_spaces(line: Seq<char>, limit: nat) -> nat
    decreases limit,
{
    if limit == 0 || line.len() == 0 || line[0] != ' ' {
        0
    } else {
        1 + leading_spaces(line.drop_first(), (limit - 1) as nat)
    }
}

/// `line` moved right by four spaces.
pub open spec fn indented(line: Seq<char>) -> Seq<char> {
    seq![' ', ' ', ' ', ' '] + line
}

/// `line` without its leading spaces, four of them at most.
pub open spec fn outdented(line: Seq<char>) -> Seq<char> {
    line.skip(leading_spaces(line, 4) as int)
}

/// `str::contains` with a string pattern: whether the pattern matches a
/// sub-slice of the text. Both are valid UTF-8, so a match of bytes is a match
/// of characters.
#[verifier::external_body]
pub(crate) fn str_contains(text: &str, pat: &str) -> (found: bool)
    ensures
        found == is_substring(text@, pat@),
{
    text.contains(pat)
}

/// `str::lines`, each line copied into a `String`.
#[verifier::external_body]
pub(crate) fn str_lines(text: &str) -> (lines: Vec<String>)
    ensures
        lines.deep_view() == text_lines(text@),
{
    text.lines().map(|l| l.to_string()).collect()
}

/// The lines of a buffer as one text, a line break between neighbours.
pub fn join_lines(lines: &Vec<String>) -> (text: String)
    ensures
        text@ == joined(lines.deep_view()),
{
    let mut text = String::new();
    let mut i: usize = 0;
    while i < lines.len()
        invariant
            i <= lines.len(),
            text@ == joined(lines.deep_view().take(i as int)),
        decreases lines.len() - i,
    {
        proof {
            let all = lines.deep_view();
            assert(all.take(i + 1).drop_last() == all.take(i as int));
            assert(all.take(i + 1).last() == lines@[i as int]@);
            if i > 0 {
                assert(all.take(i as int).len() > 0);
            }
        }
        if i > 0 {
            text.append("\n");
            proof {
                reveal_strlit("\n");
                assert("\n"@ == seq!['\n']);
            }
        }
        text.append(lines[i].as_str());
        i += 1;
    }
    proof {
        assert(lines.deep_view().take(lines.len() as int) == lines.deep_view());
    }
    text
}

/// The lines of a buffer glued together with nothing between them.
pub fn concat_lines(lines: &Vec<String>) -> (text: String)
    ensures
        text@ == concatenated(lines.deep_view()),
{
    let mut text = String::new();
    let mut i: usize = 0;
    while i < lines.len()
        invariant
            i <= lines.len(),
            text@ == concatenated(lines.deep_view().take(i as int)),
        decreases lines.len() - i,
    {
        proof {
            let all = lines.deep_view();
            assert(all.take(i + 1).drop_last() == all.take(i as int));
            assert(all.take(i + 1).last() == lines@[i as int]@);
        }
        text.append(lines[i].as_str());
        i += 1;
    }
    proof {
        assert(lines.deep_view().take(lines.len() as int) == lines.deep_view());
    }
    text
}

/// Puts four spaces in front of `line`.
pub fn indent_line(line: &String) -> (out: String)
    ensures
        out@ == indented(line@),
{
    let mut out = String::from_str("    ");
    proof {
        reveal_strlit("    ");
        assert("    "@ == seq![' ', ' ', ' ', ' ']);
    }
    out.append(line.as_str());
    out
}

/// Takes the leading spaces off `line`, four of them at most.
pub fn outdent_line(line: &String) -> (out: String)
    ensures
        out@ == outdented(line@),
{
    let s = line.as_str();
    let len = s.unicode_len();
    let mut k: usize = 0;
    proof {
        assert(s@.skip(0) == s@);
    }
    while k < 4 && k < len && s.get_char(k) == ' '
        invariant
            k <= 4,
            k <= len,
            len == s@.len(),
            leading_spaces(s@, 4) == k + leading_spaces(s@.skip(k as int), (4 - k) as nat),
        decreases 4 - k,
    {
        proof {
            let rest = s@.skip(k as int);
            assert(rest[0] == s@[k as int]);
            assert(rest.drop_first() == s@.skip(k + 1));
        }
        k += 1;
    }
    proof {
        let rest = s@.skip(k as int);
        if k < 4 && k < len {
            assert(rest[0] == s@[k as int]);
        }
        assert(leading_spaces(rest, (4 - k) as nat) == 0);
    }
    String::from_str(s.substring_char(k, len))
}

/// Lines without line feeds, glued together, hold no line feed.
pub proof fn lemma_concatenated_unbroken(lines: Seq<Seq<char>>)
    requires
        all_unbroken(lines),
    ensures
        unbroken(concatenated(lines)),
    decreases lines.len(),
{
    if lines.len() > 0 {
        lemma_concatenated_unbroken(lines.drop_last());
        assert(unbroken(lines.last()));
    }
}

/// Before the first line break of a text there is no line feed.
pub proof fn lemma_first_break(s: Seq<char>)
    ensures
        0 <= first_break(s) <= s.len(),
        unbroken(s.take(first_break(s))),
    decreases s.len(),
{
    if s.len() > 0 && s[0] != '\n' {
        let rest = s.drop_first();
        lemma_first_break(rest);
        let i = first_break(s);
        assert forall|k: int| 0 <= k < s.take(i).len() implies s.take(i)[k] != '\n' by {
            if k > 0 {
                assert(s.take(i)[k] == rest.take(i - 1)[k - 1]);
            }
        }
    }
}

/// The lines of a text hold no line feed.
pub proof fn lemma_text_lines_unbroken(s: Seq<char>)
    ensures
        all_unbroken(text_lines(s)),
    decreases s.len(),
{
    let i = first_break(s);
    lemma_first_break(s);
    if s.len() > 0 {
        if 0 <= i < s.len() {
            lemma_text_lines_unbroken(s.skip(i + 1));
            let head = strip_cr(s.take(i));
            let tail = text_lines(s.skip(i + 1));
            assert(unbroken(head));
            assert forall|k: int| 0 <= k < text_lines(s).len() implies unbroken(
                #[trigger] text_lines(s)[k],
            ) by {
                if k > 0 {
                    assert(text_lines(s)[k] == tail[k - 1]);
                }
            }
        } else {
            assert(s.take(i) == s);
        }
    }
}

/// A line without line feed has none after it was indented or outdented.
pub proof fn lemma_shifted_unbroken(line: Seq<char>)
    requires
        unbroken(line),
    ensures
        unbroken(indented(line)),
        unbroken(outdented(line)),
{
    let k = leading_spaces(line, 4) as int;
    assert forall|i: int| 0 <= i < outdented(line).len() implies outdented(line)[i] != '\n' by {
        lemma_leading_spaces(line, 4);
        assert(outdented(line)[i] == line[i + k]);
    }
}

/// The spaces counted at the head of a line are no more than the line has
/// characters.
pub proof fn lemma_leading_spaces(line: Seq<char>, limit: nat)
    ensures
        leading_spaces(line, limit) <= line.len(),
        leading_spaces(line, limit) <= limit,
    decreases limit,
{
    if !(limit == 0 || line.len() == 0 || line[0] != ' ') {
        lemma_leading_spaces(line.drop_first(), (limit - 1) as nat);
    }
}

/// Indenting a line and then outdenting it gives the line back.
pub proof fn lemma_outdent_indent(line: Seq<char>)
    ensures
        outdented(indented(line)) == line,
{
    let l0 = indented(line);
    let l1 = l0.drop_first();
    let l2 = l1.drop_first();
    let l3 = l2.drop_first();
    let l4 = l3.drop_first();
    assert(l4 == line);
    assert(leading_spaces(l4, 0) == 0);
    assert(leading_spaces(l3, 1) == 1);
    assert(leading_spaces(l2, 2) == 2);
    assert(leading_spaces(l1, 3) == 3);
    assert(leading_spaces(l0, 4) == 4);
    assert(l0.skip(4) == line);
}

} // verus!
