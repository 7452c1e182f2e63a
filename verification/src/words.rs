//! Lines as a player types them: where the white space is, where the words
//! are, and what is left when the white space around is taken off.

use vstd::prelude::*;
use vstd::string::StrSliceExecFns;

verus! {

/// Whether a character separates the words of a line: whether it has the
/// Unicode property White_Space. These are the tab, the four line and page
/// controls behind it, the space, the next-line control, the no-break space,
/// the Ogham space mark, the eleven spaces of fixed width, the line and the
/// paragraph separator, the narrow no-break space, the medium mathematical
/// space and the ideographic space.
pub open spec fn white_space(c: char) -> bool {
    ||| '\u{9}' <= c <= '\u{d}'
    ||| c == ' '
    ||| c == '\u{85}'
    ||| c == '\u{a0}'
    ||| c == '\u{1680}'
    ||| '\u{2000}' <= c <= '\u{200a}'
    ||| c == '\u{2028}'
    ||| c == '\u{2029}'
    ||| c == '\u{202f}'
    ||| c == '\u{205f}'
    ||| c == '\u{3000}'
}

/// Whether a character is white space.
fn is_space(c: char) -> (space: bool)
    ensures
        space == white_space(c),
{
    (c >= '\u{9}' && c <= '\u{d}') || c == ' ' || c == '\u{85}' || c == '\u{a0}' || c == '\u{1680}'
        || (c >= '\u{2000}' && c <= '\u{200a}') || c == '\u{2028}' || c == '\u{2029}' || c
        == '\u{202f}' || c == '\u{205f}' || c == '\u{3000}'
}

/// Where the next word begins: the first place from `from` on that holds no
/// white space, or the end of the line.
pub open spec fn word_start(line: Seq<char>, from: int) -> int
    decreases line.len() - from,
{
    if from < 0 || from >= line.len() {
        line.len() as int
    } else if !white_space(line[from]) {
        from
    } else {
        word_start(line, from + 1)
    }
}

/// Where the word that begins at `from` ends: the first place from `from` on
/// that holds white space, or the end of the line.
pub open spec fn word_end(line: Seq<char>, from: int) -> int
    decreases line.len() - from,
{
    if from < 0 || from >= line.len() {
        line.len() as int
    } else if white_space(line[from]) {
        from
    } else {
        word_end(line, from + 1)
    }
}

/// Where the text of a line ends: behind its last character that is no white
/// space, or at zero where there is none.
pub open spec fn text_end(line: Seq<char>) -> int
    decreases line.len(),
{
    if line.len() == 0 {
        0
    } else if white_space(line.last()) {
        text_end(line.drop_last())
    } else {
        line.len() as int
    }
}

/// A line without the white space before and behind its text.
pub open spec fn trimmed(line: Seq<char>) -> Seq<char> {
    if word_start(line, 0) < text_end(line) {
        line.subrange(word_start(line, 0), text_end(line))
    } else {
        Seq::empty()
    }
}

/// The place of the first character from `from` on that is no white space.
pub(crate) fn skip_space(line: &str, from: usize, length: usize) -> (at: usize)
    requires
        length == line@.len(),
        from <= length,
    ensures
        at == word_start(line@, from as int),
        from <= at <= length,
{
    let mut at = from;
    while at < length
        invariant
            from <= at <= length,
            length == line@.len(),
            word_start(line@, at as int) == word_start(line@, from as int),
        decreases length - at,
    {
        if !is_space(line.get_char(at)) {
            return at;
        }
        at += 1;
    }
    at
}

/// The place of the first character from `from` on that is white space.
pub(crate) fn skip_word(line: &str, from: usize, length: usize) -> (at: usize)
    requires
        length == line@.len(),
        from <= length,
    ensures
        at == word_end(line@, from as int),
        from <= at <= length,
{
    let mut at = from;
    while at < length
        invariant
            from <= at <= length,
            length == line@.len(),
            word_end(line@, at as int) == word_end(line@, from as int),
        decreases length - at,
    {
        if is_space(line.get_char(at)) {
            return at;
        }
        at += 1;
    }
    at
}

/// The place behind the last character before `to` that is no white space.
fn skip_space_back(line: &str, to: usize) -> (at: usize)
    requires
        to <= line@.len(),
    ensures
        at == text_end(line@.take(to as int)),
        at <= to,
{
    let mut at = to;
    while at > 0
        invariant
            at <= to <= line@.len(),
            text_end(line@.take(at as int)) == text_end(line@.take(to as int)),
        decreases at,
    {
        let ghost head = line@.take(at as int);
        assert(head.drop_last() =~= line@.take(at - 1));
        if !is_space(line.get_char(at - 1)) {
            return at;
        }
        at -= 1;
    }
    at
}

/// Takes the white space off both ends of a line.
pub fn trim(line: &str) -> (text: &str)
    ensures
        text@ == trimmed(line@),
{
    let length = line.unicode_len();
    assert(line@.take(length as int) =~= line@);
    let start = skip_space(line, 0, length);
    let end = skip_space_back(line, length);
    if start < end {
        line.substring_char(start, end)
    } else {
        line.substring_char(0, 0)
    }
}

} // verus!
