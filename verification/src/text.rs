//! What the parser asks of the text that the grammar engine leaves over: whether it is blank, and
//! what its first line is.

use vstd::prelude::*;
use vstd::string::*;

verus! {

/// Whether `c` is white space: one of the 25 characters that have the Unicode property
/// `White_Space`, line breaks among them.
pub open spec fn white_space(c: char) -> bool {
    ||| '\u{9}' <= c <= '\u{d}'
    ||| c == ' '
    ||| c == '\u{85}'
    ||| c == '\u{a0}'
    ||| c == '\u{1680}'
    ||| '\u{2000}' <= c <= '\u{200a}'
    ||| c == '\u{2028}'
    ||| c == '\u{2029}'
    ||| c == '\u{202f}'
    ||| c == '\u{205f}'
    ||| c == '\u{3000}'
}

/// Whether nothing but white space is in `text`: whether nothing is left of it once white space
/// is trimmed from both ends. The empty text is blank.
pub open spec fn blank(text: Seq<char>) -> bool {
    forall|i: int| 0 <= i < text.len() ==> white_space(#[trigger] text[i])
}

/// The place of the first line feed in `text`, or the length of `text` where it holds none.
pub open spec fn first_line_feed(text: Seq<char>) -> int
    decreases text.len(),
{
    if text.len() == 0 || text[0] == '\n' {
        0
    } else {
        1 + first_line_feed(text.drop_first())
    }
}

/// The first line of `text`, without its line ending. A line ends at a line feed, or at a
/// carriage return that a line feed follows; the last line needs no ending, and a carriage return
/// that no line feed follows belongs to its line. The empty text has the empty first line.
pub open spec fn first_line(text: Seq<char>) -> Seq<char> {
    let feed = first_line_feed(text);
    if 0 < feed < text.len() && text[feed - 1] == '\r' {
        text.take(feed - 1)
    } else {
        text.take(feed)
    }
}

/// [`first_line_feed`] is where the first line feed is: no line feed stands before it, and one
/// stands there unless it is the end of the text.
pub proof fn lemma_first_line_feed(text: Seq<char>)
    ensures
        0 <= first_line_feed(text) <= text.len(),
        forall|i: int| 0 <= i < first_line_feed(text) ==> text[i] != '\n',
        first_line_feed(text) < text.len() ==> text[first_line_feed(text)] == '\n',
    decreases text.len(),
{
    if text.len() == 0 || text[0] == '\n' {
    } else {
        let rest = text.drop_first();
        lemma_first_line_feed(rest);
        assert forall|i: int| 0 <= i < first_line_feed(text) implies text[i] != '\n' by {
            if i > 0 {
                assert(text[i] == rest[i - 1]);
            }
        }
    }
}

/// A place with no line feed before it, which holds a line feed or is the end of the text, is
/// [`first_line_feed`].
pub proof fn lemma_first_line_feed_is(text: Seq<char>, at: int)
    requires
        0 <= at <= text.len(),
        forall|i: int| 0 <= i < at ==> text[i] != '\n',
        at < text.len() ==> text[at] == '\n',
    ensures
        first_line_feed(text) == at,
{
    lemma_first_line_feed(text);
}

/// The first line holds no line feed, and the text begins with it.
pub proof fn lemma_first_line_is_a_prefix(text: Seq<char>)
    ensures
        first_line(text).len() <= text.len(),
        first_line(text) == text.take(first_line(text).len() as int),
        forall|i: int| 0 <= i < first_line(text).len() ==> first_line(text)[i] != '\n',
{
    lemma_first_line_feed(text);
}

/// Whether `c` is white space.
pub fn is_whitespace(c: char) -> (b: bool)
    ensures
        b == white_space(c),
{
    ('\u{9}' <= c && c <= '\u{d}') || c == ' ' || c == '\u{85}' || c == '\u{a0}' || c == '\u{1680}'
        || ('\u{2000}' <= c && c <= '\u{200a}') || c == '\u{2028}' || c == '\u{2029}' || c
        == '\u{202f}' || c == '\u{205f}' || c == '\u{3000}'
}

/// Whether nothing but white space is in `text`.
pub fn is_blank(text: &str) -> (b: bool)
    ensures
        b == blank(text@),
{
    for c in chars: text.chars()
        invariant
            chars.seq() == text@,
            forall|i: int| 0 <= i < chars.index() ==> white_space(#[trigger] text@[i]),
    {
        if !is_whitespace(c) {
            return false;
        }
    }
    true
}

/// The first line of `text`, without its line ending.
pub fn first_line_of(text: &str) -> (line: &str)
    ensures
        line@ == first_line(text@),
{
    let len = text.unicode_len();
    let mut feed: usize = 0;
    let mut after_return = false;
    for c in chars: text.chars()
        invariant
            chars.seq() == text@,
            len == text@.len(),
            feed == chars.index(),
            forall|i: int| 0 <= i < feed ==> text@[i] != '\n',
            after_return == (feed > 0 && text@[feed - 1] == '\r'),
    {
        if c == '\n' {
            proof {
                lemma_first_line_feed_is(text@, feed as int);
            }
            return if after_return {
                text.substring_char(0, feed - 1)
            } else {
                text.substring_char(0, feed)
            };
        }
        after_return = c == '\r';
        feed = feed + 1;
    }
    proof {
        lemma_first_line_feed_is(text@, len as int);
    }
    text
}

} // verus!
