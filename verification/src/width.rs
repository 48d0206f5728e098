//! Display widths of text, and text cut to a width.

use crate::geometry::{greatest, max16, sat16};
use crate::text::{chars_of, text_of, texts};
use ratatui::widgets::{Paragraph, Wrap};
use unicode_width::{UnicodeWidthChar, UnicodeWidthStr};
use vstd::prelude::*;

verus! {

/// The columns that `unicode_width::UnicodeWidthStr::width` gives a text.
pub uninterp spec fn display_width(text: Seq<char>) -> usize;

/// Every character is a printable one of ASCII.
pub open spec fn printable_ascii(text: Seq<char>) -> bool {
    forall|i: int| 0 <= i < text.len() ==> ' ' <= #[trigger] text[i] <= '~'
}

/// The columns a text takes on the screen, by
/// `unicode_width::UnicodeWidthStr::width`.
///
/// Trusted: the result depends on the characters alone, and printable ASCII
/// takes one column for each character.
#[verifier::external_body]
pub(crate) fn width_of(text: &str) -> (r: usize)
    ensures
        r == display_width(text@),
        printable_ascii(text@) ==> r == text@.len(),
{
    UnicodeWidthStr::width(text)
}

/// The columns that `unicode_width::UnicodeWidthChar::width` gives a character,
/// which a control character has none of.
pub uninterp spec fn glyph_width(ch: char) -> Option<usize>;

/// The columns a character takes on the screen, by
/// `unicode_width::UnicodeWidthChar::width`.
///
/// Trusted: the result depends on the character alone, and a printable
/// character of ASCII takes one column.
#[verifier::external_body]
pub(crate) fn glyph_width_of(ch: char) -> (r: Option<usize>)
    ensures
        r == glyph_width(ch),
        ' ' <= ch <= '~' ==> r == Some(1usize),
{
    UnicodeWidthChar::width(ch)
}

/// The widest lines that a text can be wrapped at.
pub const MAX_WRAP_WIDTH: u16 = 16_383;

/// The lines that `ratatui::widgets::Paragraph::line_count` gives a text wrapped
/// at a width with its leading spaces kept.
pub uninterp spec fn wrapped_line_count(text: Seq<char>, width: u16) -> usize;

/// The lines a text takes when it is wrapped at a width with its leading spaces
/// kept, by `ratatui::widgets::Paragraph::line_count`.
///
/// Trusted: the result depends on the characters and the width alone, and at no
/// width there is no line. The columns of a line, of the word and of the space
/// pending behind it, and of one more symbol are added up in sixteen bits: a
/// quarter of that is the widest line that can be counted.
#[verifier::external_body]
pub(crate) fn wrapped_lines(text: &str, width: u16) -> (r: usize)
    requires
        width <= MAX_WRAP_WIDTH,
    ensures
        r == wrapped_line_count(text@, width),
        width == 0 ==> r == 0,
{
    Paragraph::new(text).wrap(Wrap { trim: false }).line_count(width)
}

/// The columns of a text whose characters are measured one by one.
pub open spec fn columns(text: Seq<char>) -> int
    decreases text.len(),
{
    if text.len() == 0 {
        0
    } else {
        columns(text.drop_last()) + display_width(seq![text.last()])
    }
}

/// The columns of one character.
pub fn char_width(ch: char) -> (r: usize)
    ensures
        r == display_width(seq![ch]),
{
    let mut single = String::new();
    single.push(ch);
    assert(single@ =~= seq![ch]);
    width_of(single.as_str())
}

/// How many characters of a text fit a number of columns, given that the first
/// `n` do.
pub open spec fn fitting(text: Seq<char>, maximum: int, n: int) -> int
    decreases text.len() - n,
{
    if 0 <= n < text.len() && columns(text.take(n + 1)) <= maximum {
        fitting(text, maximum, n + 1)
    } else {
        n
    }
}

/// The longest beginning of a text that fits a number of columns.
pub open spec fn clipped(text: Seq<char>, maximum: int) -> Seq<char> {
    text.take(fitting(text, maximum, 0))
}

/// How many characters fit lies between what is known to fit and the whole, and
/// they do fit.
pub proof fn fitting_fits(text: Seq<char>, maximum: int, n: int)
    requires
        0 <= n <= text.len(),
        columns(text.take(n)) <= maximum,
    ensures
        n <= fitting(text, maximum, n) <= text.len(),
        columns(text.take(fitting(text, maximum, n))) <= maximum,
    decreases text.len() - n,
{
    if n < text.len() && columns(text.take(n + 1)) <= maximum {
        fitting_fits(text, maximum, n + 1);
    }
}

/// Cuts a text to the longest beginning that fits a number of columns.
pub fn clipped_width(text: &str, maximum: usize) -> (r: String)
    ensures
        r@ == clipped(text@, maximum as int),
        columns(r@) <= maximum,
{
    let chars = chars_of(text);
    let mut used: usize = 0;
    let mut n: usize = 0;
    assert(text@.take(0) =~= Seq::<char>::empty());
    proof {
        fitting_fits(text@, maximum as int, 0);
    }
    while n < chars.len()
        invariant
            n <= chars@.len(),
            chars@ == text@,
            used == columns(text@.take(n as int)),
            used <= maximum,
            fitting(text@, maximum as int, 0) == fitting(text@, maximum as int, n as int),
            columns(clipped(text@, maximum as int)) <= maximum,
        decreases chars.len() - n,
    {
        let step: usize = char_width(chars[n]);
        assert(text@.take(n + 1).drop_last() =~= text@.take(n as int));
        if step > maximum - used {
            let r = text_of(&chars, 0, n);
            assert(r@ =~= text@.take(n as int));
            return r;
        }
        used = used + step;
        n += 1;
    }
    let r = text_of(&chars, 0, n);
    assert(r@ =~= text@.take(n as int));
    r
}

/// How many characters at the end of a text fit a number of columns, given that
/// the last `n` do.
pub open spec fn fitting_end(text: Seq<char>, maximum: int, n: int) -> int
    decreases text.len() - n,
{
    if 0 <= n < text.len() && columns_back(text, n + 1) <= maximum {
        fitting_end(text, maximum, n + 1)
    } else {
        n
    }
}

/// The columns of the last `n` characters of a text, measured one by one.
pub open spec fn columns_back(text: Seq<char>, n: int) -> int
    decreases n,
{
    if n <= 0 {
        0
    } else {
        columns_back(text, n - 1) + display_width(seq![text[text.len() - n]])
    }
}

/// What stands for text left out.
pub const ELLIPSIS: &'static str = "\u{2026}";

/// A text that keeps both ends and leaves out the middle where it is too wide.
pub open spec fn elided(text: Seq<char>, maximum: int) -> Seq<char> {
    if maximum <= 0 {
        seq![]
    } else if display_width(text) <= maximum {
        text
    } else if maximum <= 2 {
        clipped(text, maximum)
    } else {
        let head = maximum / 2;
        clipped(text, head) + ELLIPSIS@ + text.skip(
            text.len() - fitting_end(text, maximum - head - 1, 0),
        )
    }
}

/// Keeps both ends of a long identifier by leaving out the middle.
pub fn elide_middle(value: &str, maximum: usize) -> (r: String)
    ensures
        r@ == elided(value@, maximum as int),
{
    if maximum == 0 {
        return String::new();
    }
    if width_of(value) <= maximum {
        return value.to_owned();
    }
    if maximum <= 2 {
        return clipped_width(value, maximum);
    }
    let head: usize = maximum / 2;
    let tail: usize = maximum - head - 1;
    let chars = chars_of(value);
    let mut used: usize = 0;
    let mut n: usize = 0;
    while n < chars.len()
        invariant
            n <= chars@.len(),
            chars@ == value@,
            used == columns_back(value@, n as int),
            used <= tail,
            fitting_end(value@, tail as int, 0) == fitting_end(value@, tail as int, n as int),
        ensures
            n == fitting_end(value@, tail as int, 0),
            n <= chars@.len(),
        decreases chars.len() - n,
    {
        let step: usize = char_width(chars[chars.len() - 1 - n]);
        if step > tail - used {
            break;
        }
        used = used + step;
        n += 1;
    }
    let mut out = clipped_width(value, head);
    out.append(ELLIPSIS);
    let suffix = text_of(&chars, chars.len() - n, chars.len());
    out.append(suffix.as_str());
    assert(suffix@ =~= value@.skip(value@.len() - n));
    out
}

/// The columns of two texts add up.
pub proof fn columns_add(a: Seq<char>, b: Seq<char>)
    ensures
        columns(a + b) == columns(a) + columns(b),
    decreases b.len(),
{
    if b.len() == 0 {
        assert(a + b =~= a);
    } else {
        columns_add(a, b.drop_last());
        assert((a + b).drop_last() =~= a + b.drop_last());
    }
}

proof fn columns_of_end(text: Seq<char>, n: int)
    requires
        0 <= n <= text.len(),
    ensures
        columns(text.skip(text.len() - n)) == columns_back(text, n),
    decreases n,
{
    if n > 0 {
        columns_of_end(text, n - 1);
        let first = seq![text[text.len() - n]];
        assert(first.drop_last() =~= Seq::<char>::empty());
        assert(columns(first) == display_width(first)) by {
            reveal_with_fuel(columns, 2);
            assert(seq![first.last()] =~= first);
        }
        assert(text.skip(text.len() - n) =~= first + text.skip(text.len() - (n - 1)));
        columns_add(first, text.skip(text.len() - (n - 1)));
    } else {
        assert(text.skip(text.len() as int) =~= Seq::<char>::empty());
    }
}

proof fn fitting_end_fits(text: Seq<char>, maximum: int, n: int)
    requires
        0 <= n <= text.len(),
        columns_back(text, n) <= maximum,
    ensures
        n <= fitting_end(text, maximum, n) <= text.len(),
        columns_back(text, fitting_end(text, maximum, n)) <= maximum,
    decreases text.len() - n,
{
    if n < text.len() && columns_back(text, n + 1) <= maximum {
        fitting_end_fits(text, maximum, n + 1);
    }
}

/// A text that lost its middle is no wider than asked for, each character
/// measured alone, where the ellipsis takes one column.
pub proof fn elided_is_bounded(text: Seq<char>, maximum: int)
    requires
        maximum >= 0,
        columns(ELLIPSIS@) == 1,
        display_width(text) > maximum,
    ensures
        columns(elided(text, maximum)) <= maximum,
{
    if maximum > 2 {
        let head = maximum / 2;
        let tail = maximum - head - 1;
        assert(text.take(0) =~= Seq::<char>::empty());
        fitting_fits(text, head, 0);
        fitting_end_fits(text, tail, 0);
        let end = fitting_end(text, tail, 0);
        columns_of_end(text, end);
        columns_add(clipped(text, head), ELLIPSIS@);
        columns_add(clipped(text, head) + ELLIPSIS@, text.skip(text.len() - end));
    } else if maximum > 0 {
        assert(text.take(0) =~= Seq::<char>::empty());
        fitting_fits(text, maximum, 0);
    }
}

/// Measures the widest of texts.
pub fn widest(list: &Vec<String>) -> (r: u16)
    ensures
        r == widest_of(texts(list@), list@.len() as int),
{
    let mut most: u16 = 0;
    let mut i: usize = 0;
    while i < list.len()
        invariant
            i <= list@.len(),
            most == widest_of(texts(list@), i as int),
        decreases list.len() - i,
    {
        let width: usize = width_of(list[i].as_str());
        let columns: u16 = if width <= 65535 {
            width as u16
        } else {
            65535
        };
        assert(texts(list@)[i as int] == list@[i as int]@);
        most = max16(most, columns);
        i += 1;
    }
    most
}

/// The widest of the first `n` texts, at most the last coordinate.
pub open spec fn widest_of(list: Seq<Seq<char>>, n: int) -> int
    decreases n,
{
    if n <= 0 {
        0
    } else {
        greatest(widest_of(list, n - 1), sat16(display_width(list[n - 1]) as int))
    }
}

/// A text that is cut is cut at the longest beginning that fits, and one that fits
/// is kept whole.
pub proof fn clipped_is_the_longest(text: Seq<char>, maximum: int)
    requires
        maximum >= 0,
    ensures
        clipped(text, maximum).is_prefix_of(text),
        columns(clipped(text, maximum)) <= maximum,
        clipped(text, maximum).len() < text.len() ==> columns(
            text.take(clipped(text, maximum).len() as int + 1),
        ) > maximum,
{
    assert(text.take(0) =~= Seq::<char>::empty());
    fitting_fits(text, maximum, 0);
    longest_is_found(text, maximum, 0);
}

proof fn longest_is_found(text: Seq<char>, maximum: int, n: int)
    requires
        0 <= n <= text.len(),
    ensures
        n <= fitting(text, maximum, n) <= text.len(),
        fitting(text, maximum, n) < text.len() ==> columns(
            text.take(fitting(text, maximum, n) + 1),
        ) > maximum,
    decreases text.len() - n,
{
    if n < text.len() && columns(text.take(n + 1)) <= maximum {
        longest_is_found(text, maximum, n + 1);
    }
}

/// A text that fits keeps its middle; one that does not keeps a beginning and an
/// end round the sign of what is left out.
pub proof fn elided_keeps_both_ends(text: Seq<char>, maximum: int)
    requires
        maximum > 2,
    ensures
        display_width(text) <= maximum ==> elided(text, maximum) == text,
        display_width(text) > maximum ==> exists|head: Seq<char>, tail: Seq<char>|
            elided(text, maximum) == #[trigger] (head + ELLIPSIS@ + tail) && head.is_prefix_of(text)
                && tail.is_suffix_of(text),
{
    if display_width(text) > maximum {
        let room = maximum / 2;
        let head = clipped(text, room);
        clipped_is_the_longest(text, room);
        fitting_end_fits(text, maximum - room - 1, 0);
        let end = fitting_end(text, maximum - room - 1, 0);
        let tail = text.skip(text.len() - end);
        assert(text.skip(text.len() - tail.len()) =~= tail);
        assert(elided(text, maximum) == head + ELLIPSIS@ + tail);
    }
}

} // verus!
