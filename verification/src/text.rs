//! Text as sequences of characters.

use vstd::prelude::*;
use vstd::utf8::{encode_scalar, encode_utf8};

verus! {

/// `String::push` puts a character at the end.
pub assume_specification[ std::string::String::push ](text: &mut std::string::String, ch: char)
    ensures
        final(text)@ == old(text)@.push(ch),
;

/// The characters of a text in order.
pub fn chars_of(text: &str) -> (r: Vec<char>)
    ensures
        r@ == text@,
{
    let mut out: Vec<char> = Vec::new();
    for ch in it: text.chars()
        invariant
            it.seq() == text@,
            out@ == text@.take(it.index()),
    {
        out.push(ch);
    }
    assert(text@.take(text@.len() as int) =~= text@);
    out
}

/// A text from its characters in `[from, to)`.
pub fn text_of(chars: &Vec<char>, from: usize, to: usize) -> (r: String)
    requires
        from <= to <= chars@.len(),
    ensures
        r@ == chars@.subrange(from as int, to as int),
{
    let mut out = String::new();
    let mut i: usize = from;
    while i < to
        invariant
            from <= i <= to <= chars@.len(),
            out@ == chars@.subrange(from as int, i as int),
        decreases to - i,
    {
        out.push(chars[i]);
        i += 1;
    }
    out
}

/// Whether two texts hold the same characters.
pub fn same(a: &str, b: &str) -> (r: bool)
    ensures
        r == (a@ == b@),
{
    a.to_owned() == b.to_owned()
}

/// An ASCII capital as its small letter; any other character as it is.
pub open spec fn spec_ascii_lower(ch: char) -> char {
    if 'A' <= ch <= 'Z' {
        (ch as u8 + 32) as char
    } else {
        ch
    }
}

pub fn ascii_lower(ch: char) -> (r: char)
    ensures
        r == spec_ascii_lower(ch),
{
    if 'A' <= ch && ch <= 'Z' {
        (ch as u8 + 32) as char
    } else {
        ch
    }
}

/// The characters of a list of texts.
pub open spec fn texts(list: Seq<String>) -> Seq<Seq<char>> {
    list.map_values(|text: String| text@)
}

/// A decimal digit.
pub open spec fn digit_char(digit: int) -> char {
    (digit + 48) as char
}

/// A number in decimal digits.
pub open spec fn decimal(n: nat) -> Seq<char>
    decreases n,
{
    if n < 10 {
        seq![digit_char(n as int)]
    } else {
        decimal(n / 10).push(digit_char((n % 10) as int))
    }
}

/// Writes a number in decimal digits.
pub fn decimal_text(n: u64) -> (r: String)
    ensures
        r@ == decimal(n as nat),
    decreases n,
{
    if n < 10 {
        let mut out = String::new();
        out.push((n as u8 + 48) as char);
        assert(out@ =~= seq![digit_char(n as int)]);
        out
    } else {
        let mut out = decimal_text(n / 10);
        out.push(((n % 10) as u8 + 48) as char);
        out
    }
}

/// `count` spaces.
pub open spec fn spaces(count: int) -> Seq<char> {
    Seq::new((if count < 0 { 0 } else { count }) as nat, |i: int| ' ')
}

pub fn push_spaces(text: &mut String, count: usize)
    ensures
        final(text)@ == old(text)@ + spaces(count as int),
{
    let ghost before = text@;
    let mut i: usize = 0;
    assert(text@ =~= before + spaces(0));
    while i < count
        invariant
            i <= count,
            text@ == before + spaces(i as int),
        decreases count - i,
    {
        text.push(' ');
        i += 1;
        assert(text@ =~= before + spaces(i as int));
    }
}

/// A text filled up with spaces behind it to a number of characters.
pub open spec fn padded_right(text: Seq<char>, count: int) -> Seq<char> {
    text + spaces(count - text.len())
}

/// A text filled up with spaces before it to a number of characters.
pub open spec fn padded_left(text: Seq<char>, count: int) -> Seq<char> {
    spaces(count - text.len()) + text
}

pub fn pad_right(text: &str, count: usize) -> (r: String)
    ensures
        r@ == padded_right(text@, count as int),
{
    let len: usize = text.unicode_len();
    let mut out = text.to_owned();
    if len < count {
        push_spaces(&mut out, count - len);
    }
    assert(out@ =~= padded_right(text@, count as int));
    out
}

pub fn pad_left(text: &str, count: usize) -> (r: String)
    ensures
        r@ == padded_left(text@, count as int),
{
    let len: usize = text.unicode_len();
    let mut out = String::new();
    if len < count {
        push_spaces(&mut out, count - len);
    }
    out.append(text);
    assert(out@ =~= padded_left(text@, count as int));
    out
}

/// Texts one after another with a separator between neighbours.
pub open spec fn joined(list: Seq<Seq<char>>, separator: Seq<char>) -> Seq<char>
    decreases list.len(),
{
    if list.len() == 0 {
        seq![]
    } else if list.len() == 1 {
        list[0]
    } else {
        joined(list.drop_last(), separator) + separator + list.last()
    }
}

/// Joins texts with a separator.
pub fn join(list: &Vec<String>, separator: &str) -> (r: String)
    ensures
        r@ == joined(texts(list@), separator@),
{
    let mut out = String::new();
    let mut i: usize = 0;
    let ghost all = texts(list@);
    assert(joined(all.take(0), separator@) =~= seq![]);
    while i < list.len()
        invariant
            i <= list@.len(),
            all == texts(list@),
            out@ == joined(all.take(i as int), separator@),
        decreases list.len() - i,
    {
        if i > 0 {
            out.append(separator);
        }
        out.append(list[i].as_str());
        i += 1;
        assert(all.take(i as int).drop_last() =~= all.take(i - 1));
        assert(all.take(i as int).last() == list@[i - 1]@);
        if i == 1 {
            assert(out@ =~= list@[0]@);
        }
    }
    assert(all.take(i as int) =~= all);
    out
}

/// What `str::to_lowercase` makes of a text.
pub uninterp spec fn lowercase(text: Seq<char>) -> Seq<char>;

/// A character of Latin-1 as its small letter: the capitals of ASCII, and those
/// from A with grave to thorn but for the multiplication sign between them, have
/// theirs 32 places on; any other character is as it is.
pub open spec fn latin_lower(ch: char) -> char {
    if 'A' <= ch <= 'Z' || '\u{c0}' <= ch <= '\u{de}' && ch != '\u{d7}' {
        (ch as u8 + 32) as char
    } else {
        ch
    }
}

/// Every character is one of Latin-1.
pub open spec fn is_latin(text: Seq<char>) -> bool {
    forall|i: int| 0 <= i < text.len() ==> #[trigger] text[i] <= '\u{ff}'
}

/// A text in lower case, by `str::to_lowercase`.
///
/// Trusted: the result depends on the characters alone, and in Latin-1, ASCII
/// included, it is each character's small letter.
#[verifier::external_body]
pub(crate) fn lowercase_of(text: &str) -> (r: String)
    ensures
        r@ == lowercase(text@),
        is_latin(text@) ==> r@ == text@.map_values(|ch: char| latin_lower(ch)),
{
    text.to_lowercase()
}

/// A character in lower case: in Latin-1 its small letter, and beyond it what
/// `str::to_lowercase` makes of it where that is one character.
pub open spec fn lowered(ch: char) -> char {
    let low = lowercase(seq![ch]);
    if ch <= '\u{ff}' {
        latin_lower(ch)
    } else if low.len() == 1 {
        low[0]
    } else {
        ch
    }
}

/// Puts a character in lower case.
pub fn lower_char(ch: char) -> (r: char)
    ensures
        r == lowered(ch),
{
    let mut single = String::new();
    single.push(ch);
    assert(single@ =~= seq![ch]);
    let low = chars_of(lowercase_of(single.as_str()).as_str());
    if low.len() == 1 {
        low[0]
    } else {
        ch
    }
}

/// White space: the characters with the Unicode property White_Space.
pub open spec fn white(ch: char) -> bool {
    ||| '\t' <= ch <= '\r'
    ||| ch == ' '
    ||| ch == '\u{85}'
    ||| ch == '\u{a0}'
    ||| ch == '\u{1680}'
    ||| '\u{2000}' <= ch <= '\u{200a}'
    ||| '\u{2028}' <= ch <= '\u{2029}'
    ||| ch == '\u{202f}'
    ||| ch == '\u{205f}'
    ||| ch == '\u{3000}'
}

/// Whether a character is white space, by `char::is_whitespace`.
///
/// Trusted: it is one of the characters with the property White_Space, and only
/// these.
#[verifier::external_body]
pub(crate) fn is_white(ch: char) -> (r: bool)
    ensures
        r == white(ch),
{
    ch.is_whitespace()
}

/// How the `Debug` form of `str` writes a text.
pub uninterp spec fn debug_form(text: Seq<char>) -> Seq<char>;

/// A character that the `Debug` form of a text writes as it is.
pub open spec fn is_quotable(ch: char) -> bool {
    ' ' <= ch <= '~' && ch != '"' && ch != '\\'
}

/// A text in quotes with what needs it escaped, by the `Debug` form of `str`.
///
/// Trusted: the result depends on the characters alone; printable ASCII but for
/// the double quote and the backslash stands between the quotes as it is.
#[verifier::external_body]
pub(crate) fn debug_of(text: &str) -> (r: String)
    ensures
        r@ == debug_form(text@),
        (forall|i: int| 0 <= i < text@.len() ==> is_quotable(#[trigger] text@[i])) ==> r@
            == seq!['"'] + text@ + seq!['"'],
{
    format!("{:?}", text)
}

/// A text without the white space it begins with.
pub open spec fn trimmed_front(text: Seq<char>) -> Seq<char>
    decreases text.len(),
{
    if text.len() > 0 && white(text[0]) {
        trimmed_front(text.skip(1))
    } else {
        text
    }
}

/// A text without the white space it ends with.
pub open spec fn trimmed_back(text: Seq<char>) -> Seq<char>
    decreases text.len(),
{
    if text.len() > 0 && white(text.last()) {
        trimmed_back(text.drop_last())
    } else {
        text
    }
}

/// A text without the white space round it.
pub open spec fn trimmed(text: Seq<char>) -> Seq<char> {
    trimmed_back(trimmed_front(text))
}

/// Cuts off the white space round a text.
pub fn trim(text: &str) -> (r: String)
    ensures
        r@ == trimmed(text@),
{
    let chars = chars_of(text);
    let mut from: usize = 0;
    assert(chars@.skip(0) =~= chars@);
    while from < chars.len() && is_white(chars[from])
        invariant
            from <= chars@.len(),
            chars@ == text@,
            trimmed_front(text@) == trimmed_front(chars@.skip(from as int)),
        decreases chars.len() - from,
    {
        assert(chars@.skip(from as int).skip(1) =~= chars@.skip(from + 1));
        from += 1;
    }
    assert(trimmed_front(text@) == chars@.skip(from as int));
    let mut to: usize = chars.len();
    assert(chars@.subrange(from as int, to as int) =~= chars@.skip(from as int));
    while from < to && is_white(chars[to - 1])
        invariant
            from <= to <= chars@.len(),
            trimmed(text@) == trimmed_back(chars@.subrange(from as int, to as int)),
        decreases to,
    {
        assert(chars@.subrange(from as int, to as int).drop_last() =~= chars@.subrange(
            from as int,
            to - 1,
        ));
        to -= 1;
    }
    text_of(&chars, from, to)
}

/// Whether a text holds another somewhere.
pub open spec fn holds(text: Seq<char>, part: Seq<char>) -> bool {
    exists|i: int|
        0 <= i <= text.len() - part.len() && #[trigger] text.subrange(i, i + part.len()) == part
}

fn matches_at(text: &Vec<char>, part: &Vec<char>, at: usize) -> (r: bool)
    requires
        at + part@.len() <= text@.len(),
    ensures
        r == (text@.subrange(at as int, at + part@.len()) == part@),
{
    let mut i: usize = 0;
    while i < part.len()
        invariant
            i <= part@.len(),
            at + part@.len() <= text@.len(),
            forall|j: int| 0 <= j < i ==> text@[at + j] == part@[j],
        decreases part.len() - i,
    {
        assert(at + i < text.len());
        if text[at + i] != part[i] {
            assert(text@.subrange(at as int, at + part@.len())[i as int] != part@[i as int]);
            return false;
        }
        i += 1;
    }
    assert(text@.subrange(at as int, at + part@.len()) =~= part@);
    true
}

/// Whether a text holds another somewhere.
pub fn contains_text(text: &str, part: &str) -> (r: bool)
    ensures
        r == holds(text@, part@),
{
    let hay = chars_of(text);
    let needle = chars_of(part);
    if needle.len() > hay.len() {
        return false;
    }
    let last: usize = hay.len() - needle.len();
    let mut i: usize = 0;
    loop
        invariant
            i <= last,
            last + needle@.len() == hay@.len(),
            hay@ == text@,
            needle@ == part@,
            forall|j: int|
                0 <= j < i ==> #[trigger] text@.subrange(j, j + part@.len()) != part@,
        decreases last - i,
    {
        if matches_at(&hay, &needle, i) {
            return true;
        }
        if i == last {
            return false;
        }
        i += 1;
    }
}

/// Whether the last character of a text is the given one.
pub fn ends_with(text: &str, ch: char) -> (r: bool)
    ensures
        r == (text@.len() > 0 && text@.last() == ch),
{
    let len: usize = text.unicode_len();
    len > 0 && text.get_char(len - 1) == ch
}

/// Whether one text comes before another: by their first difference, or as its
/// beginning.
pub open spec fn comes_before(a: Seq<char>, b: Seq<char>) -> bool
    decreases a.len(),
{
    if b.len() == 0 {
        false
    } else if a.len() == 0 {
        true
    } else if a[0] != b[0] {
        a[0] < b[0]
    } else {
        comes_before(a.skip(1), b.skip(1))
    }
}

/// Of two different texts exactly one comes first, and no text comes before
/// itself.
pub proof fn text_order_is_total(a: Seq<char>, b: Seq<char>)
    ensures
        a == b ==> !comes_before(a, b),
        a != b ==> (comes_before(a, b) <==> !comes_before(b, a)),
    decreases a.len(),
{
    if a.len() > 0 && b.len() > 0 && a[0] == b[0] {
        text_order_is_total(a.skip(1), b.skip(1));
        if a != b && a.skip(1) == b.skip(1) {
            assert(a =~= seq![a[0]] + a.skip(1));
            assert(b =~= seq![b[0]] + b.skip(1));
        }
    } else if a.len() == 0 && b.len() == 0 {
        assert(a =~= b);
    }
}

/// The order of texts is transitive.
pub proof fn text_order_is_transitive(a: Seq<char>, b: Seq<char>, c: Seq<char>)
    requires
        comes_before(a, b),
        comes_before(b, c),
    ensures
        comes_before(a, c),
    decreases a.len(),
{
    if a.len() > 0 && b.len() > 0 && c.len() > 0 && a[0] == b[0] && b[0] == c[0] {
        text_order_is_transitive(a.skip(1), b.skip(1), c.skip(1));
    }
}

/// How two texts are ordered.
#[derive(Clone, Copy, Debug, PartialEq, Eq, Structural)]
pub enum TextOrder {
    Before,
    Same,
    After,
}

/// Orders two texts by their characters.
pub fn order_of(a: &str, b: &str) -> (r: TextOrder)
    ensures
        r == TextOrder::Before <==> comes_before(a@, b@),
        r == TextOrder::Same <==> a@ == b@,
        r == TextOrder::After <==> comes_before(b@, a@),
{
    let left = chars_of(a);
    let right = chars_of(b);
    let mut i: usize = 0;
    assert(left@.skip(0) =~= left@);
    assert(right@.skip(0) =~= right@);
    proof {
        text_order_is_total(a@, b@);
    }
    while i < left.len() && i < right.len() && left[i] == right[i]
        invariant
            i <= left@.len(),
            i <= right@.len(),
            left@ == a@,
            right@ == b@,
            forall|j: int| 0 <= j < i ==> left@[j] == right@[j],
            comes_before(a@, b@) == comes_before(left@.skip(i as int), right@.skip(i as int)),
            comes_before(b@, a@) == comes_before(right@.skip(i as int), left@.skip(i as int)),
        decreases left.len() - i,
    {
        assert(left@.skip(i as int).skip(1) =~= left@.skip(i + 1));
        assert(right@.skip(i as int).skip(1) =~= right@.skip(i + 1));
        i += 1;
    }
    if i >= left.len() && i >= right.len() {
        assert(left@ =~= right@);
        TextOrder::Same
    } else if i >= left.len() {
        TextOrder::Before
    } else if i >= right.len() {
        TextOrder::After
    } else if left[i] < right[i] {
        assert(left@.skip(i as int)[0] < right@.skip(i as int)[0]);
        TextOrder::Before
    } else {
        assert(left@.skip(i as int)[0] > right@.skip(i as int)[0]);
        TextOrder::After
    }
}

/// The bytes of a text.
pub open spec fn byte_count(text: Seq<char>) -> int {
    encode_utf8(text).len() as int
}

/// The bytes of a text.
pub fn byte_len(text: &str) -> (r: usize)
    ensures
        r == byte_count(text@),
{
    text.as_bytes().len()
}

/// The bytes of a character.
pub open spec fn char_bytes(ch: char) -> int {
    if ch as u32 <= 0x7f {
        1
    } else if ch as u32 <= 0x7ff {
        2
    } else if ch as u32 <= 0xffff {
        3
    } else {
        4
    }
}

/// A text's bytes are those of its characters.
pub proof fn byte_count_of_last(text: Seq<char>)
    ensures
        text.len() == 0 ==> byte_count(text) == 0,
        text.len() > 0 ==> byte_count(text) == byte_count(text.drop_last()) + char_bytes(
            text.last(),
        ),
    decreases text.len(),
{
    if text.len() > 0 {
        let rest = text.drop_first();
        assert(byte_count(text) == encode_scalar(text[0] as u32).len() + byte_count(rest));
        vstd::utf8::char_is_scalar(text[0]);
        assert(encode_scalar(text[0] as u32).len() == char_bytes(text[0]));
        if text.len() == 1 {
            assert(text.drop_last() =~= Seq::<char>::empty());
            assert(rest =~= Seq::<char>::empty());
            assert(byte_count(Seq::<char>::empty()) == 0);
        } else {
            let front = text.drop_last();
            byte_count_of_last(rest);
            assert(rest.drop_last() =~= front.drop_first());
            assert(byte_count(front) == encode_scalar(front[0] as u32).len() + byte_count(
                front.drop_first(),
            ));
        }
    }
}

/// How many characters of a text fit a number of bytes, given that the first
/// `n` do.
pub open spec fn fitting_bytes(text: Seq<char>, room: int, n: int) -> int
    decreases text.len() - n,
{
    if 0 <= n < text.len() && byte_count(text.take(n + 1)) <= room {
        fitting_bytes(text, room, n + 1)
    } else {
        n
    }
}

/// The longest beginning of a text that fits a number of bytes.
pub open spec fn byte_clipped(text: Seq<char>, room: int) -> Seq<char> {
    text.take(fitting_bytes(text, room, 0))
}

/// Appends as much of the beginning of a text as leaves the whole within a
/// number of bytes.
pub fn append_clipped(value: &mut String, text: &str, max_bytes: usize)
    ensures
        final(value)@ == old(value)@ + byte_clipped(
            text@,
            if byte_count(old(value)@) <= max_bytes {
                max_bytes - byte_count(old(value)@)
            } else {
                0
            },
        ),
{
    let room: usize = max_bytes.saturating_sub(byte_len(value.as_str()));
    let chars = chars_of(text);
    let mut used: usize = 0;
    let mut n: usize = 0;
    assert(text@.take(0) =~= Seq::<char>::empty());
    proof {
        byte_count_of_last(text@.take(0));
    }
    while n < chars.len()
        invariant
            n <= chars@.len(),
            chars@ == text@,
            used == byte_count(text@.take(n as int)),
            used <= room,
            fitting_bytes(text@, room as int, 0) == fitting_bytes(text@, room as int, n as int),
        ensures
            n <= chars@.len(),
            n == fitting_bytes(text@, room as int, 0),
        decreases chars.len() - n,
    {
        let ch = chars[n];
        let step: usize = if ch as u32 <= 0x7f {
            1
        } else if ch as u32 <= 0x7ff {
            2
        } else if ch as u32 <= 0xffff {
            3
        } else {
            4
        };
        proof {
            byte_count_of_last(text@.take(n + 1));
            assert(text@.take(n + 1).drop_last() =~= text@.take(n as int));
        }
        if step > room - used {
            break;
        }
        used = used + step;
        n += 1;
    }
    let kept = text_of(&chars, 0, n);
    assert(kept@ =~= byte_clipped(text@, room as int));
    value.append(kept.as_str());
}

/// Every character is a decimal digit.
pub open spec fn all_digits(text: Seq<char>) -> bool {
    forall|i: int| 0 <= i < text.len() ==> '0' <= #[trigger] text[i] <= '9'
}

/// The number that decimal digits write.
pub open spec fn number(text: Seq<char>) -> int
    decreases text.len(),
{
    if text.len() == 0 {
        0
    } else {
        number(text.drop_last()) * 10 + (text.last() as u32 - '0' as u32)
    }
}

/// A beginning of decimal digits writes no more than the whole.
proof fn number_of_beginning(text: Seq<char>, n: int)
    requires
        all_digits(text),
        0 <= n <= text.len(),
    ensures
        0 <= number(text.take(n)) <= number(text),
    decreases text.len(),
{
    if text.len() > 0 {
        let front = text.drop_last();
        number_of_beginning(front, if n < text.len() { n } else { front.len() as int });
        if n < text.len() {
            assert(front.take(n) =~= text.take(n));
        } else {
            assert(text.take(n) =~= text);
            assert(front.take(front.len() as int) =~= front);
        }
    } else {
        assert(text.take(n) =~= text);
    }
}

/// The number in digits from one place on, up to a bound.
fn digits_from(chars: &Vec<char>, from: usize, most: u64) -> (r: Option<u64>)
    requires
        from <= chars@.len(),
    ensures
        ({
            let digits = chars@.skip(from as int);
            r == if digits.len() > 0 && all_digits(digits) && number(digits) <= most {
                Some(number(digits) as u64)
            } else {
                None
            }
        }),
        r matches Some(value) ==> value == number(chars@.skip(from as int)) && value <= most,
{
    let ghost digits = chars@.skip(from as int);
    if from >= chars.len() {
        return None;
    }
    let mut value: u64 = 0;
    let mut i: usize = from;
    assert(digits.take(0) =~= Seq::<char>::empty());
    while i < chars.len()
        invariant
            from <= i <= chars@.len(),
            digits == chars@.skip(from as int),
            digits.len() > 0,
            value == number(digits.take(i - from)),
            value <= most,
            all_digits(digits.take(i - from)),
        decreases chars.len() - i,
    {
        let ch = chars[i];
        let ghost n = i - from;
        assert(digits[n] == ch);
        if ch < '0' || ch > '9' {
            return None;
        }
        let digit: u64 = (ch as u32 - '0' as u32) as u64;
        proof {
            assert(digits.take(n + 1).drop_last() =~= digits.take(n));
            assert(number(digits.take(n + 1)) == value * 10 + digit);
            if all_digits(digits) {
                number_of_beginning(digits, n + 1);
            }
        }
        if value > (most - (if digit <= most { digit } else { most })) / 10 || digit > most {
            assert(value * 10 + digit > most);
            return None;
        }
        value = value * 10 + digit;
        i += 1;
    }
    assert(digits.take(i - from) =~= digits);
    Some(value)
}

/// The number a text writes: decimal digits, behind a plus sign or not.
pub open spec fn unsigned(text: Seq<char>, most: int) -> Option<u64> {
    let digits = if text.len() > 0 && text[0] == '+' {
        text.skip(1)
    } else {
        text
    };
    if digits.len() > 0 && all_digits(digits) && number(digits) <= most {
        Some(number(digits) as u64)
    } else {
        None
    }
}

/// Reads a number that is not negative.
pub fn parse_u64(text: &str) -> (r: Option<u64>)
    ensures
        r == unsigned(text@, u64::MAX as int),
{
    let chars = chars_of(text);
    let signed = chars.len() > 0 && chars[0] == '+';
    assert(chars@.skip(0) =~= chars@);
    digits_from(
        &chars,
        if signed {
            1
        } else {
            0
        },
        u64::MAX,
    )
}

/// The number a text writes: decimal digits, behind a sign or not.
pub open spec fn signed(text: Seq<char>) -> Option<i64> {
    if text.len() > 0 && text[0] == '-' {
        let digits = text.skip(1);
        if digits.len() > 0 && all_digits(digits) && -number(digits) >= i64::MIN {
            Some((-number(digits)) as i64)
        } else {
            None
        }
    } else {
        match unsigned(text, i64::MAX as int) {
            Some(value) => Some(value as i64),
            None => None,
        }
    }
}

/// Reads a number.
pub fn parse_i64(text: &str) -> (r: Option<i64>)
    ensures
        r == signed(text@),
{
    let chars = chars_of(text);
    assert(chars@.skip(0) =~= chars@);
    proof {
        if text@.len() > 0 && all_digits(text@.skip(1)) {
            number_of_beginning(text@.skip(1), 0);
        }
        if all_digits(text@) {
            number_of_beginning(text@, 0);
        }
    }
    if chars.len() > 0 && chars[0] == '-' {
        match digits_from(&chars, 1, 0x8000_0000_0000_0000) {
            Some(value) => Some((-(value as i128)) as i64),
            None => None,
        }
    } else {
        let plus = chars.len() > 0 && chars[0] == '+';
        match digits_from(
            &chars,
            if plus {
                1
            } else {
                0
            },
            0x7fff_ffff_ffff_ffff,
        ) {
            Some(value) => Some(value as i64),
            None => None,
        }
    }
}

/// A text that may be missing.
pub open spec fn some_text(text: Option<String>) -> Option<Seq<char>> {
    match text {
        Some(text) => Some(text@),
        None => None,
    }
}

/// A number that may be missing.
pub open spec fn some_number(number: Option<usize>) -> Option<int> {
    match number {
        Some(number) => Some(number as int),
        None => None,
    }
}

/// A static text that may be missing.
pub open spec fn some_str(text: Option<&'static str>) -> Option<Seq<char>> {
    match text {
        Some(text) => Some(text@),
        None => None,
    }
}

/// The characters of static texts.
pub open spec fn strs(list: Seq<&'static str>) -> Seq<Seq<char>> {
    list.map_values(|text: &'static str| text@)
}

/// The characters of lists of texts.
pub open spec fn text_lists(lists: Seq<Vec<String>>) -> Seq<Seq<Seq<char>>> {
    lists.map_values(|list: Vec<String>| texts(list@))
}

/// Copies texts.
pub fn copy_texts(list: &Vec<String>) -> (r: Vec<String>)
    ensures
        texts(r@) == texts(list@),
        r@.len() == list@.len(),
{
    let mut out: Vec<String> = Vec::new();
    let mut i: usize = 0;
    while i < list.len()
        invariant
            i <= list@.len(),
            out@.len() == i,
            forall|j: int| 0 <= j < i ==> out@[j]@ == list@[j]@,
        decreases list.len() - i,
    {
        out.push(list[i].clone());
        i += 1;
    }
    assert(texts(out@) =~= texts(list@));
    out
}

/// Whether any character is a control character.
pub(crate) fn has_control(chars: &Vec<char>) -> (r: bool)
    ensures
        r == exists|i: int| 0 <= i < chars@.len() && is_control_char(#[trigger] chars@[i]),
{
    let mut i: usize = 0;
    while i < chars.len()
        invariant
            i <= chars@.len(),
            forall|j: int| 0 <= j < i ==> !is_control_char(#[trigger] chars@[j]),
        decreases chars.len() - i,
    {
        if control_char(chars[i]) {
            return true;
        }
        i += 1;
    }
    false
}

/// A control character.
pub open spec fn is_control_char(ch: char) -> bool {
    ch as u32 <= 0x1f || 0x7f <= ch as u32 <= 0x9f
}

/// Whether a character is a control character.
pub(crate) fn control_char(ch: char) -> (r: bool)
    ensures
        r == is_control_char(ch),
{
    ch as u32 <= 0x1f || (0x7f <= ch as u32 && ch as u32 <= 0x9f)
}

/// A line without the carriage return before its end.
pub open spec fn without_return(line: Seq<char>) -> Seq<char> {
    if line.len() > 0 && line.last() == '\r' {
        line.drop_last()
    } else {
        line
    }
}

/// The lines that end among the first `n` characters, each at a line feed with a
/// carriage return before it left out, and the line that they leave open.
pub open spec fn ended_lines(text: Seq<char>, n: int) -> (Seq<Seq<char>>, Seq<char>)
    decreases n,
{
    if n <= 0 {
        (seq![], seq![])
    } else {
        let (ended, open) = ended_lines(text, n - 1);
        if text[n - 1] == '\n' {
            (ended.push(without_return(open)), seq![])
        } else {
            (ended, open.push(text[n - 1]))
        }
    }
}

/// The lines of a text; one that is left open counts where it holds anything.
pub open spec fn lines_in(text: Seq<char>) -> Seq<Seq<char>> {
    let (ended, open) = ended_lines(text, text.len() as int);
    if open.len() > 0 {
        ended.push(open)
    } else {
        ended
    }
}

/// Divides a text into its lines.
pub fn lines_of(text: &str) -> (r: Vec<String>)
    ensures
        texts(r@) == lines_in(text@),
{
    let chars = chars_of(text);
    let mut lines: Vec<String> = Vec::new();
    let mut open: Vec<char> = Vec::new();
    let mut i: usize = 0;
    assert(texts(lines@) =~= seq![]);
    assert(open@ =~= seq![]);
    while i < chars.len()
        invariant
            i <= chars@.len(),
            chars@ == text@,
            (texts(lines@), open@) == ended_lines(text@, i as int),
        decreases chars.len() - i,
    {
        let ghost before = texts(lines@);
        let ghost held = open@;
        if chars[i] == '\n' {
            if open.len() > 0 && open[open.len() - 1] == '\r' {
                let _ = open.pop();
            }
            assert(open@ =~= without_return(held));
            assert(open@.subrange(0, open@.len() as int) =~= open@);
            lines.push(text_of(&open, 0, open.len()));
            assert(texts(lines@) =~= before.push(without_return(held)));
            open = Vec::new();
            assert(open@ =~= seq![]);
        } else {
            open.push(chars[i]);
        }
        i += 1;
    }
    if open.len() > 0 {
        let ghost before = texts(lines@);
        let ghost held = open@;
        assert(held.subrange(0, held.len() as int) =~= held);
        lines.push(text_of(&open, 0, open.len()));
        assert(texts(lines@) =~= before.push(held));
    }
    lines
}

/// Every character of a text is white space.
pub open spec fn all_white(text: Seq<char>) -> bool {
    forall|i: int| 0 <= i < text.len() ==> white(#[trigger] text[i])
}

/// A text is a core that neither begins nor ends with white space, between runs
/// of white space.
pub open spec fn is_core(text: Seq<char>, lead: Seq<char>, core: Seq<char>, tail: Seq<char>) -> bool {
    &&& text == lead + core + tail
    &&& all_white(lead)
    &&& all_white(tail)
    &&& core.len() > 0 ==> !white(core[0]) && !white(core.last())
}

/// What is left of a text without the white space round it is its core.
pub proof fn core_is_left(text: Seq<char>, lead: Seq<char>, core: Seq<char>, tail: Seq<char>)
    requires
        is_core(text, lead, core, tail),
    ensures
        trimmed(text) == core,
{
    assert(text =~= lead + (core + tail));
    front_is_cut(lead, core + tail);
    if core.len() > 0 {
        assert((core + tail)[0] == core[0]);
        assert(trimmed_front(core + tail) == core + tail);
        back_is_cut(core, tail);
        assert(trimmed_back(core) == core);
    } else {
        assert(core + tail =~= tail + core);
        front_is_cut(tail, core);
        assert(trimmed_front(core) == core);
        assert(trimmed_back(core) == core);
    }
}

proof fn front_is_cut(lead: Seq<char>, rest: Seq<char>)
    requires
        all_white(lead),
    ensures
        trimmed_front(lead + rest) == trimmed_front(rest),
    decreases lead.len(),
{
    if lead.len() == 0 {
        assert(lead + rest =~= rest);
    } else {
        assert((lead + rest)[0] == lead[0]);
        assert((lead + rest).skip(1) =~= lead.skip(1) + rest);
        assert(all_white(lead.skip(1)));
        front_is_cut(lead.skip(1), rest);
    }
}

proof fn back_is_cut(rest: Seq<char>, tail: Seq<char>)
    requires
        all_white(tail),
    ensures
        trimmed_back(rest + tail) == trimmed_back(rest),
    decreases tail.len(),
{
    if tail.len() == 0 {
        assert(rest + tail =~= rest);
    } else {
        assert((rest + tail).last() == tail.last());
        assert((rest + tail).drop_last() =~= rest + tail.drop_last());
        assert(all_white(tail.drop_last()));
        back_is_cut(rest, tail.drop_last());
    }
}

/// A text has a core unless it is white space alone.
pub proof fn blank_text_has_no_core(text: Seq<char>)
    ensures
        all_white(text) <==> trimmed(text).len() == 0,
{
    if all_white(text) {
        assert(text =~= text + seq![] + seq![]);
        core_is_left(text, text, seq![], seq![]);
    } else {
        let k = choose|k: int| 0 <= k < text.len() && !white(text[k]);
        front_keeps(text, k);
        let front = trimmed_front(text);
        let j = choose|j: int| 0 <= j < front.len() && !white(front[j]);
        back_keeps(front, j);
    }
}

proof fn front_keeps(text: Seq<char>, k: int)
    requires
        0 <= k < text.len(),
        !white(text[k]),
    ensures
        exists|j: int| 0 <= j < trimmed_front(text).len() && !white(trimmed_front(text)[j]),
    decreases text.len(),
{
    if white(text[0]) {
        assert(text.skip(1)[k - 1] == text[k]);
        front_keeps(text.skip(1), k - 1);
        assert(trimmed_front(text) == trimmed_front(text.skip(1)));
    } else {
        let front = trimmed_front(text);
        assert(front == text);
        assert(0 <= k < front.len() && !white(front[k]));
    }
}

proof fn back_keeps(text: Seq<char>, k: int)
    requires
        0 <= k < text.len(),
        !white(text[k]),
    ensures
        trimmed_back(text).len() > 0,
    decreases text.len(),
{
    if white(text.last()) {
        assert(text.drop_last()[k] == text[k]);
        back_keeps(text.drop_last(), k);
    }
}

/// A text that fits is kept whole.
pub proof fn fitting_text_is_whole(text: Seq<char>, room: int)
    requires
        byte_count(text) <= room,
    ensures
        byte_clipped(text, room) == text,
{
    all_fits(text, room, 0);
    assert(text.take(text.len() as int) =~= text);
}

proof fn beginning_is_smaller(text: Seq<char>, n: int)
    requires
        0 <= n <= text.len(),
    ensures
        byte_count(text.take(n)) <= byte_count(text),
    decreases text.len() - n,
{
    if n < text.len() {
        beginning_is_smaller(text, n + 1);
        byte_count_of_last(text.take(n + 1));
        assert(text.take(n + 1).drop_last() =~= text.take(n));
    } else {
        assert(text.take(n) =~= text);
    }
}

proof fn all_fits(text: Seq<char>, room: int, n: int)
    requires
        byte_count(text) <= room,
        0 <= n <= text.len(),
    ensures
        fitting_bytes(text, room, n) == text.len(),
    decreases text.len() - n,
{
    if n < text.len() {
        beginning_is_smaller(text, n + 1);
        all_fits(text, room, n + 1);
    }
}

/// A number in decimal digits reads as that number.
pub proof fn written_number_is_read(n: nat, most: int)
    requires
        n <= most <= u64::MAX,
    ensures
        unsigned(decimal(n), most) == Some(n as u64),
        n <= i64::MAX ==> signed(decimal(n)) == Some(n as i64),
{
    decimal_is_the_number(n);
    assert(decimal(n)[0] != '+' && decimal(n)[0] != '-');
    if n <= i64::MAX {
        assert(unsigned(decimal(n), i64::MAX as int) == Some(n as u64));
    }
}

proof fn decimal_is_the_number(n: nat)
    ensures
        decimal(n).len() > 0,
        all_digits(decimal(n)),
        number(decimal(n)) == n,
    decreases n,
{
    reveal_with_fuel(number, 2);
    if n < 10 {
        assert(decimal(n).drop_last() =~= seq![]);
        assert(decimal(n).last() == digit_char(n as int));
    } else {
        decimal_is_the_number(n / 10);
        assert(decimal(n).drop_last() =~= decimal(n / 10));
    }
}

/// A written number has no zero before its other digits.
pub proof fn written_number_has_no_leading_zero(n: nat)
    requires
        n > 0,
    ensures
        decimal(n)[0] != '0',
    decreases n,
{
    if n >= 10 {
        decimal_is_the_number(n / 10);
        written_number_has_no_leading_zero(n / 10);
    }
}

/// Joining puts the separator between each text and the next, and nowhere else.
pub proof fn joined_texts(list: Seq<Seq<char>>, last: Seq<char>, separator: Seq<char>)
    ensures
        joined(seq![], separator).len() == 0,
        joined(seq![last], separator) == last,
        list.len() > 0 ==> joined(list.push(last), separator) == joined(list, separator) + separator
            + last,
{
    assert(list.push(last).drop_last() =~= list);
}

/// A text that is short of its column is filled up to it, and no other changes.
pub proof fn padding_fills_the_column(text: Seq<char>, count: int)
    ensures
        text.len() >= count ==> padded_right(text, count) == text && padded_left(text, count)
            == text,
        text.len() < count ==> padded_right(text, count).len() == count && padded_left(
            text,
            count,
        ).len() == count,
        text.is_prefix_of(padded_right(text, count)),
        text.is_suffix_of(padded_left(text, count)),
        forall|i: int|
            text.len() <= i < count ==> #[trigger] padded_right(text, count)[i] == ' ',
        forall|i: int|
            0 <= i < count - text.len() ==> #[trigger] padded_left(text, count)[i] == ' ',
{
    if text.len() >= count {
        assert(padded_right(text, count) =~= text);
        assert(padded_left(text, count) =~= text);
    }
    assert(padded_left(text, count).skip(padded_left(text, count).len() - text.len()) =~= text);
}

/// What is appended to a text that fits is the longest beginning that leaves the
/// whole within its bytes.
pub proof fn clipped_text_is_the_longest(text: Seq<char>, room: int)
    requires
        room >= 0,
    ensures
        byte_clipped(text, room).is_prefix_of(text),
        byte_count(byte_clipped(text, room)) <= room,
        byte_clipped(text, room).len() < text.len() ==> byte_count(
            text.take(byte_clipped(text, room).len() as int + 1),
        ) > room,
{
    byte_count_of_last(text.take(0));
    longest_is_found(text, room, 0);
}

proof fn longest_is_found(text: Seq<char>, room: int, n: int)
    requires
        0 <= n <= text.len(),
        byte_count(text.take(n)) <= room,
    ensures
        n <= fitting_bytes(text, room, n) <= text.len(),
        byte_count(text.take(fitting_bytes(text, room, n))) <= room,
        fitting_bytes(text, room, n) < text.len() ==> byte_count(
            text.take(fitting_bytes(text, room, n) + 1),
        ) > room,
    decreases text.len() - n,
{
    if n < text.len() && byte_count(text.take(n + 1)) <= room {
        longest_is_found(text, room, n + 1);
    }
}

/// A line without breaks is a text of one line, and a break begins the next.
pub proof fn lines_are_divided(before: Seq<char>, line: Seq<char>)
    requires
        line.len() > 0,
        !line.contains('\n'),
        before.len() == 0 || before.last() == '\n',
    ensures
        lines_in(before + line) == lines_in(before).push(line),
        line.last() != '\r' ==> lines_in(before + line + seq!['\n']) == lines_in(before).push(line),
        lines_in(before + line + seq!['\r', '\n']) == lines_in(before).push(line),
{
    let n = before.len() as int;
    let whole = before + line;
    ended_alike(before, whole, n);
    let base = ended_lines(before, n);
    if n > 0 {
        assert(before[n - 1] == '\n');
    }
    assert(base.1.len() == 0);
    line_is_open(whole, n, whole.len() as int, line, base.0);
    assert(line.take(line.len() as int) =~= line);
    let fed = whole + seq!['\n'];
    ended_alike(whole, fed, whole.len() as int);
    let back = whole + seq!['\r', '\n'];
    ended_alike(whole, back, whole.len() as int);
    let m = whole.len() as int;
    assert(ended_lines(back, m + 1) == (base.0, line.push('\r')));
    assert(line.push('\r').drop_last() =~= line);
    assert(ended_lines(back, m + 2) == (base.0.push(line), Seq::<char>::empty()));
    assert(ended_lines(fed, m + 1) == (base.0.push(without_return(line)), Seq::<char>::empty()));
}

proof fn ended_alike(a: Seq<char>, b: Seq<char>, n: int)
    requires
        0 <= n <= a.len(),
        n <= b.len(),
        forall|i: int| 0 <= i < n ==> a[i] == b[i],
    ensures
        ended_lines(a, n) == ended_lines(b, n),
    decreases n,
{
    if n > 0 {
        ended_alike(a, b, n - 1);
    }
}

proof fn line_is_open(
    text: Seq<char>,
    from: int,
    n: int,
    line: Seq<char>,
    ended: Seq<Seq<char>>,
)
    requires
        0 <= from <= n <= text.len(),
        n - from <= line.len(),
        !line.contains('\n'),
        forall|i: int| from <= i < n ==> text[i] == line[i - from],
        ended_lines(text, from).0 == ended,
        ended_lines(text, from).1.len() == 0,
    ensures
        ended_lines(text, n) == (ended, line.take(n - from)),
    decreases n - from,
{
    if n == from {
        assert(ended_lines(text, from).1 =~= line.take(0));
    } else {
        line_is_open(text, from, n - 1, line, ended);
        assert(text[n - 1] == line[n - 1 - from]);
        assert(line.take(n - 1 - from).push(line[n - 1 - from]) =~= line.take(n - from));
    }
}

/// A text has no fewer bytes than none.
pub proof fn byte_count_is_positive(text: Seq<char>)
    ensures
        byte_count(text) >= text.len(),
    decreases text.len(),
{
    byte_count_of_last(text);
    if text.len() > 0 {
        byte_count_is_positive(text.drop_last());
    }
}

/// The bytes of a text are those of its parts.
pub proof fn bytes_add(a: Seq<char>, b: Seq<char>)
    ensures
        byte_count(a + b) == byte_count(a) + byte_count(b),
    decreases b.len(),
{
    byte_count_of_last(b);
    if b.len() == 0 {
        assert(a + b =~= a);
    } else {
        bytes_add(a, b.drop_last());
        byte_count_of_last(a + b);
        assert((a + b).drop_last() =~= a + b.drop_last());
    }
}

} // verus!
