//! Pictures made of half blocks, read from text with colour codes.
//!
//! Only colours are read: what else a picture might ask of a terminal makes it
//! no picture.

use crate::style::{Color, Theme};
use crate::text::{chars_of, parse_u64, text_of, unsigned};
use vstd::prelude::*;

verus! {

/// How long a frame shows, in milliseconds.
pub const FRAME_MILLIS: u64 = 110;

/// A cell of a picture.
#[derive(Clone, Copy, Debug, PartialEq, Eq, Structural)]
pub struct ArtCell {
    pub symbol: char,
    pub fg: Color,
    pub bg: Color,
}

/// A picture: its cells row by row.
#[derive(Debug)]
pub struct ArtFrame {
    pub width: u16,
    pub height: u16,
    pub cells: Vec<ArtCell>,
}

/// The colours that cells are drawn in.
#[derive(Clone, Copy, Debug, PartialEq, Eq, Structural)]
pub struct Ink {
    pub fg: Color,
    pub bg: Color,
}

/// Black on black, as every row begins.
pub open spec fn black() -> Ink {
    Ink { fg: Color::Rgb(0, 0, 0), bg: Color::Rgb(0, 0, 0) }
}

/// The place of a character from one place on, or the end.
pub open spec fn find(text: Seq<char>, ch: char, from: int) -> int
    decreases text.len() - from,
{
    if from < 0 || from >= text.len() {
        text.len() as int
    } else if text[from] == ch {
        from
    } else {
        find(text, ch, from + 1)
    }
}

fn find_char(chars: &Vec<char>, ch: char, from: usize) -> (r: usize)
    requires
        from <= chars@.len(),
    ensures
        r == find(chars@, ch, from as int),
        from <= r <= chars@.len(),
        r < chars@.len() ==> chars@[r as int] == ch,
{
    let mut i: usize = from;
    while i < chars.len()
        invariant
            from <= i <= chars@.len(),
            find(chars@, ch, from as int) == find(chars@, ch, i as int),
        decreases chars.len() - i,
    {
        if chars[i] == ch {
            return i;
        }
        i += 1;
    }
    i
}

/// A line without the carriage return before its line feed.
pub open spec fn line_body(line: Seq<char>) -> Seq<char> {
    if line.len() > 0 && line.last() == '\r' {
        line.drop_last()
    } else {
        line
    }
}

/// The lines of a text from one place on; the last may go without its ending.
pub open spec fn lines_from(text: Seq<char>, from: int) -> Seq<Seq<char>>
    decreases text.len() - from,
{
    if from < 0 || from >= text.len() {
        seq![]
    } else {
        let end = find(text, '\n', from);
        if end < from || end >= text.len() {
            seq![text.subrange(from, text.len() as int)]
        } else {
            seq![line_body(text.subrange(from, end))] + lines_from(text, end + 1)
        }
    }
}

/// The parts of a text between semicolons, from one place on.
pub open spec fn parts_from(text: Seq<char>, from: int) -> Seq<Seq<char>>
    decreases text.len() - from,
{
    let end = find(text, ';', from);
    if from < 0 || end < from || end >= text.len() {
        seq![text.subrange(from, text.len() as int)]
    } else {
        seq![text.subrange(from, end)] + parts_from(text, end + 1)
    }
}

/// A code: a number of one byte.
pub open spec fn code_of(text: Seq<char>) -> Option<u8> {
    match unsigned(text, u64::MAX as int) {
        Some(value) => if value <= 255 {
            Some(value as u8)
        } else {
            None
        },
        None => None,
    }
}

/// The codes of a list of parts.
pub open spec fn codes_of(parts: Seq<Seq<char>>) -> Option<Seq<u8>>
    decreases parts.len(),
{
    if parts.len() == 0 {
        Some(seq![])
    } else {
        match (codes_of(parts.drop_last()), code_of(parts.last())) {
            (Some(before), Some(code)) => Some(before.push(code)),
            _ => None,
        }
    }
}

/// The ink that codes set, from one place on: none resets it, a foreground or a
/// background of three bytes sets it, and nothing else is known.
pub open spec fn inked(codes: Seq<u8>, ink: Ink, from: int) -> Option<Ink>
    decreases codes.len() - from,
{
    if from < 0 || from >= codes.len() {
        Some(ink)
    } else if codes[from] == 0 {
        inked(codes, black(), from + 1)
    } else if from + 4 < codes.len() && codes[from + 1] == 2 && (codes[from] == 38 || codes[from]
        == 48) {
        let color = Color::Rgb(codes[from + 2], codes[from + 3], codes[from + 4]);
        inked(
            codes,
            if codes[from] == 38 {
                Ink { fg: color, ..ink }
            } else {
                Ink { bg: color, ..ink }
            },
            from + 5,
        )
    } else {
        None
    }
}

/// A symbol that a picture is made of.
pub open spec fn is_block(symbol: char) -> bool {
    symbol == ' ' || symbol == '\u{2580}' || symbol == '\u{2584}' || symbol == '\u{2588}'
}

/// The cells of a row from one place on: blocks, with colours set between them.
pub open spec fn row_cells(line: Seq<char>, ink: Ink, from: int) -> Option<Seq<ArtCell>>
    decreases line.len() - from,
{
    if from < 0 || from >= line.len() {
        Some(seq![])
    } else if line[from] == '\u{1b}' && from + 1 < line.len() && line[from + 1] == '[' {
        let end = find(line, 'm', from + 2);
        if end < from + 2 || end >= line.len() {
            None
        } else {
            match codes_of(parts_from(line.subrange(from + 2, end), 0)) {
                None => None,
                Some(codes) => match inked(codes, ink, 0) {
                    None => None,
                    Some(next) => row_cells(line, next, end + 1),
                },
            }
        }
    } else if !is_block(line[from]) {
        None
    } else {
        match row_cells(line, ink, from + 1) {
            Some(rest) => Some(
                seq![ArtCell { symbol: line[from], fg: ink.fg, bg: ink.bg }] + rest,
            ),
            None => None,
        }
    }
}

/// The cells of the first `n` rows, each of them as wide as it must be.
pub open spec fn all_cells(lines: Seq<Seq<char>>, width: int, n: int) -> Option<Seq<ArtCell>>
    decreases n,
{
    if n <= 0 {
        Some(seq![])
    } else {
        match (all_cells(lines, width, n - 1), row_cells(lines[n - 1], black(), 0)) {
            (Some(before), Some(row)) => if row.len() == width {
                Some(before + row)
            } else {
                None
            },
            _ => None,
        }
    }
}

/// The cells of a picture of so many columns and rows, if the text is one.
pub open spec fn picture(source: Seq<char>, width: int, height: int) -> Option<Seq<ArtCell>> {
    let lines = lines_from(source, 0);
    if lines.len() != height {
        None
    } else {
        all_cells(lines, width, height)
    }
}

/// The bounds of the lines of a text.
fn line_bounds(chars: &Vec<char>) -> (r: Vec<(usize, usize)>)
    ensures
        r@.len() == lines_from(chars@, 0).len(),
        forall|i: int|
            0 <= i < r@.len() ==> (#[trigger] r@[i]).0 <= r@[i].1 <= chars@.len() && chars@.subrange(
                r@[i].0 as int,
                r@[i].1 as int,
            ) == lines_from(chars@, 0)[i],
{
    let ghost all = lines_from(chars@, 0);
    let mut out: Vec<(usize, usize)> = Vec::new();
    let mut from: usize = 0;
    assert(all.skip(0) =~= all);
    while from < chars.len()
        invariant
            from <= chars@.len(),
            all == lines_from(chars@, 0),
            out@.len() <= all.len(),
            lines_from(chars@, from as int) == all.skip(out@.len() as int),
            forall|i: int|
                0 <= i < out@.len() ==> (#[trigger] out@[i]).0 <= out@[i].1 <= chars@.len()
                    && chars@.subrange(out@[i].0 as int, out@[i].1 as int) == all[i],
        decreases chars.len() - from,
    {
        let end: usize = find_char(chars, '\n', from);
        let ghost n = out@.len() as int;
        let ghost rest = all.skip(n);
        assert(rest.len() > 0);
        assert(rest[0] == all[n]);
        assert(all.skip(n + 1) =~= rest.skip(1));
        if end >= chars.len() {
            out.push((from, chars.len()));
            assert(rest.skip(1) =~= seq![]);
            from = chars.len();
        } else {
            let stop: usize = if end > from && chars[end - 1] == '\r' {
                end - 1
            } else {
                end
            };
            proof {
                let line = chars@.subrange(from as int, end as int);
                if end > from {
                    assert(line.last() == chars@[end - 1]);
                }
                assert(chars@.subrange(from as int, stop as int) =~= line_body(line));
                assert(rest.skip(1) =~= lines_from(chars@, end + 1));
            }
            out.push((from, stop));
            from = end + 1;
        }
    }
    assert(all.skip(out@.len() as int).len() == 0);
    out
}

fn read_codes(chars: &Vec<char>, from: usize, to: usize) -> (r: Option<Vec<u8>>)
    requires
        from <= to <= chars@.len(),
    ensures
        match r {
            Some(codes) => codes_of(parts_from(chars@.subrange(from as int, to as int), 0))
                == Some(codes@),
            None => codes_of(parts_from(chars@.subrange(from as int, to as int), 0)) is None,
        },
{
    let part = text_of(chars, from, to);
    let text = chars_of(part.as_str());
    let ghost all = parts_from(text@, 0);
    let mut codes: Vec<u8> = Vec::new();
    let mut at: usize = 0;
    let ghost mut n: int = 0;
    proof {
        assert(all.skip(0) =~= all);
        assert(all.take(0) =~= seq![]);
    }
    loop
        invariant
            at <= text@.len(),
            text@ == chars@.subrange(from as int, to as int),
            all == parts_from(text@, 0),
            0 <= n < all.len(),
            parts_from(text@, at as int) == all.skip(n),
            codes_of(all.take(n)) == Some(codes@),
        decreases text@.len() - at,
    {
        let end: usize = find_char(&text, ';', at);
        let word = text_of(&text, at, end);
        let ghost rest = all.skip(n);
        proof {
            assert(rest[0] == all[n]);
            assert(word@ == all[n]);
            assert(all.take(n + 1).drop_last() =~= all.take(n));
            assert(all.take(n + 1).last() == all[n]);
            assert(all.skip(n + 1) =~= rest.skip(1));
        }
        let value: u64 = match parse_u64(word.as_str()) {
            Some(value) if value <= 255 => value,
            _ => {
                proof {
                    bad_part(all, n);
                }
                return None;
            },
        };
        codes.push(value as u8);
        if end >= text.len() {
            assert(rest =~= seq![all[n]]);
            assert(all.take(n + 1) =~= all);
            return Some(codes);
        }
        proof {
            assert(rest.skip(1) =~= parts_from(text@, end + 1));
            n = n + 1;
            assert(parts_from(text@, end + 1).len() > 0);
        }
        at = end + 1;
    }
}

/// A list with a part that is no code has no codes.
proof fn bad_part(parts: Seq<Seq<char>>, n: int)
    requires
        0 <= n < parts.len(),
        code_of(parts[n]) is None,
    ensures
        codes_of(parts) is None,
    decreases parts.len(),
{
    if n < parts.len() - 1 {
        assert(parts.drop_last()[n] == parts[n]);
        bad_part(parts.drop_last(), n);
    }
}

fn ink_of(codes: &Vec<u8>, ink: Ink) -> (r: Option<Ink>)
    ensures
        r == inked(codes@, ink, 0),
{
    let mut now = ink;
    let mut i: usize = 0;
    while i < codes.len()
        invariant
            i <= codes@.len(),
            inked(codes@, ink, 0) == inked(codes@, now, i as int),
        decreases codes.len() - i,
    {
        if codes[i] == 0 {
            now = Ink { fg: Color::Rgb(0, 0, 0), bg: Color::Rgb(0, 0, 0) };
            i += 1;
        } else if codes.len() - i > 4 && codes[i + 1] == 2 && (codes[i] == 38 || codes[i] == 48) {
            let color = Color::Rgb(codes[i + 2], codes[i + 3], codes[i + 4]);
            if codes[i] == 38 {
                now = Ink { fg: color, ..now };
            } else {
                now = Ink { bg: color, ..now };
            }
            i += 5;
        } else {
            return None;
        }
    }
    Some(now)
}

/// Reads a row behind the cells that are there, or says that it is none.
fn read_row(line: &Vec<char>, cells: &mut Vec<ArtCell>) -> (r: bool)
    ensures
        match row_cells(line@, black(), 0) {
            Some(row) => r && final(cells)@ == old(cells)@ + row,
            None => !r,
        },
{
    let ghost before = cells@;
    let mut ink = Ink { fg: Color::Rgb(0, 0, 0), bg: Color::Rgb(0, 0, 0) };
    let mut i: usize = 0;
    let ghost mut done: Seq<ArtCell> = seq![];
    assert(before + done =~= before);
    while i < line.len()
        invariant
            i <= line@.len(),
            cells@ == before + done,
            row_cells(line@, black(), 0) is None <==> row_cells(line@, ink, i as int) is None,
            row_cells(line@, ink, i as int) matches Some(rest) ==> row_cells(line@, black(), 0)
                == Some(done + rest),
        decreases line.len() - i,
    {
        if line[i] == '\u{1b}' && line.len() - i > 1 && line[i + 1] == '[' {
            let end: usize = find_char(line, 'm', i + 2);
            if end >= line.len() {
                return false;
            }
            let codes = match read_codes(line, i + 2, end) {
                Some(codes) => codes,
                None => {
                    return false;
                },
            };
            ink = match ink_of(&codes, ink) {
                Some(ink) => ink,
                None => {
                    return false;
                },
            };
            i = end + 1;
        } else {
            let symbol = line[i];
            if symbol != ' ' && symbol != '\u{2580}' && symbol != '\u{2584}' && symbol
                != '\u{2588}' {
                return false;
            }
            let cell = ArtCell { symbol, fg: ink.fg, bg: ink.bg };
            cells.push(cell);
            proof {
                let rest = row_cells(line@, ink, i + 1);
                if rest is Some {
                    assert(done + (seq![cell] + rest->0) =~= done.push(cell) + rest->0);
                }
                done = done.push(cell);
                assert(cells@ =~= before + done);
            }
            i += 1;
        }
    }
    assert(done + Seq::<ArtCell>::empty() =~= done);
    true
}

/// Reads a picture of so many columns and rows, if the text is one.
pub fn decode(source: &str, width: u16, height: u16) -> (r: Option<ArtFrame>)
    ensures
        match r {
            Some(frame) => frame.width == width && frame.height == height && picture(
                source@,
                width as int,
                height as int,
            ) == Some(frame.cells@),
            None => picture(source@, width as int, height as int) is None,
        },
{
    let chars = chars_of(source);
    let bounds = line_bounds(&chars);
    let ghost lines = lines_from(chars@, 0);
    if bounds.len() != height as usize {
        return None;
    }
    let mut cells: Vec<ArtCell> = Vec::new();
    let mut y: usize = 0;
    while y < bounds.len()
        invariant
            y <= bounds@.len(),
            chars@ == source@,
            lines == lines_from(chars@, 0),
            bounds@.len() == lines.len(),
            lines.len() == height,
            forall|i: int|
                0 <= i < bounds@.len() ==> (#[trigger] bounds@[i]).0 <= bounds@[i].1 <= chars@.len()
                    && chars@.subrange(bounds@[i].0 as int, bounds@[i].1 as int) == lines[i],
            all_cells(lines, width as int, y as int) == Some(cells@),
        decreases bounds.len() - y,
    {
        let (from, to) = bounds[y];
        let text = text_of(&chars, from, to);
        let line = chars_of(text.as_str());
        assert(line@ == lines[y as int]);
        let ghost before = cells@;
        let count: usize = cells.len();
        if !read_row(&line, &mut cells) {
            proof {
                bad_row(lines, width as int, y as int, height as int);
            }
            return None;
        }
        if cells.len() - count != width as usize {
            proof {
                bad_row(lines, width as int, y as int, height as int);
            }
            return None;
        }
        y += 1;
    }
    Some(ArtFrame { width, height, cells })
}

/// A picture with a row that is none, or of another width, is no picture.
proof fn bad_row(lines: Seq<Seq<char>>, width: int, y: int, n: int)
    requires
        0 <= y < n <= lines.len(),
        match row_cells(lines[y], black(), 0) {
            Some(row) => row.len() != width,
            None => true,
        },
    ensures
        all_cells(lines, width, n) is None,
    decreases n,
{
    if y < n - 1 {
        bad_row(lines, width, y, n - 1);
    }
}

/// Reads every picture of a list, if all of them are.
pub fn decode_all(sources: &Vec<String>, width: u16, height: u16) -> (r: Option<Vec<ArtFrame>>)
    ensures
        match r {
            Some(frames) => frames@.len() == sources@.len() && forall|i: int|
                0 <= i < frames@.len() ==> (#[trigger] frames@[i]).width == width
                    && frames@[i].height == height && picture(
                    sources@[i]@,
                    width as int,
                    height as int,
                ) == Some(frames@[i].cells@),
            None => exists|i: int|
                0 <= i < sources@.len() && picture(
                    (#[trigger] sources@[i])@,
                    width as int,
                    height as int,
                ) is None,
        },
{
    let mut frames: Vec<ArtFrame> = Vec::new();
    let mut i: usize = 0;
    while i < sources.len()
        invariant
            i <= sources@.len(),
            frames@.len() == i,
            forall|j: int|
                0 <= j < i ==> (#[trigger] frames@[j]).width == width && frames@[j].height == height
                    && picture(sources@[j]@, width as int, height as int) == Some(
                    frames@[j].cells@,
                ),
        decreases sources.len() - i,
    {
        match decode(sources[i].as_str(), width, height) {
            Some(frame) => frames.push(frame),
            None => {
                return None;
            },
        }
        i += 1;
    }
    Some(frames)
}

/// The frame of a list that a count leads to, going round.
pub fn frame(frames: &Vec<ArtFrame>, index: usize) -> (r: &ArtFrame)
    requires
        frames@.len() > 0,
    ensures
        *r == frames@[index as int % frames@.len() as int],
{
    &frames[index % frames.len()]
}

proof fn cells_are_counted(lines: Seq<Seq<char>>, width: int, n: int)
    requires
        0 <= n <= lines.len(),
        width >= 0,
    ensures
        all_cells(lines, width, n) matches Some(cells) ==> cells.len() == width * n,
    decreases n,
{
    if n > 0 {
        cells_are_counted(lines, width, n - 1);
        assert(width * n == width * (n - 1) + width) by (nonlinear_arith);
    } else {
        assert(width * 0 == 0) by (nonlinear_arith);
    }
}

proof fn cells_are_blocks(line: Seq<char>, ink: Ink, from: int)
    ensures
        row_cells(line, ink, from) matches Some(cells) ==> forall|i: int|
            0 <= i < cells.len() ==> is_block((#[trigger] cells[i]).symbol),
    decreases line.len() - from,
{
    if 0 <= from < line.len() {
        if line[from] == '\u{1b}' && from + 1 < line.len() && line[from + 1] == '[' {
            let end = find(line, 'm', from + 2);
            if from + 2 <= end < line.len() {
                if let Some(codes) = codes_of(parts_from(line.subrange(from + 2, end), 0)) {
                    if let Some(next) = inked(codes, ink, 0) {
                        cells_are_blocks(line, next, end + 1);
                    }
                }
            }
        } else {
            cells_are_blocks(line, ink, from + 1);
        }
    }
}

proof fn all_are_blocks(lines: Seq<Seq<char>>, width: int, n: int)
    requires
        0 <= n <= lines.len(),
    ensures
        all_cells(lines, width, n) matches Some(cells) ==> forall|i: int|
            0 <= i < cells.len() ==> is_block((#[trigger] cells[i]).symbol),
    decreases n,
{
    if n > 0 {
        all_are_blocks(lines, width, n - 1);
        cells_are_blocks(lines[n - 1], black(), 0);
    }
}

/// A picture has a cell for each of its places, and none of them holds anything
/// but a block: no code of its text is ever passed on.
pub proof fn picture_is_blocks(source: Seq<char>, width: int, height: int)
    requires
        width >= 0,
        height >= 0,
    ensures
        picture(source, width, height) matches Some(cells) ==> cells.len() == width * height
            && forall|i: int| 0 <= i < cells.len() ==> is_block((#[trigger] cells[i]).symbol),
{
    let lines = lines_from(source, 0);
    if lines.len() == height {
        cells_are_counted(lines, width, height);
        all_are_blocks(lines, width, height);
    }
}

/// A colour so dark that what is under it shows.
pub open spec fn is_clear(color: Color) -> bool {
    match color {
        Color::Rgb(r, g, b) => r < 48 && g < 48 && b < 48,
        _ => false,
    }
}

/// The colours of the two halves of a cell.
pub open spec fn halves(cell: ArtCell) -> (Color, Color) {
    if cell.symbol == '\u{2580}' {
        (cell.fg, cell.bg)
    } else if cell.symbol == '\u{2584}' {
        (cell.bg, cell.fg)
    } else if cell.symbol == '\u{2588}' {
        (cell.fg, cell.fg)
    } else {
        (cell.bg, cell.bg)
    }
}

/// A cell of the heart on the background of a theme.
pub open spec fn on_background(cell: ArtCell, theme: Theme) -> ArtCell {
    let (upper, lower) = halves(cell);
    if is_clear(upper) && is_clear(lower) {
        ArtCell { symbol: ' ', fg: theme.base_fg, bg: theme.base_bg }
    } else if is_clear(upper) {
        ArtCell { symbol: '\u{2584}', fg: lower, bg: theme.base_bg }
    } else if is_clear(lower) {
        ArtCell { symbol: '\u{2580}', fg: upper, bg: theme.base_bg }
    } else {
        ArtCell { symbol: '\u{2580}', fg: upper, bg: lower }
    }
}

fn is_see_through(color: Color) -> (r: bool)
    ensures
        r == is_clear(color),
{
    match color {
        Color::Rgb(r, g, b) => r < 48 && g < 48 && b < 48,
        _ => false,
    }
}

/// Puts a cell of the heart on the background of a theme.
pub fn heart_cell(cell: ArtCell, theme: Theme) -> (r: ArtCell)
    ensures
        r == on_background(cell, theme),
{
    let (upper, lower) = match cell.symbol {
        '\u{2580}' => (cell.fg, cell.bg),
        '\u{2584}' => (cell.bg, cell.fg),
        '\u{2588}' => (cell.fg, cell.fg),
        _ => (cell.bg, cell.bg),
    };
    match (is_see_through(upper), is_see_through(lower)) {
        (true, true) => ArtCell { symbol: ' ', fg: theme.base_fg, bg: theme.base_bg },
        (true, false) => ArtCell { symbol: '\u{2584}', fg: lower, bg: theme.base_bg },
        (false, true) => ArtCell { symbol: '\u{2580}', fg: upper, bg: theme.base_bg },
        (false, false) => ArtCell { symbol: '\u{2580}', fg: upper, bg: lower },
    }
}

/// What shows through is never drawn in the foreground, and what does not keeps
/// its colour in its half.
pub proof fn clear_halves_show_the_background(cell: ArtCell, theme: Theme)
    ensures
        ({
            let out = on_background(cell, theme);
            let (upper, lower) = halves(cell);
            &&& out.symbol != ' ' ==> !is_clear(out.fg)
            &&& !is_clear(upper) ==> halves(out).0 == upper
            &&& !is_clear(lower) ==> halves(out).1 == lower
            &&& is_clear(upper) ==> halves(out).0 == theme.base_bg
            &&& is_clear(lower) ==> halves(out).1 == theme.base_bg
        }),
{
}

} // verus!
