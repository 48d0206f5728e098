//! The Details pane: one record as a tree of its JSON, or row by row.
//!
//! The pane colours a record as the log colours it: a JSON token by its kind, a
//! column's name by the colour of its identity, and everything else in the
//! record's own style.

use crate::dialog_controls::DialogStyles;
use crate::geometry::{least, minus};
use crate::style::{line_view, span_view, Color, Span, Style, Theme};
use crate::text::{
    all_white, ascii_lower, chars_of, is_white, push_spaces, same, spaces, spec_ascii_lower,
    trimmed_front, white,
};
use vstd::prelude::*;

verus! {

/// The lines above the tree: the record's identity and its text.
pub const HEADER_LINES: usize = 2;

/// A token of JSON. A key bears the colour of the column that it names.
#[derive(Clone, Copy, Debug, PartialEq, Eq, Structural)]
pub enum JsonKind {
    Key(Color),
    String,
    Number,
    Boolean,
    Null,
    Punctuation,
}

/// What a row of the tree shows behind its label.
#[derive(Debug)]
pub enum RowShape {
    /// An object or an array, with its summary.
    Container { expanded: bool, summary: String },
    /// A value, with its own text.
    Scalar { kind: JsonKind, text: String },
}

/// A row of the tree.
#[derive(Debug)]
pub struct TreeRow {
    pub depth: usize,
    pub label: String,
    /// The colour of the column that the label names.
    pub color: Color,
    pub shape: RowShape,
}

/// A column of a record with its value, the value's text styled as the log
/// styles it.
#[derive(Debug)]
pub struct DetailField {
    pub key: String,
    /// The colour of the column.
    pub color: Color,
    pub value: String,
    pub spans: Vec<Span>,
}

/// A line of the pane.
#[derive(Debug)]
pub struct DetailLine {
    pub spans: Vec<Span>,
    pub style: Style,
}

/// A line by what it shows.
pub struct LineModel {
    pub spans: Seq<(Seq<char>, Style)>,
    pub style: Style,
}

impl DetailLine {
    pub open spec fn model(self) -> LineModel {
        LineModel { spans: line_view(self.spans@), style: self.style }
    }
}

/// The lines by what they show.
pub open spec fn lines_model(lines: Seq<DetailLine>) -> Seq<LineModel> {
    lines.map_values(|line: DetailLine| line.model())
}

/// The pane: its lines, and the one that the cursor is on.
#[derive(Debug)]
pub struct DetailsView {
    pub lines: Vec<DetailLine>,
    pub cursor_line: Option<usize>,
}

/// The colour of a token.
pub open spec fn kind_color(kind: JsonKind, theme: Theme) -> Color {
    match kind {
        JsonKind::Key(identity) => identity,
        JsonKind::String => theme.json.string,
        JsonKind::Number => theme.json.number,
        JsonKind::Boolean => theme.json.boolean,
        JsonKind::Null => theme.json.null,
        JsonKind::Punctuation => theme.json.punctuation,
    }
}

/// The style of a token, in the log and in the tree alike.
pub fn json_kind_style(kind: JsonKind, theme: Theme) -> (r: Style)
    ensures
        r == Style::spec_colored(kind_color(kind, theme)),
{
    let color = match kind {
        JsonKind::Key(identity) => identity,
        JsonKind::String => theme.json.string,
        JsonKind::Number => theme.json.number,
        JsonKind::Boolean => theme.json.boolean,
        JsonKind::Null => theme.json.null,
        JsonKind::Punctuation => theme.json.punctuation,
    };
    Style::plain().fg(color)
}

/// The style of a column's name: that of a key that names it.
pub fn column_label_style(identity: Color, theme: Theme) -> (r: Style)
    ensures
        r == Style::spec_colored(identity),
{
    json_kind_style(JsonKind::Key(identity), theme)
}

/// The sign before a row that can be opened.
pub open spec fn disclosure_sign(expanded: bool, ascii: bool) -> Seq<char> {
    if ascii {
        if expanded {
            "v"@
        } else {
            ">"@
        }
    } else if expanded {
        "\u{25be}"@
    } else {
        "\u{25b8}"@
    }
}

pub fn disclosure(expanded: bool, ascii: bool) -> (r: &'static str)
    ensures
        r@ == disclosure_sign(expanded, ascii),
{
    match (expanded, ascii) {
        (true, false) => "\u{25be}",
        (false, false) => "\u{25b8}",
        (true, true) => "v",
        (false, true) => ">",
    }
}

/// The marker and the indent of a row.
pub open spec fn row_lead(depth: int, at_cursor: bool, ascii: bool) -> Seq<char> {
    (if !at_cursor {
        "  "@
    } else if ascii {
        "> "@
    } else {
        "\u{203a} "@
    }) + spaces(2 * depth)
}

/// A row of the tree: the marker, the indent, the sign, the label, and the value
/// or the summary. The cursor's row is in the style of a selection throughout.
pub open spec fn row_line(row: TreeRow, at_cursor: bool, record: Style, theme: Theme, ascii: bool) -> LineModel {
    let styles = DialogStyles::of(theme);
    let base = if at_cursor {
        styles.selection
    } else {
        record
    };
    let lead = (row_lead(row.depth as int, at_cursor, ascii), base);
    let label = if at_cursor {
        base
    } else {
        Style::spec_colored(row.color)
    };
    LineModel {
        spans: match row.shape {
            RowShape::Container { expanded, summary } => seq![
                lead,
                (
                    disclosure_sign(expanded, ascii) + " "@ + row.label@ + ": "@,
                    Style { bold: true, ..label },
                ),
                (
                    summary@,
                    if at_cursor {
                        base
                    } else {
                        Style { italic: true, ..styles.description }
                    },
                ),
            ],
            RowShape::Scalar { kind, text } => seq![
                lead,
                ("  "@ + row.label@ + ": "@, label),
                (
                    text@,
                    if at_cursor {
                        base
                    } else {
                        Style::spec_colored(kind_color(kind, theme))
                    },
                ),
            ],
        },
        style: Style::spec_plain(),
    }
}

fn push_span(spans: &mut Vec<Span>, text: String, style: Style)
    ensures
        line_view(final(spans)@) == line_view(old(spans)@).push((text@, style)),
{
    let ghost before = spans@;
    let ghost said = text@;
    spans.push(Span { text, style });
    assert(line_view(spans@) =~= line_view(before).push((said, style)));
}

/// Draws a row of the tree.
pub fn tree_line(row: &TreeRow, at_cursor: bool, record: Style, theme: Theme, ascii: bool) -> (r:
    DetailLine)
    requires
        2 * row.depth <= usize::MAX,
    ensures
        r.model() == row_line(*row, at_cursor, record, theme, ascii),
{
    let styles = DialogStyles::new(theme);
    let base = if at_cursor {
        styles.selection
    } else {
        record
    };
    let mut lead = (if !at_cursor {
        "  "
    } else if ascii {
        "> "
    } else {
        "\u{203a} "
    }).to_owned();
    push_spaces(&mut lead, 2 * row.depth);
    let mut spans: Vec<Span> = Vec::new();
    push_span(&mut spans, lead, base);
    let label = if at_cursor {
        base
    } else {
        column_label_style(row.color, theme)
    };
    match &row.shape {
        RowShape::Container { expanded, summary } => {
            let mut text = disclosure(*expanded, ascii).to_owned();
            text.append(" ");
            text.append(row.label.as_str());
            text.append(": ");
            push_span(&mut spans, text, label.bold());
            push_span(
                &mut spans,
                summary.clone(),
                if at_cursor {
                    base
                } else {
                    styles.description.italic()
                },
            );
        },
        RowShape::Scalar { kind, text } => {
            let mut caption = "  ".to_owned();
            caption.append(row.label.as_str());
            caption.append(": ");
            push_span(&mut spans, caption, label);
            push_span(
                &mut spans,
                text.clone(),
                if at_cursor {
                    base
                } else {
                    json_kind_style(*kind, theme)
                },
            );
        },
    }
    let line = DetailLine { spans, style: Style::plain() };
    assert(line.model().spans =~= row_line(*row, at_cursor, record, theme, ascii).spans);
    line
}

/// The first word of a text.
pub open spec fn first_word(text: Seq<char>) -> Seq<char> {
    let rest = trimmed_front(text);
    rest.take(word_end(rest, 0))
}

/// Where a word ends that has so many characters already.
pub open spec fn word_end(text: Seq<char>, n: int) -> int
    decreases text.len() - n,
{
    if 0 <= n < text.len() && !white(text[n]) {
        word_end(text, n + 1)
    } else {
        n
    }
}

/// A text in small letters, as far as ASCII goes.
pub open spec fn small(text: Seq<char>) -> Seq<char> {
    text.map_values(|ch: char| spec_ascii_lower(ch))
}

/// A command's status says that it is still to come.
pub open spec fn is_pending(value: Seq<char>) -> bool {
    small(first_word(value)) == "pending"@
}

fn says_pending(value: &str) -> (r: bool)
    ensures
        r == is_pending(value@),
{
    let chars = chars_of(value);
    let mut from: usize = 0;
    assert(chars@.skip(0) =~= chars@);
    while from < chars.len() && is_white(chars[from])
        invariant
            from <= chars@.len(),
            chars@ == value@,
            trimmed_front(value@) == trimmed_front(chars@.skip(from as int)),
        decreases chars.len() - from,
    {
        assert(chars@.skip(from as int).skip(1) =~= chars@.skip(from + 1));
        from += 1;
    }
    let ghost rest = chars@.skip(from as int);
    assert(trimmed_front(value@) == rest);
    let mut to: usize = from;
    let mut word = String::new();
    assert(small(rest.take(0)) =~= seq![]);
    while to < chars.len() && !is_white(chars[to])
        invariant
            from <= to <= chars@.len(),
            rest == chars@.skip(from as int),
            word_end(rest, 0) == word_end(rest, to - from),
            word@ == small(rest.take(to - from)),
        decreases chars.len() - to,
    {
        let ghost n = to - from;
        word.push(ascii_lower(chars[to]));
        assert(rest[n] == chars@[to as int]);
        assert(small(rest.take(n + 1)) =~= small(rest.take(n)).push(spec_ascii_lower(rest[n])));
        to += 1;
    }
    assert(word_end(rest, to - from) == to - from);
    same(word.as_str(), "pending")
}

/// The style of a detail's value: whether a command is done has a style of its
/// own, all else is in the record's.
pub open spec fn value_look(key: Seq<char>, value: Seq<char>, base: Style, theme: Theme) -> Style {
    let styles = DialogStyles::of(theme);
    if key != "command.status"@ {
        base
    } else if is_pending(value) {
        styles.pending
    } else {
        styles.applied
    }
}

/// Finds the style of a detail's value.
pub fn detail_style(key: &str, value: &str, base: Style, theme: Theme) -> (r: Style)
    ensures
        r == value_look(key@, value@, base, theme),
{
    let styles = DialogStyles::new(theme);
    if !same(key, "command.status") {
        base
    } else if says_pending(value) {
        styles.pending
    } else {
        styles.applied
    }
}

/// A row that names a column and shows its value.
pub open spec fn field_line(field: DetailField, base: Style) -> LineModel {
    LineModel {
        spans: seq![(field.key@ + ": "@, Style::spec_colored(field.color))] + line_view(
            field.spans@,
        ),
        style: base,
    }
}

fn copy_spans(spans: &mut Vec<Span>, more: &Vec<Span>)
    ensures
        line_view(final(spans)@) == line_view(old(spans)@) + line_view(more@),
{
    let ghost before = line_view(spans@);
    let ghost all = line_view(more@);
    let mut i: usize = 0;
    assert(before + all.take(0) =~= before);
    while i < more.len()
        invariant
            i <= more@.len(),
            all == line_view(more@),
            line_view(spans@) == before + all.take(i as int),
        decreases more.len() - i,
    {
        let span = &more[i];
        push_span(spans, span.text.clone(), span.style);
        assert(all[i as int] == span_view(more@[i as int]));
        assert(before + all.take(i + 1) =~= (before + all.take(i as int)).push(all[i as int]));
        i += 1;
    }
    assert(all.take(i as int) =~= all);
}

/// Draws a row that names a column and shows its value.
pub fn detail_row(field: &DetailField, base: Style, theme: Theme) -> (r: DetailLine)
    ensures
        r.model() == field_line(*field, base),
{
    let mut spans: Vec<Span> = Vec::new();
    let mut caption = field.key.clone();
    caption.append(": ");
    push_span(&mut spans, caption, column_label_style(field.color, theme));
    copy_spans(&mut spans, &field.spans);
    let line = DetailLine { spans, style: base };
    assert(line.model().spans =~= field_line(*field, base).spans);
    line
}

/// The lines of a list of columns.
pub open spec fn field_lines(fields: Seq<DetailField>, base: Style) -> Seq<LineModel> {
    fields.map_values(|field: DetailField| field_line(field, base))
}

/// The record that the pane shows.
#[derive(Debug)]
pub struct DetailRecord {
    pub id: String,
    /// The colour of the column that holds the whole text.
    pub raw_color: Color,
    /// The text, styled as the log styles it.
    pub raw: Vec<Span>,
    /// The rows of the tree, where the text is one JSON object.
    pub tree: Option<Vec<TreeRow>>,
    /// The columns, for a text that is not.
    pub fields: Vec<DetailField>,
    pub details: Vec<DetailField>,
}

/// The two lines above the tree.
pub open spec fn header(record: DetailRecord, base: Style, theme: Theme) -> Seq<LineModel> {
    let plain = Style::spec_plain();
    seq![
        LineModel {
            spans: seq![
                ("stable display id: "@, DialogStyles::of(theme).label),
                (record.id@, base),
            ],
            style: plain,
        },
        LineModel {
            spans: seq![("raw: "@, Style::spec_colored(record.raw_color))] + line_view(record.raw@),
            style: plain,
        },
    ]
}

/// The row of the tree that the cursor is on.
pub open spec fn cursor_row(rows: int, cursor: int) -> int {
    least(cursor, minus(rows, 1))
}

/// The rows of the tree.
pub open spec fn tree_lines(
    rows: Seq<TreeRow>,
    cursor: int,
    focused: bool,
    base: Style,
    theme: Theme,
    ascii: bool,
) -> Seq<LineModel> {
    Seq::new(
        rows.len(),
        |i: int|
            row_line(
                rows[i],
                focused && i == cursor_row(rows.len() as int, cursor),
                base,
                theme,
                ascii,
            ),
    )
}

/// What stands between the header and the details.
pub open spec fn body_lines(
    record: DetailRecord,
    cursor: int,
    focused: bool,
    base: Style,
    theme: Theme,
    ascii: bool,
) -> Seq<LineModel> {
    match record.tree {
        Some(rows) => tree_lines(rows@, cursor, focused, base, theme, ascii),
        None => field_lines(record.fields@, base),
    }
}

fn push_line(lines: &mut Vec<DetailLine>, line: DetailLine)
    ensures
        lines_model(final(lines)@) == lines_model(old(lines)@).push(line.model()),
{
    let ghost before = lines@;
    let ghost added = line.model();
    lines.push(line);
    assert(lines_model(lines@) =~= lines_model(before).push(added));
}

fn header_lines(record: &DetailRecord, base: Style, theme: Theme) -> (r: Vec<DetailLine>)
    ensures
        lines_model(r@) == header(*record, base, theme),
        r@.len() == HEADER_LINES,
{
    let styles = DialogStyles::new(theme);
    let mut first: Vec<Span> = Vec::new();
    push_span(&mut first, "stable display id: ".to_owned(), styles.label);
    push_span(&mut first, record.id.clone(), base);
    assert(line_view(first@) =~= header(*record, base, theme)[0].spans);
    let mut second: Vec<Span> = Vec::new();
    push_span(&mut second, "raw: ".to_owned(), column_label_style(record.raw_color, theme));
    copy_spans(&mut second, &record.raw);
    assert(line_view(second@) =~= header(*record, base, theme)[1].spans);
    let mut lines: Vec<DetailLine> = Vec::new();
    push_line(&mut lines, DetailLine { spans: first, style: Style::plain() });
    push_line(&mut lines, DetailLine { spans: second, style: Style::plain() });
    assert(lines_model(lines@) =~= header(*record, base, theme));
    lines
}

fn push_fields(lines: &mut Vec<DetailLine>, fields: &Vec<DetailField>, base: Style, theme: Theme)
    ensures
        lines_model(final(lines)@) == lines_model(old(lines)@) + field_lines(fields@, base),
{
    let ghost before = lines_model(lines@);
    let ghost all = field_lines(fields@, base);
    let mut i: usize = 0;
    assert(before + all.take(0) =~= before);
    while i < fields.len()
        invariant
            i <= fields@.len(),
            all == field_lines(fields@, base),
            lines_model(lines@) == before + all.take(i as int),
        decreases fields.len() - i,
    {
        push_line(lines, detail_row(&fields[i], base, theme));
        assert(before + all.take(i + 1) =~= (before + all.take(i as int)).push(all[i as int]));
        i += 1;
    }
    assert(all.take(i as int) =~= all);
}

fn push_tree(
    lines: &mut Vec<DetailLine>,
    rows: &Vec<TreeRow>,
    cursor: usize,
    focused: bool,
    base: Style,
    theme: Theme,
    ascii: bool,
)
    requires
        forall|i: int| 0 <= i < rows@.len() ==> 2 * (#[trigger] rows@[i]).depth <= usize::MAX,
        cursor == cursor_row(rows@.len() as int, cursor as int),
    ensures
        lines_model(final(lines)@) == lines_model(old(lines)@) + tree_lines(
            rows@,
            cursor as int,
            focused,
            base,
            theme,
            ascii,
        ),
{
    let ghost before = lines_model(lines@);
    let ghost all = tree_lines(rows@, cursor as int, focused, base, theme, ascii);
    let mut i: usize = 0;
    assert(before + all.take(0) =~= before);
    while i < rows.len()
        invariant
            i <= rows@.len(),
            forall|j: int| 0 <= j < rows@.len() ==> 2 * (#[trigger] rows@[j]).depth <= usize::MAX,
            cursor == cursor_row(rows@.len() as int, cursor as int),
            all == tree_lines(rows@, cursor as int, focused, base, theme, ascii),
            lines_model(lines@) == before + all.take(i as int),
        decreases rows.len() - i,
    {
        push_line(lines, tree_line(&rows[i], focused && i == cursor, base, theme, ascii));
        assert(before + all.take(i + 1) =~= (before + all.take(i as int)).push(all[i as int]));
        i += 1;
    }
    assert(all.take(i as int) =~= all);
}

/// Draws the pane: the header, the tree or the columns, and the details. The
/// cursor is kept on a row of the tree.
pub fn details_view(
    record: &DetailRecord,
    cursor: usize,
    focused: bool,
    base: Style,
    theme: Theme,
    ascii: bool,
) -> (r: DetailsView)
    requires
        record.tree matches Some(rows) ==> rows@.len() <= usize::MAX - HEADER_LINES && forall|i: int|
            0 <= i < rows@.len() ==> 2 * (#[trigger] rows@[i]).depth <= usize::MAX,
    ensures
        lines_model(r.lines@) == header(*record, base, theme) + body_lines(
            *record,
            cursor as int,
            focused,
            base,
            theme,
            ascii,
        ) + field_lines(record.details@, base),
        r.cursor_line == match record.tree {
            Some(rows) => if rows@.len() > 0 {
                Some((HEADER_LINES + cursor_row(rows@.len() as int, cursor as int)) as usize)
            } else {
                None
            },
            None => None,
        },
{
    let mut lines = header_lines(record, base, theme);
    let mut cursor_line: Option<usize> = None;
    match &record.tree {
        Some(rows) => {
            let last: usize = rows.len().saturating_sub(1);
            let place: usize = if cursor < last {
                cursor
            } else {
                last
            };
            if rows.len() > 0 {
                cursor_line = Some(HEADER_LINES + place);
            }
            push_tree(&mut lines, rows, place, focused, base, theme, ascii);
        },
        None => push_fields(&mut lines, &record.fields, base, theme),
    }
    push_fields(&mut lines, &record.details, base, theme);
    DetailsView { lines, cursor_line }
}

/// The cursor is on a row of the tree, wherever it was, and that row alone is
/// marked.
pub proof fn one_row_has_the_cursor(
    rows: Seq<TreeRow>,
    cursor: int,
    base: Style,
    theme: Theme,
    ascii: bool,
    i: int,
)
    requires
        cursor >= 0,
        0 <= i < rows.len(),
    ensures
        0 <= cursor_row(rows.len() as int, cursor) < rows.len(),
        i != cursor_row(rows.len() as int, cursor) ==> tree_lines(
            rows,
            cursor,
            true,
            base,
            theme,
            ascii,
        )[i] == row_line(rows[i], false, base, theme, ascii),
        i == cursor_row(rows.len() as int, cursor) ==> tree_lines(
            rows,
            cursor,
            true,
            base,
            theme,
            ascii,
        )[i] == row_line(rows[i], true, base, theme, ascii),
{
}

/// A column's name has the colour that its key has in the text.
pub proof fn name_has_the_keys_color(identity: Color, theme: Theme)
    ensures
        kind_color(JsonKind::Key(identity), theme) == identity,
{
}

/// The first word of a text is what stands between its leading white space and
/// the next.
pub proof fn first_word_is_found(lead: Seq<char>, word: Seq<char>, rest: Seq<char>)
    requires
        all_white(lead),
        forall|i: int| 0 <= i < word.len() ==> !white(#[trigger] word[i]),
        word.len() > 0,
        rest.len() == 0 || white(rest[0]),
    ensures
        first_word(lead + word + rest) == word,
    decreases lead.len(),
{
    let text = lead + word + rest;
    if lead.len() == 0 {
        assert(text =~= word + rest);
        assert(text[0] == word[0]);
        word_ends(word, rest, 0);
        assert(text.take(word.len() as int) =~= word);
    } else {
        assert(text[0] == lead[0]);
        assert(text.skip(1) =~= lead.skip(1) + word + rest);
        first_word_is_found(lead.skip(1), word, rest);
    }
}

proof fn word_ends(word: Seq<char>, rest: Seq<char>, n: int)
    requires
        0 <= n <= word.len(),
        forall|i: int| 0 <= i < word.len() ==> !white(#[trigger] word[i]),
        rest.len() == 0 || white(rest[0]),
    ensures
        word_end(word + rest, n) == word.len(),
    decreases word.len() - n,
{
    if n < word.len() {
        assert((word + rest)[n] == word[n]);
        word_ends(word, rest, n + 1);
    } else if rest.len() > 0 {
        assert((word + rest)[n] == rest[0]);
    }
}

/// Only the status of a command has a look of its own: that of something pending
/// while its first word says so, in whatever case, and of something applied
/// otherwise.
pub proof fn only_a_status_has_its_look(
    key: Seq<char>,
    value: Seq<char>,
    base: Style,
    theme: Theme,
)
    ensures
        key != "command.status"@ ==> value_look(key, value, base, theme) == base,
        key == "command.status"@ && small(first_word(value)) == "pending"@ ==> value_look(
            key,
            value,
            base,
            theme,
        ).fg == Some(theme.readable.warn_on_dialog),
        key == "command.status"@ && small(first_word(value)) != "pending"@ ==> value_look(
            key,
            value,
            base,
            theme,
        ).fg == Some(theme.readable.info_on_dialog),
{
}

/// A row of the tree reads as its label and its value, or its summary behind a
/// sign, two columns further in for each level.
pub proof fn tree_row_reads_as_its_label(
    row: TreeRow,
    at_cursor: bool,
    record: Style,
    theme: Theme,
    ascii: bool,
)
    ensures
        ({
            let line = row_line(row, at_cursor, record, theme, ascii);
            &&& line.spans.len() == 3
            &&& line.spans[0].0.len() == 2 + 2 * row.depth
            &&& row.shape matches RowShape::Scalar { kind, text } ==> line.spans[1].0 == "  "@
                + row.label@ + ": "@ && line.spans[2].0 == text@
            &&& row.shape matches RowShape::Container { expanded, summary } ==> line.spans[1].0
                == (if ascii && expanded {
                "v"@
            } else if ascii {
                ">"@
            } else if expanded {
                "\u{25be}"@
            } else {
                "\u{25b8}"@
            }) + " "@ + row.label@ + ": "@ && line.spans[2].0 == summary@
            &&& at_cursor ==> line.spans[0].1.bg == Some(theme.selection_bg) && line.spans[2].1.bg
                == Some(theme.selection_bg)
        }),
{
    reveal_strlit("  ");
    reveal_strlit("> ");
    reveal_strlit("\u{203a} ");
}

/// The pane begins with the identity of the record and its whole text, and shows
/// each row of its tree, or each of its columns, in its order.
pub proof fn record_is_shown_whole(
    record: DetailRecord,
    cursor: int,
    focused: bool,
    base: Style,
    theme: Theme,
    ascii: bool,
    i: int,
)
    ensures
        header(record, base, theme).len() == 2,
        header(record, base, theme)[0].spans[1].0 == record.id@,
        header(record, base, theme)[1].spans.skip(1) == line_view(record.raw@),
        ({
            let lines = body_lines(record, cursor, focused, base, theme, ascii);
            &&& record.tree matches Some(rows) ==> lines.len() == rows@.len()
            &&& record.tree is None ==> lines.len() == record.fields@.len() && (0 <= i
                < lines.len() ==> lines[i].spans[0].0 == record.fields@[i].key@ + ": "@
                && lines[i].spans.skip(1) == line_view(record.fields@[i].spans@))
        }),
{
    let head = header(record, base, theme);
    assert(head[1].spans.skip(1) =~= line_view(record.raw@));
    if record.tree is None && 0 <= i < record.fields@.len() {
        let lines = body_lines(record, cursor, focused, base, theme, ascii);
        assert(lines[i].spans.skip(1) =~= line_view(record.fields@[i].spans@));
    }
}

} // verus!
