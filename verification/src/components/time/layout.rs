//! The form of the Time window layer: where its fields, buttons and notes stand
//! before the form is scrolled.

use super::{ReadingModel, TimeControl, TimeReading};
use crate::dialog_controls::{button_columns, button_width};
use crate::dialog_layout::{FIELD_GUTTER, PANE_INDENT};
use crate::geometry::{greatest, least, max16, min16, minus, Rect};
use crate::text::{decimal, decimal_text, texts};
use crate::width::width_of;
use vstd::prelude::*;

verus! {

/// The label column of the form.
pub const TIME_LABEL_WIDTH: u16 = 11;

/// The width from which a bound takes one row.
pub const WIDE_FORM: u16 = 56;

/// The most assumptions that a form has rows for.
pub const MAX_ASSUMPTIONS: usize = 65_522;

/// What opens the zones of a bound.
pub const ZONE_MENU: &'static str = "\u{25be}";

/// What accepts the reading that awaits confirmation.
pub const ACCEPT_LABEL: &'static str = "Accept assumption";

/// A field of the form.
#[derive(Clone, Copy, Debug)]
pub struct TimeFieldLayout {
    pub control: TimeControl,
    pub label: Rect,
    pub input: Rect,
    pub label_text: &'static str,
    /// Shows its value with a chevron and takes no caret.
    pub dropdown: bool,
}

/// A field of the form, by what it says.
#[verifier::ext_equal]
pub struct FieldModel {
    pub control: TimeControl,
    pub label: Rect,
    pub input: Rect,
    pub label_text: Seq<char>,
    pub dropdown: bool,
}

impl TimeFieldLayout {
    pub open spec fn model(self) -> FieldModel {
        FieldModel {
            control: self.control,
            label: self.label,
            input: self.input,
            label_text: self.label_text@,
            dropdown: self.dropdown,
        }
    }
}

/// What fields say.
pub open spec fn fields_model(fields: Seq<TimeFieldLayout>) -> Seq<FieldModel> {
    fields.map_values(|field: TimeFieldLayout| field.model())
}

/// A line under the basis: what a reading assumes, how much it covers, and why
/// it is blocked. A warning is to be weighed, not merely read.
#[derive(Debug)]
pub struct TimeNote {
    pub area: Rect,
    pub text: String,
    pub warn: bool,
}

/// What notes say.
pub open spec fn notes_model(notes: Seq<TimeNote>) -> Seq<(Rect, Seq<char>, bool)> {
    notes.map_values(|note: TimeNote| (note.area, note.text@, note.warn))
}

/// The form.
#[derive(Debug)]
pub struct TimeEditorLayout {
    pub fields: Vec<TimeFieldLayout>,
    pub buttons: Vec<(TimeControl, Rect)>,
    pub controls: Vec<(Rect, TimeControl)>,
    pub notes: Vec<TimeNote>,
    pub height: u16,
}

/// A rectangle of one row.
pub open spec fn row_at(x: int, y: int, width: int) -> Rect {
    Rect::spec_new(x as u16, y as u16, width as u16, 1)
}

/// Where the values of the form start.
pub open spec fn value_column(width: int) -> int {
    least(TIME_LABEL_WIDTH + FIELD_GUTTER, width)
}

/// A field with a list.
pub open spec fn list_field(width: int, y: int, control: TimeControl, label_text: Seq<char>) -> FieldModel {
    FieldModel {
        control,
        label: row_at(0, y, least(TIME_LABEL_WIDTH as int, width)),
        input: row_at(value_column(width), y, width - value_column(width)),
        label_text,
        dropdown: true,
    }
}

/// The rows that the confirmation of a reading takes: the readings, the notes,
/// and the button where the reading is not blocked.
pub open spec fn confirm_rows(reading: Option<ReadingModel>) -> int {
    match reading {
        None => 0,
        Some(reading) => 4 + reading.assumptions.len() as int,
    }
}

/// What a reading covers.
pub open spec fn coverage_text(coverage: Option<u8>, sampled: int) -> Seq<char> {
    match coverage {
        Some(percent) => "Coverage: "@ + decimal(percent as nat) + "% of "@ + decimal(
            sampled as nat,
        ) + " sampled records"@,
        None => "Coverage: not validated"@,
    }
}

/// The notes on a reading: its field, its coverage, why it is blocked, and each
/// assumption it rests on, a row for each.
pub open spec fn reading_notes(reading: ReadingModel, sampled: int) -> Seq<(Seq<char>, bool)> {
    seq![("Field: "@ + reading.label, false), (coverage_text(reading.coverage, sampled), false)] + (
    match reading.blocked {
        Some(reason) => seq![("Blocked: "@ + reason, true)],
        None => seq![],
    }) + reading.assumptions.map_values(|text: Seq<char>| ("Assumes: "@ + text, true))
}

/// The columns of a note.
pub open spec fn note_width(width: int) -> int {
    greatest(minus(width, PANE_INDENT as int), 1)
}

/// Notes on rows from `y` on.
pub open spec fn placed_notes(texts: Seq<(Seq<char>, bool)>, width: int, y: int) -> Seq<
    (Rect, Seq<char>, bool),
> {
    Seq::new(
        texts.len(),
        |i: int| (row_at(PANE_INDENT as int, y + i, note_width(width)), texts[i].0, texts[i].1),
    )
}

/// The labels of a bound whose parts stand below one another.
pub open spec fn part_labels(start: bool) -> (Seq<char>, Seq<char>, Seq<char>) {
    if start {
        ("Start date"@, "Start time"@, "Start zone"@)
    } else {
        ("End date"@, "End time"@, "End zone"@)
    }
}

/// The label column of such a bound: its longest label and a gap.
pub open spec fn part_label_width(start: bool, width: int) -> int {
    least(
        if start {
            12
        } else {
            10
        },
        width,
    )
}

/// The parts of a bound.
pub open spec fn part_controls(start: bool) -> (TimeControl, TimeControl, TimeControl) {
    if start {
        (TimeControl::StartDate, TimeControl::StartClock, TimeControl::StartZone)
    } else {
        (TimeControl::EndDate, TimeControl::EndClock, TimeControl::EndZone)
    }
}

/// A typed field.
pub open spec fn typed_field(
    control: TimeControl,
    label: Rect,
    input: Rect,
    label_text: Seq<char>,
) -> FieldModel {
    FieldModel { control, label, input, label_text, dropdown: false }
}

/// The fields of a bound: in one row where the form is wide, else one below
/// another with their full labels.
pub open spec fn bound_fields(width: int, y: int, start: bool) -> Seq<FieldModel> {
    let (date, clock, zone) = part_controls(start);
    if width >= WIDE_FORM {
        let clock_width = width - 32;
        seq![
            typed_field(
                date,
                row_at(0, y, 6),
                row_at(6, y, 10),
                if start {
                    "Start"@
                } else {
                    "End"@
                },
            ),
            typed_field(clock, row_at(16, y, 1), row_at(17, y, clock_width), ""@),
            typed_field(
                zone,
                row_at(17 + clock_width, y, 1),
                row_at(18 + clock_width, y, 9),
                ""@,
            ),
        ]
    } else {
        let labels = part_labels(start);
        let column = part_label_width(start, width);
        seq![
            typed_field(date, row_at(0, y, column), row_at(column, y, width - column), labels.0),
            typed_field(
                clock,
                row_at(0, y + 1, column),
                row_at(column, y + 1, width - column),
                labels.1,
            ),
            typed_field(
                zone,
                row_at(0, y + 2, column),
                row_at(column, y + 2, minus(width, column + 5)),
                labels.2,
            ),
        ]
    }
}

/// The rows of a bound.
pub open spec fn bound_rows(width: int) -> int {
    if width >= WIDE_FORM {
        1
    } else {
        3
    }
}

/// Where the zones of a bound are opened: at the end of its last row.
pub open spec fn zone_menu(width: int, y: int) -> Rect {
    let menu = least(button_columns(ZONE_MENU@), width);
    row_at(width - menu, y + bound_rows(width) - 1, menu)
}

/// The width a form is laid out at.
pub open spec fn form_width(area: Rect) -> int {
    greatest(area.width as int, 1)
}

/// The row of the window.
pub open spec fn window_row(reading: Option<ReadingModel>) -> int {
    1 + confirm_rows(reading)
}

/// The row of the start bound, an empty row below the window.
pub open spec fn start_row(reading: Option<ReadingModel>) -> int {
    window_row(reading) + 2
}

pub open spec fn end_row(width: int, reading: Option<ReadingModel>) -> int {
    start_row(reading) + bound_rows(width)
}

/// A sequence of one where there is a reading.
pub open spec fn if_reading<T>(reading: Option<ReadingModel>, item: T) -> Seq<T> {
    if reading is Some {
        seq![item]
    } else {
        seq![]
    }
}

/// A sequence of one where there is a reading that is not blocked.
pub open spec fn if_acceptable<T>(reading: Option<ReadingModel>, item: T) -> Seq<T> {
    if reading is Some && reading->0.blocked is None {
        seq![item]
    } else {
        seq![]
    }
}

/// The button that accepts a reading, on the last row of its confirmation.
pub open spec fn accept_button(width: int, reading: Option<ReadingModel>) -> Rect {
    row_at(
        PANE_INDENT as int,
        confirm_rows(reading),
        least(button_columns(ACCEPT_LABEL@), note_width(width)),
    )
}

/// All fields of the form.
pub open spec fn form_fields(width: int, reading: Option<ReadingModel>) -> Seq<FieldModel> {
    seq![list_field(width, 0, TimeControl::Basis, "Time basis"@)] + if_reading(
        reading,
        list_field(width, 1, TimeControl::Reading, "Reading"@),
    ) + seq![list_field(width, window_row(reading), TimeControl::Window, "Window"@)] + bound_fields(
        width,
        start_row(reading),
        true,
    ) + bound_fields(width, end_row(width, reading), false)
}

/// All buttons of the form.
pub open spec fn form_buttons(width: int, reading: Option<ReadingModel>) -> Seq<(TimeControl, Rect)> {
    if_acceptable(reading, (TimeControl::AcceptField, accept_button(width, reading))) + seq![
        (TimeControl::StartZoneMenu, zone_menu(width, start_row(reading))),
        (TimeControl::EndZoneMenu, zone_menu(width, end_row(width, reading))),
    ]
}

/// Whether a field takes input: a zone only where it is typed.
pub open spec fn field_is_live(control: TimeControl, start_custom: bool, end_custom: bool) -> bool {
    match control {
        TimeControl::StartZone => start_custom,
        TimeControl::EndZone => end_custom,
        _ => true,
    }
}

/// The inputs of the first `n` fields that take input.
pub open spec fn live_inputs(
    fields: Seq<FieldModel>,
    start_custom: bool,
    end_custom: bool,
    n: int,
) -> Seq<(Rect, TimeControl)>
    decreases n,
{
    if n <= 0 {
        seq![]
    } else {
        let before = live_inputs(fields, start_custom, end_custom, n - 1);
        let field = fields[n - 1];
        if field_is_live(field.control, start_custom, end_custom) {
            before.push((field.input, field.control))
        } else {
            before
        }
    }
}

/// The controls of the form: its lists and buttons from top to bottom, and then
/// every field that takes input.
pub open spec fn form_controls(
    width: int,
    reading: Option<ReadingModel>,
    start_custom: bool,
    end_custom: bool,
) -> Seq<(Rect, TimeControl)> {
    let fields = form_fields(width, reading);
    seq![(list_field(width, 0, TimeControl::Basis, "Time basis"@).input, TimeControl::Basis)]
        + if_reading(
        reading,
        (list_field(width, 1, TimeControl::Reading, "Reading"@).input, TimeControl::Reading),
    ) + if_acceptable(reading, (accept_button(width, reading), TimeControl::AcceptField)) + seq![
        (
            list_field(width, window_row(reading), TimeControl::Window, "Window"@).input,
            TimeControl::Window,
        ),
        (zone_menu(width, start_row(reading)), TimeControl::StartZoneMenu),
        (zone_menu(width, end_row(width, reading)), TimeControl::EndZoneMenu),
    ] + live_inputs(fields, start_custom, end_custom, fields.len() as int)
}

/// The height of the form.
pub open spec fn form_height(width: int, reading: Option<ReadingModel>) -> int {
    end_row(width, reading) + bound_rows(width)
}

fn place_list_field(width: u16, y: u16, control: TimeControl, label_text: &'static str) -> (r:
    TimeFieldLayout)
    ensures
        r.model() == list_field(width as int, y as int, control, label_text@),
{
    let x: u16 = min16(TIME_LABEL_WIDTH + FIELD_GUTTER, width);
    TimeFieldLayout {
        control,
        label: Rect::new(0, y, min16(TIME_LABEL_WIDTH, width), 1),
        input: Rect::new(x, y, width - x, 1),
        label_text,
        dropdown: true,
    }
}

fn place_typed(control: TimeControl, label: Rect, input: Rect, label_text: &'static str) -> (r:
    TimeFieldLayout)
    ensures
        r.model() == typed_field(control, label, input, label_text@),
{
    TimeFieldLayout { control, label, input, label_text, dropdown: false }
}

fn push_field(fields: &mut Vec<TimeFieldLayout>, field: TimeFieldLayout)
    ensures
        fields_model(final(fields)@) == fields_model(old(fields)@).push(field.model()),
{
    let ghost before = fields@;
    fields.push(field);
    assert(fields_model(fields@) =~= fields_model(before).push(field.model()));
}

/// The label column of a bound whose parts stand below one another.
fn label_column(start: bool, width: u16) -> (r: u16)
    ensures
        r == part_label_width(start, width as int),
{
    proof {
        reveal_strlit("Start date");
        reveal_strlit("End date");
    }
    let longest: usize = if start {
        width_of("Start date")
    } else {
        width_of("End date")
    };
    min16(longest as u16 + 2, width)
}

fn push_bound(fields: &mut Vec<TimeFieldLayout>, width: u16, y: u16, start: bool)
    requires
        width >= 1,
        y <= 65532,
    ensures
        fields_model(final(fields)@) == fields_model(old(fields)@) + bound_fields(
            width as int,
            y as int,
            start,
        ),
{
    let (date, clock, zone) = if start {
        (TimeControl::StartDate, TimeControl::StartClock, TimeControl::StartZone)
    } else {
        (TimeControl::EndDate, TimeControl::EndClock, TimeControl::EndZone)
    };
    let ghost before = fields_model(fields@);
    if width >= WIDE_FORM {
        let clock_width: u16 = width - 32;
        let label = if start {
            "Start"
        } else {
            "End"
        };
        push_field(
            fields,
            place_typed(date, Rect::new(0, y, 6, 1), Rect::new(6, y, 10, 1), label),
        );
        push_field(
            fields,
            place_typed(clock, Rect::new(16, y, 1, 1), Rect::new(17, y, clock_width, 1), ""),
        );
        push_field(
            fields,
            place_typed(
                zone,
                Rect::new(17 + clock_width, y, 1, 1),
                Rect::new(18 + clock_width, y, 9, 1),
                "",
            ),
        );
    } else {
        let column: u16 = label_column(start, width);
        let (date_label, clock_label, zone_label) = if start {
            ("Start date", "Start time", "Start zone")
        } else {
            ("End date", "End time", "End zone")
        };
        push_field(
            fields,
            place_typed(
                date,
                Rect::new(0, y, column, 1),
                Rect::new(column, y, width - column, 1),
                date_label,
            ),
        );
        push_field(
            fields,
            place_typed(
                clock,
                Rect::new(0, y + 1, column, 1),
                Rect::new(column, y + 1, width - column, 1),
                clock_label,
            ),
        );
        push_field(
            fields,
            place_typed(
                zone,
                Rect::new(0, y + 2, column, 1),
                Rect::new(column, y + 2, width.saturating_sub(column + 5), 1),
                zone_label,
            ),
        );
    }
    assert(fields_model(fields@) =~= before + bound_fields(width as int, y as int, start));
}

fn place_zone_menu(width: u16, y: u16) -> (r: Rect)
    requires
        y <= 65532,
    ensures
        r == zone_menu(width as int, y as int),
{
    let menu: u16 = min16(button_width(ZONE_MENU), width);
    let row: u16 = if width >= WIDE_FORM {
        y
    } else {
        y + 2
    };
    Rect::new(width - menu, row, menu, 1)
}

fn push_note(notes: &mut Vec<TimeNote>, width: u16, y: u16, label: &str, value: &str, warn: bool)
    ensures
        notes_model(final(notes)@) == notes_model(old(notes)@).push(
            (row_at(PANE_INDENT as int, y as int, note_width(width as int)), label@ + value@, warn),
        ),
{
    let mut text = label.to_owned();
    text.append(value);
    let ghost before = notes@;
    let columns: u16 = max16(width.saturating_sub(PANE_INDENT), 1);
    notes.push(TimeNote { area: Rect::new(PANE_INDENT, y, columns, 1), text, warn });
    assert(notes_model(notes@) =~= notes_model(before).push(
        (row_at(PANE_INDENT as int, y as int, note_width(width as int)), label@ + value@, warn),
    ));
}

fn push_notes(notes: &mut Vec<TimeNote>, reading: &TimeReading, sampled: usize, width: u16, first: u16)
    requires
        old(notes)@.len() == 0,
        first <= 10,
        reading.assumptions@.len() <= MAX_ASSUMPTIONS,
    ensures
        notes_model(final(notes)@) == placed_notes(
            reading_notes(reading.model(), sampled as int),
            width as int,
            first as int,
        ),
{
    let ghost all = reading_notes(reading.model(), sampled as int);
    push_note(notes, width, first, "Field: ", reading.label.as_str(), false);
    let mut coverage = "Coverage: not validated".to_owned();
    if let Some(percent) = reading.coverage_percent {
        coverage = "Coverage: ".to_owned();
        coverage.append(decimal_text(percent as u64).as_str());
        coverage.append("% of ");
        coverage.append(decimal_text(sampled as u64).as_str());
        coverage.append(" sampled records");
    }
    push_note(notes, width, first + 1, coverage.as_str(), "", false);
    proof {
        reveal_strlit("");
        assert(coverage@ + ""@ =~= coverage@);
    }
    let mut y: u16 = first + 2;
    if let Some(reason) = &reading.blocked {
        push_note(notes, width, y, "Blocked: ", reason.as_str(), true);
        y += 1;
    }
    let ghost fixed = y - first;
    let mut i: usize = 0;
    assert(notes_model(notes@) =~= placed_notes(all.take(fixed), width as int, first as int));
    while i < reading.assumptions.len()
        invariant
            i <= reading.assumptions@.len() <= MAX_ASSUMPTIONS,
            first <= 10,
            2 <= fixed <= 3,
            y == first + fixed + i,
            all == reading_notes(reading.model(), sampled as int),
            all.len() == fixed + reading.assumptions@.len(),
            forall|j: int|
                0 <= j < reading.assumptions@.len() ==> #[trigger] all[fixed + j] == (
                    "Assumes: "@ + reading.assumptions@[j]@,
                    true,
                ),
            notes_model(notes@) =~= placed_notes(all.take(fixed + i), width as int, first as int),
        decreases reading.assumptions.len() - i,
    {
        push_note(notes, width, y, "Assumes: ", reading.assumptions[i].as_str(), true);
        assert(all[fixed + i] == ("Assumes: "@ + reading.assumptions@[i as int]@, true));
        y += 1;
        i += 1;
    }
    assert(all.take(fixed + i) =~= all);
}

/// The form of the layer at a width: its fields, buttons and notes, what takes the
/// focus, and its height.
pub open spec fn is_form(
    layout: TimeEditorLayout,
    width: int,
    pending: Option<ReadingModel>,
    sampled_records: int,
    start_zone_custom: bool,
    end_zone_custom: bool,
) -> bool {
    &&& fields_model(layout.fields@) == form_fields(width, pending)
    &&& layout.buttons@ == form_buttons(width, pending)
    &&& layout.controls@ == form_controls(width, pending, start_zone_custom, end_zone_custom)
    &&& notes_model(layout.notes@) == match pending {
        Some(reading) => placed_notes(reading_notes(reading, sampled_records), width, 2),
        None => seq![],
    }
    &&& layout.height == form_height(width, pending)
}

/// Lays the form of the layer out at a width, with the reading that awaits
/// confirmation where there is one.
pub fn time_editor_layout(
    area: Rect,
    reading: Option<&TimeReading>,
    sampled_records: usize,
    start_zone_custom: bool,
    end_zone_custom: bool,
) -> (r: TimeEditorLayout)
    requires
        reading matches Some(reading) ==> reading.assumptions@.len() <= MAX_ASSUMPTIONS,
    ensures
        is_form(
            r,
            form_width(area),
            match reading {
                Some(reading) => Some(reading.model()),
                None => None,
            },
            sampled_records as int,
            start_zone_custom,
            end_zone_custom,
        ),
{
    let width: u16 = max16(area.width, 1);
    let ghost pending = match reading {
        Some(reading) => Some(reading.model()),
        None => None,
    };
    let mut fields: Vec<TimeFieldLayout> = Vec::new();
    let mut buttons: Vec<(TimeControl, Rect)> = Vec::new();
    let mut controls: Vec<(Rect, TimeControl)> = Vec::new();
    let mut notes: Vec<TimeNote> = Vec::new();
    assert(fields_model(fields@) =~= seq![]);
    assert(notes_model(notes@) =~= seq![]);
    let basis = place_list_field(width, 0, TimeControl::Basis, "Time basis");
    controls.push((basis.input, TimeControl::Basis));
    push_field(&mut fields, basis);
    let mut y: u16 = 1;
    if let Some(reading) = reading {
        let readings = place_list_field(width, 1, TimeControl::Reading, "Reading");
        controls.push((readings.input, TimeControl::Reading));
        push_field(&mut fields, readings);
        push_notes(&mut notes, reading, sampled_records, width, 2);
        let count: u16 = reading.assumptions.len() as u16;
        assert(count == pending->0.assumptions.len());
        if reading.blocked.is_none() {
            let columns: u16 = max16(width.saturating_sub(PANE_INDENT), 1);
            let rect = Rect::new(
                PANE_INDENT,
                4 + count,
                min16(button_width(ACCEPT_LABEL), columns),
                1,
            );
            buttons.push((TimeControl::AcceptField, rect));
            controls.push((rect, TimeControl::AcceptField));
        }
        y = 5 + count;
    }
    let window = place_list_field(width, y, TimeControl::Window, "Window");
    controls.push((window.input, TimeControl::Window));
    push_field(&mut fields, window);
    let rows: u16 = if width >= WIDE_FORM {
        1
    } else {
        3
    };
    let start: u16 = y + 2;
    let end: u16 = start + rows;
    push_bound(&mut fields, width, start, true);
    push_bound(&mut fields, width, end, false);
    assert(fields_model(fields@) =~= form_fields(width as int, pending));
    let start_menu = place_zone_menu(width, start);
    let end_menu = place_zone_menu(width, end);
    buttons.push((TimeControl::StartZoneMenu, start_menu));
    buttons.push((TimeControl::EndZoneMenu, end_menu));
    controls.push((start_menu, TimeControl::StartZoneMenu));
    controls.push((end_menu, TimeControl::EndZoneMenu));
    assert(buttons@ =~= form_buttons(width as int, pending));
    let ghost fixed = controls@;
    let ghost all = fields_model(fields@);
    let mut n: usize = 0;
    while n < fields.len()
        invariant
            n <= fields@.len(),
            all == fields_model(fields@),
            controls@ =~= fixed + live_inputs(all, start_zone_custom, end_zone_custom, n as int),
        decreases fields.len() - n,
    {
        let field = fields[n];
        assert(all[n as int] == field.model());
        let live = match field.control {
            TimeControl::StartZone => start_zone_custom,
            TimeControl::EndZone => end_zone_custom,
            _ => true,
        };
        if live {
            controls.push((field.input, field.control));
        }
        n += 1;
    }
    assert(controls@ =~= form_controls(
        width as int,
        pending,
        start_zone_custom,
        end_zone_custom,
    ));
    TimeEditorLayout { fields, buttons, controls, notes, height: end + rows }
}

/// No row of the form lies past its height.
pub proof fn form_rows_are_within(width: int, reading: Option<ReadingModel>, i: int)
    requires
        1 <= width <= 65535,
        reading matches Some(reading) ==> reading.assumptions.len() <= MAX_ASSUMPTIONS,
        0 <= i < form_fields(width, reading).len(),
    ensures
        form_fields(width, reading)[i].input.y < form_height(width, reading),
        form_fields(width, reading)[i].label.y == form_fields(width, reading)[i].input.y,
        form_fields(width, reading)[i].input.x <= width,
{
    let head = seq![list_field(width, 0, TimeControl::Basis, "Time basis"@)];
    let readings = if_reading(reading, list_field(width, 1, TimeControl::Reading, "Reading"@));
    let window = seq![list_field(width, window_row(reading), TimeControl::Window, "Window"@)];
    let start = bound_fields(width, start_row(reading), true);
    let end = bound_fields(width, end_row(width, reading), false);
    let field = form_fields(width, reading)[i];
    let a = head.len() as int;
    let b = a + readings.len();
    let c = b + window.len();
    let d = c + start.len();
    if i < a {
        assert(field == head[i]);
    } else if i < b {
        assert(field == readings[i - a]);
    } else if i < c {
        assert(field == window[i - b]);
    } else if i < d {
        assert(field == start[i - c]);
    } else {
        assert(field == end[i - d]);
    }
}

} // verus!
