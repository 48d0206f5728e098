//! How a frame of the Time window layer is laid out and what it says.

use super::layout::{field_is_live, fields_model, FieldModel, TimeEditorLayout};
use super::{
    candidates, some_candidate, zone_labels, BoundModel, CandidateModel, CaptureTimePolicy,
    ReadingModel, TIME_OUTBOX_CAP, TimeAsk, TimeBasis, TimeBound, TimeControl, TimeDialog,
    TimeDropdown, TimeFieldCandidate, TimeGeometry, TimeHit, TimeModel, TimeReading,
    TimeRecognition, TimeState, TimeView, TimeWindowChoice, ViewModel, ZoneChoice,
};
use crate::component::{CommandEntry, CommandId, CommandSpec, MessageState, Outbox, Queue, Surface};
use crate::dialog_layout::{find_region, region_at, DialogSpec};
use crate::geometry::{greatest, least, max16, min16, minus, sat16, Rect};
use crate::text::{copy_texts, decimal, decimal_text, same, some_str, some_text, strs, texts};
use vstd::prelude::*;

verus! {

/// A row of the list of bases.
#[derive(Debug)]
pub enum TimeBasisEntry {
    Builtin(TimeBasis),
    Field(TimeFieldCandidate),
}

/// How a field of the list is labelled: its name and reading, and whether it is
/// blocked, needs an assumption, or how much of the sample it covers.
pub open spec fn field_label(candidate: CandidateModel) -> Seq<char> {
    let named = if candidate.main.reading.len() == 0 {
        candidate.main.label
    } else {
        candidate.main.label + " \u{b7} "@ + candidate.main.reading
    };
    if candidate.first_usable(0) is None {
        named + " \u{b7} blocked"@
    } else if candidate.main.blocked is Some || candidate.main.assumptions.len() > 0 {
        named + " \u{b7} needs an assumption"@
    } else {
        match candidate.main.coverage {
            Some(percent) => named + (" \u{b7} "@ + decimal(percent as nat) + "%"@),
            None => named,
        }
    }
}

fn field_label_text(candidate: &TimeFieldCandidate) -> (r: String)
    ensures
        r@ == field_label(candidate.model()),
{
    let mut label = candidate.main.label.clone();
    if !candidate.main.reading.as_str().is_empty() {
        label.append(" \u{b7} ");
        label.append(candidate.main.reading.as_str());
    }
    assert(candidate.model().main.assumptions.len() == candidate.main.assumptions@.len());
    if candidate.first_usable().is_none() {
        label.append(" \u{b7} blocked");
    } else if candidate.main.blocked.is_some() || candidate.main.assumptions.len() > 0 {
        label.append(" \u{b7} needs an assumption");
    } else if let Some(percent) = candidate.main.coverage_percent {
        let mut tail = " \u{b7} ".to_owned();
        tail.append(decimal_text(percent as u64).as_str());
        tail.append("%");
        label.append(tail.as_str());
    }
    label
}

impl TimeBasisEntry {
    /// The label of a row; `builtin` is how the shell names a built-in basis.
    pub fn label(&self, builtin: &str) -> (r: String)
        ensures
            r@ == match *self {
                TimeBasisEntry::Builtin(_) => builtin@,
                TimeBasisEntry::Field(candidate) => field_label(candidate.model()),
            },
    {
        match self {
            TimeBasisEntry::Builtin(_) => builtin.to_owned(),
            TimeBasisEntry::Field(candidate) => field_label_text(candidate),
        }
    }
}

/// A row of the list of bases, by what it stands for.
pub enum EntryModel {
    Builtin(TimeBasis),
    Field(CandidateModel),
}

/// What the rows of the list of bases stand for: the built-in bases, and then
/// every field in the recognizer's order.
pub open spec fn basis_rows(candidates: Seq<CandidateModel>) -> Seq<EntryModel> {
    seq![
        EntryModel::Builtin(TimeBasis::Capture),
        EntryModel::Builtin(TimeBasis::Event),
        EntryModel::Builtin(TimeBasis::Extracted),
    ] + candidates.map_values(|candidate: CandidateModel| EntryModel::Field(candidate))
}

/// What rows stand for.
pub open spec fn entries_model(entries: Seq<TimeBasisEntry>) -> Seq<EntryModel> {
    entries.map_values(
        |entry: TimeBasisEntry|
            match entry {
                TimeBasisEntry::Builtin(basis) => EntryModel::Builtin(basis),
                TimeBasisEntry::Field(candidate) => EntryModel::Field(candidate.model()),
            },
    )
}

/// The list of bases.
pub fn time_basis_entries(dialog: &TimeState) -> (r: Vec<TimeBasisEntry>)
    ensures
        entries_model(r@) == basis_rows(candidates(dialog.recognition.candidates@)),
{
    let mut entries: Vec<TimeBasisEntry> = Vec::new();
    entries.push(TimeBasisEntry::Builtin(TimeBasis::Capture));
    entries.push(TimeBasisEntry::Builtin(TimeBasis::Event));
    entries.push(TimeBasisEntry::Builtin(TimeBasis::Extracted));
    let ghost all = basis_rows(candidates(dialog.recognition.candidates@));
    let mut i: usize = 0;
    assert(entries_model(entries@) =~= all.take(3));
    while i < dialog.recognition.candidates.len()
        invariant
            i <= dialog.recognition.candidates@.len(),
            all == basis_rows(candidates(dialog.recognition.candidates@)),
            entries_model(entries@) =~= all.take(3 + i),
        decreases dialog.recognition.candidates.len() - i,
    {
        let candidate = dialog.recognition.candidates[i].copy();
        let ghost before = entries@;
        let ghost model = candidate.model();
        entries.push(TimeBasisEntry::Field(candidate));
        assert(all[3 + i] == EntryModel::Field(model));
        assert(entries_model(entries@) =~= entries_model(before).push(EntryModel::Field(model)));
        i += 1;
    }
    assert(all.take(3 + i) =~= all);
    entries
}

/// How a reading is named: by what it reads, else by its field.
pub open spec fn reading_name(reading: ReadingModel) -> Seq<char> {
    if reading.reading.len() == 0 {
        reading.label
    } else {
        reading.reading
    }
}

fn reading_name_text(reading: &TimeReading) -> (r: String)
    ensures
        r@ == reading_name(reading.model()),
{
    if reading.reading.as_str().is_empty() {
        reading.label.clone()
    } else {
        reading.reading.clone()
    }
}

/// How a reading is labelled in its list.
pub open spec fn reading_label(reading: ReadingModel) -> Seq<char> {
    reading_name(reading) + (if reading.blocked is Some {
        " \u{b7} blocked"@
    } else if reading.assumptions.len() == 0 {
        " \u{b7} no assumption"@
    } else {
        " \u{b7} needs an assumption"@
    })
}

/// A row of the list of readings.
pub fn reading_row(reading: &TimeReading) -> (r: String)
    ensures
        r@ == reading_label(reading.model()),
{
    let mut label = reading_name_text(reading);
    label.append(
        if reading.blocked.is_some() {
            " \u{b7} blocked"
        } else if reading.assumptions.len() == 0 {
            " \u{b7} no assumption"
        } else {
            " \u{b7} needs an assumption"
        },
    );
    label
}

/// How a window is named; `duration` is its length in words.
pub open spec fn window_name(window: TimeWindowChoice, duration: Seq<char>) -> Seq<char> {
    match window {
        TimeWindowChoice::All => "All time"@,
        TimeWindowChoice::Absolute => "Absolute"@,
        TimeWindowChoice::Recent(seconds) => if seconds == 300 || seconds == 900 || seconds
            == 3600 {
            "Last "@ + duration
        } else {
            "Custom last "@ + duration
        },
        TimeWindowChoice::AroundSelected => "Around selected"@,
    }
}

/// Names a window.
pub fn window_text(window: TimeWindowChoice, duration: &str) -> (r: String)
    ensures
        r@ == window_name(window, duration@),
{
    match window {
        TimeWindowChoice::All => "All time".to_owned(),
        TimeWindowChoice::Absolute => "Absolute".to_owned(),
        TimeWindowChoice::Recent(seconds) => {
            let mut text = if seconds == 300 || seconds == 900 || seconds == 3600 {
                "Last ".to_owned()
            } else {
                "Custom last ".to_owned()
            };
            text.append(duration);
            text
        },
        TimeWindowChoice::AroundSelected => "Around selected".to_owned(),
    }
}

/// Which window is applied, in words.
pub open spec fn applied_words(
    view: TimeView,
    duration: Seq<char>,
    start: Seq<char>,
    end: Seq<char>,
) -> Seq<char> {
    match view.applied_capture_time_policy {
        Some(CaptureTimePolicy::Recent { .. }) => "rolling last "@ + duration,
        Some(CaptureTimePolicy::Absolute(_)) => if view.applied_capture_time is Some {
            "absolute "@ + start + " .. "@ + end
        } else {
            "absolute pending"@
        },
        None => "all times"@,
    }
}

/// Says which window is applied; `duration`, `start` and `end` are its figures
/// in words.
pub fn applied_text(view: &TimeView, duration: &str, start: &str, end: &str) -> (r: String)
    ensures
        r@ == applied_words(*view, duration@, start@, end@),
{
    match view.applied_capture_time_policy {
        Some(CaptureTimePolicy::Recent { .. }) => {
            let mut text = "rolling last ".to_owned();
            text.append(duration);
            text
        },
        Some(CaptureTimePolicy::Absolute(_)) => if view.applied_capture_time.is_some() {
            let mut text = "absolute ".to_owned();
            text.append(start);
            text.append(" .. ");
            text.append(end);
            text
        } else {
            "absolute pending".to_owned()
        },
        None => "all times".to_owned(),
    }
}

impl TimeModel {
    /// How the basis is named in the form.
    pub open spec fn basis_name(self) -> Seq<char> {
        match self.basis {
            TimeBasis::Capture => "Capture"@,
            TimeBasis::Extracted => "Extracted timestamp_utc (UTC RFC3339)"@,
            TimeBasis::Event => "Recognized event (RFC3339 normalized to UTC)"@,
            TimeBasis::Selected => if self.field_label.len() == 0 {
                "Chosen field"@
            } else {
                "Field "@ + self.field_label
            },
        }
    }

    /// The help below the form.
    pub open spec fn help(self) -> Seq<char> {
        if self.window == TimeWindowChoice::AroundSelected && self.anchor() is None {
            "Around selected is disabled: the opening record has no timestamp in the chosen basis."@
        } else {
            "Bounds are half-open. UTC and numeric offsets are normalized to UTC; named zones are not supported."@
        }
    }

    /// The message row: why a field was refused, that one awaits confirmation,
    /// what is wrong with the window, that it is being applied, or which is.
    pub open spec fn message(self, view: ViewModel, applied: Seq<char>) -> (MessageState, Seq<char>) {
        if self.field_error is Some {
            (MessageState::Error, self.field_error->0)
        } else if self.pending_field is Some {
            (
                MessageState::Pending,
                "this reading is not applied until you accept its assumption"@,
            )
        } else if view.error is Some {
            (MessageState::Error, view.error->0)
        } else if view.update_pending {
            (MessageState::Updating, "the last applied window stays active"@)
        } else {
            (MessageState::Applied, applied)
        }
    }

    /// How the form of a frame is scrolled: as far as it was, and so that the row
    /// of the focus shows where that is asked for.
    pub open spec fn measured(self, body: Rect, layout: TimeEditorLayout, lines: int) -> TimeBody {
        let height = sat16(layout.height + diagnostic_height(lines));
        let viewport = body_viewport(body, height > body.height);
        let max_scroll = minus(height, viewport.height as int);
        let row = match control_row(layout.controls@, self.focus, 0) {
            Some(rect) => if self.reveal_focus {
                Some(rect.y as int)
            } else {
                None
            },
            None => None,
        };
        TimeBody {
            viewport,
            overflowing: height > body.height,
            max_scroll: max_scroll as usize,
            scroll: settled_scroll(self.scroll, max_scroll, row, viewport.height as int) as usize,
        }
    }

    /// What a point of the last frame stands for: the open list first.
    pub open spec fn at(self, column: int, row: int) -> Option<TimeHit> {
        match region_at(self.geometry.choices@, column, row) {
            Some(index) => Some(TimeHit::Choice(index)),
            None => match region_at(self.geometry.controls@, column, row) {
                Some(control) => Some(TimeHit::Control(control)),
                None => None,
            },
        }
    }

    /// A report of the current generation is taken over; what awaits
    /// confirmation is left as the user saw it.
    pub open spec fn recognition_completed(self, generation: int, report: TimeRecognition) -> TimeModel {
        if self.open && self.recognition_generation == generation {
            TimeModel {
                anchored_selected: report.anchored_selected_nanos,
                candidates: candidates(report.candidates@),
                sampled_records: report.sampled_records as int,
                recognized_nanos: report.anchored_selected_nanos,
                ..self
            }
        } else {
            self
        }
    }
}

/// A zone as a form shows it: as typed, or by its offset from UTC.
pub open spec fn zone_display(value: Seq<char>, custom: bool) -> Seq<char> {
    if custom {
        value
    } else if value == "Z"@ {
        "UTC"@
    } else {
        "UTC"@ + value
    }
}

/// Shows a zone.
pub fn zone_text(value: &str, custom: bool) -> (r: String)
    ensures
        r@ == zone_display(value@, custom),
{
    if custom {
        value.to_owned()
    } else if same(value, "Z") {
        "UTC".to_owned()
    } else {
        let mut text = "UTC".to_owned();
        text.append(value);
        text
    }
}

/// A scrolled form: the cells that show it, how far it scrolls, and where it
/// stands.
#[derive(Clone, Copy, Debug, PartialEq, Eq, Structural)]
pub struct TimeBody {
    pub viewport: Rect,
    pub overflowing: bool,
    pub max_scroll: usize,
    pub scroll: usize,
}

/// The rows of a diagnostic below the form: its heading and a gap before its
/// lines.
pub open spec fn diagnostic_height(lines: int) -> int {
    if lines == 0 {
        0
    } else {
        sat16(sat16(lines) + 2)
    }
}

/// The cells of a form that scrolls beside its scroll bar.
pub open spec fn body_viewport(body: Rect, overflowing: bool) -> Rect {
    Rect::spec_new(
        body.x,
        body.y,
        minus(
            body.width as int,
            if overflowing {
                1
            } else {
                0
            },
        ) as u16,
        body.height,
    )
}

/// Where a form stands: as far as it was scrolled, and so that the row of the
/// focus is shown where that is asked for.
pub open spec fn settled_scroll(
    scroll: int,
    max_scroll: int,
    focus_row: Option<int>,
    rows: int,
) -> int {
    let kept = least(scroll, max_scroll);
    match focus_row {
        None => kept,
        Some(row) => {
            let up = if row < kept {
                row
            } else {
                kept
            };
            if row >= up + rows {
                row + 1 - rows
            } else {
                up
            }
        },
    }
}

/// Asking for the row of the focus shows it.
pub proof fn focus_is_revealed(scroll: int, max_scroll: int, row: int, rows: int)
    requires
        scroll >= 0,
        max_scroll >= 0,
        row >= 0,
        rows >= 1,
    ensures
        settled_scroll(scroll, max_scroll, Some(row), rows) <= row < settled_scroll(
            scroll,
            max_scroll,
            Some(row),
            rows,
        ) + rows,
{
}

/// The row of the first control of a form that has the focus.
pub open spec fn control_row(controls: Seq<(Rect, TimeControl)>, focus: TimeControl, from: int) -> Option<
    Rect,
>
    decreases controls.len() - from,
{
    if from < 0 || from >= controls.len() {
        None
    } else if controls[from].1 == focus {
        Some(controls[from].0)
    } else {
        control_row(controls, focus, from + 1)
    }
}

pub(crate) fn find_control(controls: &Vec<(Rect, TimeControl)>, control: TimeControl) -> (r: Option<Rect>)
    ensures
        r == control_row(controls@, control, 0),
{
    let mut i: usize = 0;
    while i < controls.len()
        invariant
            i <= controls@.len(),
            control_row(controls@, control, 0) == control_row(controls@, control, i as int),
        decreases controls.len() - i,
    {
        if controls[i].1 == control {
            return Some(controls[i].0);
        }
        i += 1;
    }
    None
}

/// A row of the form on the screen, where it is scrolled into view.
pub open spec fn projected(rect: Rect, viewport: Rect, scroll: int) -> Option<Rect> {
    if scroll <= rect.y < scroll + viewport.height {
        Some(
            Rect::spec_new(
                sat16(viewport.x + rect.x) as u16,
                sat16(viewport.y + (rect.y - scroll)) as u16,
                least(rect.width as int, minus(viewport.width as int, rect.x as int)) as u16,
                1,
            ),
        )
    } else {
        None
    }
}

/// Brings a row of the form on the screen.
pub fn project(rect: Rect, body: &TimeBody) -> (r: Option<Rect>)
    ensures
        r == projected(rect, body.viewport, body.scroll as int),
{
    let y: usize = rect.y as usize;
    if y >= body.scroll && y - body.scroll < body.viewport.height as usize {
        Some(
            Rect::new(
                body.viewport.x.saturating_add(rect.x),
                body.viewport.y.saturating_add((y - body.scroll) as u16),
                min16(rect.width, body.viewport.width.saturating_sub(rect.x)),
                1,
            ),
        )
    } else {
        None
    }
}

/// A row on the screen lies in the viewport.
pub proof fn projection_is_visible(rect: Rect, viewport: Rect, scroll: int)
    requires
        viewport.valid(),
        scroll >= 0,
        rect.x <= viewport.width,
    ensures
        projected(rect, viewport, scroll) matches Some(shown) ==> shown.within(viewport),
{
}

/// Where the first `n` fields of a form can be clicked: those that take input,
/// whose label and input are in view.
pub open spec fn field_hits(
    fields: Seq<FieldModel>,
    viewport: Rect,
    scroll: int,
    start_custom: bool,
    end_custom: bool,
    n: int,
) -> Seq<(Rect, TimeControl)>
    decreases n,
{
    if n <= 0 {
        seq![]
    } else {
        let before = field_hits(fields, viewport, scroll, start_custom, end_custom, n - 1);
        let field = fields[n - 1];
        let input = projected(field.input, viewport, scroll);
        if projected(field.label, viewport, scroll) is Some && input is Some && (field.dropdown
            || field_is_live(field.control, start_custom, end_custom)) {
            before.push((input->0, field.control))
        } else {
            before
        }
    }
}

/// Where the first `n` buttons of a form can be clicked.
pub open spec fn button_hits(
    buttons: Seq<(TimeControl, Rect)>,
    viewport: Rect,
    scroll: int,
    n: int,
) -> Seq<(Rect, TimeControl)>
    decreases n,
{
    if n <= 0 {
        seq![]
    } else {
        let before = button_hits(buttons, viewport, scroll, n - 1);
        match projected(buttons[n - 1].1, viewport, scroll) {
            Some(rect) => before.push((rect, buttons[n - 1].0)),
            None => before,
        }
    }
}

/// Where the actions below the form can be clicked.
pub open spec fn action_hits(actions: Seq<(usize, Rect)>, n: int) -> Seq<(Rect, TimeControl)>
    decreases n,
{
    if n <= 0 {
        seq![]
    } else {
        let (index, rect) = actions[n - 1];
        let before = action_hits(actions, n - 1);
        if index == 0 {
            before.push((rect, TimeControl::Apply))
        } else if index == 1 {
            before.push((rect, TimeControl::Clear))
        } else if index == 2 {
            before.push((rect, TimeControl::Recognize))
        } else {
            before
        }
    }
}

/// Finds what can be clicked in a frame.
pub fn form_hits(
    layout: &TimeEditorLayout,
    body: &TimeBody,
    actions: &Vec<(usize, Rect)>,
    start_custom: bool,
    end_custom: bool,
) -> (r: Vec<(Rect, TimeControl)>)
    ensures
        r@ == field_hits(
            fields_model(layout.fields@),
            body.viewport,
            body.scroll as int,
            start_custom,
            end_custom,
            layout.fields@.len() as int,
        ) + button_hits(
            layout.buttons@,
            body.viewport,
            body.scroll as int,
            layout.buttons@.len() as int,
        ) + action_hits(actions@, actions@.len() as int),
{
    let mut out: Vec<(Rect, TimeControl)> = Vec::new();
    let ghost fields = fields_model(layout.fields@);
    let ghost view = body.viewport;
    let ghost scroll = body.scroll as int;
    let mut n: usize = 0;
    while n < layout.fields.len()
        invariant
            n <= layout.fields@.len(),
            fields == fields_model(layout.fields@),
            view == body.viewport,
            scroll == body.scroll,
            out@ == field_hits(fields, view, scroll, start_custom, end_custom, n as int),
        decreases layout.fields.len() - n,
    {
        let field = layout.fields[n];
        assert(fields[n as int] == field.model());
        let live = match field.control {
            TimeControl::StartZone => start_custom,
            TimeControl::EndZone => end_custom,
            _ => true,
        };
        if let Some(_) = project(field.label, body) {
            if let Some(input) = project(field.input, body) {
                if field.dropdown || live {
                    out.push((input, field.control));
                }
            }
        }
        n += 1;
    }
    let ghost first = out@;
    let mut k: usize = 0;
    while k < layout.buttons.len()
        invariant
            k <= layout.buttons@.len(),
            view == body.viewport,
            scroll == body.scroll,
            out@ =~= first + button_hits(layout.buttons@, view, scroll, k as int),
        decreases layout.buttons.len() - k,
    {
        let (control, area) = layout.buttons[k];
        if let Some(rect) = project(area, body) {
            out.push((rect, control));
        }
        k += 1;
    }
    let ghost second = out@;
    let mut a: usize = 0;
    while a < actions.len()
        invariant
            a <= actions@.len(),
            out@ =~= second + action_hits(actions@, a as int),
        decreases actions.len() - a,
    {
        let (index, rect) = actions[a];
        if index == 0 {
            out.push((rect, TimeControl::Apply));
        } else if index == 1 {
            out.push((rect, TimeControl::Clear));
        } else if index == 2 {
            out.push((rect, TimeControl::Recognize));
        }
        a += 1;
    }
    out
}

/// Where an open list hangs, and which of its rows it shows.
#[derive(Clone, Copy, Debug, PartialEq, Eq, Structural)]
pub struct ChoiceBox {
    pub area: Rect,
    pub first: usize,
}

/// The box of a list with `count` rows, `widest` columns wide: below its control
/// where there is room or more than above, and inside the frame.
pub open spec fn list_box(frame: Rect, x: int, anchor_y: int, widest: int, count: int) -> Rect {
    let (left, width) = list_columns(frame, x, widest);
    let (top, height) = list_rows(frame, anchor_y, count);
    Rect::spec_new(left as u16, top as u16, width as u16, height as u16)
}

/// The first row that a list shows, so that the selected one is among them.
pub open spec fn first_shown(selected: int, rows: int) -> int {
    minus(selected + 1, rows)
}

/// The selected row of a list is among those it shows.
pub proof fn selected_row_is_shown(selected: int, rows: int)
    requires
        selected >= 0,
        rows >= 1,
    ensures
        first_shown(selected, rows) <= selected < first_shown(selected, rows) + rows,
{
}

/// The columns of a list and where they start.
pub open spec fn list_columns(frame: Rect, x: int, widest: int) -> (int, int) {
    let width = greatest(
        least(sat16(widest + 4), frame.width as int),
        least(3, frame.width as int),
    );
    (least(sat16(x), minus(frame.spec_right(), width)), width)
}

fn place_columns(frame: Rect, x: u16, widest: u16) -> (r: (u16, u16))
    ensures
        (r.0 as int, r.1 as int) == list_columns(frame, x as int, widest as int),
{
    let width: u16 = max16(
        min16(widest.saturating_add(4), frame.width),
        min16(3, frame.width),
    );
    (min16(x, frame.right().saturating_sub(width)), width)
}

/// The rows of a list and where they start: below its control where there is
/// room or more than above.
pub open spec fn list_rows(frame: Rect, anchor_y: int, count: int) -> (int, int) {
    let below = minus(frame.spec_bottom(), sat16(anchor_y + 1));
    let above = minus(anchor_y, frame.y as int);
    let desired = least(least(count, 8) + 2, frame.height as int);
    let goes_below = below >= desired || below >= above;
    let height = least(
        desired,
        if goes_below {
            below
        } else {
            above
        },
    );
    if height < 3 && frame.height >= 3 {
        let forced = greatest(desired, 3);
        (
            greatest(
                least(sat16(anchor_y + 1), minus(frame.spec_bottom(), forced)),
                frame.y as int,
            ),
            forced,
        )
    } else {
        (
            if goes_below {
                sat16(anchor_y + 1)
            } else {
                minus(anchor_y, height)
            },
            height,
        )
    }
}

fn place_rows(frame: Rect, anchor_y: u16, count: usize) -> (r: (u16, u16))
    ensures
        (r.0 as int, r.1 as int) == list_rows(frame, anchor_y as int, count as int),
{
    let below: u16 = frame.bottom().saturating_sub(anchor_y.saturating_add(1));
    let above: u16 = anchor_y.saturating_sub(frame.y);
    let options: u16 = if count <= 8 {
        count as u16
    } else {
        8
    };
    let desired: u16 = min16(options + 2, frame.height);
    let goes_below = below >= desired || below >= above;
    let height: u16 = min16(
        desired,
        if goes_below {
            below
        } else {
            above
        },
    );
    if height < 3 && frame.height >= 3 {
        let forced: u16 = max16(desired, 3);
        (
            max16(
                min16(anchor_y.saturating_add(1), frame.bottom().saturating_sub(forced)),
                frame.y,
            ),
            forced,
        )
    } else if goes_below {
        (anchor_y.saturating_add(1), height)
    } else {
        (anchor_y.saturating_sub(height), height)
    }
}

/// Hangs a list on its control; none where the frame has no room for a row.
pub fn place_choices(
    frame: Rect,
    viewport: Rect,
    anchor: Rect,
    scroll: usize,
    widest: u16,
    count: usize,
    selected: usize,
) -> (r: Option<ChoiceBox>)
    requires
        selected < usize::MAX,
    ensures
        ({
            let area = list_box(
                frame,
                sat16(viewport.x + anchor.x),
                sat16(viewport.y + minus(anchor.y as int, scroll as int)),
                widest as int,
                count as int,
            );
            r == if area.width < 3 || area.height < 3 {
                None
            } else {
                Some(
                    ChoiceBox {
                        area,
                        first: first_shown(selected as int, area.height - 2) as usize,
                    },
                )
            }
        }),
{
    let below_top: u16 = if anchor.y as usize >= scroll {
        anchor.y - scroll as u16
    } else {
        0
    };
    let anchor_y: u16 = viewport.y.saturating_add(below_top);
    let (x, width) = place_columns(frame, viewport.x.saturating_add(anchor.x), widest);
    let (y, height) = place_rows(frame, anchor_y, count);
    let area = Rect::new(x, y, width, height);
    if area.width < 3 || area.height < 3 {
        return None;
    }
    let rows: usize = (area.height - 2) as usize;
    Some(ChoiceBox { area, first: (selected + 1).saturating_sub(rows) })
}

/// The rows that a list shows, inside its border.
pub open spec fn choice_rows(shown: ChoiceBox, count: int) -> Seq<(Rect, usize)> {
    let rows = minus(shown.area.height as int, 2);
    Seq::new(
        (if shown.first >= count {
            0
        } else {
            least(count - shown.first, rows)
        }) as nat,
        |i: int|
            (
                Rect::spec_new(
                    sat16(shown.area.x + 1) as u16,
                    sat16(sat16(shown.area.y + 1) + i) as u16,
                    minus(shown.area.width as int, 2) as u16,
                    1,
                ),
                (shown.first + i) as usize,
            ),
    )
}

/// Lays the rows of a list.
pub fn rows_of_choices(shown: ChoiceBox, count: usize) -> (r: Vec<(Rect, usize)>)
    ensures
        r@ == choice_rows(shown, count as int),
{
    let rows: u16 = shown.area.height.saturating_sub(2);
    let x: u16 = shown.area.x.saturating_add(1);
    let y: u16 = shown.area.y.saturating_add(1);
    let width: u16 = shown.area.width.saturating_sub(2);
    let mut out: Vec<(Rect, usize)> = Vec::new();
    let mut i: u16 = 0;
    while i < rows && shown.first < count && (i as usize) < count - shown.first
        invariant
            i <= choice_rows(shown, count as int).len(),
            rows == minus(shown.area.height as int, 2),
            x == sat16(shown.area.x + 1),
            y == sat16(shown.area.y + 1),
            width == minus(shown.area.width as int, 2),
            out@ =~= choice_rows(shown, count as int).take(i as int),
        decreases rows - i,
    {
        out.push((Rect::new(x, y.saturating_add(i), width, 1), shown.first + i as usize));
        i += 1;
    }
    assert(out@ =~= choice_rows(shown, count as int));
    out
}

impl TimeDialog {
    pub fn is_open(&self) -> (r: bool)
        ensures
            r == self.model().open,
    {
        self.open
    }

    pub fn state(&self) -> (r: &TimeState)
        ensures
            r.focus == self.model().focus,
            r.dropdown == self.model().dropdown,
            r.window == self.model().window,
            r.start.model() == self.model().start,
            r.end.model() == self.model().end,
            r.start_zone_custom == self.model().start_zone_custom,
            r.end_zone_custom == self.model().end_zone_custom,
            r.basis == self.model().basis,
            r.highlighted == self.model().highlighted,
            r.scroll == self.model().scroll,
            some_candidate(r.pending_field) == self.model().pending_field,
            r.pending_reading == self.model().pending_reading,
            some_text(r.field_token) == self.model().field_token,
            r.field_label@ == self.model().field_label,
            some_text(r.field_error) == self.model().field_error,
            r.window_choices@ == self.model().window_choices,
            candidates(r.recognition.candidates@) == self.model().candidates,
            r.recognition_generation == self.model().recognition_generation,
    {
        &self.state
    }

    /// Preselects a row of the open list.
    pub fn highlight(&mut self, index: usize)
        ensures
            final(self).model() == (TimeModel { highlighted: index as int, ..old(self).model() }),
    {
        self.state.highlighted = index;
    }

    /// The controls of the last frame.
    pub fn control_rects(&self) -> (r: &[(Rect, TimeControl)])
        ensures
            r@ == self.model().geometry.controls@,
    {
        self.geometry.controls.as_slice()
    }

    /// The rows of the open list of the last frame.
    pub fn choice_rects(&self) -> (r: &[(Rect, usize)])
        ensures
            r@ == self.model().geometry.choices@,
    {
        self.geometry.choices.as_slice()
    }

    pub fn surface(&self) -> (r: Surface)
        ensures
            r == self.model().surface,
    {
        self.surface
    }

    /// A report of the recognizer; whether it was for the open layer.
    pub fn complete_recognition(&mut self, generation: u64, recognition: TimeRecognition) -> (r: bool)
        ensures
            r == (old(self).model().open && old(self).model().recognition_generation == generation),
            final(self).model() == old(self).model().recognition_completed(
                generation as int,
                recognition,
            ),
    {
        if !self.open || self.state.recognition_generation != generation {
            return false;
        }
        self.state.anchored_selected_nanos = recognition.anchored_selected_nanos;
        self.state.recognition = recognition;
        true
    }

    pub fn hit(&self, column: u16, row: u16) -> (r: Option<TimeHit>)
        ensures
            r == self.model().at(column as int, row as int),
    {
        if let Some(index) = find_region(&self.geometry.choices, column, row) {
            return Some(TimeHit::Choice(index));
        }
        match find_region(&self.geometry.controls, column, row) {
            Some(control) => Some(TimeHit::Control(control)),
            None => None,
        }
    }

    /// How the basis is named in the form.
    pub fn basis_text(&self) -> (r: String)
        ensures
            r@ == self.model().basis_name(),
    {
        match self.state.basis {
            TimeBasis::Capture => "Capture".to_owned(),
            TimeBasis::Extracted => "Extracted timestamp_utc (UTC RFC3339)".to_owned(),
            TimeBasis::Event => "Recognized event (RFC3339 normalized to UTC)".to_owned(),
            TimeBasis::Selected => if self.state.field_label.as_str().is_empty() {
                "Chosen field".to_owned()
            } else {
                let mut text = "Field ".to_owned();
                text.append(self.state.field_label.as_str());
                text
            },
        }
    }

    /// How the reading that awaits confirmation is named.
    pub fn reading_text(&self) -> (r: String)
        ensures
            r@ == match self.model().pending() {
                Some(reading) => reading_name(reading),
                None => Seq::empty(),
            },
    {
        match self.state.pending_reading() {
            Some(reading) => reading_name_text(reading),
            None => String::new(),
        }
    }

    /// The help below the form.
    pub fn help(&self) -> (r: &'static str)
        ensures
            r@ == self.model().help(),
    {
        if self.state.window == TimeWindowChoice::AroundSelected && self.anchor().is_none() {
            "Around selected is disabled: the opening record has no timestamp in the chosen basis."
        } else {
            "Bounds are half-open. UTC and numeric offsets are normalized to UTC; named zones are not supported."
        }
    }

    /// The message row of a frame; `applied` says which window is applied.
    pub fn message(&self, view: &TimeView, applied: String) -> (r: (MessageState, String))
        ensures
            (r.0, r.1@) == self.model().message(view.model(), applied@),
    {
        if let Some(error) = &self.state.field_error {
            (MessageState::Error, error.clone())
        } else if self.state.pending_field.is_some() {
            (
                MessageState::Pending,
                "this reading is not applied until you accept its assumption".to_owned(),
            )
        } else if let Some(error) = &view.time_error {
            (MessageState::Error, error.clone())
        } else if view.update_pending {
            (MessageState::Updating, "the last applied window stays active".to_owned())
        } else {
            (MessageState::Applied, applied)
        }
    }

    /// How the form of a frame is scrolled, with the lines of a diagnostic below
    /// it.
    pub fn measure(&self, body: Rect, layout: &TimeEditorLayout, diagnostic_lines: usize) -> (r: TimeBody)
        ensures
            r == self.model().measured(body, *layout, diagnostic_lines as int),
    {
        let lines: u16 = if diagnostic_lines == 0 {
            0
        } else if diagnostic_lines <= 65535 {
            (diagnostic_lines as u16).saturating_add(2)
        } else {
            65535
        };
        let height: u16 = layout.height.saturating_add(lines);
        let overflowing = height > body.height;
        let viewport = Rect::new(
            body.x,
            body.y,
            if overflowing {
                body.width.saturating_sub(1)
            } else {
                body.width
            },
            body.height,
        );
        let max_scroll: usize = height.saturating_sub(viewport.height) as usize;
        let mut scroll: usize = if self.state.scroll <= max_scroll {
            self.state.scroll
        } else {
            max_scroll
        };
        if self.state.reveal_focus {
            if let Some(rect) = find_control(&layout.controls, self.state.focus) {
                let row: usize = rect.y as usize;
                let rows: usize = viewport.height as usize;
                if row < scroll {
                    scroll = row;
                }
                if row >= scroll + rows {
                    scroll = row + 1 - rows;
                }
            }
        }
        TimeBody { viewport, overflowing, max_scroll, scroll }
    }

    /// Remembers how the form of a frame is scrolled.
    pub fn settle(&mut self, body: &TimeBody)
        ensures
            final(self).model() == (TimeModel {
                scroll: body.scroll as int,
                reveal_focus: false,
                has_overflow: body.max_scroll > 0,
                ..old(self).model()
            }),
    {
        self.state.scroll = body.scroll;
        self.state.reveal_focus = false;
        self.state.has_overflow = body.max_scroll > 0;
    }

    /// Remembers a frame.
    pub fn record(
        &mut self,
        controls: Vec<(Rect, TimeControl)>,
        choices: Vec<(Rect, usize)>,
        caret: Option<(u16, u16)>,
        surface: Surface,
    ) -> (r: Surface)
        ensures
            final(self).model().geometry.controls@ == controls@,
            final(self).model().geometry.choices@ == choices@,
            r == (Surface { caret, ..surface }),
            final(self).model() == (TimeModel {
                geometry: final(self).model().geometry,
                surface: r,
                ..old(self).model()
            }),
    {
        self.geometry = TimeGeometry { controls, choices };
        self.surface = Surface { caret, ..surface };
        self.surface
    }
}

impl Default for TimeDialog {
    fn default() -> (r: TimeDialog)
        ensures
            !r.model().open,
            r.model().focus == TimeControl::Basis,
            r.model().dropdown is None,
            r.model().window == TimeWindowChoice::All,
            r.model().start == BoundModel::blank(),
            r.model().end == BoundModel::blank(),
            r.model().basis == TimeBasis::Capture,
            r.model().field_token is None,
            r.model().pending_field is None,
            r.model().candidates.len() == 0,
            r.model().recognition_generation == 0,
            r.model().surface == Surface::nothing(),
            r.model().queue == Queue::<TimeAsk>::empty(TIME_OUTBOX_CAP as int),
    {
        let r = TimeDialog {
            open: false,
            state: TimeState {
                focus: TimeControl::Basis,
                dropdown: None,
                window: TimeWindowChoice::All,
                scroll: 0,
                reveal_focus: false,
                has_overflow: false,
                dropdown_scroll: 0,
                segment_cursor: 0,
                start: TimeBound {
                    date: String::new(),
                    clock: String::new(),
                    zone: String::new(),
                },
                end: TimeBound { date: String::new(), clock: String::new(), zone: String::new() },
                start_zone_custom: false,
                end_zone_custom: false,
                highlighted: 0,
                window_choices: Vec::new(),
                anchored_row: None,
                anchored_capture_nanos: None,
                anchored_event_nanos: None,
                anchored_extracted_nanos: None,
                anchored_selected_nanos: None,
                basis: TimeBasis::Capture,
                field_token: None,
                field_label: String::new(),
                recognition: TimeRecognition {
                    candidates: Vec::new(),
                    sampled_records: 0,
                    anchored_selected_nanos: None,
                },
                recognition_generation: 0,
                pending_field: None,
                pending_reading: 0,
                field_error: None,
            },
            geometry: TimeGeometry { controls: Vec::new(), choices: Vec::new() },
            surface: Surface::default(),
            outbox: Outbox::new(TIME_OUTBOX_CAP),
        };
        assert(r.model().queue.items =~= Seq::<TimeAsk>::empty());
        r
    }
}

/// The shortcut of a command while the layer is open.
pub open spec fn shortcut_of(id: CommandId) -> Option<Seq<char>> {
    match id {
        CommandId::TimeClear => Some("Alt-C"@),
        CommandId::TimeAroundSelected => Some("Alt-A"@),
        CommandId::TimeBasisCapture => Some("Alt-P"@),
        CommandId::TimeBasisEvent => Some("Alt-E"@),
        CommandId::TimeBasisExtracted => Some("Alt-U"@),
        CommandId::TimeRecentFive => Some("Alt-5"@),
        CommandId::TimeRecentFifteen => Some("Alt-M"@),
        CommandId::TimeRecentHour => Some("Alt-H"@),
        _ => None,
    }
}

fn time_command_shortcut(id: CommandId) -> (r: Option<&'static str>)
    ensures
        some_str(r) == shortcut_of(id),
{
    match id {
        CommandId::TimeClear => Some("Alt-C"),
        CommandId::TimeAroundSelected => Some("Alt-A"),
        CommandId::TimeBasisCapture => Some("Alt-P"),
        CommandId::TimeBasisEvent => Some("Alt-E"),
        CommandId::TimeBasisExtracted => Some("Alt-U"),
        CommandId::TimeRecentFive => Some("Alt-5"),
        CommandId::TimeRecentFifteen => Some("Alt-M"),
        CommandId::TimeRecentHour => Some("Alt-H"),
        _ => None,
    }
}

/// The words of a palette entry: its name, what it does, and what else it is
/// found by.
pub open spec fn command_words(id: CommandId) -> (Seq<char>, Seq<char>, Seq<Seq<char>>) {
    match id {
        CommandId::TimeClear => (
            "Clear time window"@,
            "Remove the applied time constraint"@,
            seq!["all time"@, "reset range"@],
        ),
        CommandId::TimeAroundSelected => (
            "Time around selected row"@,
            "Center a time range on the selected record"@,
            seq!["around"@, "context"@],
        ),
        CommandId::TimeBasisCapture => (
            "Use capture time"@,
            "Filter using ingestion timestamps"@,
            seq!["received"@, "arrival"@],
        ),
        CommandId::TimeBasisEvent => (
            "Use event time"@,
            "Filter using parsed event timestamps"@,
            seq!["timestamp"@, "parsed"@],
        ),
        CommandId::TimeBasisExtracted => (
            "Use extracted timestamp_utc"@,
            "Alt-U: filter using the accepted UTC timestamp enrichment"@,
            seq!["timestamp"@, "enrichment"@, "derived"@],
        ),
        CommandId::TimeRecentFive => (
            "Recent 5 minutes"@,
            "Apply the five-minute preset"@,
            seq!["5m"@, "five"@],
        ),
        CommandId::TimeRecentFifteen => (
            "Recent 15 minutes"@,
            "Apply the fifteen-minute preset"@,
            seq!["15m"@, "quarter hour"@],
        ),
        CommandId::TimeRecentHour => (
            "Recent 1 hour"@,
            "Apply the one-hour preset"@,
            seq!["60m"@, "1h"@, "hour"@],
        ),
        _ => (Seq::empty(), Seq::empty(), Seq::empty()),
    }
}

/// Why a command cannot be run.
pub open spec fn unavailable(id: CommandId, open: bool, has_selected_row: bool) -> Option<Seq<char>> {
    if !open {
        Some("open Time window first"@)
    } else if id == CommandId::TimeAroundSelected && !has_selected_row {
        Some("select a row first"@)
    } else {
        None
    }
}

/// A palette entry of the layer.
pub open spec fn is_time_entry(
    entry: CommandEntry,
    id: CommandId,
    open: bool,
    has_selected_row: bool,
) -> bool {
    let (name, description, aliases) = command_words(id);
    &&& entry.spec.id == id
    &&& entry.spec.name@ == name
    &&& entry.spec.description@ == description
    &&& entry.spec.category@ == "Time"@
    &&& strs(entry.spec.aliases@) == aliases
    &&& some_str(entry.spec.shortcut) == if open {
        shortcut_of(id)
    } else {
        None
    }
    &&& some_str(entry.unavailable_reason) == unavailable(id, open, has_selected_row)
}

fn time_entry(
    id: CommandId,
    name: &'static str,
    description: &'static str,
    aliases: Vec<&'static str>,
    open: bool,
    has_selected_row: bool,
) -> (r: CommandEntry)
    requires
        command_words(id) == (name@, description@, strs(aliases@)),
    ensures
        is_time_entry(r, id, open, has_selected_row),
{
    CommandEntry {
        spec: CommandSpec {
            id,
            name,
            description,
            category: "Time",
            aliases,
            shortcut: if open {
                time_command_shortcut(id)
            } else {
                None
            },
        },
        unavailable_reason: if !open {
            Some("open Time window first")
        } else if id == CommandId::TimeAroundSelected && !has_selected_row {
            Some("select a row first")
        } else {
            None
        },
    }
}

impl TimeDialog {
    /// The palette entries of the layer, in order.
    pub fn commands(&self, has_selected_row: bool) -> (r: Vec<CommandEntry>)
        ensures
            r@.len() == 8,
            is_time_entry(
                r@[0],
                CommandId::TimeClear,
                self.model().open,
                has_selected_row,
            ),
            is_time_entry(
                r@[1],
                CommandId::TimeAroundSelected,
                self.model().open,
                has_selected_row,
            ),
            is_time_entry(
                r@[2],
                CommandId::TimeBasisCapture,
                self.model().open,
                has_selected_row,
            ),
            is_time_entry(
                r@[3],
                CommandId::TimeBasisEvent,
                self.model().open,
                has_selected_row,
            ),
            is_time_entry(
                r@[4],
                CommandId::TimeBasisExtracted,
                self.model().open,
                has_selected_row,
            ),
            is_time_entry(
                r@[5],
                CommandId::TimeRecentFive,
                self.model().open,
                has_selected_row,
            ),
            is_time_entry(
                r@[6],
                CommandId::TimeRecentFifteen,
                self.model().open,
                has_selected_row,
            ),
            is_time_entry(
                r@[7],
                CommandId::TimeRecentHour,
                self.model().open,
                has_selected_row,
            ),
    {
        let mut entries: Vec<CommandEntry> = Vec::new();
        let aliases: Vec<&'static str> = vec!["all time", "reset range"];
        assert(strs(aliases@) =~= command_words(CommandId::TimeClear).2);
        entries.push(
            time_entry(
                CommandId::TimeClear,
                "Clear time window",
                "Remove the applied time constraint",
                aliases,
                self.open,
                has_selected_row,
            ),
        );
        let aliases: Vec<&'static str> = vec!["around", "context"];
        assert(strs(aliases@) =~= command_words(CommandId::TimeAroundSelected).2);
        entries.push(
            time_entry(
                CommandId::TimeAroundSelected,
                "Time around selected row",
                "Center a time range on the selected record",
                aliases,
                self.open,
                has_selected_row,
            ),
        );
        let aliases: Vec<&'static str> = vec!["received", "arrival"];
        assert(strs(aliases@) =~= command_words(CommandId::TimeBasisCapture).2);
        entries.push(
            time_entry(
                CommandId::TimeBasisCapture,
                "Use capture time",
                "Filter using ingestion timestamps",
                aliases,
                self.open,
                has_selected_row,
            ),
        );
        let aliases: Vec<&'static str> = vec!["timestamp", "parsed"];
        assert(strs(aliases@) =~= command_words(CommandId::TimeBasisEvent).2);
        entries.push(
            time_entry(
                CommandId::TimeBasisEvent,
                "Use event time",
                "Filter using parsed event timestamps",
                aliases,
                self.open,
                has_selected_row,
            ),
        );
        let aliases: Vec<&'static str> = vec!["timestamp", "enrichment", "derived"];
        assert(strs(aliases@) =~= command_words(CommandId::TimeBasisExtracted).2);
        entries.push(
            time_entry(
                CommandId::TimeBasisExtracted,
                "Use extracted timestamp_utc",
                "Alt-U: filter using the accepted UTC timestamp enrichment",
                aliases,
                self.open,
                has_selected_row,
            ),
        );
        let aliases: Vec<&'static str> = vec!["5m", "five"];
        assert(strs(aliases@) =~= command_words(CommandId::TimeRecentFive).2);
        entries.push(
            time_entry(
                CommandId::TimeRecentFive,
                "Recent 5 minutes",
                "Apply the five-minute preset",
                aliases,
                self.open,
                has_selected_row,
            ),
        );
        let aliases: Vec<&'static str> = vec!["15m", "quarter hour"];
        assert(strs(aliases@) =~= command_words(CommandId::TimeRecentFifteen).2);
        entries.push(
            time_entry(
                CommandId::TimeRecentFifteen,
                "Recent 15 minutes",
                "Apply the fifteen-minute preset",
                aliases,
                self.open,
                has_selected_row,
            ),
        );
        let aliases: Vec<&'static str> = vec!["60m", "1h", "hour"];
        assert(strs(aliases@) =~= command_words(CommandId::TimeRecentHour).2);
        entries.push(
            time_entry(
                CommandId::TimeRecentHour,
                "Recent 1 hour",
                "Apply the one-hour preset",
                aliases,
                self.open,
                has_selected_row,
            ),
        );
        entries
    }
}

/// The row behind the zones that lets another one be typed.
pub const CUSTOM_OFFSET_ROW: &'static str = "Custom offset\u{2026}";

impl TimeModel {
    /// The rows of the open list. The built-in bases, the lengths of the windows
    /// and the zones come in words.
    pub open spec fn list_labels(
        self,
        builtin: Seq<Seq<char>>,
        durations: Seq<Seq<char>>,
        zones: Seq<Seq<char>>,
    ) -> Seq<Seq<char>> {
        match self.dropdown {
            None => seq![],
            Some(TimeDropdown::Basis) => builtin + self.candidates.map_values(
                |candidate: CandidateModel| field_label(candidate),
            ),
            Some(TimeDropdown::Window) => Seq::new(
                self.window_choices.len(),
                |i: int| window_name(self.window_choices[i], durations[i]),
            ),
            Some(TimeDropdown::Reading) => match self.pending_field {
                None => seq![],
                Some(field) => seq![reading_label(field.main)] + field.alternatives.map_values(
                    |reading: ReadingModel| reading_label(reading),
                ),
            },
            _ => zones.push(CUSTOM_OFFSET_ROW@),
        }
    }
}

impl TimeDialog {
    fn basis_labels(&self, builtin: &Vec<String>) -> (r: Vec<String>)
        ensures
            texts(r@) == texts(builtin@) + self.model().candidates.map_values(
                |candidate: CandidateModel| field_label(candidate),
            ),
    {
        let mut out = copy_texts(builtin);
        let fields = &self.state.recognition.candidates;
        let ghost all = self.model().candidates.map_values(
            |candidate: CandidateModel| field_label(candidate),
        );
        let mut i: usize = 0;
        assert(texts(out@) =~= texts(builtin@) + all.take(0));
        while i < fields.len()
            invariant
                i <= fields@.len(),
                *fields == self.state.recognition.candidates,
                all == self.model().candidates.map_values(
                    |candidate: CandidateModel| field_label(candidate),
                ),
                texts(out@) =~= texts(builtin@) + all.take(i as int),
            decreases fields.len() - i,
        {
            let label = field_label_text(&fields[i]);
            assert(self.model().candidates[i as int] == fields@[i as int].model());
            let ghost before = texts(out@);
            let ghost said = label@;
            assert(all[i as int] == said);
            out.push(label);
            assert(texts(out@) =~= before.push(said));
            assert(all.take(i + 1) =~= all.take(i as int).push(said));
            i += 1;
        }
        assert(all.take(i as int) =~= all);
        out
    }

    fn window_labels(&self, durations: &Vec<String>) -> (r: Vec<String>)
        requires
            durations@.len() == self.model().window_choices.len(),
        ensures
            texts(r@) == Seq::new(
                self.model().window_choices.len(),
                |i: int| window_name(self.model().window_choices[i], durations@[i]@),
            ),
    {
        let mut out: Vec<String> = Vec::new();
        let mut i: usize = 0;
        while i < self.state.window_choices.len()
            invariant
                i <= self.state.window_choices@.len(),
                self.state.window_choices@ == self.model().window_choices,
                durations@.len() == self.model().window_choices.len(),
                out@.len() == i,
                forall|j: int|
                    0 <= j < i ==> (#[trigger] out@[j])@ == window_name(
                        self.model().window_choices[j],
                        durations@[j]@,
                    ),
            decreases self.state.window_choices.len() - i,
        {
            out.push(window_text(self.state.window_choices[i], durations[i].as_str()));
            i += 1;
        }
        assert(texts(out@) =~= Seq::new(
            self.model().window_choices.len(),
            |j: int| window_name(self.model().window_choices[j], durations@[j]@),
        ));
        out
    }

    fn reading_labels(field: &TimeFieldCandidate) -> (r: Vec<String>)
        ensures
            texts(r@) == seq![reading_label(field.model().main)]
                + field.model().alternatives.map_values(
                |reading: ReadingModel| reading_label(reading),
            ),
    {
        let mut out: Vec<String> = Vec::new();
        out.push(reading_row(&field.main));
        let ghost all = field.model().alternatives.map_values(
            |reading: ReadingModel| reading_label(reading),
        );
        let ghost lead = seq![reading_label(field.model().main)];
        let mut i: usize = 0;
        assert(texts(out@) =~= lead + all.take(0));
        while i < field.alternatives.len()
            invariant
                i <= field.alternatives@.len(),
                all == field.model().alternatives.map_values(
                    |reading: ReadingModel| reading_label(reading),
                ),
                texts(out@) =~= lead + all.take(i as int),
            decreases field.alternatives.len() - i,
        {
            let label = reading_row(&field.alternatives[i]);
            assert(field.model().alternatives[i as int] == field.alternatives@[i as int].model());
            let ghost before = texts(out@);
            let ghost said = label@;
            assert(all[i as int] == said);
            out.push(label);
            assert(texts(out@) =~= before.push(said));
            assert(all.take(i + 1) =~= all.take(i as int).push(said));
            i += 1;
        }
        assert(all.take(i as int) =~= all);
        out
    }

    fn write_zones(zones: &Vec<ZoneChoice>) -> (r: Vec<String>)
        ensures
            texts(r@) == zone_labels(zones@).push(CUSTOM_OFFSET_ROW@),
    {
        let mut out: Vec<String> = Vec::new();
        let mut i: usize = 0;
        while i < zones.len()
            invariant
                i <= zones@.len(),
                out@.len() == i,
                forall|j: int| 0 <= j < i ==> (#[trigger] out@[j])@ == zones@[j].label@,
            decreases zones.len() - i,
        {
            out.push(zones[i].label.clone());
            i += 1;
        }
        out.push(CUSTOM_OFFSET_ROW.to_owned());
        assert(texts(out@) =~= zone_labels(zones@).push(CUSTOM_OFFSET_ROW@));
        out
    }

    /// The rows of the open list.
    pub fn list_labels(
        &self,
        builtin: &Vec<String>,
        durations: &Vec<String>,
        zones: &Vec<ZoneChoice>,
    ) -> (r: Vec<String>)
        requires
            durations@.len() == self.model().window_choices.len(),
        ensures
            texts(r@) == self.model().list_labels(
                texts(builtin@),
                texts(durations@),
                zone_labels(zones@),
            ),
    {
        let r = match self.state.dropdown {
            None => Vec::new(),
            Some(TimeDropdown::Basis) => self.basis_labels(builtin),
            Some(TimeDropdown::Window) => self.window_labels(durations),
            Some(TimeDropdown::Reading) => match &self.state.pending_field {
                Some(field) => TimeDialog::reading_labels(field),
                None => Vec::new(),
            },
            Some(_) => TimeDialog::write_zones(zones),
        };
        assert(texts(r@) =~= self.model().list_labels(
            texts(builtin@),
            texts(durations@),
            zone_labels(zones@),
        ));
        r
    }
}

/// The buttons of the layer.
pub open spec fn action_words(ascii: bool) -> Seq<&'static str> {
    seq![
        "Apply",
        "Clear",
        if ascii {
            "Agent Recognize timestamp"
        } else {
            "\u{1f9e0} Recognize timestamp"
        },
    ]
}

/// Lists the buttons of the layer.
pub fn time_action_labels(ascii: bool) -> (r: Vec<&'static str>)
    ensures
        r@ == action_words(ascii),
{
    let mut out: Vec<&'static str> = Vec::new();
    out.push("Apply");
    out.push("Clear");
    out.push(
        if ascii {
            "Agent Recognize timestamp"
        } else {
            "\u{1f9e0} Recognize timestamp"
        },
    );
    assert(out@ =~= action_words(ascii));
    out
}

/// The diagnostics of a message, and the rows that they take: a message that is
/// broken into more lines than its rows hold becomes part of the form, broken as
/// `wrapped`, with a blank row and a heading above it.
pub fn time_diagnostics(lines: usize, message_rows: u16, wrapped: Vec<String>) -> (r: (
    Vec<String>,
    u16,
))
    ensures
        texts(r.0@) == if lines > message_rows {
            texts(wrapped@)
        } else {
            seq![]
        },
        r.1 == diagnostic_height(r.0@.len() as int),
{
    if lines <= message_rows as usize {
        let none: Vec<String> = Vec::new();
        assert(texts(none@) =~= seq![]);
        return (none, 0);
    }
    let count: usize = wrapped.len();
    let rows: u16 = if count == 0 {
        0
    } else if count <= 65535 {
        (count as u16).saturating_add(2)
    } else {
        65535
    };
    (wrapped, rows)
}

/// The rows that the layer asks for: its form with the diagnostics below it, and
/// what the message, the help and the buttons take.
pub fn time_spec(form: u16, diagnostics: u16, message: u16, help: u16, actions: u16) -> (r:
    DialogSpec)
    ensures
        r == (DialogSpec {
            header: 0,
            body: sat16(form + diagnostics) as u16,
            message,
            help,
            actions,
        }),
{
    DialogSpec { header: 0, body: form.saturating_add(diagnostics), message, help, actions }
}

} // verus!
