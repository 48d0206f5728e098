//! How a frame of the Settings layer is laid out and what it says.

use super::{
    Carets, FormModel, SETTINGS_OUTBOX_CAP, SettingsAsk, SettingsControl, SettingsDialog,
    SettingsDialogState, SettingsField, SettingsGeometry, SettingsHit, SettingsModel,
    SettingsStatus, ThemeId,
};
use crate::component::{MessageState, Outbox, Queue, Surface};
use crate::components::time::{zone_labels, ZoneChoice};
use crate::dialog_controls::{numbers, span_of};
use crate::dialog_layout::{
    action_rows, budget_actions, content_estimate, find_region, menu_rows, region_at, rows_of_menu,
    AnchoredGeometry, DialogSpec, FIELD_GUTTER, PANE_INDENT,
};
use crate::geometry::{greatest, least, max16, min16, minus, sat16, Rect};
use crate::text::{chars_of, contains_text, copy_texts, holds, text_of, texts};
use crate::width::{clipped, clipped_width, columns, display_width, fitting, fitting_fits};
use vstd::prelude::*;

verus! {

/// The rows of the form in full.
pub const SETTINGS_FORM_ROWS: u16 = 17;

/// The rows of the form where labels stand above their fields.
pub const STACKED_FORM_ROWS: u16 = 25;

/// The columns of the longest label.
pub const SETTINGS_LABEL_WIDTH: u16 = 16;

/// What a user cannot find out from the form itself.
pub const SETTINGS_HELP: &'static str =
    "Use an IANA zone such as Europe/Berlin for per-instant daylight saving, or a fixed UTC offset. Display only: captured/event instants never change. Times always show their offset.";

/// The last row of the list of zones.
pub const CUSTOM_ZONE_ROW: &'static str = "Custom IANA zone\u{2026}";

impl FormModel {
    /// The message row: what is saved, being saved or not saved yet, and what
    /// went wrong.
    pub open spec fn message(self) -> (MessageState, Seq<char>) {
        match self.status_kind {
            SettingsStatus::Saved => if holds(self.status, "restart"@) {
                (
                    MessageState::Saved,
                    "appearance applies now \u{b7} cache limits apply after restart"@,
                )
            } else {
                (MessageState::Saved, "saved and applied"@)
            },
            SettingsStatus::Pending => if self.saving {
                (MessageState::Pending, "saving settings"@)
            } else {
                (MessageState::Pending, "changes are not saved"@)
            },
            SettingsStatus::Error => (MessageState::Error, self.status),
        }
    }

    pub open spec fn save_label(self) -> Seq<char> {
        if self.saving {
            "Saving\u{2026}"@
        } else {
            "Save"@
        }
    }

    /// A frame whose body has `rows` rows of `natural` was drawn: the details
    /// scroll no further than that, and More gives up the focus where nothing
    /// scrolls.
    pub open spec fn settled(self, natural: int, rows: int, overflows: bool) -> FormModel {
        let limit = minus(natural, rows);
        FormModel {
            details_scroll_limit: limit,
            details_scroll: least(self.details_scroll, limit),
            focus: if !overflows && self.focus == SettingsControl::More {
                SettingsControl::Save
            } else {
                self.focus
            },
            ..self
        }
    }
}

impl SettingsDialogState {
    /// The message row of a frame.
    pub fn message(&self) -> (r: (MessageState, String))
        ensures
            (r.0, r.1@) == self.model().message(),
    {
        match self.status_kind {
            SettingsStatus::Saved => if contains_text(self.status.as_str(), "restart") {
                (
                    MessageState::Saved,
                    "appearance applies now \u{b7} cache limits apply after restart".to_owned(),
                )
            } else {
                (MessageState::Saved, "saved and applied".to_owned())
            },
            SettingsStatus::Pending => if self.saving {
                (MessageState::Pending, "saving settings".to_owned())
            } else {
                (MessageState::Pending, "changes are not saved".to_owned())
            },
            SettingsStatus::Error => (MessageState::Error, self.status.clone()),
        }
    }

    /// The label of the default button.
    pub fn save_label(&self) -> (r: &'static str)
        ensures
            r@ == self.model().save_label(),
    {
        if self.saving {
            "Saving\u{2026}"
        } else {
            "Save"
        }
    }
}

/// Whether labels stand above their fields.
pub open spec fn is_stacked(width: int) -> bool {
    width < SETTINGS_LABEL_WIDTH + FIELD_GUTTER + 20
}

/// The rows of the form: the full ones with a blank row between sections where
/// the frame is roomy.
pub open spec fn form_rows(width: int, roomy: bool) -> int {
    if is_stacked(width) {
        STACKED_FORM_ROWS as int
    } else if roomy {
        SETTINGS_FORM_ROWS as int
    } else {
        SETTINGS_FORM_ROWS - 3
    }
}

/// The rows of the form with the details below it.
pub open spec fn all_rows(width: int, roomy: bool, details: int) -> int {
    sat16(
        form_rows(width, roomy) + if details <= 65535 {
            details
        } else {
            0
        },
    )
}

/// Counts the rows of the form with the details below it.
pub fn natural_rows(width: u16, roomy: bool, details: usize) -> (r: u16)
    ensures
        r == all_rows(width as int, roomy, details as int),
{
    let form: u16 = if width < SETTINGS_LABEL_WIDTH + FIELD_GUTTER + 20 {
        STACKED_FORM_ROWS
    } else if roomy {
        SETTINGS_FORM_ROWS
    } else {
        SETTINGS_FORM_ROWS - 3
    };
    form.saturating_add(
        if details <= 65535 {
            details as u16
        } else {
            0
        },
    )
}

/// A row of the full form where it has no blank rows between sections.
pub open spec fn compact_row(row: int) -> int {
    row - (if row > 4 {
        1int
    } else {
        0
    }) - (if row > 9 {
        1int
    } else {
        0
    }) - (if row > 15 {
        1int
    } else {
        0
    })
}

/// A row of the form, numbered as in the full form.
pub open spec fn form_row(row: int, roomy: bool) -> int {
    if roomy {
        row
    } else {
        compact_row(row)
    }
}

pub(crate) fn map_row(row: u16, roomy: bool) -> (r: u16)
    ensures
        r == form_row(row as int, roomy),
{
    if roomy {
        return row;
    }
    let mut mapped: u16 = row;
    if row > 4 {
        mapped -= 1;
    }
    if row > 9 {
        mapped -= 1;
    }
    if row > 15 {
        mapped -= 1;
    }
    mapped
}

/// The row of a field in the full form.
pub open spec fn field_row(field: SettingsField) -> int {
    match field {
        SettingsField::Provider => 1,
        SettingsField::Mode => 2,
        SettingsField::Thinking => 3,
        SettingsField::Theme => 6,
        SettingsField::DisplayZone => 7,
        SettingsField::Delight => 8,
        SettingsField::ReducedMotion => 8,
        SettingsField::Ascii => 8,
        SettingsField::RowCache => 11,
        SettingsField::Membership => 12,
        SettingsField::DiskTotal => 13,
        SettingsField::IndexPerSource => 14,
    }
}

/// The row of a field where labels stand above fields.
pub open spec fn stacked_row(field: SettingsField) -> int {
    match field {
        SettingsField::Provider => 2,
        SettingsField::Mode => 4,
        SettingsField::Thinking => 6,
        SettingsField::Theme => 9,
        SettingsField::DisplayZone => 11,
        SettingsField::Delight => 12,
        SettingsField::ReducedMotion => 13,
        SettingsField::Ascii => 14,
        SettingsField::RowCache => 17,
        SettingsField::Membership => 19,
        SettingsField::DiskTotal => 21,
        SettingsField::IndexPerSource => 23,
    }
}

/// The row of the form that shows a field.
pub open spec fn shown_row(field: SettingsField, stacked: bool, roomy: bool) -> int {
    if stacked {
        stacked_row(field)
    } else {
        form_row(field_row(field), roomy)
    }
}

/// The row of the form that has the focus.
pub open spec fn focus_row(focus: SettingsControl, stacked: bool, roomy: bool) -> int {
    match focus {
        SettingsControl::Field(field) => shown_row(field, stacked, roomy),
        SettingsControl::More => if stacked {
            24
        } else {
            form_row(SETTINGS_FORM_ROWS - 1, roomy)
        },
        SettingsControl::Save => 0,
    }
}

pub(crate) fn row_of_field(field: SettingsField, stacked: bool, roomy: bool) -> (r: u16)
    ensures
        r == shown_row(field, stacked, roomy),
{
    if stacked {
        match field {
            SettingsField::Provider => 2,
            SettingsField::Mode => 4,
            SettingsField::Thinking => 6,
            SettingsField::Theme => 9,
            SettingsField::DisplayZone => 11,
            SettingsField::Delight => 12,
            SettingsField::ReducedMotion => 13,
            SettingsField::Ascii => 14,
            SettingsField::RowCache => 17,
            SettingsField::Membership => 19,
            SettingsField::DiskTotal => 21,
            SettingsField::IndexPerSource => 23,
        }
    } else {
        let row: u16 = match field {
            SettingsField::Provider => 1,
            SettingsField::Mode => 2,
            SettingsField::Thinking => 3,
            SettingsField::Theme => 6,
            SettingsField::DisplayZone => 7,
            SettingsField::Delight => 8,
            SettingsField::ReducedMotion => 8,
            SettingsField::Ascii => 8,
            SettingsField::RowCache => 11,
            SettingsField::Membership => 12,
            SettingsField::DiskTotal => 13,
            SettingsField::IndexPerSource => 14,
        };
        map_row(row, roomy)
    }
}

/// Finds the row of the form that has the focus.
pub fn settings_focus_row(focus: SettingsControl, stacked: bool, roomy: bool) -> (r: u16)
    ensures
        r == focus_row(focus, stacked, roomy),
{
    match focus {
        SettingsControl::Field(field) => row_of_field(field, stacked, roomy),
        SettingsControl::More => if stacked {
            24
        } else {
            map_row(SETTINGS_FORM_ROWS - 1, roomy)
        },
        SettingsControl::Save => 0,
    }
}

/// The first row that the body shows: so that the row of the focus is the last
/// one shown or an earlier one, and further by what the details are scrolled.
pub open spec fn body_offset(row: int, visible: int, natural: int, details_scroll: int) -> int {
    let most = minus(natural, visible);
    let base = least(minus(row, minus(visible, 1)), most);
    least(sat16(base + sat16(details_scroll)), most)
}

/// Scrolls the body of the form.
pub fn scroll_body(row: u16, visible: u16, natural: u16, details_scroll: usize) -> (r: u16)
    ensures
        r == body_offset(row as int, visible as int, natural as int, details_scroll as int),
{
    let most: u16 = natural.saturating_sub(visible);
    let base: u16 = min16(row.saturating_sub(visible.saturating_sub(1)), most);
    let further: u16 = if details_scroll <= 65535 {
        details_scroll as u16
    } else {
        65535
    };
    min16(base.saturating_add(further), most)
}

/// While the details are not scrolled, the row of the focus is shown.
pub proof fn focus_is_shown(row: int, visible: int, natural: int)
    requires
        visible >= 1,
        0 <= row < natural <= 65535,
    ensures
        body_offset(row, visible, natural, 0) <= row < body_offset(row, visible, natural, 0)
            + visible,
{
}

/// Every control's row is a row of the form.
pub proof fn focus_rows_are_rows(focus: SettingsControl, width: int, roomy: bool)
    ensures
        0 <= focus_row(focus, is_stacked(width), roomy) < form_rows(width, roomy),
{
}

/// The field beside a label, where the row has room for one.
pub open spec fn field_area(row: Rect) -> Option<Rect> {
    let x = sat16(sat16(row.x + SETTINGS_LABEL_WIDTH) + FIELD_GUTTER);
    if x >= row.spec_right() {
        None
    } else {
        Some(Rect::spec_new(x as u16, row.y, (row.spec_right() - x) as u16, 1))
    }
}

/// Places the field beside a label.
pub fn place_field(row: Rect) -> (r: Option<Rect>)
    ensures
        r == field_area(row),
{
    let x: u16 = row.x.saturating_add(SETTINGS_LABEL_WIDTH).saturating_add(FIELD_GUTTER);
    if x >= row.right() {
        return None;
    }
    Some(Rect::new(x, row.y, row.right() - x, 1))
}

/// The field of a list beside a label: as wide as the longest theme asks for,
/// and at least twelve columns, as far as the row goes.
pub open spec fn list_area(row: Rect, longest: int) -> Option<Rect> {
    match field_area(row) {
        Some(area) => Some(
            Rect::spec_new(
                area.x,
                row.y,
                least(greatest(sat16(longest + 4), 12), row.spec_right() - area.x) as u16,
                1,
            ),
        ),
        None => None,
    }
}

/// Places the field of a list beside a label.
pub fn place_list(row: Rect, longest: u16) -> (r: Option<Rect>)
    ensures
        r == list_area(row, longest as int),
{
    match place_field(row) {
        Some(area) => Some(
            Rect::new(
                area.x,
                row.y,
                min16(max16(longest.saturating_add(4), 12), row.right() - area.x),
                1,
            ),
        ),
        None => None,
    }
}

/// A toggle in words.
pub open spec fn toggle_words(on: bool, label: Seq<char>) -> Seq<char> {
    "["@ + (if on {
        "x"@
    } else {
        " "@
    }) + "] "@ + label
}

/// Writes a toggle.
pub fn toggle_text(on: bool, label: &str) -> (r: String)
    ensures
        r@ == toggle_words(on, label@),
{
    let mut text = "[".to_owned();
    text.append(
        if on {
            "x"
        } else {
            " "
        },
    );
    text.append("] ");
    text.append(label);
    text
}

/// The columns of a toggle, which are as many on as off.
pub open spec fn toggle_columns(field: SettingsField) -> int {
    match field {
        SettingsField::Delight => 11,
        SettingsField::ReducedMotion => 18,
        _ => 9,
    }
}

/// A toggle takes the columns of its words.
pub proof fn toggle_columns_are_exact(on: bool)
    ensures
        toggle_words(on, "Delight"@).len() == toggle_columns(SettingsField::Delight),
        toggle_words(on, "Reduced motion"@).len() == toggle_columns(SettingsField::ReducedMotion),
        toggle_words(on, "ASCII"@).len() == toggle_columns(SettingsField::Ascii),
{
    reveal_strlit("[");
    reveal_strlit("x");
    reveal_strlit(" ");
    reveal_strlit("] ");
    reveal_strlit("Delight");
    reveal_strlit("Reduced motion");
    reveal_strlit("ASCII");
}

/// The toggles in their order.
pub open spec fn toggle_at(n: int) -> SettingsField {
    if n == 0 {
        SettingsField::Delight
    } else if n == 1 {
        SettingsField::ReducedMotion
    } else {
        SettingsField::Ascii
    }
}

/// Where toggle `n` of a row starts.
pub open spec fn toggle_x(row: Rect, gutter: int, n: int) -> int
    decreases n,
{
    if n <= 0 {
        row.x as int
    } else {
        sat16(
            sat16(toggle_x(row, gutter, n - 1) + toggle_columns(toggle_at(n - 1))) + gutter + 1,
        )
    }
}

/// How many toggles a row has room for.
pub open spec fn toggles_shown(row: Rect, gutter: int, n: int) -> int
    decreases 3 - n,
{
    if n < 3 && sat16(toggle_x(row, gutter, n) + toggle_columns(toggle_at(n))) <= row.spec_right() {
        toggles_shown(row, gutter, n + 1)
    } else {
        n
    }
}

/// The toggles of a row, one behind another as far as they fit.
pub open spec fn toggle_regions(row: Rect, gutter: int) -> Seq<(Rect, SettingsControl)> {
    Seq::new(
        toggles_shown(row, gutter, 0) as nat,
        |n: int|
            (
                Rect::spec_new(
                    toggle_x(row, gutter, n) as u16,
                    row.y,
                    toggle_columns(toggle_at(n)) as u16,
                    1,
                ),
                SettingsControl::Field(toggle_at(n)),
            ),
    )
}

/// Places the toggles of a row.
pub fn place_toggles(row: Rect, gutter: u16) -> (r: Vec<(Rect, SettingsControl)>)
    ensures
        r@ == toggle_regions(row, gutter as int),
{
    let mut out: Vec<(Rect, SettingsControl)> = Vec::new();
    let mut x: u16 = row.x;
    let mut n: u16 = 0;
    proof {
        reveal_with_fuel(toggles_shown, 5);
    }
    while n < 3
        invariant
            n <= 3,
            x == toggle_x(row, gutter as int, n as int),
            toggles_shown(row, gutter as int, 0) == toggles_shown(row, gutter as int, n as int),
            out@.len() == n,
            forall|i: int|
                0 <= i < n ==> #[trigger] out@[i] == (
                    Rect::spec_new(
                        toggle_x(row, gutter as int, i) as u16,
                        row.y,
                        toggle_columns(toggle_at(i)) as u16,
                        1,
                    ),
                    SettingsControl::Field(toggle_at(i)),
                ),
        ensures
            n <= 3,
            out@.len() == n,
            n == toggles_shown(row, gutter as int, 0),
            forall|i: int|
                0 <= i < n ==> #[trigger] out@[i] == (
                    Rect::spec_new(
                        toggle_x(row, gutter as int, i) as u16,
                        row.y,
                        toggle_columns(toggle_at(i)) as u16,
                        1,
                    ),
                    SettingsControl::Field(toggle_at(i)),
                ),
        decreases 3 - n,
    {
        let (field, width): (SettingsField, u16) = if n == 0 {
            (SettingsField::Delight, 11)
        } else if n == 1 {
            (SettingsField::ReducedMotion, 18)
        } else {
            (SettingsField::Ascii, 9)
        };
        if x.saturating_add(width) > row.right() {
            break;
        }
        out.push((Rect::new(x, row.y, width, 1), SettingsControl::Field(field)));
        x = x.saturating_add(width).saturating_add(gutter).saturating_add(1);
        n += 1;
    }
    assert(out@ =~= toggle_regions(row, gutter as int));
    out
}

/// A row of the form on the screen, where it is scrolled into view.
pub open spec fn row_rect(rows: Seq<Option<Rect>>, row: int) -> Option<Rect> {
    if 0 <= row < rows.len() {
        rows[row]
    } else {
        None
    }
}

pub(crate) fn get_row(rows: &Vec<Option<Rect>>, row: u16) -> (r: Option<Rect>)
    ensures
        r == row_rect(rows@, row as int),
{
    if (row as usize) < rows.len() {
        rows[row as usize]
    } else {
        None
    }
}

/// Where a control can be clicked, where it is shown at all.
pub open spec fn region_if(area: Option<Rect>, control: SettingsControl) -> Seq<
    (Rect, SettingsControl),
> {
    match area {
        Some(area) => seq![(area, control)],
        None => seq![],
    }
}

/// How a frame shows the form.
pub struct FormShape {
    pub stacked: bool,
    pub roomy: bool,
    pub zone_custom: bool,
    pub longest_theme: int,
    pub gutter: int,
}

/// Where a typed field can be clicked: its whole row where labels stand above.
pub open spec fn text_area(rows: Seq<Option<Rect>>, field: SettingsField, shape: FormShape) -> Option<
    Rect,
> {
    match row_rect(rows, shown_row(field, shape.stacked, shape.roomy)) {
        Some(row) => if shape.stacked {
            Some(row)
        } else {
            field_area(row)
        },
        None => None,
    }
}

/// Where the field of a list can be clicked.
pub open spec fn choice_area(rows: Seq<Option<Rect>>, field: SettingsField, shape: FormShape) -> Option<
    Rect,
> {
    match row_rect(rows, shown_row(field, shape.stacked, shape.roomy)) {
        Some(row) => if shape.stacked {
            Some(row)
        } else {
            list_area(row, shape.longest_theme)
        },
        None => None,
    }
}

/// Where a field can be clicked.
pub open spec fn field_region(rows: Seq<Option<Rect>>, field: SettingsField, shape: FormShape) -> Seq<
    (Rect, SettingsControl),
> {
    region_if(
        if field == SettingsField::Theme || (field == SettingsField::DisplayZone
            && !shape.zone_custom) {
            choice_area(rows, field, shape)
        } else {
            text_area(rows, field, shape)
        },
        SettingsControl::Field(field),
    )
}

/// Where the toggles can be clicked: in one row, or one below another.
pub open spec fn toggles_region(rows: Seq<Option<Rect>>, shape: FormShape) -> Seq<
    (Rect, SettingsControl),
> {
    if shape.stacked {
        region_if(
            row_rect(rows, stacked_row(SettingsField::Delight)),
            SettingsControl::Field(SettingsField::Delight),
        ) + region_if(
            row_rect(rows, stacked_row(SettingsField::ReducedMotion)),
            SettingsControl::Field(SettingsField::ReducedMotion),
        ) + region_if(
            row_rect(rows, stacked_row(SettingsField::Ascii)),
            SettingsControl::Field(SettingsField::Ascii),
        )
    } else {
        match row_rect(rows, form_row(8, shape.roomy)) {
            Some(row) => toggle_regions(row, shape.gutter),
            None => seq![],
        }
    }
}

/// Where the controls of the form can be clicked.
pub open spec fn form_regions(rows: Seq<Option<Rect>>, shape: FormShape) -> Seq<
    (Rect, SettingsControl),
> {
    field_region(rows, SettingsField::Provider, shape) + field_region(
        rows,
        SettingsField::Mode,
        shape,
    ) + field_region(rows, SettingsField::Thinking, shape) + field_region(
        rows,
        SettingsField::RowCache,
        shape,
    ) + field_region(rows, SettingsField::Membership, shape) + field_region(
        rows,
        SettingsField::DiskTotal,
        shape,
    ) + field_region(rows, SettingsField::IndexPerSource, shape) + field_region(
        rows,
        SettingsField::Theme,
        shape,
    ) + field_region(rows, SettingsField::DisplayZone, shape) + toggles_region(rows, shape)
}

/// How a frame shows the form.
#[derive(Clone, Copy, Debug, PartialEq, Eq, Structural)]
pub struct FormFrame {
    pub stacked: bool,
    pub roomy: bool,
    pub zone_custom: bool,
    pub longest_theme: u16,
    pub gutter: u16,
}

impl FormFrame {
    pub open spec fn shape(self) -> FormShape {
        FormShape {
            stacked: self.stacked,
            roomy: self.roomy,
            zone_custom: self.zone_custom,
            longest_theme: self.longest_theme as int,
            gutter: self.gutter as int,
        }
    }
}

fn push_field_region(
    out: &mut Vec<(Rect, SettingsControl)>,
    rows: &Vec<Option<Rect>>,
    field: SettingsField,
    frame: FormFrame,
)
    ensures
        final(out)@ == old(out)@ + field_region(rows@, field, frame.shape()),
{
    let is_list = field == SettingsField::Theme || (field == SettingsField::DisplayZone
        && !frame.zone_custom);
    let area = match get_row(rows, row_of_field(field, frame.stacked, frame.roomy)) {
        Some(row) => if frame.stacked {
            Some(row)
        } else if is_list {
            place_list(row, frame.longest_theme)
        } else {
            place_field(row)
        },
        None => None,
    };
    if let Some(area) = area {
        out.push((area, SettingsControl::Field(field)));
    }
    assert(out@ =~= old(out)@ + field_region(rows@, field, frame.shape()));
}

fn push_row_region(
    out: &mut Vec<(Rect, SettingsControl)>,
    rows: &Vec<Option<Rect>>,
    row: u16,
    control: SettingsControl,
)
    ensures
        final(out)@ == old(out)@ + region_if(row_rect(rows@, row as int), control),
{
    if let Some(area) = get_row(rows, row) {
        out.push((area, control));
    }
    assert(out@ =~= old(out)@ + region_if(row_rect(rows@, row as int), control));
}

/// Finds where the controls of the form can be clicked, given where its rows
/// came to stand.
pub fn find_form_regions(rows: &Vec<Option<Rect>>, frame: FormFrame) -> (r: Vec<
    (Rect, SettingsControl),
>)
    ensures
        r@ == form_regions(rows@, frame.shape()),
{
    let mut out: Vec<(Rect, SettingsControl)> = Vec::new();
    push_field_region(&mut out, rows, SettingsField::Provider, frame);
    assert(out@ =~= field_region(rows@, SettingsField::Provider, frame.shape()));
    push_field_region(&mut out, rows, SettingsField::Mode, frame);
    push_field_region(&mut out, rows, SettingsField::Thinking, frame);
    push_field_region(&mut out, rows, SettingsField::RowCache, frame);
    push_field_region(&mut out, rows, SettingsField::Membership, frame);
    push_field_region(&mut out, rows, SettingsField::DiskTotal, frame);
    push_field_region(&mut out, rows, SettingsField::IndexPerSource, frame);
    push_field_region(&mut out, rows, SettingsField::Theme, frame);
    push_field_region(&mut out, rows, SettingsField::DisplayZone, frame);
    let ghost fields = out@;
    if frame.stacked {
        push_row_region(&mut out, rows, 12, SettingsControl::Field(SettingsField::Delight));
        push_row_region(&mut out, rows, 13, SettingsControl::Field(SettingsField::ReducedMotion));
        push_row_region(&mut out, rows, 14, SettingsControl::Field(SettingsField::Ascii));
        assert(out@ =~= fields + toggles_region(rows@, frame.shape()));
    } else {
        if let Some(row) = get_row(rows, map_row(8, frame.roomy)) {
            let mut toggles = place_toggles(row, frame.gutter);
            out.append(&mut toggles);
        }
        assert(out@ =~= fields + toggles_region(rows@, frame.shape()));
    }
    out
}

/// A text in rows of a width, cut wherever the row is full; a text without any
/// row has one empty row.
pub open spec fn value_rows(text: Seq<char>, width: int) -> Seq<Seq<char>>
    decreases text.len(),
{
    let head = clipped(text, width);
    if head.len() == 0 || head.len() > text.len() {
        seq![]
    } else {
        seq![head] + value_rows(text.skip(head.len() as int), width)
    }
}

/// A text wrapped at a width.
pub open spec fn wrapped_value(text: Seq<char>, width: int) -> Seq<Seq<char>> {
    if width == 0 {
        seq![]
    } else if value_rows(text, width).len() == 0 {
        seq![Seq::<char>::empty()]
    } else {
        value_rows(text, width)
    }
}

/// Cuts a text into rows of a width, so that a path that is longer than a row
/// stays readable in full.
pub fn wrap_value(text: &str, width: usize) -> (r: Vec<String>)
    ensures
        texts(r@) == wrapped_value(text@, width as int),
{
    if width == 0 {
        let none: Vec<String> = Vec::new();
        assert(texts(none@) =~= seq![]);
        return none;
    }
    let mut rows: Vec<String> = Vec::new();
    let mut rest = text.to_owned();
    assert(texts(rows@) =~= seq![]);
    assert(value_rows(text@, width as int) =~= texts(rows@) + value_rows(rest@, width as int));
    while !rest.as_str().is_empty()
        invariant
            value_rows(text@, width as int) == texts(rows@) + value_rows(rest@, width as int),
        ensures
            value_rows(text@, width as int) == texts(rows@),
        decreases rest@.len(),
    {
        let head = clipped_width(rest.as_str(), width);
        proof {
            assert(rest@.take(0) =~= Seq::<char>::empty());
            fitting_fits(rest@, width as int, 0);
        }
        if head.as_str().is_empty() {
            assert(value_rows(rest@, width as int) =~= seq![]);
            break;
        }
        let chars = chars_of(rest.as_str());
        let count: usize = head.as_str().unicode_len();
        let tail = text_of(&chars, count, chars.len());
        proof {
            assert(tail@ =~= rest@.skip(count as int));
            let before = rows@;
            assert(texts(before.push(head)) =~= texts(before).push(head@));
            assert(texts(before) + value_rows(rest@, width as int) =~= texts(before.push(head))
                + value_rows(tail@, width as int));
        }
        rows.push(head);
        rest = tail;
        if rest.as_str().is_empty() {
            assert(clipped(rest@, width as int).len() == 0) by {
                assert(rest@.take(0) =~= Seq::<char>::empty());
                fitting_fits(rest@, width as int, 0);
            }
            assert(value_rows(rest@, width as int) =~= seq![]);
            assert(value_rows(text@, width as int) =~= texts(rows@));
        }
    }
    if rows.len() == 0 {
        let ghost before = rows@;
        rows.push(String::new());
        assert(texts(rows@) =~= seq![Seq::<char>::empty()]);
    }
    rows
}

/// Texts one behind another.
pub open spec fn put_together(rows: Seq<Seq<char>>) -> Seq<char>
    decreases rows.len(),
{
    if rows.len() == 0 {
        seq![]
    } else {
        rows[0] + put_together(rows.skip(1))
    }
}

/// No character of a text is wider than a row.
pub open spec fn fits_rows(text: Seq<char>, width: int) -> bool {
    forall|i: int| 0 <= i < text.len() ==> display_width(seq![#[trigger] text[i]]) <= width
}

/// Wrapping loses nothing: the rows put together are the text, and no row is
/// wider than asked for.
pub proof fn wrapping_keeps_the_text(text: Seq<char>, width: int)
    requires
        width > 0,
        fits_rows(text, width),
    ensures
        put_together(value_rows(text, width)) == text,
        forall|i: int|
            0 <= i < value_rows(text, width).len() ==> columns(
                #[trigger] value_rows(text, width)[i],
            ) <= width,
    decreases text.len(),
{
    assert(text.take(0) =~= Seq::<char>::empty());
    fitting_fits(text, width, 0);
    let head = clipped(text, width);
    if text.len() > 0 {
        let one = text.take(1);
        assert(one.drop_last() =~= Seq::<char>::empty());
        assert(columns(one) == columns(one.drop_last()) + display_width(seq![one.last()]));
        assert(columns(one.drop_last()) == 0);
        assert(one.last() == text[0]);
        fitting_fits(text, width, 1);
        assert(fitting(text, width, 0) == fitting(text, width, 1));
        let rest = text.skip(head.len() as int);
        assert forall|i: int| 0 <= i < rest.len() implies display_width(
            seq![#[trigger] rest[i]],
        ) <= width by {
            assert(rest[i] == text[i + head.len()]);
        }
        wrapping_keeps_the_text(rest, width);
        let rows = value_rows(text, width);
        assert(rows == seq![head] + value_rows(rest, width));
        assert(rows.skip(1) =~= value_rows(rest, width));
        assert(rows[0] == head);
        assert(text =~= head + rest);
        assert forall|i: int| 0 <= i < rows.len() implies columns(#[trigger] rows[i]) <= width by {
            if i > 0 {
                assert(rows[i] == value_rows(rest, width)[i - 1]);
            }
        }
    } else {
        assert(head =~= seq![]);
        assert(value_rows(text, width) =~= seq![]);
        assert(text =~= seq![]);
    }
}

/// A word for a switch.
pub open spec fn bool_word(on: bool) -> Seq<char> {
    if on {
        "true"@
    } else {
        "false"@
    }
}

/// A value and where it comes from.
pub open spec fn sourced(value: Seq<char>, source: Seq<char>) -> Seq<char> {
    value + " ["@ + source + "]"@
}

/// The details below the form: the state in full, the settings in effect with
/// their sources, and the paths.
pub open spec fn detail_lines(
    form: FormModel,
    agent: Seq<char>,
    theme: Seq<char>,
    zone: Seq<char>,
) -> Seq<Seq<char>> {
    let c = form.context;
    seq![
        "State detail: "@ + form.status,
        "Effective "@ + agent + ": "@ + sourced(c.effective_provider, c.provider_source)
            + " \u{b7} "@ + sourced(c.effective_mode, c.mode_source) + " \u{b7} "@ + sourced(
            c.effective_thinking,
            c.thinking_source,
        ),
        "Effective appearance: theme "@ + theme + " \u{b7} delight "@ + sourced(
            bool_word(c.effective_delight_enabled),
            c.delight_source,
        ) + " \u{b7} motion "@ + sourced(
            bool_word(c.effective_reduced_motion),
            c.reduced_motion_source,
        ) + " \u{b7} ASCII "@ + sourced(bool_word(c.effective_ascii), c.ascii_source),
        "Settings: "@ + c.settings_path,
        "Data: "@ + c.data_path,
        "Cache: "@ + c.cache_path,
        "Capture: "@ + c.capture_path,
        "Times shown in: "@ + zone + " ("@ + c.display_zone_source + ")"@,
        "Cache-limit changes take effect after restart; appearance previews immediately."@,
    ]
}

fn push_sourced(text: &mut String, value: &str, source: &str)
    ensures
        final(text)@ == old(text)@ + sourced(value@, source@),
{
    text.append(value);
    text.append(" [");
    text.append(source);
    text.append("]");
    assert(text@ =~= old(text)@ + sourced(value@, source@));
}

fn word(on: bool) -> (r: &'static str)
    ensures
        r@ == bool_word(on),
{
    if on {
        "true"
    } else {
        "false"
    }
}

fn labelled(label: &str, value: &str) -> (r: String)
    ensures
        r@ == label@ + value@,
{
    let mut text = label.to_owned();
    text.append(value);
    text
}

impl SettingsDialogState {
    /// Writes the details below the form; `theme` and `zone` are the theme and
    /// the zone in effect in words.
    pub fn detail_lines(&self, agent: &str, theme: &str, zone: &str) -> (r: Vec<String>)
        ensures
            texts(r@) == detail_lines(self.model(), agent@, theme@, zone@),
    {
        let c = &self.context;
        let mut agent_line = labelled("Effective ", agent);
        agent_line.append(": ");
        push_sourced(&mut agent_line, c.effective_provider.as_str(), c.provider_source.as_str());
        agent_line.append(" \u{b7} ");
        push_sourced(&mut agent_line, c.effective_mode.as_str(), c.mode_source.as_str());
        agent_line.append(" \u{b7} ");
        push_sourced(&mut agent_line, c.effective_thinking.as_str(), c.thinking_source.as_str());
        let mut look = labelled("Effective appearance: theme ", theme);
        look.append(" \u{b7} delight ");
        push_sourced(&mut look, word(c.effective_delight_enabled), c.delight_source.as_str());
        look.append(" \u{b7} motion ");
        push_sourced(
            &mut look,
            word(c.effective_reduced_motion),
            c.reduced_motion_source.as_str(),
        );
        look.append(" \u{b7} ASCII ");
        push_sourced(&mut look, word(c.effective_ascii), c.ascii_source.as_str());
        let mut times = labelled("Times shown in: ", zone);
        times.append(" (");
        times.append(c.display_zone_source.as_str());
        times.append(")");
        let mut lines: Vec<String> = Vec::new();
        lines.push(labelled("State detail: ", self.status.as_str()));
        lines.push(agent_line);
        lines.push(look);
        lines.push(labelled("Settings: ", c.settings_path.as_str()));
        lines.push(labelled("Data: ", c.data_path.as_str()));
        lines.push(labelled("Cache: ", c.cache_path.as_str()));
        lines.push(labelled("Capture: ", c.capture_path.as_str()));
        lines.push(times);
        lines.push(
            "Cache-limit changes take effect after restart; appearance previews immediately.".to_owned(),
        );
        assert(texts(lines@) =~= detail_lines(self.model(), agent@, theme@, zone@));
        lines
    }
}

/// The rows of a list.
pub open spec fn choice_rows(
    field: SettingsField,
    themes: Seq<Seq<char>>,
    zones: Seq<Seq<char>>,
) -> Seq<Seq<char>> {
    match field {
        SettingsField::Theme => themes,
        SettingsField::DisplayZone => zones.push(CUSTOM_ZONE_ROW@),
        _ => seq![],
    }
}

/// Writes the rows of a list.
pub fn settings_choices(field: SettingsField, themes: &Vec<String>, zones: &Vec<ZoneChoice>) -> (r:
    Vec<String>)
    ensures
        texts(r@) == choice_rows(field, texts(themes@), zone_labels(zones@)),
{
    match field {
        SettingsField::Theme => copy_texts(themes),
        SettingsField::DisplayZone => {
            let mut out: Vec<String> = Vec::new();
            let mut i: usize = 0;
            while i < zones.len()
                invariant
                    i <= zones@.len(),
                    out@.len() == i,
                    forall|j: int| 0 <= j < i ==> out@[j]@ == zones@[j].label@,
                decreases zones.len() - i,
            {
                out.push(zones[i].label.clone());
                i += 1;
            }
            out.push(CUSTOM_ZONE_ROW.to_owned());
            assert(texts(out@) =~= zone_labels(zones@).push(CUSTOM_ZONE_ROW@));
            out
        },
        _ => {
            let none: Vec<String> = Vec::new();
            assert(texts(none@) =~= seq![]);
            none
        },
    }
}

/// The columns that an open list asks for: its widest row with room on both
/// sides, and at least twelve.
pub fn preferred_width(widest: u16) -> (r: u16)
    ensures
        r == greatest(sat16(widest + 4), 12),
{
    max16(widest.saturating_add(4), 12)
}

/// Lays the rows of an open list.
pub fn rows_of_list(menu: AnchoredGeometry, count: usize) -> (r: Vec<(Rect, usize)>)
    ensures
        r@ == menu_rows(menu, span_of(0, count as int)),
{
    rows_of_menu(menu, &numbers(0, count))
}

impl SettingsModel {
    /// What a point of the last frame stands for: the open list first.
    pub open spec fn at(self, column: int, row: int) -> Option<SettingsHit> {
        match region_at(self.geometry.choices@, column, row) {
            Some(index) => Some(SettingsHit::Choice(index)),
            None => match region_at(self.geometry.controls@, column, row) {
                Some(control) => Some(SettingsHit::Control(control)),
                None => None,
            },
        }
    }
}

impl SettingsDialog {
    pub fn state(&self) -> (r: Option<&SettingsDialogState>)
        ensures
            match r {
                Some(state) => self.model().form == Some(state.model()),
                None => self.model().form is None,
            },
    {
        match &self.state {
            Some(state) => Some(state),
            None => None,
        }
    }

    /// The controls of the last frame.
    pub fn control_rects(&self) -> (r: &[(Rect, SettingsControl)])
        ensures
            r@ == self.model().geometry.controls@,
    {
        self.geometry.controls.as_slice()
    }

    /// The rows of the open list of the last frame.
    pub fn theme_choice_rects(&self) -> (r: &[(Rect, usize)])
        ensures
            r@ == self.model().geometry.choices@,
    {
        self.geometry.choices.as_slice()
    }

    pub fn surface(&self) -> (r: Surface)
        ensures
            r == self.model().surface,
    {
        self.surface
    }

    pub fn hit(&self, column: u16, row: u16) -> (r: Option<SettingsHit>)
        ensures
            r == self.model().at(column as int, row as int),
    {
        if let Some(index) = find_region(&self.geometry.choices, column, row) {
            return Some(SettingsHit::Choice(index));
        }
        match find_region(&self.geometry.controls, column, row) {
            Some(control) => Some(SettingsHit::Control(control)),
            None => None,
        }
    }

    /// Remembers how far the body of a frame scrolls.
    pub fn settle(&mut self, natural: usize, rows: u16, overflows: bool)
        ensures
            final(self).model() == (SettingsModel {
                form: match old(self).model().form {
                    Some(form) => Some(form.settled(natural as int, rows as int, overflows)),
                    None => None,
                },
                ..old(self).model()
            }),
    {
        if let Some(state) = &mut self.state {
            let limit: usize = natural.saturating_sub(rows as usize);
            state.details_scroll_limit = limit;
            if state.details_scroll > limit {
                state.details_scroll = limit;
            }
            if !overflows && state.focus == SettingsControl::More {
                state.focus = SettingsControl::Save;
            }
        }
    }

    /// Remembers a frame.
    pub fn record(
        &mut self,
        controls: Vec<(Rect, SettingsControl)>,
        choices: Vec<(Rect, usize)>,
        caret: Option<(u16, u16)>,
        surface: Surface,
    ) -> (r: Surface)
        ensures
            final(self).model().geometry.controls@ == controls@,
            final(self).model().geometry.choices@ == choices@,
            r == (Surface { caret, ..surface }),
            final(self).model() == (SettingsModel {
                geometry: final(self).model().geometry,
                surface: r,
                ..old(self).model()
            }),
    {
        self.geometry = SettingsGeometry { controls, choices };
        self.surface = Surface { caret, ..surface };
        self.surface
    }
}

impl Default for SettingsDialog {
    fn default() -> (r: SettingsDialog)
        ensures
            r.model().geometry.blank(),
            r.model() == (SettingsModel {
                open: false,
                context: None,
                next_generation: 1,
                form: None,
                cursors: Carets::none(),
                geometry: r.model().geometry,
                surface: Surface::nothing(),
                queue: Queue::<SettingsAsk>::empty(SETTINGS_OUTBOX_CAP as int),
            }),
    {
        let r = SettingsDialog {
            open: false,
            context: None,
            next_generation: 1,
            state: None,
            cursors: Carets::blank(),
            geometry: SettingsGeometry { controls: Vec::new(), choices: Vec::new() },
            surface: Surface::default(),
            outbox: Outbox::new(SETTINGS_OUTBOX_CAP),
        };
        assert(r.model().queue.items =~= Seq::<SettingsAsk>::empty());
        r
    }
}

/// The rows set aside for each part: the same whatever is being edited.
pub fn settings_spec_for(policy_width: u16, save_label: &str, with_more: bool) -> (r: DialogSpec)
    ensures
        r == (DialogSpec {
            header: 0,
            body: 3,
            message: 2,
            help: 2,
            actions: action_rows(
                policy_width,
                if with_more {
                    seq![save_label, "More"]
                } else {
                    seq![save_label]
                },
            ) as u16,
        }),
{
    let mut labels: Vec<&str> = Vec::new();
    labels.push(save_label);
    if with_more {
        labels.push("More");
        assert(labels@ =~= seq![save_label, "More"]);
    } else {
        assert(labels@ =~= seq![save_label]);
    }
    DialogSpec {
        header: 0,
        body: 3,
        message: 2,
        help: 2,
        actions: budget_actions(policy_width, labels.as_slice()),
    }
}

/// Whether the labels of the form stand above its fields.
pub fn stacks_labels(content_width: u16) -> (r: bool)
    ensures
        r == is_stacked(content_width as int),
{
    content_width < SETTINGS_LABEL_WIDTH + FIELD_GUTTER + 20
}

/// The columns that the effective values are broken at: indented, and with room
/// for the scroll bar.
pub fn detail_width(policy_width: u16) -> (r: usize)
    ensures
        r == detail_columns(policy_width as int),
{
    max16(content_estimate(policy_width).saturating_sub(PANE_INDENT).saturating_sub(1), 1) as usize
}

/// Whether the form needs the button that moves to its values: where it has more
/// rows than show in a dialog with that button, or no such dialog fits.
pub fn more_is_needed(natural: u16, body: Option<Rect>) -> (r: bool)
    ensures
        r == (natural > match body {
            Some(body) => body.height,
            None => 0,
        }),
{
    match body {
        Some(body) => natural > body.height,
        None => natural > 0,
    }
}

/// The columns that the effective values are broken at.
pub open spec fn detail_columns(policy_width: int) -> int {
    greatest(minus(minus(greatest(minus(policy_width, 4), 1), PANE_INDENT as int), 1), 1)
}

/// The first `n` lines, each broken at a width.
pub open spec fn broken_lines(lines: Seq<Seq<char>>, width: int, n: int) -> Seq<Seq<char>>
    decreases n,
{
    if n <= 0 {
        seq![]
    } else {
        broken_lines(lines, width, n - 1) + wrapped_value(lines[n - 1], width)
    }
}

/// The word before the agent's settings.
pub open spec fn agent_word(ascii: bool) -> Seq<char> {
    if ascii {
        "Agent"@
    } else {
        "\u{1f9e0}"@
    }
}

/// The name of a theme by its place; none where it has no place.
pub open spec fn theme_name(themes: Seq<Seq<char>>, id: ThemeId) -> Seq<char> {
    if id.index < themes.len() {
        themes[id.index as int]
    } else {
        ""@
    }
}

/// Names a theme.
pub fn name_theme(themes: &Vec<String>, id: ThemeId) -> (r: String)
    ensures
        r@ == theme_name(texts(themes@), id),
{
    if id.index < themes.len() {
        themes[id.index].clone()
    } else {
        "".to_owned()
    }
}

impl FormModel {
    /// The effective values of the form, broken into lines; `zone` is the zone in
    /// effect in words.
    pub open spec fn details(
        self,
        policy_width: int,
        themes: Seq<Seq<char>>,
        zone: Seq<char>,
        ascii: bool,
    ) -> Seq<Seq<char>> {
        let lines = detail_lines(
            self,
            agent_word(ascii),
            theme_name(themes, self.context.effective_theme),
            zone,
        );
        broken_lines(lines, detail_columns(policy_width), lines.len() as int)
    }

    /// The rows of the open list.
    pub open spec fn list_rows(self, themes: Seq<Seq<char>>, zones: Seq<Seq<char>>) -> Seq<Seq<char>> {
        match self.dropdown {
            Some(field) => choice_rows(field, themes, zones),
            None => seq![],
        }
    }
}

impl SettingsDialogState {
    /// Breaks the effective values into lines.
    pub fn details(&self, policy_width: u16, themes: &Vec<String>, zone: &str, ascii: bool) -> (r: Vec<
        String,
    >)
        ensures
            texts(r@) == self.model().details(
                policy_width as int,
                texts(themes@),
                zone@,
                ascii,
            ),
    {
        let name = name_theme(themes, self.context.effective_theme);
        let agent = if ascii {
            "Agent"
        } else {
            "\u{1f9e0}"
        };
        let lines = self.detail_lines(agent, name.as_str(), zone);
        let width: usize = detail_width(policy_width);
        let ghost all = texts(lines@);
        let mut out: Vec<String> = Vec::new();
        let mut i: usize = 0;
        assert(texts(out@) =~= broken_lines(all, width as int, 0));
        while i < lines.len()
            invariant
                i <= lines@.len(),
                all == texts(lines@),
                texts(out@) == broken_lines(all, width as int, i as int),
            decreases lines.len() - i,
        {
            let mut rows = wrap_value(lines[i].as_str(), width);
            let ghost before = out@;
            let ghost part = rows@;
            assert(all[i as int] == lines@[i as int]@);
            out.append(&mut rows);
            assert(out@ =~= before + part);
            assert(texts(out@) =~= texts(before) + texts(part));
            i += 1;
        }
        out
    }

    /// Writes the rows of the open list.
    pub fn list_rows(&self, themes: &Vec<String>, zones: &Vec<ZoneChoice>) -> (r: Vec<String>)
        ensures
            texts(r@) == self.model().list_rows(texts(themes@), zone_labels(zones@)),
    {
        match self.dropdown {
            Some(field) => settings_choices(field, themes, zones),
            None => {
                let none: Vec<String> = Vec::new();
                assert(texts(none@) =~= seq![]);
                none
            },
        }
    }
}

} // verus!
