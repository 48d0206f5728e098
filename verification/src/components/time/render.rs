//! A frame of the Time window layer as a list of things to draw.

use super::frame::{
    action_hits, action_words, applied_text, applied_words, button_hits, choice_rows, control_row,
    field_hits, find_control, first_shown, form_hits, list_box, place_choices, project, projected,
    reading_name, rows_of_choices, time_action_labels, window_name, window_text, zone_display,
    zone_text, ChoiceBox, TimeBody,
};
use super::layout::{
    field_is_live, fields_model, form_width, is_form, time_editor_layout, ACCEPT_LABEL, FieldModel,
    MAX_ASSUMPTIONS, TimeEditorLayout, TimeFieldLayout, ZONE_MENU,
};
use super::{
    zone_labels, TimeControl, TimeDialog, TimeDropdown, TimeGeometry, TimeModel, TimeView,
    ZoneChoice,
};
use crate::component::Surface;
use crate::dialog_controls::{button_layout, button_style, is_button_layout, DialogStyles};
use crate::dialog_layout::{FrameRegions, PANE_INDENT};
use crate::geometry::{least, min16, minus, sat16, Rect};
use crate::paint::{if_drawn, picture, put, put_text, text_at, Drawn, Fit, Paint};
use crate::style::{Style, Theme};
use crate::text::texts;
use crate::width::{widest, widest_of};
use vstd::prelude::*;

verus! {

/// What a frame is drawn from: how the screen is divided, and what was worded and
/// broken into lines for it.
#[derive(Clone, Copy, Debug)]
pub struct TimeFrame<'a> {
    pub view: &'a TimeView,
    /// The screen, within which a list hangs.
    pub area: Rect,
    pub regions: FrameRegions,
    /// The length of the window that is set, in words.
    pub duration: &'a String,
    /// The length of the window that is applied, and its ends, in words.
    pub applied_duration: &'a String,
    pub applied_start: &'a String,
    pub applied_end: &'a String,
    /// A message that is too long for its row, broken into lines.
    pub diagnostics: &'a Vec<String>,
    /// What shows of the part that has the focus, and the column of its caret.
    pub typed: &'a String,
    pub typed_column: usize,
    /// The built-in bases, the lengths of the windows to choose from, and the
    /// zones.
    pub bases: &'a Vec<String>,
    pub durations: &'a Vec<String>,
    pub zones: &'a Vec<ZoneChoice>,
    pub theme: Theme,
    pub ascii: bool,
}

/// A frame with what the layer works out for it.
#[derive(Clone, Copy, Debug)]
pub struct TimeSheet<'a> {
    pub view: &'a TimeView,
    pub area: Rect,
    pub regions: FrameRegions,
    /// The form.
    pub layout: &'a TimeEditorLayout,
    /// The name of the window, and what is said of the one that is applied.
    pub window: &'a String,
    pub applied: &'a String,
    pub diagnostics: &'a Vec<String>,
    pub typed: &'a String,
    pub typed_column: usize,
    /// The rows of the open list.
    pub choices: &'a Vec<String>,
    /// The buttons by the places of their labels.
    pub buttons: &'a Vec<(usize, Rect)>,
    pub theme: Theme,
    pub ascii: bool,
}

impl TimeFrame<'_> {
    /// The words that came in fit the layer, and its form has rows that can be
    /// counted.
    pub open spec fn fits(self, m: TimeModel) -> bool {
        &&& self.durations@.len() == m.window_choices.len()
        &&& m.pending() matches Some(reading) ==> reading.assumptions.len() <= MAX_ASSUMPTIONS
    }

    /// The form is laid out from the first cell of the content on.
    pub open spec fn form_area(self) -> Rect {
        let content = self.regions.content;
        Rect::spec_new(content.x, content.y, content.width, 1)
    }
}

impl TimeSheet<'_> {
    /// What the layer works out for a frame: the form, the names of the windows,
    /// the rows of the open list, and where the buttons come to stand.
    pub open spec fn is_of(self, m: TimeModel, f: TimeFrame<'_>) -> bool {
        &&& self.view == f.view
        &&& self.area == f.area
        &&& self.regions == f.regions
        &&& self.diagnostics == f.diagnostics
        &&& self.typed == f.typed
        &&& self.typed_column == f.typed_column
        &&& self.theme == f.theme
        &&& self.ascii == f.ascii
        &&& is_form(
            *self.layout,
            form_width(f.form_area()),
            m.pending(),
            m.sampled_records,
            m.start_zone_custom,
            m.end_zone_custom,
        )
        &&& self.window@ == window_name(m.window, f.duration@)
        &&& self.applied@ == applied_words(
            *f.view,
            f.applied_duration@,
            f.applied_start@,
            f.applied_end@,
        )
        &&& texts(self.choices@) == m.list_labels(
            texts(f.bases@),
            texts(f.durations@),
            zone_labels(f.zones@),
        )
        &&& is_button_layout(
            f.regions.actions,
            action_words(f.ascii),
            m.focused_action(),
            self.buttons@,
        )
    }
}

/// The control that a list hangs on.
pub open spec fn list_control(dropdown: TimeDropdown) -> TimeControl {
    match dropdown {
        TimeDropdown::Basis => TimeControl::Basis,
        TimeDropdown::Window => TimeControl::Window,
        TimeDropdown::StartZone => TimeControl::StartZoneMenu,
        TimeDropdown::EndZone => TimeControl::EndZoneMenu,
        TimeDropdown::Reading => TimeControl::Reading,
    }
}

fn control_of_list(dropdown: TimeDropdown) -> (r: TimeControl)
    ensures
        r == list_control(dropdown),
{
    match dropdown {
        TimeDropdown::Basis => TimeControl::Basis,
        TimeDropdown::Window => TimeControl::Window,
        TimeDropdown::StartZone => TimeControl::StartZoneMenu,
        TimeDropdown::EndZone => TimeControl::EndZoneMenu,
        TimeDropdown::Reading => TimeControl::Reading,
    }
}

/// The button that looks for timestamps.
pub open spec fn recognize_text(ascii: bool) -> Seq<char> {
    if ascii {
        "Agent Recognize timestamp"@
    } else {
        "\u{1f9e0} Recognize timestamp"@
    }
}

/// A list's sign in its last cell.
pub open spec fn chevron(ascii: bool) -> Seq<char> {
    if ascii {
        "v"@
    } else {
        "\u{25be}"@
    }
}

impl TimeModel {
    /// How the form of a frame is scrolled.
    pub open spec fn body(self, f: TimeSheet<'_>) -> TimeBody {
        self.measured(f.regions.body, *f.layout, f.diagnostics@.len() as int)
    }

    /// The value of a field.
    pub open spec fn field_value(self, f: TimeSheet<'_>, control: TimeControl) -> Seq<char> {
        match control {
            TimeControl::Basis => self.basis_name(),
            TimeControl::Window => f.window@,
            TimeControl::Reading => match self.pending() {
                Some(reading) => reading_name(reading),
                None => Seq::empty(),
            },
            _ => self.segment(control),
        }
    }

    /// A field with a list.
    pub open spec fn list_field_part(self, f: TimeSheet<'_>, field: FieldModel, input: Rect) -> Seq<Drawn> {
        let styles = DialogStyles::of(f.theme);
        let focused = self.focus == field.control;
        let style = if focused {
            styles.selection
        } else {
            styles.input
        };
        seq![
            Drawn::Fill { area: input, style },
            text_at(
                Rect::spec_new(input.x, input.y, minus(input.width as int, 2) as u16, 1),
                self.field_value(f, field.control),
                style,
                Fit::Truncated,
            ),
            text_at(
                Rect::spec_new(minus(input.spec_right(), 1) as u16, input.y, 1, 1),
                chevron(f.ascii),
                Style {
                    bg: Some(
                        if focused {
                            f.theme.selection_bg
                        } else {
                            f.theme.input_bg
                        },
                    ),
                    ..Style::spec_colored(f.theme.accent)
                },
                Fit::Whole,
            ),
        ]
    }

    /// Where the caret stands in a part that has the focus.
    pub open spec fn caret_in(self, f: TimeSheet<'_>, field: FieldModel, input: Rect) -> Option<(u16, u16)> {
        if self.focus == field.control && field_is_live(
            field.control,
            self.start_zone_custom,
            self.end_zone_custom,
        ) && self.dropdown is None && input.width > 0 {
            Some(
                (
                    least(
                        sat16(input.x + f.typed_column as u16),
                        minus(input.spec_right(), 1),
                    ) as u16,
                    input.y,
                ),
            )
        } else {
            None
        }
    }

    /// A part of a bound.
    pub open spec fn typed_field_part(self, f: TimeSheet<'_>, field: FieldModel, input: Rect) -> Seq<Drawn> {
        let styles = DialogStyles::of(f.theme);
        let live = field_is_live(field.control, self.start_zone_custom, self.end_zone_custom);
        let style = if live {
            styles.input
        } else {
            styles.description
        };
        seq![
            if self.focus == field.control {
                text_at(input, f.typed@, style, Fit::Whole)
            } else {
                text_at(
                    input,
                    zone_display(self.field_value(f, field.control), live),
                    style,
                    Fit::Clipped,
                )
            },
        ] + (match self.caret_in(f, field, input) {
            Some((column, row)) => seq![
                Drawn::Caret {
                    column,
                    row,
                    style: Style { bg: Some(f.theme.cursor), ..Style::spec_plain() },
                },
            ],
            None => seq![],
        })
    }

    /// A field whose label and input are in view.
    pub open spec fn field_part(self, f: TimeSheet<'_>, field: FieldModel) -> Seq<Drawn> {
        let styles = DialogStyles::of(f.theme);
        let body = self.body(f);
        match (
            projected(field.label, body.viewport, body.scroll as int),
            projected(field.input, body.viewport, body.scroll as int),
        ) {
            (Some(label), Some(input)) => seq![
                text_at(
                    label,
                    field.label_text,
                    if self.focus == field.control {
                        styles.shortcut
                    } else {
                        styles.label
                    },
                    Fit::Whole,
                ),
            ] + (if field.dropdown {
                self.list_field_part(f, field, input)
            } else {
                self.typed_field_part(f, field, input)
            }),
            _ => seq![],
        }
    }

    /// The first `n` fields.
    pub open spec fn fields_part(self, f: TimeSheet<'_>, n: int) -> Seq<Drawn>
        decreases n,
    {
        if n <= 0 {
            seq![]
        } else {
            self.fields_part(f, n - 1) + self.field_part(f, fields_model(f.layout.fields@)[n - 1])
        }
    }

    /// The caret of the first `n` fields: that of the last which has one.
    pub open spec fn caret_cell(self, f: TimeSheet<'_>, n: int) -> Option<(u16, u16)>
        decreases n,
    {
        if n <= 0 {
            None
        } else {
            let field = fields_model(f.layout.fields@)[n - 1];
            let body = self.body(f);
            let here = match (
                projected(field.label, body.viewport, body.scroll as int),
                projected(field.input, body.viewport, body.scroll as int),
            ) {
                (Some(_), Some(input)) => if field.dropdown {
                    None
                } else {
                    self.caret_in(f, field, input)
                },
                _ => None,
            };
            match here {
                Some(cell) => Some(cell),
                None => self.caret_cell(f, n - 1),
            }
        }
    }

    /// The first `n` buttons of the form.
    pub open spec fn buttons_part(self, f: TimeSheet<'_>, n: int) -> Seq<Drawn>
        decreases n,
    {
        if n <= 0 {
            seq![]
        } else {
            let styles = DialogStyles::of(f.theme);
            let body = self.body(f);
            let (control, area) = f.layout.buttons@[n - 1];
            self.buttons_part(f, n - 1) + (match projected(area, body.viewport, body.scroll as int) {
                Some(area) => seq![
                    Drawn::Button {
                        area,
                        label: if control == TimeControl::AcceptField {
                            ACCEPT_LABEL@
                        } else {
                            ZONE_MENU@
                        },
                        style: if self.focus == control {
                            Style { bold: true, ..styles.selection }
                        } else {
                            Style { bg: Some(f.theme.dialog_bg), ..styles.label }
                        },
                    },
                ],
                None => seq![],
            })
        }
    }

    /// The first `n` notes.
    pub open spec fn notes_part(self, f: TimeSheet<'_>, n: int) -> Seq<Drawn>
        decreases n,
    {
        if n <= 0 {
            seq![]
        } else {
            let styles = DialogStyles::of(f.theme);
            let body = self.body(f);
            let note = f.layout.notes@[n - 1];
            self.notes_part(f, n - 1) + (match projected(
                note.area,
                body.viewport,
                body.scroll as int,
            ) {
                Some(area) => seq![
                    text_at(
                        area,
                        note.text@,
                        if note.warn {
                            styles.error
                        } else {
                            styles.description
                        },
                        Fit::Truncated,
                    ),
                ],
                None => seq![],
            })
        }
    }

    /// A line below the form.
    pub open spec fn below(self, f: TimeSheet<'_>, row: Rect, text: Seq<char>, style: Style) -> Seq<Drawn> {
        let body = self.body(f);
        match projected(row, body.viewport, body.scroll as int) {
            Some(area) => seq![text_at(area, text, style, Fit::Whole)],
            None => seq![],
        }
    }

    /// The first `n` lines of the diagnostics.
    pub open spec fn diagnostic_lines(self, f: TimeSheet<'_>, n: int) -> Seq<Drawn>
        decreases n,
    {
        if n <= 0 {
            seq![]
        } else {
            self.diagnostic_lines(f, n - 1) + self.below(
                f,
                Rect::spec_new(
                    PANE_INDENT,
                    sat16(sat16(f.layout.height + 2) + sat16(n - 1)) as u16,
                    minus(self.body(f).viewport.width as int, PANE_INDENT as int) as u16,
                    1,
                ),
                f.diagnostics@[n - 1]@,
                DialogStyles::of(f.theme).error,
            )
        }
    }

    pub open spec fn diagnostics_part(self, f: TimeSheet<'_>) -> Seq<Drawn> {
        if f.diagnostics@.len() == 0 {
            seq![]
        } else {
            self.below(
                f,
                Rect::spec_new(
                    0,
                    sat16(f.layout.height + 1) as u16,
                    self.body(f).viewport.width,
                    1,
                ),
                "Diagnostics"@,
                Style { bold: true, ..DialogStyles::of(f.theme).label },
            ) + self.diagnostic_lines(f, f.diagnostics@.len() as int)
        }
    }

    pub open spec fn bar_part(self, f: TimeSheet<'_>) -> Seq<Drawn> {
        let body = self.body(f);
        let whole = f.regions.body;
        if_drawn(
            body.overflowing,
            Drawn::Scrollbar {
                area: Rect::spec_new(
                    minus(whole.spec_right(), 1) as u16,
                    whole.y,
                    1,
                    whole.height,
                ),
                first: body.scroll,
                limit: body.max_scroll,
            },
        )
    }

    pub open spec fn tail_part(self, f: TimeSheet<'_>) -> Seq<Drawn> {
        let message = self.message(f.view.model(), f.applied@);
        seq![
            Drawn::Message { area: f.regions.message, state: message.0, text: message.1 },
            Drawn::Help { area: f.regions.help, text: self.help() },
            Drawn::Actions {
                area: f.regions.actions,
                labels: seq!["Apply"@, "Clear"@, recognize_text(f.ascii)],
                default: None,
                focused: self.focused_action(),
            },
        ]
    }

    /// The button that has the focus.
    pub open spec fn focused_action(self) -> Option<usize> {
        match self.focus {
            TimeControl::Apply => Some(0usize),
            TimeControl::Clear => Some(1usize),
            TimeControl::Recognize => Some(2usize),
            _ => None,
        }
    }

    /// The row of the open list that is drawn as selected.
    pub open spec fn chosen(self, f: TimeSheet<'_>) -> int {
        least(self.highlighted, minus(f.choices@.len() as int, 1))
    }

    /// Where the open list hangs; none where the screen has no room for a row.
    pub open spec fn hung_list(self, f: TimeSheet<'_>) -> Option<ChoiceBox> {
        match self.dropdown {
            None => None,
            Some(dropdown) => {
                let body = self.body(f);
                let anchor = match control_row(f.layout.controls@, list_control(dropdown), 0) {
                    Some(rect) => rect,
                    None => Rect { x: 0, y: 0, width: 0, height: 0 },
                };
                let count = f.choices@.len() as int;
                let area = list_box(
                    f.area,
                    sat16(body.viewport.x + anchor.x),
                    sat16(body.viewport.y + minus(anchor.y as int, body.scroll as int)),
                    widest_of(texts(f.choices@), count),
                    count,
                );
                if area.width < 3 || area.height < 3 {
                    None
                } else {
                    Some(
                        ChoiceBox {
                            area,
                            first: first_shown(self.chosen(f), area.height - 2) as usize,
                        },
                    )
                }
            },
        }
    }

    /// The first `n` rows of the open list.
    pub open spec fn choices_part(self, f: TimeSheet<'_>, shown: ChoiceBox, n: int) -> Seq<Drawn>
        decreases n,
    {
        if n <= 0 {
            seq![]
        } else {
            let styles = DialogStyles::of(f.theme);
            let (row, index) = choice_rows(shown, f.choices@.len() as int)[n - 1];
            self.choices_part(f, shown, n - 1) + seq![
                text_at(
                    row,
                    f.choices@[index as int]@,
                    if index == self.chosen(f) {
                        styles.selection
                    } else {
                        Style { bg: Some(f.theme.dialog_bg), ..styles.label }
                    },
                    Fit::Whole,
                ),
            ]
        }
    }

    pub open spec fn list_part(self, f: TimeSheet<'_>) -> Seq<Drawn> {
        match self.hung_list(f) {
            None => seq![],
            Some(shown) => seq![
                Drawn::Clear { area: shown.area },
                Drawn::Border { area: shown.area, style: DialogStyles::of(f.theme).label },
            ] + self.choices_part(
                f,
                shown,
                choice_rows(shown, f.choices@.len() as int).len() as int,
            ),
        }
    }

    /// The form with what stands below it.
    pub open spec fn form_part(self, f: TimeSheet<'_>) -> Seq<Drawn> {
        self.fields_part(f, f.layout.fields@.len() as int) + self.buttons_part(
            f,
            f.layout.buttons@.len() as int,
        ) + self.notes_part(f, f.layout.notes@.len() as int) + self.diagnostics_part(f)
            + self.bar_part(f)
    }

    /// A frame, thing by thing.
    pub open spec fn picture(self, f: TimeSheet<'_>) -> Seq<Drawn> {
        seq![Drawn::Frame { title: "Time window"@ }] + self.form_part(f) + self.tail_part(f)
            + self.list_part(f)
    }

    /// Where a frame draws what can be clicked.
    pub open spec fn is_laid_out(self, f: TimeSheet<'_>, geometry: TimeGeometry) -> bool {
        let body = self.body(f);
        &&& geometry.controls@ == field_hits(
            fields_model(f.layout.fields@),
            body.viewport,
            body.scroll as int,
            self.start_zone_custom,
            self.end_zone_custom,
            f.layout.fields@.len() as int,
        ) + button_hits(
            f.layout.buttons@,
            body.viewport,
            body.scroll as int,
            f.layout.buttons@.len() as int,
        ) + action_hits(f.buttons@, f.buttons@.len() as int)
        &&& geometry.choices@ == match self.hung_list(f) {
            Some(shown) => choice_rows(shown, f.choices@.len() as int),
            None => seq![],
        }
    }

    /// What a frame covers.
    pub open spec fn covered(self, f: TimeSheet<'_>) -> Surface {
        Surface {
            popup: match self.hung_list(f) {
                Some(shown) => f.regions.popup.spec_union(shown.area),
                None => f.regions.popup,
            },
            interior: f.regions.interior,
            caret: self.caret_cell(f, f.layout.fields@.len() as int),
            scrollable: true,
            text_focus: self.editing() is Some,
        }
    }

    /// The state that a frame leaves.
    pub open spec fn after_frame(self, f: TimeSheet<'_>) -> TimeModel {
        TimeModel {
            scroll: self.body(f).scroll as int,
            reveal_focus: false,
            has_overflow: self.body(f).max_scroll > 0,
            ..self
        }
    }
}

impl TimeDialog {
    fn field_value(&self, f: TimeSheet<'_>, control: TimeControl) -> (r: String)
        ensures
            r@ == self.model().field_value(f, control),
    {
        match control {
            TimeControl::Basis => self.basis_text(),
            TimeControl::Window => f.window.clone(),
            TimeControl::Reading => self.reading_text(),
            _ => self.state.segment(control).to_owned(),
        }
    }

    fn is_live(&self, control: TimeControl) -> (r: bool)
        ensures
            r == field_is_live(
                control,
                self.model().start_zone_custom,
                self.model().end_zone_custom,
            ),
    {
        match control {
            TimeControl::StartZone => self.state.start_zone_custom,
            TimeControl::EndZone => self.state.end_zone_custom,
            _ => true,
        }
    }

    fn paint_list_field(&self, out: &mut Vec<Paint>, f: TimeSheet<'_>, field: TimeFieldLayout, input: Rect)
        ensures
            picture(final(out)@) == picture(old(out)@) + self.model().list_field_part(
                f,
                field.model(),
                input,
            ),
    {
        let ghost before = picture(out@);
        let styles = DialogStyles::new(f.theme);
        let focused = self.state.focus == field.control;
        let style = if focused {
            styles.selection
        } else {
            styles.input
        };
        put(out, Paint::Fill { area: input, style });
        put_text(
            out,
            Rect::new(input.x, input.y, input.width.saturating_sub(2), 1),
            self.field_value(f, field.control),
            style,
            Fit::Truncated,
        );
        put_text(
            out,
            Rect::new(input.right().saturating_sub(1), input.y, 1, 1),
            (if f.ascii {
                "v"
            } else {
                "\u{25be}"
            }).to_owned(),
            Style::plain().fg(f.theme.accent).bg(
                if focused {
                    f.theme.selection_bg
                } else {
                    f.theme.input_bg
                },
            ),
            Fit::Whole,
        );
        assert(picture(out@) =~= before + self.model().list_field_part(f, field.model(), input));
    }

    fn caret_in(&self, f: TimeSheet<'_>, field: TimeFieldLayout, input: Rect) -> (r: Option<
        (u16, u16),
    >)
        ensures
            r == self.model().caret_in(f, field.model(), input),
    {
        if self.state.focus == field.control && self.is_live(field.control)
            && self.state.dropdown.is_none() && input.width > 0 {
            let column: u16 = f.typed_column as u16;
            let last: u16 = input.right().saturating_sub(1);
            Some((min16(input.x.saturating_add(column), last), input.y))
        } else {
            None
        }
    }

    fn paint_typed_field(
        &self,
        out: &mut Vec<Paint>,
        f: TimeSheet<'_>,
        field: TimeFieldLayout,
        input: Rect,
    ) -> (r: Option<(u16, u16)>)
        ensures
            picture(final(out)@) == picture(old(out)@) + self.model().typed_field_part(
                f,
                field.model(),
                input,
            ),
            r == self.model().caret_in(f, field.model(), input),
    {
        let ghost before = picture(out@);
        let styles = DialogStyles::new(f.theme);
        let live = self.is_live(field.control);
        let style = if live {
            styles.input
        } else {
            styles.description
        };
        if self.state.focus == field.control {
            put_text(out, input, f.typed.clone(), style, Fit::Whole);
        } else {
            let value = self.field_value(f, field.control);
            put_text(out, input, zone_text(value.as_str(), live), style, Fit::Clipped);
        }
        let caret = self.caret_in(f, field, input);
        if let Some((column, row)) = caret {
            put(out, Paint::Caret { column, row, style: Style::plain().bg(f.theme.cursor) });
        }
        assert(picture(out@) =~= before + self.model().typed_field_part(f, field.model(), input));
        caret
    }

    fn paint_field(&self, out: &mut Vec<Paint>, f: TimeSheet<'_>, body: &TimeBody, field: TimeFieldLayout) -> (r:
        Option<(u16, u16)>)
        requires
            *body == self.model().body(f),
        ensures
            picture(final(out)@) == picture(old(out)@) + self.model().field_part(f, field.model()),
            r == match (
                projected(field.label, body.viewport, body.scroll as int),
                projected(field.input, body.viewport, body.scroll as int),
            ) {
                (Some(_), Some(input)) => if field.dropdown {
                    None
                } else {
                    self.model().caret_in(f, field.model(), input)
                },
                _ => None,
            },
    {
        let ghost before = picture(out@);
        let ghost m = self.model();
        let styles = DialogStyles::new(f.theme);
        let mut caret: Option<(u16, u16)> = None;
        if let Some(label) = project(field.label, body) {
            if let Some(input) = project(field.input, body) {
                put_text(
                    out,
                    label,
                    field.label_text.to_owned(),
                    if self.state.focus == field.control {
                        styles.shortcut
                    } else {
                        styles.label
                    },
                    Fit::Whole,
                );
                if field.dropdown {
                    self.paint_list_field(out, f, field, input);
                } else {
                    caret = self.paint_typed_field(out, f, field, input);
                }
            }
        }
        assert(picture(out@) =~= before + m.field_part(f, field.model()));
        caret
    }

    fn paint_fields(&self, out: &mut Vec<Paint>, f: TimeSheet<'_>, body: &TimeBody) -> (r: Option<
        (u16, u16),
    >)
        requires
            *body == self.model().body(f),
        ensures
            picture(final(out)@) == picture(old(out)@) + self.model().fields_part(
                f,
                f.layout.fields@.len() as int,
            ),
            r == self.model().caret_cell(f, f.layout.fields@.len() as int),
    {
        let ghost before = picture(out@);
        let ghost m = self.model();
        let mut caret: Option<(u16, u16)> = None;
        let mut i: usize = 0;
        assert(before + m.fields_part(f, 0) =~= before);
        while i < f.layout.fields.len()
            invariant
                i <= f.layout.fields@.len(),
                m == self.model(),
                *body == m.body(f),
                caret == m.caret_cell(f, i as int),
                picture(out@) == before + m.fields_part(f, i as int),
            decreases f.layout.fields.len() - i,
        {
            let field = f.layout.fields[i];
            assert(fields_model(f.layout.fields@)[i as int] == field.model());
            let here = self.paint_field(out, f, body, field);
            if here.is_some() {
                caret = here;
            }
            assert(before + m.fields_part(f, i as int) + m.field_part(f, field.model()) =~= before
                + m.fields_part(f, i + 1));
            i += 1;
        }
        caret
    }

    fn paint_buttons(&self, out: &mut Vec<Paint>, f: TimeSheet<'_>, body: &TimeBody)
        requires
            *body == self.model().body(f),
        ensures
            picture(final(out)@) == picture(old(out)@) + self.model().buttons_part(
                f,
                f.layout.buttons@.len() as int,
            ),
    {
        let ghost before = picture(out@);
        let ghost m = self.model();
        let mut i: usize = 0;
        assert(before + m.buttons_part(f, 0) =~= before);
        while i < f.layout.buttons.len()
            invariant
                i <= f.layout.buttons@.len(),
                m == self.model(),
                *body == m.body(f),
                picture(out@) == before + m.buttons_part(f, i as int),
            decreases f.layout.buttons.len() - i,
        {
            let (control, area) = f.layout.buttons[i];
            if let Some(area) = project(area, body) {
                put(
                    out,
                    Paint::Button {
                        area,
                        label: (if control == TimeControl::AcceptField {
                            ACCEPT_LABEL
                        } else {
                            ZONE_MENU
                        }).to_owned(),
                        style: button_style(f.theme, self.state.focus == control, false),
                    },
                );
            }
            assert(picture(out@) =~= before + m.buttons_part(f, i + 1));
            i += 1;
        }
    }

    fn paint_notes(&self, out: &mut Vec<Paint>, f: TimeSheet<'_>, body: &TimeBody)
        requires
            *body == self.model().body(f),
        ensures
            picture(final(out)@) == picture(old(out)@) + self.model().notes_part(
                f,
                f.layout.notes@.len() as int,
            ),
    {
        let ghost before = picture(out@);
        let ghost m = self.model();
        let styles = DialogStyles::new(f.theme);
        let mut i: usize = 0;
        assert(before + m.notes_part(f, 0) =~= before);
        while i < f.layout.notes.len()
            invariant
                i <= f.layout.notes@.len(),
                m == self.model(),
                *body == m.body(f),
                styles == DialogStyles::of(f.theme),
                picture(out@) == before + m.notes_part(f, i as int),
            decreases f.layout.notes.len() - i,
        {
            let note = &f.layout.notes[i];
            if let Some(area) = project(note.area, body) {
                put_text(
                    out,
                    area,
                    note.text.clone(),
                    if note.warn {
                        styles.error
                    } else {
                        styles.description
                    },
                    Fit::Truncated,
                );
            }
            assert(picture(out@) =~= before + m.notes_part(f, i + 1));
            i += 1;
        }
    }

    fn paint_below(&self, out: &mut Vec<Paint>, f: TimeSheet<'_>, body: &TimeBody, row: Rect, text: String, style: Style)
        requires
            *body == self.model().body(f),
        ensures
            picture(final(out)@) == picture(old(out)@) + self.model().below(f, row, text@, style),
    {
        let ghost before = picture(out@);
        let ghost said = text@;
        if let Some(area) = project(row, body) {
            put_text(out, area, text, style, Fit::Whole);
        }
        assert(picture(out@) =~= before + self.model().below(f, row, said, style));
    }

    fn paint_diagnostics(&self, out: &mut Vec<Paint>, f: TimeSheet<'_>, body: &TimeBody)
        requires
            *body == self.model().body(f),
        ensures
            picture(final(out)@) == picture(old(out)@) + self.model().diagnostics_part(f),
    {
        let ghost before = picture(out@);
        let ghost m = self.model();
        let styles = DialogStyles::new(f.theme);
        if f.diagnostics.len() == 0 {
            assert(picture(out@) =~= before + m.diagnostics_part(f));
            return;
        }
        self.paint_below(
            out,
            f,
            body,
            Rect::new(0, f.layout.height.saturating_add(1), body.viewport.width, 1),
            "Diagnostics".to_owned(),
            styles.label.bold(),
        );
        let ghost lead = picture(out@);
        let first: u16 = f.layout.height.saturating_add(2);
        let width: u16 = body.viewport.width.saturating_sub(PANE_INDENT);
        let mut i: usize = 0;
        assert(lead + m.diagnostic_lines(f, 0) =~= lead);
        while i < f.diagnostics.len()
            invariant
                i <= f.diagnostics@.len(),
                m == self.model(),
                *body == m.body(f),
                styles == DialogStyles::of(f.theme),
                first == sat16(f.layout.height + 2),
                width == minus(body.viewport.width as int, PANE_INDENT as int),
                picture(out@) == lead + m.diagnostic_lines(f, i as int),
            decreases f.diagnostics.len() - i,
        {
            let below: u16 = if i <= 65535 {
                i as u16
            } else {
                65535
            };
            let row = Rect::new(PANE_INDENT, first.saturating_add(below), width, 1);
            self.paint_below(out, f, body, row, f.diagnostics[i].clone(), styles.error);
            assert(lead + m.diagnostic_lines(f, i as int) + m.below(
                f,
                row,
                f.diagnostics@[i as int]@,
                styles.error,
            ) =~= lead + m.diagnostic_lines(f, i + 1));
            i += 1;
        }
        assert(picture(out@) =~= before + m.diagnostics_part(f));
    }

    fn paint_form(&self, out: &mut Vec<Paint>, f: TimeSheet<'_>, body: &TimeBody) -> (r: Option<
        (u16, u16),
    >)
        requires
            *body == self.model().body(f),
        ensures
            picture(final(out)@) == picture(old(out)@) + self.model().form_part(f),
            r == self.model().caret_cell(f, f.layout.fields@.len() as int),
    {
        let ghost before = picture(out@);
        let ghost m = self.model();
        let caret = self.paint_fields(out, f, body);
        self.paint_buttons(out, f, body);
        self.paint_notes(out, f, body);
        self.paint_diagnostics(out, f, body);
        let whole = f.regions.body;
        let ghost lead = picture(out@);
        if body.overflowing {
            put(
                out,
                Paint::Scrollbar {
                    area: Rect::new(
                        whole.right().saturating_sub(1),
                        whole.y,
                        1,
                        whole.height,
                    ),
                    first: body.scroll,
                    limit: body.max_scroll,
                },
            );
        }
        proof {
            assert(picture(out@) =~= lead + m.bar_part(f));
            let (a, b, c, d, e) = (
                m.fields_part(f, f.layout.fields@.len() as int),
                m.buttons_part(f, f.layout.buttons@.len() as int),
                m.notes_part(f, f.layout.notes@.len() as int),
                m.diagnostics_part(f),
                m.bar_part(f),
            );
            assert(before + a + b + c + d + e =~= before + (a + b + c + d + e));
        }
        caret
    }

    fn paint_tail(&self, out: &mut Vec<Paint>, f: TimeSheet<'_>)
        ensures
            picture(final(out)@) == picture(old(out)@) + self.model().tail_part(f),
    {
        let ghost before = picture(out@);
        let (state, text) = self.message(f.view, f.applied.clone());
        put(out, Paint::Message { area: f.regions.message, state, text });
        put(out, Paint::Help { area: f.regions.help, text: self.help().to_owned() });
        let recognize = if f.ascii {
            "Agent Recognize timestamp"
        } else {
            "\u{1f9e0} Recognize timestamp"
        };
        let labels: Vec<String> = vec!["Apply".to_owned(), "Clear".to_owned(), recognize.to_owned()];
        assert(texts(labels@) =~= seq!["Apply"@, "Clear"@, recognize_text(f.ascii)]);
        put(
            out,
            Paint::Actions {
                area: f.regions.actions,
                labels,
                default: None,
                focused: match self.state.focus {
                    TimeControl::Apply => Some(0),
                    TimeControl::Clear => Some(1),
                    TimeControl::Recognize => Some(2),
                    _ => None,
                },
            },
        );
        assert(picture(out@) =~= before + self.model().tail_part(f));
    }

    fn chosen(&self, f: TimeSheet<'_>) -> (r: usize)
        ensures
            r == self.model().chosen(f),
            r < usize::MAX,
    {
        let last: usize = f.choices.len().saturating_sub(1);
        if self.state.highlighted < last {
            self.state.highlighted
        } else {
            last
        }
    }

    fn hang_list(&self, f: TimeSheet<'_>, body: &TimeBody) -> (r: Option<ChoiceBox>)
        requires
            *body == self.model().body(f),
        ensures
            r == self.model().hung_list(f),
    {
        match self.state.dropdown {
            None => None,
            Some(dropdown) => {
                let anchor = match find_control(&f.layout.controls, control_of_list(dropdown)) {
                    Some(rect) => rect,
                    None => Rect::zero(),
                };
                place_choices(
                    f.area,
                    body.viewport,
                    anchor,
                    body.scroll,
                    widest(f.choices),
                    f.choices.len(),
                    self.chosen(f),
                )
            },
        }
    }

    fn paint_choices(&self, out: &mut Vec<Paint>, f: TimeSheet<'_>, shown: ChoiceBox) -> (r: Vec<
        (Rect, usize),
    >)
        requires
            self.model().hung_list(f) == Some(shown),
        ensures
            picture(final(out)@) == picture(old(out)@) + self.model().list_part(f),
            r@ == choice_rows(shown, f.choices@.len() as int),
    {
        let ghost before = picture(out@);
        let ghost m = self.model();
        let styles = DialogStyles::new(f.theme);
        let chosen: usize = self.chosen(f);
        put(out, Paint::Clear { area: shown.area });
        put(out, Paint::Border { area: shown.area, style: styles.label });
        let rows = rows_of_choices(shown, f.choices.len());
        let ghost lead = picture(out@);
        let mut i: usize = 0;
        assert(lead + m.choices_part(f, shown, 0) =~= lead);
        while i < rows.len()
            invariant
                i <= rows@.len(),
                m == self.model(),
                chosen == m.chosen(f),
                styles == DialogStyles::of(f.theme),
                rows@ == choice_rows(shown, f.choices@.len() as int),
                picture(out@) == lead + m.choices_part(f, shown, i as int),
            decreases rows.len() - i,
        {
            let (row, index) = rows[i];
            assert(choice_rows(shown, f.choices@.len() as int)[i as int] == (row, index));
            put_text(
                out,
                row,
                f.choices[index].clone(),
                if index == chosen {
                    styles.selection
                } else {
                    button_style(f.theme, false, false)
                },
                Fit::Whole,
            );
            assert(picture(out@) =~= lead + m.choices_part(f, shown, i + 1));
            i += 1;
        }
        assert(picture(out@) =~= before + m.list_part(f));
        rows
    }

    fn draw(&mut self, f: TimeSheet<'_>) -> (r: (Vec<Paint>, Surface))
        ensures
            picture(r.0@) == old(self).model().picture(f),
            r.1 == old(self).model().covered(f),
            old(self).model().is_laid_out(f, final(self).model().geometry),
            final(self).model() == (TimeModel {
                geometry: final(self).model().geometry,
                surface: r.1,
                ..old(self).model().after_frame(f)
            }),
    {
        let ghost m = self.model();
        let mut out: Vec<Paint> = Vec::new();
        assert(picture(out@) =~= seq![]);
        put(&mut out, Paint::Frame { title: "Time window".to_owned() });
        let body = self.measure(f.regions.body, f.layout, f.diagnostics.len());
        let caret = self.paint_form(&mut out, f, &body);
        self.paint_tail(&mut out, f);
        let mut popup = f.regions.popup;
        let mut choices: Vec<(Rect, usize)> = Vec::new();
        if let Some(shown) = self.hang_list(f, &body) {
            choices = self.paint_choices(&mut out, f, shown);
            popup = popup.union(shown.area);
        }
        assert(picture(out@) =~= m.picture(f));
        let controls = form_hits(
            f.layout,
            &body,
            f.buttons,
            self.state.start_zone_custom,
            self.state.end_zone_custom,
        );
        let surface = Surface {
            popup,
            interior: f.regions.interior,
            caret: None,
            scrollable: true,
            text_focus: self.editing_segment().is_some(),
        };
        self.settle(&body);
        let surface = self.record(controls, choices, caret, surface);
        (out, surface)
    }

    fn action_in_focus(&self) -> (r: Option<usize>)
        ensures
            r == self.model().focused_action(),
    {
        match self.state.focus {
            TimeControl::Apply => Some(0),
            TimeControl::Clear => Some(1),
            TimeControl::Recognize => Some(2),
            _ => None,
        }
    }

    /// Draws a frame, remembers where it drew what can be clicked, and settles
    /// how far the form is scrolled.
    pub fn render(&mut self, f: TimeFrame<'_>) -> (r: (Vec<Paint>, Surface))
        requires
            f.fits(old(self).model()),
        ensures
            exists|s: TimeSheet<'_>| #[trigger]
                s.is_of(old(self).model(), f) && {
                    &&& picture(r.0@) == old(self).model().picture(s)
                    &&& r.1 == old(self).model().covered(s)
                    &&& old(self).model().is_laid_out(s, final(self).model().geometry)
                    &&& final(self).model() == (TimeModel {
                        geometry: final(self).model().geometry,
                        surface: r.1,
                        ..old(self).model().after_frame(s)
                    })
                },
    {
        let content = f.regions.content;
        let layout = time_editor_layout(
            Rect::new(content.x, content.y, content.width, 1),
            self.state.pending_reading(),
            self.state.recognition.sampled_records,
            self.state.start_zone_custom,
            self.state.end_zone_custom,
        );
        let window = window_text(self.state.window, f.duration.as_str());
        let applied = applied_text(
            f.view,
            f.applied_duration.as_str(),
            f.applied_start.as_str(),
            f.applied_end.as_str(),
        );
        let choices = self.list_labels(f.bases, f.durations, f.zones);
        let labels = time_action_labels(f.ascii);
        let buttons = button_layout(f.regions.actions, labels.as_slice(), self.action_in_focus());
        let sheet = TimeSheet {
            view: f.view,
            area: f.area,
            regions: f.regions,
            layout: &layout,
            window: &window,
            applied: &applied,
            diagnostics: f.diagnostics,
            typed: f.typed,
            typed_column: f.typed_column,
            choices: &choices,
            buttons: &buttons,
            theme: f.theme,
            ascii: f.ascii,
        };
        assert(sheet.is_of(self.model(), f));
        self.draw(sheet)
    }

    /// Nothing is drawn where no view is shown.
    pub fn render_nothing(&mut self) -> (r: Surface)
        ensures
            r == Surface::nothing(),
            final(self).model().geometry.controls@.len() == 0,
            final(self).model().geometry.choices@.len() == 0,
            final(self).model() == (TimeModel {
                geometry: final(self).model().geometry,
                surface: r,
                ..old(self).model()
            }),
    {
        self.record(Vec::new(), Vec::new(), None, Surface::default())
    }
}

} // verus!
