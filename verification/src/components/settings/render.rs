//! A frame of the Settings layer as a list of things to draw.

use super::frame::{
    all_rows, choice_area, field_region, find_form_regions, form_regions, form_row, get_row,
    is_stacked, map_row, name_theme, natural_rows, place_field, place_list, place_toggles,
    row_of_field, row_rect, rows_of_list, shown_row, stacked_row, stacks_labels, text_area,
    theme_name, toggle_text, toggle_words, toggles_region, FormFrame, FormShape, SETTINGS_FORM_ROWS,
    SETTINGS_HELP, SETTINGS_LABEL_WIDTH, STACKED_FORM_ROWS,
};
use super::{
    Carets, FormModel, SettingsControl, SettingsDialog, SettingsDialogState, SettingsField,
    SettingsModel,
};
use crate::component::Surface;
use crate::dialog_controls::{
    button_style, role_at, role_look, role_style, span_of, ActionRow, DialogStyles,
};
use crate::dialog_layout::{
    content_estimate, menu_rows, row_in_view, rows_in_view, AnchoredGeometry, PANE_INDENT,
    ResolvedDialog, ScrollViewport,
};
use crate::geometry::{greatest, least, min16, minus, sat16, Rect};
use crate::paint::{
    all_shown, bar_if, picture, put, put_bar, put_text, shown_inside, shown_next, shown_together,
    text_at, Drawn, Fit, Paint,
};
use crate::style::{Style, Theme};
use crate::components::time::{zone_labels, ZoneChoice};
use crate::text::texts;
use crate::width::{widest, widest_of};
use vstd::prelude::*;

verus! {

/// What a frame is drawn from: how the screen is divided, and what was worded for
/// it.
#[derive(Clone, Copy, Debug)]
pub struct SettingsFrame<'a> {
    pub resolved: &'a ResolvedDialog,
    /// The width that the dialog was given, and whether it has room for gaps.
    pub policy_width: u16,
    pub roomy: bool,
    /// What shows of the form.
    pub scroll: ScrollViewport,
    /// The themes and the zones to choose from.
    pub themes: &'a Vec<String>,
    pub zones: &'a Vec<ZoneChoice>,
    /// The zone of the form and the one in effect, in words.
    pub zone_label: &'a String,
    pub effective_zone: &'a String,
    /// The caret of the field that has the focus.
    pub caret: Option<(u16, u16)>,
    /// Where the open list hangs, where it has something to hang on.
    pub menu: Option<AnchoredGeometry>,
    /// The columns between toggles.
    pub gutter: u16,
    pub theme: Theme,
    pub ascii: bool,
}

/// A frame with what the layer works out for it.
#[derive(Clone, Copy, Debug)]
pub struct SettingsSheet<'a> {
    pub resolved: &'a ResolvedDialog,
    /// The rows of the form and of the details, where they are in view.
    pub rows: &'a Vec<Option<Rect>>,
    pub scroll: ScrollViewport,
    /// How many rows there are, and how many of them are out of view.
    pub natural: usize,
    pub overflow: usize,
    /// The effective values, broken into lines.
    pub details: &'a Vec<String>,
    pub theme_name: &'a String,
    pub zone_label: &'a String,
    /// The rows of the open list.
    pub choices: &'a Vec<String>,
    pub caret: Option<(u16, u16)>,
    pub menu: Option<AnchoredGeometry>,
    /// The columns of the longest theme.
    pub longest_theme: u16,
    pub gutter: u16,
    pub theme: Theme,
    pub ascii: bool,
}

impl SettingsSheet<'_> {
    /// What the layer works out for a frame: the effective values, the rows and
    /// where they show, the name of the theme, and the rows of the open list.
    pub open spec fn is_of(self, form: FormModel, f: SettingsFrame<'_>) -> bool {
        let details = form.details(
            f.policy_width as int,
            texts(f.themes@),
            f.effective_zone@,
            f.ascii,
        );
        &&& self.resolved == f.resolved
        &&& self.scroll == f.scroll
        &&& self.zone_label == f.zone_label
        &&& self.caret == f.caret
        &&& self.menu == f.menu
        &&& self.gutter == f.gutter
        &&& self.theme == f.theme
        &&& self.ascii == f.ascii
        &&& texts(self.details@) == details
        &&& self.natural == all_rows(
            greatest(minus(f.policy_width as int, 4), 1),
            f.roomy,
            details.len() as int,
        )
        &&& self.overflow == minus(self.natural as int, f.scroll.viewport.height as int)
        &&& self.rows@ == Seq::new(self.natural as nat, |i: int| row_in_view(f.scroll, i))
        &&& self.theme_name@ == theme_name(texts(f.themes@), form.draft.theme)
        &&& self.longest_theme == widest_of(texts(f.themes@), f.themes@.len() as int)
        &&& texts(self.choices@) == form.list_rows(texts(f.themes@), zone_labels(f.zones@))
    }
}

impl SettingsSheet<'_> {
    pub open spec fn empty(self) -> bool {
        self.resolved.body.width == 0 || self.resolved.body.height == 0
    }

    pub open spec fn stacked(self) -> bool {
        is_stacked(self.resolved.content_width as int)
    }

    pub open spec fn shape(self, zone_custom: bool) -> FormShape {
        FormShape {
            stacked: self.stacked(),
            roomy: !self.resolved.compact,
            zone_custom,
            longest_theme: self.longest_theme as int,
            gutter: self.gutter as int,
        }
    }
}

/// A heading in a row of the form.
pub open spec fn heading(f: SettingsSheet<'_>, row: int, text: Seq<char>) -> Seq<Drawn> {
    match row_rect(f.rows@, row) {
        Some(area) => seq![
            text_at(area, text, Style { bold: true, ..DialogStyles::of(f.theme).label }, Fit::Whole),
        ],
        None => seq![],
    }
}

/// The heading of the agent's settings.
pub open spec fn agent_heading(ascii: bool) -> Seq<char> {
    (if ascii {
        "Agent"@
    } else {
        "\u{1f9e0}"@
    }) + " Agent"@
}

/// The headings of the form.
pub open spec fn headings_part(f: SettingsSheet<'_>) -> Seq<Drawn> {
    let roomy = !f.resolved.compact;
    if f.stacked() {
        heading(f, 0, agent_heading(f.ascii)) + heading(f, 7, "Appearance"@) + heading(
            f,
            15,
            "Cache limits (MiB)"@,
        ) + heading(f, 24, "Effective values and paths"@)
    } else {
        heading(f, form_row(0, roomy), agent_heading(f.ascii)) + heading(
            f,
            form_row(5, roomy),
            "Appearance"@,
        ) + heading(f, form_row(10, roomy), "Cache limits (MiB)"@)
    }
}

/// The label of a toggle.
pub open spec fn toggle_label(field: SettingsField) -> Seq<char> {
    match field {
        SettingsField::Delight => "Delight"@,
        SettingsField::ReducedMotion => "Reduced motion"@,
        _ => "ASCII"@,
    }
}

/// The row of a line of the details.
pub open spec fn detail_row(f: SettingsSheet<'_>, index: int) -> int {
    if f.stacked() {
        STACKED_FORM_ROWS + index
    } else {
        form_row(
            sat16(
                SETTINGS_FORM_ROWS + if index <= 65535 {
                    index
                } else {
                    0
                },
            ),
            !f.resolved.compact,
        )
    }
}

/// The first `n` lines of the details.
pub open spec fn details_part(f: SettingsSheet<'_>, n: int) -> Seq<Drawn>
    decreases n,
{
    if n <= 0 {
        seq![]
    } else {
        details_part(f, n - 1) + (match row_rect(f.rows@, detail_row(f, n - 1)) {
            Some(row) => {
                let indent = least(PANE_INDENT as int, row.width as int);
                seq![
                    text_at(
                        Rect::spec_new(
                            sat16(row.x + indent) as u16,
                            row.y,
                            (row.width - indent) as u16,
                            1,
                        ),
                        f.details@[n - 1]@,
                        DialogStyles::of(f.theme).description,
                        Fit::Whole,
                    ),
                ]
            },
            None => seq![],
        })
    }
}

impl FormModel {
    pub open spec fn has(self, field: SettingsField) -> bool {
        self.focus == SettingsControl::Field(field)
    }

    /// The label of a field: above it, or before it.
    pub open spec fn label_part(self, f: SettingsSheet<'_>, field: SettingsField, label: Seq<char>) -> Seq<
        Drawn,
    > {
        let styles = DialogStyles::of(f.theme);
        let shape = f.shape(self.zone_custom);
        if shape.stacked {
            match row_rect(f.rows@, stacked_row(field) - 1) {
                Some(row) => seq![
                    text_at(
                        row,
                        label,
                        if self.has(field) {
                            styles.shortcut
                        } else {
                            Style { bold: true, ..styles.label }
                        },
                        Fit::Whole,
                    ),
                ],
                None => seq![],
            }
        } else {
            match row_rect(f.rows@, shown_row(field, false, shape.roomy)) {
                Some(row) => seq![
                    text_at(
                        Rect::spec_new(
                            row.x,
                            row.y,
                            least(SETTINGS_LABEL_WIDTH as int, row.width as int) as u16,
                            1,
                        ),
                        label,
                        if self.has(field) {
                            styles.shortcut
                        } else {
                            styles.label
                        },
                        Fit::Whole,
                    ),
                ],
                None => seq![],
            }
        }
    }

    /// The place of a field's caret: at the end while it has not the focus.
    pub open spec fn caret_place(self, carets: Carets, field: SettingsField) -> int {
        match carets.of(field) {
            Some(place) => if self.has(field) {
                place as int
            } else {
                self.draft.text(field).len() as int
            },
            None => self.draft.text(field).len() as int,
        }
    }

    /// A field that is typed into. One that has the focus shows its caret; where
    /// labels stand above, each shows its end.
    pub open spec fn text_part(
        self,
        f: SettingsSheet<'_>,
        carets: Carets,
        field: SettingsField,
        label: Seq<char>,
    ) -> Seq<Drawn> {
        let styles = DialogStyles::of(f.theme);
        let shape = f.shape(self.zone_custom);
        let value = self.draft.text(field);
        self.label_part(f, field, label) + (match text_area(f.rows@, field, shape) {
            Some(area) => if shape.stacked || self.has(field) {
                seq![
                    Drawn::Input {
                        area,
                        value,
                        place: self.caret_place(carets, field) as usize,
                    },
                ]
            } else {
                seq![
                    Drawn::Fill { area, style: styles.input },
                    text_at(area, value, styles.input, Fit::Truncated),
                ]
            },
            None => seq![],
        })
    }

    /// A field with a list.
    pub open spec fn list_part(
        self,
        f: SettingsSheet<'_>,
        field: SettingsField,
        label: Seq<char>,
        value: Seq<char>,
    ) -> Seq<Drawn> {
        let styles = DialogStyles::of(f.theme);
        let shape = f.shape(self.zone_custom);
        let style = if self.has(field) {
            styles.selection
        } else {
            styles.input
        };
        self.label_part(f, field, label) + (match choice_area(f.rows@, field, shape) {
            Some(area) => seq![
                Drawn::Fill { area, style },
                text_at(
                    Rect::spec_new(
                        area.x,
                        area.y,
                        minus(
                            area.width as int,
                            if shape.stacked {
                                1
                            } else {
                                2
                            },
                        ) as u16,
                        1,
                    ),
                    value,
                    style,
                    Fit::Truncated,
                ),
                text_at(
                    Rect::spec_new(minus(area.spec_right(), 1) as u16, area.y, 1, 1),
                    if f.ascii {
                        "v"@
                    } else {
                        "\u{25be}"@
                    },
                    Style {
                        bg: Some(
                            if self.has(field) {
                                f.theme.selection_bg
                            } else {
                                f.theme.input_bg
                            },
                        ),
                        ..Style::spec_colored(f.theme.accent)
                    },
                    Fit::Whole,
                ),
            ],
            None => seq![],
        })
    }

    /// The typed fields.
    #[verifier::opaque]
    pub open spec fn texts_part(self, f: SettingsSheet<'_>, carets: Carets) -> Seq<Drawn> {
        self.text_part(f, carets, SettingsField::Provider, "Provider / model"@) + self.text_part(
            f,
            carets,
            SettingsField::Mode,
            "Mode"@,
        ) + self.text_part(f, carets, SettingsField::Thinking, "Thinking"@) + self.text_part(
            f,
            carets,
            SettingsField::RowCache,
            "Rows"@,
        ) + self.text_part(f, carets, SettingsField::Membership, "Membership"@) + self.text_part(
            f,
            carets,
            SettingsField::DiskTotal,
            "Derived total"@,
        ) + self.text_part(f, carets, SettingsField::IndexPerSource, "Per source"@)
    }

    /// The theme, and the zone that is picked or typed.
    #[verifier::opaque]
    pub open spec fn lists_part(self, f: SettingsSheet<'_>, carets: Carets) -> Seq<Drawn> {
        self.list_part(f, SettingsField::Theme, "Theme"@, f.theme_name@) + (if self.zone_custom {
            self.text_part(f, carets, SettingsField::DisplayZone, "Times shown in"@)
        } else {
            self.list_part(f, SettingsField::DisplayZone, "Times shown in"@, f.zone_label@)
        })
    }

    /// A toggle is on.
    pub open spec fn is_on(self, field: SettingsField) -> bool {
        match field {
            SettingsField::Delight => self.draft.delight_enabled,
            SettingsField::ReducedMotion => self.draft.reduced_motion,
            _ => self.draft.ascii,
        }
    }

    /// The first `n` toggles that show.
    pub open spec fn toggles_part(self, f: SettingsSheet<'_>, n: int) -> Seq<Drawn>
        decreases n,
    {
        if n <= 0 {
            seq![]
        } else {
            let styles = DialogStyles::of(f.theme);
            let (area, control) = toggles_region(f.rows@, f.shape(self.zone_custom))[n - 1];
            let field = control->Field_0;
            self.toggles_part(f, n - 1) + seq![
                text_at(
                    area,
                    toggle_words(self.is_on(field), toggle_label(field)),
                    if self.focus == control {
                        Style { bold: true, ..styles.selection }
                    } else {
                        styles.label
                    },
                    Fit::Whole,
                ),
            ]
        }
    }

    /// The form with the effective values below it.
    pub open spec fn form_part(self, f: SettingsSheet<'_>, carets: Carets) -> Seq<Drawn> {
        headings_part(f) + self.texts_part(f, carets) + self.lists_part(f, carets)
            + self.toggles_part(
            f,
            toggles_region(f.rows@, f.shape(self.zone_custom)).len() as int,
        ) + (if f.stacked() {
            seq![]
        } else {
            heading(
                f,
                form_row(SETTINGS_FORM_ROWS - 1, !f.resolved.compact),
                "Effective values and paths"@,
            )
        }) + details_part(f, f.details@.len() as int)
    }

    /// The button at a place: the second is there only while the form scrolls.
    pub open spec fn button_at(self, f: SettingsSheet<'_>, index: usize) -> Option<
        (SettingsControl, Seq<char>),
    > {
        if index == 0 {
            Some((SettingsControl::Save, self.save_label()))
        } else if index == 1 && f.overflow > 0 {
            Some((SettingsControl::More, "More"@))
        } else {
            None
        }
    }

    /// The button that has the focus.
    pub open spec fn focused_button(self, f: SettingsSheet<'_>) -> Option<usize> {
        if self.focus == SettingsControl::Save {
            Some(0)
        } else if self.focus == SettingsControl::More && f.overflow > 0 {
            Some(1)
        } else {
            None
        }
    }

    /// The first `n` buttons.
    pub open spec fn buttons_part(self, f: SettingsSheet<'_>, n: int) -> Seq<Drawn>
        decreases n,
    {
        if n <= 0 {
            seq![]
        } else {
            let (index, area) = f.resolved.actions.buttons@[n - 1];
            self.buttons_part(f, n - 1) + (match self.button_at(f, index) {
                Some((_, label)) => seq![
                    Drawn::Button {
                        area,
                        label,
                        style: role_look(
                            f.theme,
                            role_at(seq![], Some(0usize), index),
                            self.focused_button(f) == Some(index),
                        ),
                    },
                ],
                None => seq![],
            })
        }
    }

    /// The regions of the first `n` buttons.
    pub open spec fn button_areas(self, f: SettingsSheet<'_>, n: int) -> Seq<(Rect, SettingsControl)>
        decreases n,
    {
        if n <= 0 {
            seq![]
        } else {
            let (index, area) = f.resolved.actions.buttons@[n - 1];
            let before = self.button_areas(f, n - 1);
            match self.button_at(f, index) {
                Some((control, _)) => before.push((area, control)),
                None => before,
            }
        }
    }

    /// The field that a list hangs on.
    pub open spec fn list_anchor(self, f: SettingsSheet<'_>, field: SettingsField) -> Option<Rect> {
        let shape = f.shape(self.zone_custom);
        if field == SettingsField::Theme {
            choice_area(f.rows@, field, shape)
        } else if field == SettingsField::DisplayZone {
            if !self.zone_custom {
                choice_area(f.rows@, field, shape)
            } else if shape.stacked {
                None
            } else {
                text_area(f.rows@, field, shape)
            }
        } else {
            None
        }
    }

    /// Where the open list hangs.
    pub open spec fn shown_list(self, f: SettingsSheet<'_>) -> Option<AnchoredGeometry> {
        match self.dropdown {
            Some(field) => match self.list_anchor(f, field) {
                Some(area) => if area.width > 0 {
                    f.menu
                } else {
                    None
                },
                None => None,
            },
            None => None,
        }
    }

    /// The first `n` rows of the open list.
    pub open spec fn choices_part(self, f: SettingsSheet<'_>, menu: AnchoredGeometry, n: int) -> Seq<Drawn>
        decreases n,
    {
        if n <= 0 {
            seq![]
        } else {
            let styles = DialogStyles::of(f.theme);
            let count = f.choices@.len() as int;
            let (row, index) = menu_rows(menu, span_of(0, count))[n - 1];
            self.choices_part(f, menu, n - 1) + seq![
                text_at(
                    row,
                    f.choices@[index as int]@,
                    if index == least(self.choice_selected, minus(count, 1)) {
                        styles.selection
                    } else {
                        Style { bg: Some(f.theme.dialog_bg), ..styles.label }
                    },
                    Fit::Whole,
                ),
            ]
        }
    }

    pub open spec fn popup_part(self, f: SettingsSheet<'_>) -> Seq<Drawn> {
        let count = f.choices@.len() as int;
        match self.shown_list(f) {
            Some(menu) => seq![
                Drawn::Clear { area: menu.popup },
                Drawn::Border { area: menu.popup, style: DialogStyles::of(f.theme).label },
            ] + self.choices_part(f, menu, menu_rows(menu, span_of(0, count)).len() as int)
                + bar_if(
                menu.scrollbar,
                menu.first_item,
                minus(count, menu.viewport.height as int) as usize,
            ),
            None => seq![],
        }
    }

    /// The buttons, the message and the help.
    pub open spec fn tail_part(self, f: SettingsSheet<'_>) -> Seq<Drawn> {
        self.buttons_part(f, f.resolved.actions.buttons@.len() as int) + seq![
            Drawn::Message {
                area: f.resolved.message,
                state: self.message().0,
                text: self.message().1,
            },
            Drawn::Help { area: f.resolved.help, text: SETTINGS_HELP@ },
        ]
    }

    /// A frame, thing by thing.
    pub open spec fn picture(self, f: SettingsSheet<'_>, carets: Carets) -> Seq<Drawn> {
        let frame = seq![Drawn::Frame { title: "Settings"@ }];
        if f.empty() {
            frame
        } else {
            frame + bar_if(f.scroll.scrollbar, f.scroll.first_row, f.overflow) + self.form_part(
                f,
                carets,
            ) + self.tail_part(f) + self.popup_part(f)
        }
    }

    /// The cell of the caret.
    pub open spec fn caret_cell(self, f: SettingsSheet<'_>) -> Option<(u16, u16)> {
        let shape = f.shape(self.zone_custom);
        match self.focus {
            SettingsControl::Field(field) => if field == SettingsField::Theme {
                match choice_area(f.rows@, field, shape) {
                    Some(area) => if shape.stacked {
                        Some((least(area.x as int, minus(area.spec_right(), 1)) as u16, area.y))
                    } else {
                        None
                    },
                    None => None,
                }
            } else if field.is_text() && (field != SettingsField::DisplayZone || self.zone_custom)
                && text_area(f.rows@, field, shape) is Some {
                f.caret
            } else {
                None
            },
            _ => None,
        }
    }

    /// The regions of the controls.
    pub open spec fn control_areas(self, f: SettingsSheet<'_>) -> Seq<(Rect, SettingsControl)> {
        form_regions(f.rows@, f.shape(self.zone_custom)) + self.button_areas(
            f,
            f.resolved.actions.buttons@.len() as int,
        )
    }

    /// What a frame covers.
    pub open spec fn covered(self, f: SettingsSheet<'_>) -> Surface {
        let menu = if f.empty() {
            None
        } else {
            self.shown_list(f)
        };
        Surface {
            popup: match menu {
                Some(menu) => f.resolved.frame.spec_union(menu.popup),
                None => f.resolved.frame,
            },
            interior: f.resolved.interior,
            caret: if f.empty() {
                None
            } else {
                self.caret_cell(f)
            },
            scrollable: !f.empty() && (f.overflow > 0 || (menu matches Some(menu)
                && menu.scrollbar is Some)),
            text_focus: self.dropdown is None,
        }
    }
}

fn paint_heading(out: &mut Vec<Paint>, f: SettingsSheet<'_>, row: u16, text: &str)
    ensures
        picture(final(out)@) == picture(old(out)@) + heading(f, row as int, text@),
{
    let ghost before = picture(out@);
    let styles = DialogStyles::new(f.theme);
    if let Some(area) = get_row(f.rows, row) {
        put_text(out, area, text.to_owned(), styles.label.bold(), Fit::Whole);
    }
    assert(picture(out@) =~= before + heading(f, row as int, text@));
}

fn stacks(f: SettingsSheet<'_>) -> (r: bool)
    ensures
        r == f.stacked(),
{
    stacks_labels(f.resolved.content_width)
}

fn paint_headings(out: &mut Vec<Paint>, f: SettingsSheet<'_>)
    ensures
        picture(final(out)@) == picture(old(out)@) + headings_part(f),
{
    let ghost before = picture(out@);
    let roomy = !f.resolved.compact;
    let mut agent = (if f.ascii {
        "Agent"
    } else {
        "\u{1f9e0}"
    }).to_owned();
    agent.append(" Agent");
    if stacks(f) {
        paint_heading(out, f, 0, agent.as_str());
        paint_heading(out, f, 7, "Appearance");
        paint_heading(out, f, 15, "Cache limits (MiB)");
        paint_heading(out, f, 24, "Effective values and paths");
    } else {
        paint_heading(out, f, map_row(0, roomy), agent.as_str());
        paint_heading(out, f, map_row(5, roomy), "Appearance");
        paint_heading(out, f, map_row(10, roomy), "Cache limits (MiB)");
    }
    assert(picture(out@) =~= before + headings_part(f));
}

/// The row of a line of the details, where it is in view.
fn find_detail_row(f: SettingsSheet<'_>, index: usize) -> (r: Option<Rect>)
    ensures
        r == row_rect(f.rows@, detail_row(f, index as int)),
{
    if stacks(f) {
        let above: usize = STACKED_FORM_ROWS as usize;
        if f.rows.len() > above && index < f.rows.len() - above {
            f.rows[above + index]
        } else {
            None
        }
    } else {
        let below: u16 = if index <= 65535 {
            index as u16
        } else {
            0
        };
        get_row(f.rows, map_row(SETTINGS_FORM_ROWS.saturating_add(below), !f.resolved.compact))
    }
}

fn paint_details(out: &mut Vec<Paint>, f: SettingsSheet<'_>)
    ensures
        picture(final(out)@) == picture(old(out)@) + details_part(f, f.details@.len() as int),
{
    let ghost before = picture(out@);
    let styles = DialogStyles::new(f.theme);
    let mut i: usize = 0;
    assert(before + details_part(f, 0) =~= before);
    while i < f.details.len()
        invariant
            i <= f.details@.len(),
            styles == DialogStyles::of(f.theme),
            picture(out@) == before + details_part(f, i as int),
        decreases f.details.len() - i,
    {
        if let Some(row) = find_detail_row(f, i) {
            let indent: u16 = min16(PANE_INDENT, row.width);
            put_text(
                out,
                Rect::new(row.x.saturating_add(indent), row.y, row.width - indent, 1),
                f.details[i].clone(),
                styles.description,
                Fit::Whole,
            );
        }
        assert(picture(out@) =~= before + details_part(f, i + 1));
        i += 1;
    }
}

impl SettingsDialogState {
    fn has(&self, field: SettingsField) -> (r: bool)
        ensures
            r == self.model().has(field),
    {
        self.focus == SettingsControl::Field(field)
    }

    fn form_frame(&self, f: SettingsSheet<'_>) -> (r: FormFrame)
        ensures
            r.shape() == f.shape(self.model().zone_custom),
            r.gutter == f.gutter,
            r.longest_theme == f.longest_theme,
    {
        FormFrame {
            stacked: stacks(f),
            roomy: !f.resolved.compact,
            zone_custom: self.zone_custom,
            longest_theme: f.longest_theme,
            gutter: f.gutter,
        }
    }

    fn paint_label(&self, out: &mut Vec<Paint>, f: SettingsSheet<'_>, field: SettingsField, label: &str)
        ensures
            picture(final(out)@) == picture(old(out)@) + self.model().label_part(f, field, label@),
    {
        let ghost before = picture(out@);
        let styles = DialogStyles::new(f.theme);
        if stacks(f) {
            if let Some(row) = get_row(f.rows, row_of_field(field, true, true) - 1) {
                put_text(
                    out,
                    row,
                    label.to_owned(),
                    if self.has(field) {
                        styles.shortcut
                    } else {
                        styles.label.bold()
                    },
                    Fit::Whole,
                );
            }
        } else {
            if let Some(row) = get_row(
                f.rows,
                row_of_field(field, false, !f.resolved.compact),
            ) {
                put_text(
                    out,
                    Rect::new(row.x, row.y, min16(SETTINGS_LABEL_WIDTH, row.width), 1),
                    label.to_owned(),
                    if self.has(field) {
                        styles.shortcut
                    } else {
                        styles.label
                    },
                    Fit::Whole,
                );
            }
        }
        assert(picture(out@) =~= before + self.model().label_part(f, field, label@));
    }

    fn place_text(&self, f: SettingsSheet<'_>, field: SettingsField) -> (r: Option<Rect>)
        ensures
            r == text_area(f.rows@, field, f.shape(self.model().zone_custom)),
    {
        let stacked = stacks(f);
        match get_row(f.rows, row_of_field(field, stacked, !f.resolved.compact)) {
            Some(row) => if stacked {
                Some(row)
            } else {
                place_field(row)
            },
            None => None,
        }
    }

    fn place_choice(&self, f: SettingsSheet<'_>, field: SettingsField) -> (r: Option<Rect>)
        ensures
            r == choice_area(f.rows@, field, f.shape(self.model().zone_custom)),
    {
        let stacked = stacks(f);
        match get_row(f.rows, row_of_field(field, stacked, !f.resolved.compact)) {
            Some(row) => if stacked {
                Some(row)
            } else {
                place_list(row, f.longest_theme)
            },
            None => None,
        }
    }

    fn paint_text(
        &self,
        out: &mut Vec<Paint>,
        f: SettingsSheet<'_>,
        carets: Carets,
        field: SettingsField,
        label: &str,
    )
        ensures
            picture(final(out)@) == picture(old(out)@) + self.model().text_part(
                f,
                carets,
                field,
                label@,
            ),
    {
        let ghost before = picture(out@);
        let ghost m = self.model();
        let styles = DialogStyles::new(f.theme);
        self.paint_label(out, f, field, label);
        let value = self.draft.text(field);
        if let Some(area) = self.place_text(f, field) {
            if stacks(f) || self.has(field) {
                let end: usize = value.unicode_len();
                let place: usize = match carets.get(field) {
                    Some(place) => if self.has(field) {
                        place
                    } else {
                        end
                    },
                    None => end,
                };
                put(out, Paint::Input { area, value: value.to_owned(), place });
            } else {
                put(out, Paint::Fill { area, style: styles.input });
                put_text(out, area, value.to_owned(), styles.input, Fit::Truncated);
            }
        }
        assert(picture(out@) =~= before + m.text_part(f, carets, field, label@));
    }

    fn paint_list(
        &self,
        out: &mut Vec<Paint>,
        f: SettingsSheet<'_>,
        field: SettingsField,
        label: &str,
        value: &str,
    )
        ensures
            picture(final(out)@) == picture(old(out)@) + self.model().list_part(
                f,
                field,
                label@,
                value@,
            ),
    {
        let ghost before = picture(out@);
        let ghost m = self.model();
        let styles = DialogStyles::new(f.theme);
        let style = if self.has(field) {
            styles.selection
        } else {
            styles.input
        };
        self.paint_label(out, f, field, label);
        if let Some(area) = self.place_choice(f, field) {
            put(out, Paint::Fill { area, style });
            put_text(
                out,
                Rect::new(
                    area.x,
                    area.y,
                    area.width.saturating_sub(
                        if stacks(f) {
                            1
                        } else {
                            2
                        },
                    ),
                    1,
                ),
                value.to_owned(),
                style,
                Fit::Truncated,
            );
            put_text(
                out,
                Rect::new(area.right().saturating_sub(1), area.y, 1, 1),
                (if f.ascii {
                    "v"
                } else {
                    "\u{25be}"
                }).to_owned(),
                Style::plain().fg(f.theme.accent).bg(
                    if self.has(field) {
                        f.theme.selection_bg
                    } else {
                        f.theme.input_bg
                    },
                ),
                Fit::Whole,
            );
        }
        assert(picture(out@) =~= before + m.list_part(f, field, label@, value@));
    }

    fn paint_texts(&self, out: &mut Vec<Paint>, f: SettingsSheet<'_>, carets: Carets)
        ensures
            picture(final(out)@) == picture(old(out)@) + self.model().texts_part(f, carets),
    {
        let ghost before = picture(out@);
        let ghost m = self.model();
        self.paint_text(out, f, carets, SettingsField::Provider, "Provider / model");
        self.paint_text(out, f, carets, SettingsField::Mode, "Mode");
        self.paint_text(out, f, carets, SettingsField::Thinking, "Thinking");
        self.paint_text(out, f, carets, SettingsField::RowCache, "Rows");
        self.paint_text(out, f, carets, SettingsField::Membership, "Membership");
        self.paint_text(out, f, carets, SettingsField::DiskTotal, "Derived total");
        self.paint_text(out, f, carets, SettingsField::IndexPerSource, "Per source");
        proof {
            let (a, b, c, d, e, g, h) = (
                m.text_part(f, carets, SettingsField::Provider, "Provider / model"@),
                m.text_part(f, carets, SettingsField::Mode, "Mode"@),
                m.text_part(f, carets, SettingsField::Thinking, "Thinking"@),
                m.text_part(f, carets, SettingsField::RowCache, "Rows"@),
                m.text_part(f, carets, SettingsField::Membership, "Membership"@),
                m.text_part(f, carets, SettingsField::DiskTotal, "Derived total"@),
                m.text_part(f, carets, SettingsField::IndexPerSource, "Per source"@),
            );
            assert(before + a + b + c + d + e + g + h =~= before + (a + b + c + d + e + g + h));
            reveal(FormModel::texts_part);
        }
    }

    fn paint_lists(&self, out: &mut Vec<Paint>, f: SettingsSheet<'_>, carets: Carets)
        ensures
            picture(final(out)@) == picture(old(out)@) + self.model().lists_part(f, carets),
    {
        let ghost before = picture(out@);
        let ghost m = self.model();
        self.paint_list(out, f, SettingsField::Theme, "Theme", f.theme_name.as_str());
        let ghost lead = picture(out@);
        if self.zone_custom {
            self.paint_text(out, f, carets, SettingsField::DisplayZone, "Times shown in");
        } else {
            self.paint_list(
                out,
                f,
                SettingsField::DisplayZone,
                "Times shown in",
                f.zone_label.as_str(),
            );
        }
        proof {
            let a = m.list_part(f, SettingsField::Theme, "Theme"@, f.theme_name@);
            let b = if m.zone_custom {
                m.text_part(f, carets, SettingsField::DisplayZone, "Times shown in"@)
            } else {
                m.list_part(f, SettingsField::DisplayZone, "Times shown in"@, f.zone_label@)
            };
            assert(before + a + b =~= before + (a + b));
            reveal(FormModel::lists_part);
        }
    }

    /// The toggles that show.
    fn place_all_toggles(&self, f: SettingsSheet<'_>) -> (r: Vec<(Rect, SettingsControl)>)
        ensures
            r@ == toggles_region(f.rows@, f.shape(self.model().zone_custom)),
    {
        let mut out: Vec<(Rect, SettingsControl)> = Vec::new();
        if stacks(f) {
            if let Some(row) = get_row(f.rows, 12) {
                out.push((row, SettingsControl::Field(SettingsField::Delight)));
            }
            if let Some(row) = get_row(f.rows, 13) {
                out.push((row, SettingsControl::Field(SettingsField::ReducedMotion)));
            }
            if let Some(row) = get_row(f.rows, 14) {
                out.push((row, SettingsControl::Field(SettingsField::Ascii)));
            }
        } else if let Some(row) = get_row(f.rows, map_row(8, !f.resolved.compact)) {
            return place_toggles(row, f.gutter);
        }
        assert(out@ =~= toggles_region(f.rows@, f.shape(self.model().zone_custom)));
        out
    }

    fn paint_toggles(&self, out: &mut Vec<Paint>, f: SettingsSheet<'_>)
        ensures
            picture(final(out)@) == picture(old(out)@) + self.model().toggles_part(
                f,
                toggles_region(f.rows@, f.shape(self.model().zone_custom)).len() as int,
            ),
    {
        let ghost before = picture(out@);
        let ghost m = self.model();
        let styles = DialogStyles::new(f.theme);
        let regions = self.place_all_toggles(f);
        let mut i: usize = 0;
        assert(before + m.toggles_part(f, 0) =~= before);
        while i < regions.len()
            invariant
                i <= regions@.len(),
                m == self.model(),
                styles == DialogStyles::of(f.theme),
                regions@ == toggles_region(f.rows@, f.shape(m.zone_custom)),
                forall|j: int|
                    0 <= j < regions@.len() ==> (#[trigger] regions@[j]).1 is Field,
                picture(out@) == before + m.toggles_part(f, i as int),
            decreases regions.len() - i,
        {
            let (area, control) = regions[i];
            assert(toggles_region(f.rows@, f.shape(m.zone_custom))[i as int] == (area, control));
            let (on, label) = match control {
                SettingsControl::Field(SettingsField::Delight) => (
                    self.draft.delight_enabled,
                    "Delight",
                ),
                SettingsControl::Field(SettingsField::ReducedMotion) => (
                    self.draft.reduced_motion,
                    "Reduced motion",
                ),
                _ => (self.draft.ascii, "ASCII"),
            };
            put_text(
                out,
                area,
                toggle_text(on, label),
                if self.focus == control {
                    styles.selection.bold()
                } else {
                    styles.label
                },
                Fit::Whole,
            );
            assert(picture(out@) =~= before + m.toggles_part(f, i + 1));
            i += 1;
        }
    }

    fn paint_form(&self, out: &mut Vec<Paint>, f: SettingsSheet<'_>, carets: Carets)
        ensures
            picture(final(out)@) == picture(old(out)@) + self.model().form_part(f, carets),
    {
        let ghost before = picture(out@);
        let ghost m = self.model();
        paint_headings(out, f);
        self.paint_texts(out, f, carets);
        self.paint_lists(out, f, carets);
        self.paint_toggles(out, f);
        let ghost lead = picture(out@);
        if !stacks(f) {
            paint_heading(
                out,
                f,
                map_row(SETTINGS_FORM_ROWS - 1, !f.resolved.compact),
                "Effective values and paths",
            );
        }
        let ghost fifth = if f.stacked() {
            seq![]
        } else {
            heading(
                f,
                form_row(SETTINGS_FORM_ROWS - 1, !f.resolved.compact),
                "Effective values and paths"@,
            )
        };
        assert(picture(out@) =~= lead + fifth);
        paint_details(out, f);
        proof {
            let (a, b, c, d, e) = (
                headings_part(f),
                m.texts_part(f, carets),
                m.lists_part(f, carets),
                m.toggles_part(f, toggles_region(f.rows@, f.shape(m.zone_custom)).len() as int),
                details_part(f, f.details@.len() as int),
            );
            assert(before + a + b + c + d + fifth + e =~= before + (a + b + c + d + fifth + e));
        }
    }

    fn button_at(&self, f: SettingsSheet<'_>, index: usize) -> (r: Option<
        (SettingsControl, &'static str),
    >)
        ensures
            match r {
                Some((control, label)) => self.model().button_at(f, index) == Some(
                    (control, label@),
                ),
                None => self.model().button_at(f, index) is None,
            },
    {
        if index == 0 {
            Some((SettingsControl::Save, self.save_label()))
        } else if index == 1 && f.overflow > 0 {
            Some((SettingsControl::More, "More"))
        } else {
            None
        }
    }

    fn focused_button(&self, f: SettingsSheet<'_>) -> (r: Option<usize>)
        ensures
            r == self.model().focused_button(f),
    {
        if self.focus == SettingsControl::Save {
            Some(0)
        } else if self.focus == SettingsControl::More && f.overflow > 0 {
            Some(1)
        } else {
            None
        }
    }

    fn paint_buttons(&self, out: &mut Vec<Paint>, f: SettingsSheet<'_>) -> (r: Vec<
        (Rect, SettingsControl),
    >)
        ensures
            picture(final(out)@) == picture(old(out)@) + self.model().buttons_part(
                f,
                f.resolved.actions.buttons@.len() as int,
            ),
            r@ == self.model().button_areas(f, f.resolved.actions.buttons@.len() as int),
    {
        let ghost before = picture(out@);
        let ghost m = self.model();
        let focused = self.focused_button(f);
        let buttons = &f.resolved.actions.buttons;
        let none: Vec<usize> = Vec::new();
        let labels: Vec<&str> = Vec::new();
        let row = ActionRow {
            labels: labels.as_slice(),
            default: Some(0),
            destructive: none.as_slice(),
            focused,
        };
        let mut areas: Vec<(Rect, SettingsControl)> = Vec::new();
        let mut i: usize = 0;
        assert(none@ =~= seq![]);
        assert(before + m.buttons_part(f, 0) =~= before);
        while i < buttons.len()
            invariant
                i <= buttons@.len(),
                m == self.model(),
                buttons@ == f.resolved.actions.buttons@,
                row.destructive@ == Seq::<usize>::empty(),
                row.default == Some(0usize),
                focused == m.focused_button(f),
                areas@ == m.button_areas(f, i as int),
                picture(out@) == before + m.buttons_part(f, i as int),
            decreases buttons.len() - i,
        {
            let (index, area) = buttons[i];
            assert(f.resolved.actions.buttons@[i as int] == (index, area));
            if let Some((control, label)) = self.button_at(f, index) {
                let here = match focused {
                    Some(place) => place == index,
                    None => false,
                };
                put(
                    out,
                    Paint::Button {
                        area,
                        label: label.to_owned(),
                        style: role_style(f.theme, row.role(index), here),
                    },
                );
                areas.push((area, control));
            }
            assert(picture(out@) =~= before + m.buttons_part(f, i + 1));
            i += 1;
        }
        areas
    }

    fn list_anchor(&self, f: SettingsSheet<'_>, field: SettingsField) -> (r: Option<Rect>)
        ensures
            r == self.model().list_anchor(f, field),
    {
        if field == SettingsField::Theme {
            self.place_choice(f, field)
        } else if field == SettingsField::DisplayZone {
            if !self.zone_custom {
                self.place_choice(f, field)
            } else if stacks(f) {
                None
            } else {
                self.place_text(f, field)
            }
        } else {
            None
        }
    }

    fn shown_list(&self, f: SettingsSheet<'_>) -> (r: Option<AnchoredGeometry>)
        ensures
            r == self.model().shown_list(f),
    {
        match self.dropdown {
            Some(field) => match self.list_anchor(f, field) {
                Some(area) => if area.width > 0 {
                    f.menu
                } else {
                    None
                },
                None => None,
            },
            None => None,
        }
    }

    fn paint_choices(&self, out: &mut Vec<Paint>, f: SettingsSheet<'_>, menu: AnchoredGeometry) -> (r:
        Vec<(Rect, usize)>)
        requires
            self.model().shown_list(f) == Some(menu),
        ensures
            picture(final(out)@) == picture(old(out)@) + self.model().popup_part(f),
            r@ == menu_rows(menu, span_of(0, f.choices@.len() as int)),
    {
        let ghost before = picture(out@);
        let ghost m = self.model();
        let styles = DialogStyles::new(f.theme);
        let count: usize = f.choices.len();
        let last: usize = count.saturating_sub(1);
        let selected: usize = if self.choice_selected < last {
            self.choice_selected
        } else {
            last
        };
        put(out, Paint::Clear { area: menu.popup });
        put(out, Paint::Border { area: menu.popup, style: styles.label });
        let rows = rows_of_list(menu, count);
        let ghost lead = picture(out@);
        let mut i: usize = 0;
        assert(lead + m.choices_part(f, menu, 0) =~= lead);
        while i < rows.len()
            invariant
                i <= rows@.len(),
                m == self.model(),
                count == f.choices@.len(),
                styles == DialogStyles::of(f.theme),
                selected == least(m.choice_selected, minus(count as int, 1)),
                rows@ == menu_rows(menu, span_of(0, count as int)),
                picture(out@) == lead + m.choices_part(f, menu, i as int),
            decreases rows.len() - i,
        {
            let (row, index) = rows[i];
            assert(menu_rows(menu, span_of(0, count as int))[i as int] == (row, index));
            assert(index < count);
            put_text(
                out,
                row,
                f.choices[index].clone(),
                if index == selected {
                    styles.selection
                } else {
                    button_style(f.theme, false, false)
                },
                Fit::Whole,
            );
            assert(picture(out@) =~= lead + m.choices_part(f, menu, i + 1));
            i += 1;
        }
        put_bar(
            out,
            menu.scrollbar,
            menu.first_item,
            count.saturating_sub(menu.viewport.height as usize),
        );
        assert(picture(out@) =~= before + m.popup_part(f));
        rows
    }

    fn caret_cell(&self, f: SettingsSheet<'_>) -> (r: Option<(u16, u16)>)
        ensures
            r == self.model().caret_cell(f),
    {
        match self.focus {
            SettingsControl::Field(field) => {
                if field == SettingsField::Theme {
                    match self.place_choice(f, field) {
                        Some(area) => if stacks(f) {
                            Some((min16(area.x, area.right().saturating_sub(1)), area.y))
                        } else {
                            None
                        },
                        None => None,
                    }
                } else if field.text_slot().is_some() && (field != SettingsField::DisplayZone
                    || self.zone_custom) && self.place_text(f, field).is_some() {
                    f.caret
                } else {
                    None
                }
            },
            _ => None,
        }
    }

    fn paint_tail(&self, out: &mut Vec<Paint>, f: SettingsSheet<'_>) -> (r: Vec<
        (Rect, SettingsControl),
    >)
        ensures
            picture(final(out)@) == picture(old(out)@) + self.model().tail_part(f),
            r@ == self.model().button_areas(f, f.resolved.actions.buttons@.len() as int),
    {
        let ghost before = picture(out@);
        let areas = self.paint_buttons(out, f);
        let (state, text) = self.message();
        put(out, Paint::Message { area: f.resolved.message, state, text });
        put(out, Paint::Help { area: f.resolved.help, text: SETTINGS_HELP.to_owned() });
        assert(picture(out@) =~= before + self.model().tail_part(f));
        areas
    }

    fn paint(&self, out: &mut Vec<Paint>, f: SettingsSheet<'_>, carets: Carets) -> (r: (
        Vec<(Rect, SettingsControl)>,
        Vec<(Rect, usize)>,
    ))
        requires
            !f.empty(),
            picture(old(out)@) == seq![Drawn::Frame { title: "Settings"@ }],
        ensures
            picture(final(out)@) == self.model().picture(f, carets),
            r.0@ == self.model().control_areas(f),
            r.1@ == match self.model().shown_list(f) {
                Some(menu) => menu_rows(menu, span_of(0, f.choices@.len() as int)),
                None => seq![],
            },
    {
        let ghost before = picture(out@);
        let ghost m = self.model();
        put_bar(out, f.scroll.scrollbar, f.scroll.first_row, f.overflow);
        self.paint_form(out, f, carets);
        let mut areas = self.paint_tail(out, f);
        let mut choices: Vec<(Rect, usize)> = Vec::new();
        let ghost lead = picture(out@);
        if let Some(menu) = self.shown_list(f) {
            choices = self.paint_choices(out, f, menu);
        }
        assert(picture(out@) =~= lead + m.popup_part(f));
        let mut controls = find_form_regions(f.rows, self.form_frame(f));
        let ghost form = controls@;
        let ghost buttons = areas@;
        controls.append(&mut areas);
        assert(controls@ =~= form + buttons);
        (controls, choices)
    }
}

impl SettingsDialog {
    fn draw(&mut self, f: SettingsSheet<'_>) -> (r: (Vec<Paint>, Surface))
        ensures
            match old(self).model().form {
                Some(form) => {
                    let after = final(self).model();
                    &&& picture(r.0@) == form.picture(f, old(self).model().cursors)
                    &&& r.1 == form.covered(f)
                    &&& after.geometry.controls@ == if f.empty() {
                        seq![]
                    } else {
                        form.control_areas(f)
                    }
                    &&& after.geometry.choices@ == match form.shown_list(f) {
                        Some(menu) => if f.empty() {
                            seq![]
                        } else {
                            menu_rows(menu, span_of(0, f.choices@.len() as int))
                        },
                        None => seq![],
                    }
                    &&& after == (SettingsModel {
                        form: Some(
                            if f.empty() {
                                form
                            } else {
                                form.settled(
                                    f.natural as int,
                                    f.resolved.body.height as int,
                                    f.overflow > 0,
                                )
                            },
                        ),
                        geometry: after.geometry,
                        surface: r.1,
                        ..old(self).model()
                    })
                },
                None => {
                    let after = final(self).model();
                    &&& r.0@.len() == 0
                    &&& r.1 == Surface::nothing()
                    &&& after.geometry.blank()
                    &&& after == (SettingsModel {
                        geometry: after.geometry,
                        surface: r.1,
                        ..old(self).model()
                    })
                },
            },
    {
        let mut out: Vec<Paint> = Vec::new();
        assert(picture(out@) =~= seq![]);
        let mut controls: Vec<(Rect, SettingsControl)> = Vec::new();
        let mut choices: Vec<(Rect, usize)> = Vec::new();
        let drawn = f.resolved.body.width > 0 && f.resolved.body.height > 0;
        let mut surface = Surface {
            popup: f.resolved.frame,
            interior: f.resolved.interior,
            caret: None,
            scrollable: drawn && f.overflow > 0,
            text_focus: false,
        };
        let mut caret: Option<(u16, u16)> = None;
        match &self.state {
            Some(form) => {
                put(&mut out, Paint::Frame { title: "Settings".to_owned() });
                assert(picture(out@) =~= seq![Drawn::Frame { title: "Settings"@ }]);
                surface.text_focus = form.dropdown.is_none();
                if drawn {
                    let areas = form.paint(&mut out, f, self.cursors);
                    controls = areas.0;
                    choices = areas.1;
                    caret = form.caret_cell(f);
                    if let Some(menu) = form.shown_list(f) {
                        surface.popup = surface.popup.union(menu.popup);
                        if menu.scrollbar.is_some() {
                            surface.scrollable = true;
                        }
                    }
                }
            },
            None => {
                let surface = self.record(controls, choices, None, Surface::default());
                return (out, surface);
            },
        }
        if drawn {
            self.settle(f.natural, f.resolved.body.height, f.overflow > 0);
        }
        let surface = self.record(controls, choices, caret, surface);
        (out, surface)
    }

    /// Draws a frame, remembers where it drew what can be clicked, and settles
    /// how far the form scrolls.
    pub fn render(&mut self, f: SettingsFrame<'_>) -> (r: (Vec<Paint>, Surface))
        ensures
            match old(self).model().form {
                Some(form) => exists|s: SettingsSheet<'_>| #[trigger]
                    s.is_of(form, f) && {
                        let after = final(self).model();
                        &&& picture(r.0@) == form.picture(s, old(self).model().cursors)
                        &&& r.1 == form.covered(s)
                        &&& after.geometry.controls@ == if s.empty() {
                            seq![]
                        } else {
                            form.control_areas(s)
                        }
                        &&& after.geometry.choices@ == match form.shown_list(s) {
                            Some(menu) => if s.empty() {
                                seq![]
                            } else {
                                menu_rows(menu, span_of(0, s.choices@.len() as int))
                            },
                            None => seq![],
                        }
                        &&& after == (SettingsModel {
                            form: Some(
                                if s.empty() {
                                    form
                                } else {
                                    form.settled(
                                        s.natural as int,
                                        s.resolved.body.height as int,
                                        s.overflow > 0,
                                    )
                                },
                            ),
                            geometry: after.geometry,
                            surface: r.1,
                            ..old(self).model()
                        })
                    },
                None => {
                    let after = final(self).model();
                    &&& r.0@.len() == 0
                    &&& r.1 == Surface::nothing()
                    &&& after.geometry.blank()
                    &&& after == (SettingsModel {
                        geometry: after.geometry,
                        surface: r.1,
                        ..old(self).model()
                    })
                },
            },
    {
        let (details, choices, theme_name) = match &self.state {
            Some(form) => (
                form.details(f.policy_width, f.themes, f.effective_zone.as_str(), f.ascii),
                form.list_rows(f.themes, f.zones),
                name_theme(f.themes, form.draft.theme),
            ),
            None => {
                let surface = self.record(Vec::new(), Vec::new(), None, Surface::default());
                return (Vec::new(), surface);
            },
        };
        assert(texts(details@).len() == details@.len());
        let natural: usize = natural_rows(
            content_estimate(f.policy_width),
            f.roomy,
            details.len(),
        ) as usize;
        let rows = rows_in_view(f.scroll, natural);
        let sheet = SettingsSheet {
            resolved: f.resolved,
            rows: &rows,
            scroll: f.scroll,
            natural,
            overflow: natural.saturating_sub(f.scroll.viewport.height as usize),
            details: &details,
            theme_name: &theme_name,
            zone_label: f.zone_label,
            choices: &choices,
            caret: f.caret,
            menu: f.menu,
            longest_theme: widest(f.themes),
            gutter: f.gutter,
            theme: f.theme,
            ascii: f.ascii,
        };
        assert(sheet.is_of(self.model().form->0, f));
        self.draw(sheet)
    }

    /// A frame is too small to draw anything in.
    pub fn render_unfit(&mut self) -> (r: Surface)
        ensures
            r == (Surface {
                text_focus: old(self).model().form matches Some(form) && form.dropdown is None,
                ..Surface::nothing()
            }),
            final(self).model().geometry.blank(),
            final(self).model() == (SettingsModel {
                geometry: final(self).model().geometry,
                surface: r,
                ..old(self).model()
            }),
    {
        let mut surface = Surface::default();
        surface.text_focus = match &self.state {
            Some(form) => form.dropdown.is_none(),
            None => false,
        };
        self.record(Vec::new(), Vec::new(), None, surface)
    }
}

proof fn field_is_shown(
    form: FormModel,
    f: SettingsSheet<'_>,
    carets: Carets,
    field: SettingsField,
    label: Seq<char>,
)
    requires
        field != SettingsField::Theme,
        field == SettingsField::DisplayZone ==> form.zone_custom,
    ensures
        all_shown(
            form.text_part(f, carets, field, label),
            field_region(f.rows@, field, f.shape(form.zone_custom)),
        ),
{
    let places = field_region(f.rows@, field, f.shape(form.zone_custom));
    let part = form.text_part(f, carets, field, label);
    if places.len() > 0 {
        assert(part[form.label_part(f, field, label).len() as int].is_on(places[0].0));
    }
}

proof fn list_is_shown(
    form: FormModel,
    f: SettingsSheet<'_>,
    field: SettingsField,
    label: Seq<char>,
    value: Seq<char>,
)
    requires
        field == SettingsField::Theme || field == SettingsField::DisplayZone && !form.zone_custom,
    ensures
        all_shown(
            form.list_part(f, field, label, value),
            field_region(f.rows@, field, f.shape(form.zone_custom)),
        ),
{
    let places = field_region(f.rows@, field, f.shape(form.zone_custom));
    let part = form.list_part(f, field, label, value);
    if places.len() > 0 {
        assert(part[form.label_part(f, field, label).len() as int].is_on(places[0].0));
    }
}

proof fn toggles_are_shown(form: FormModel, f: SettingsSheet<'_>, n: int)
    requires
        0 <= n <= toggles_region(f.rows@, f.shape(form.zone_custom)).len(),
    ensures
        all_shown(
            form.toggles_part(f, n),
            toggles_region(f.rows@, f.shape(form.zone_custom)).take(n),
        ),
    decreases n,
{
    let places = toggles_region(f.rows@, f.shape(form.zone_custom));
    assert(places.take(0) =~= seq![]);
    if n > 0 {
        toggles_are_shown(form, f, n - 1);
        assert(places.take(n) =~= places.take(n - 1).push(places[n - 1]));
        let before = form.toggles_part(f, n - 1);
        let next = form.toggles_part(f, n).skip(before.len() as int);
        assert(form.toggles_part(f, n) =~= before + next);
        shown_next(before, places.take(n - 1), next, places[n - 1]);
    }
}

proof fn buttons_are_shown(form: FormModel, f: SettingsSheet<'_>, n: int)
    requires
        0 <= n <= f.resolved.actions.buttons@.len(),
    ensures
        all_shown(form.buttons_part(f, n), form.button_areas(f, n)),
    decreases n,
{
    if n > 0 {
        buttons_are_shown(form, f, n - 1);
        let (index, area) = f.resolved.actions.buttons@[n - 1];
        let places = form.button_areas(f, n - 1);
        let before = form.buttons_part(f, n - 1);
        let next = form.buttons_part(f, n).skip(before.len() as int);
        assert(form.buttons_part(f, n) =~= before + next);
        if let Some((control, _)) = form.button_at(f, index) {
            shown_next(before, places, next, (area, control));
        } else {
            assert(before + next =~= before);
        }
    }
}

proof fn choices_are_shown(form: FormModel, f: SettingsSheet<'_>, menu: AnchoredGeometry, n: int)
    requires
        0 <= n <= menu_rows(menu, span_of(0, f.choices@.len() as int)).len(),
    ensures
        all_shown(
            form.choices_part(f, menu, n),
            menu_rows(menu, span_of(0, f.choices@.len() as int)).take(n),
        ),
    decreases n,
{
    let rows = menu_rows(menu, span_of(0, f.choices@.len() as int));
    assert(rows.take(0) =~= seq![]);
    if n > 0 {
        choices_are_shown(form, f, menu, n - 1);
        assert(rows.take(n) =~= rows.take(n - 1).push(rows[n - 1]));
        let before = form.choices_part(f, menu, n - 1);
        let next = form.choices_part(f, menu, n).skip(before.len() as int);
        assert(form.choices_part(f, menu, n) =~= before + next);
        shown_next(before, rows.take(n - 1), next, rows[n - 1]);
    }
}

proof fn field_is_shown_next(
    form: FormModel,
    f: SettingsSheet<'_>,
    carets: Carets,
    things: Seq<Drawn>,
    places: Seq<(Rect, SettingsControl)>,
    field: SettingsField,
    label: Seq<char>,
)
    requires
        all_shown(things, places),
        field != SettingsField::Theme,
        field == SettingsField::DisplayZone ==> form.zone_custom,
    ensures
        all_shown(
            things + form.text_part(f, carets, field, label),
            places + field_region(f.rows@, field, f.shape(form.zone_custom)),
        ),
{
    field_is_shown(form, f, carets, field, label);
    shown_together(
        things,
        places,
        form.text_part(f, carets, field, label),
        field_region(f.rows@, field, f.shape(form.zone_custom)),
    );
}

/// The regions of the typed fields.
spec fn typed_regions(rows: Seq<Option<Rect>>, shape: FormShape) -> Seq<(Rect, SettingsControl)> {
    field_region(rows, SettingsField::Provider, shape) + field_region(
        rows,
        SettingsField::Mode,
        shape,
    ) + field_region(rows, SettingsField::Thinking, shape) + field_region(
        rows,
        SettingsField::RowCache,
        shape,
    ) + field_region(rows, SettingsField::Membership, shape) + field_region(
        rows,
        SettingsField::DiskTotal,
        shape,
    ) + field_region(rows, SettingsField::IndexPerSource, shape)
}

#[verifier::rlimit(40)]
proof fn texts_are_shown(form: FormModel, f: SettingsSheet<'_>, carets: Carets)
    ensures
        all_shown(
            form.texts_part(f, carets),
            typed_regions(f.rows@, f.shape(form.zone_custom)),
        ),
{
    reveal(FormModel::texts_part);
    let shape = f.shape(form.zone_custom);
    let rows = f.rows@;
    let t1 = form.text_part(f, carets, SettingsField::Provider, "Provider / model"@);
    let r1 = field_region(rows, SettingsField::Provider, shape);
    field_is_shown(form, f, carets, SettingsField::Provider, "Provider / model"@);
    field_is_shown_next(form, f, carets, t1, r1, SettingsField::Mode, "Mode"@);
    let t2 = t1 + form.text_part(f, carets, SettingsField::Mode, "Mode"@);
    let r2 = r1 + field_region(rows, SettingsField::Mode, shape);
    field_is_shown_next(form, f, carets, t2, r2, SettingsField::Thinking, "Thinking"@);
    let t3 = t2 + form.text_part(f, carets, SettingsField::Thinking, "Thinking"@);
    let r3 = r2 + field_region(rows, SettingsField::Thinking, shape);
    field_is_shown_next(form, f, carets, t3, r3, SettingsField::RowCache, "Rows"@);
    let t4 = t3 + form.text_part(f, carets, SettingsField::RowCache, "Rows"@);
    let r4 = r3 + field_region(rows, SettingsField::RowCache, shape);
    field_is_shown_next(form, f, carets, t4, r4, SettingsField::Membership, "Membership"@);
    let t5 = t4 + form.text_part(f, carets, SettingsField::Membership, "Membership"@);
    let r5 = r4 + field_region(rows, SettingsField::Membership, shape);
    field_is_shown_next(form, f, carets, t5, r5, SettingsField::DiskTotal, "Derived total"@);
    let t6 = t5 + form.text_part(f, carets, SettingsField::DiskTotal, "Derived total"@);
    let r6 = r5 + field_region(rows, SettingsField::DiskTotal, shape);
    field_is_shown_next(form, f, carets, t6, r6, SettingsField::IndexPerSource, "Per source"@);
}

proof fn lists_are_shown(form: FormModel, f: SettingsSheet<'_>, carets: Carets)
    ensures
        all_shown(
            form.lists_part(f, carets),
            field_region(f.rows@, SettingsField::Theme, f.shape(form.zone_custom)) + field_region(
                f.rows@,
                SettingsField::DisplayZone,
                f.shape(form.zone_custom),
            ),
        ),
{
    reveal(FormModel::lists_part);
    let shape = f.shape(form.zone_custom);
    let theme = form.list_part(f, SettingsField::Theme, "Theme"@, f.theme_name@);
    let places = field_region(f.rows@, SettingsField::Theme, shape);
    list_is_shown(form, f, SettingsField::Theme, "Theme"@, f.theme_name@);
    if form.zone_custom {
        field_is_shown_next(
            form,
            f,
            carets,
            theme,
            places,
            SettingsField::DisplayZone,
            "Times shown in"@,
        );
    } else {
        list_is_shown(form, f, SettingsField::DisplayZone, "Times shown in"@, f.zone_label@);
        shown_together(
            theme,
            places,
            form.list_part(f, SettingsField::DisplayZone, "Times shown in"@, f.zone_label@),
            field_region(f.rows@, SettingsField::DisplayZone, shape),
        );
    }
}

proof fn form_is_shown(form: FormModel, f: SettingsSheet<'_>, carets: Carets)
    ensures
        all_shown(
            form.form_part(f, carets),
            form_regions(f.rows@, f.shape(form.zone_custom)),
        ),
{
    let shape = f.shape(form.zone_custom);
    let theme = field_region(f.rows@, SettingsField::Theme, shape);
    let zone = field_region(f.rows@, SettingsField::DisplayZone, shape);
    let typed = typed_regions(f.rows@, shape);
    let toggles = toggles_region(f.rows@, shape);
    let count = toggles.len() as int;
    texts_are_shown(form, f, carets);
    lists_are_shown(form, f, carets);
    toggles_are_shown(form, f, count);
    assert(toggles.take(count) =~= toggles);
    let texts = form.texts_part(f, carets);
    let lists = form.lists_part(f, carets);
    shown_together(texts, typed, lists, theme + zone);
    shown_together(
        texts + lists,
        typed + (theme + zone),
        form.toggles_part(f, count),
        toggles,
    );
    let regions = typed + (theme + zone) + toggles;
    assert(typed + (theme + zone) =~= typed + theme + zone);
    assert(regions == form_regions(f.rows@, shape));
    let fields = texts + lists + form.toggles_part(f, count);
    shown_inside(form.form_part(f, carets), fields, headings_part(f).len() as int, regions);
}

/// Every control and every row of an open list that can be clicked was drawn in
/// the frame that recorded it.
pub proof fn clickable_is_drawn(form: FormModel, f: SettingsSheet<'_>, carets: Carets)
    requires
        !f.empty(),
    ensures
        all_shown(form.picture(f, carets), form.control_areas(f)),
        form.shown_list(f) matches Some(menu) ==> all_shown(
            form.picture(f, carets),
            menu_rows(menu, span_of(0, f.choices@.len() as int)),
        ),
{
    let all = form.picture(f, carets);
    let count = f.resolved.actions.buttons@.len() as int;
    let shape = f.shape(form.zone_custom);
    let places = form_regions(f.rows@, shape);
    form_is_shown(form, f, carets);
    buttons_are_shown(form, f, count);
    let start: int = 1int + bar_if(f.scroll.scrollbar, f.scroll.first_row, f.overflow).len();
    let part = form.form_part(f, carets);
    let buttons = form.buttons_part(f, count);
    shown_together(part, places, buttons, form.button_areas(f, count));
    shown_inside(all, part + buttons, start, form.control_areas(f));
    if let Some(menu) = form.shown_list(f) {
        let rows = menu_rows(menu, span_of(0, f.choices@.len() as int));
        choices_are_shown(form, f, menu, rows.len() as int);
        assert(rows.take(rows.len() as int) =~= rows);
        let popup = form.popup_part(f);
        shown_inside(popup, form.choices_part(f, menu, rows.len() as int), 2, rows);
        shown_inside(all, popup, start + part.len() + form.tail_part(f).len(), rows);
    }
}

} // verus!
