//! A frame of the Recipes layer as a list of things to draw.

use super::frame::{
    assemble_notes, button_regions, control_regions, find_menu_anchor, help_text, menu_anchor,
    mode_help, note_lines, note_row, notes_view, place_columns, recipe_date, recipe_summary,
    row_columns, sections, split_sections, RECIPE_LABEL_WIDTH, RECIPE_NO_DATE, RecipeSections,
};
use super::{
    action_text, action_word, RecipeDialogControl, RecipeGeometry, RecipeItem, RecipesDialog,
    RecipesModel,
};
use crate::component::{place_from, RecipeDialogMode, Surface};
use crate::components::settings::frame::rows_of_list;
use crate::dialog_controls::{
    button_style, role_at, role_look, role_style, span_of, ActionRow, ButtonRole, DialogStyles,
};
use crate::dialog_layout::{
    item_rows, menu_rows, rows_with_items, AnchoredGeometry, ListGeometry, ResolvedDialog,
    PANE_INDENT,
};
use crate::geometry::{greatest, least, minus, sat16, Rect};
use crate::paint::{
    all_shown, bar_if, if_drawn, picture, put, put_bar, put_text, shown_inside, shown_next,
    shown_together, shows, text_at, Drawn, Fit, Paint,
};
use crate::style::{Style, Theme};
use crate::text::{copy_texts, text_lists, texts};
use vstd::prelude::*;

verus! {

/// What a frame is drawn from: how the screen is divided, and what was worded and
/// broken into lines for it.
#[derive(Clone, Copy, Debug)]
pub struct RecipesFrame<'a> {
    pub resolved: &'a ResolvedDialog,
    pub list: &'a ListGeometry,
    /// The notes, each broken into lines.
    pub wrapped: &'a Vec<Vec<String>>,
    /// The days of the recipes, as they are written.
    pub dates: &'a Vec<String>,
    /// Where the name field was put, and its caret.
    pub input: Rect,
    pub caret: Option<(u16, u16)>,
    /// Where the menu hangs, where it has something to hang on.
    pub menu: Option<AnchoredGeometry>,
    /// The labels of the menu's standing rows.
    pub standing: &'a Vec<String>,
    pub theme: Theme,
    pub ascii: bool,
}

/// A frame with what the layer works out for it.
#[derive(Clone, Copy, Debug)]
pub struct RecipesSheet<'a> {
    pub resolved: &'a ResolvedDialog,
    pub list: &'a ListGeometry,
    /// The lines of the notes.
    pub notes: &'a Vec<(String, bool)>,
    pub dates: &'a Vec<String>,
    pub input: Rect,
    pub caret: Option<(u16, u16)>,
    pub menu: Option<AnchoredGeometry>,
    pub standing: &'a Vec<String>,
    pub theme: Theme,
    pub ascii: bool,
}

impl RecipesFrame<'_> {
    /// The frame shows what the dialog has.
    pub open spec fn fits(self, m: RecipesModel) -> bool {
        &&& self.wrapped@.len() == m.notes().len()
        &&& self.dates@.len() == m.items.len()
        &&& forall|i: int|
            0 <= i < m.items.len() ==> (#[trigger] m.items[i]).config.enrichments@.len() < usize::MAX
        &&& forall|i: int|
            0 <= i < self.resolved.actions.buttons@.len() ==> (
            #[trigger] self.resolved.actions.buttons@[i]).0 < m.actions().len()
    }
}

impl RecipesSheet<'_> {
    /// What the layer works out for a frame: the lines of its notes.
    pub open spec fn is_of(self, m: RecipesModel, f: RecipesFrame<'_>) -> bool {
        &&& self.resolved == f.resolved
        &&& self.list == f.list
        &&& self.dates == f.dates
        &&& self.input == f.input
        &&& self.caret == f.caret
        &&& self.menu == f.menu
        &&& self.standing == f.standing
        &&& self.theme == f.theme
        &&& self.ascii == f.ascii
        &&& notes_view(self.notes@) == note_lines(
            m.notes(),
            text_lists(f.wrapped@),
            m.notes().len() as int,
        )
    }
}

impl RecipesSheet<'_> {
    pub open spec fn empty(self) -> bool {
        self.resolved.body.width == 0 || self.resolved.body.height == 0
    }

    pub open spec fn hides(self) -> bool {
        self.resolved.actions.overflow@.len() > 0
    }

    /// The frame shows what the dialog has.
    pub open spec fn fits(self, m: RecipesModel) -> bool {
        &&& self.dates@.len() == m.items.len()
        &&& forall|i: int|
            0 <= i < m.items.len() ==> (#[trigger] m.items[i]).config.enrichments@.len() < usize::MAX
        &&& forall|i: int|
            0 <= i < self.resolved.actions.buttons@.len() ==> (
            #[trigger] self.resolved.actions.buttons@[i]).0 < m.actions().len()
    }
}

/// How many of the notes' lines there are, as far as rows can be counted.
pub open spec fn line_count(lines: int) -> int {
    if lines <= 65535 {
        lines
    } else {
        0
    }
}

impl RecipesModel {
    /// How the body of a frame is divided.
    pub open spec fn divided(self, f: RecipesSheet<'_>) -> RecipeSections {
        sections(
            f.resolved.body,
            if f.resolved.compact {
                0
            } else {
                1
            },
            line_count(f.notes@.len() as int),
            self.control == RecipeDialogControl::Input,
        )
    }

    /// The heading and the count.
    pub open spec fn heading_part(self, f: RecipesSheet<'_>) -> Seq<Drawn> {
        let styles = DialogStyles::of(f.theme);
        if f.list.heading.height > 0 {
            seq![
                text_at(
                    f.list.heading,
                    if self.mode == RecipeDialogMode::History {
                        "Revisions"@
                    } else {
                        "Saved recipes"@
                    },
                    Style { bold: true, ..styles.label },
                    Fit::Whole,
                ),
            ] + if_drawn(
                f.list.count.width > 0,
                text_at(f.list.count, self.count(), styles.description, Fit::Whole),
            )
        } else {
            seq![]
        }
    }

    /// A row of the list.
    pub open spec fn row_part(self, f: RecipesSheet<'_>, row: Rect, index: int) -> Seq<Drawn> {
        let styles = DialogStyles::of(f.theme);
        let cells = row_columns(row);
        let item = self.items[index];
        seq![
            text_at(
                cells.name,
                self.row_name(index, f.ascii),
                if index == self.selected {
                    styles.selection
                } else {
                    styles.label
                },
                Fit::Truncated,
            ),
        ] + (match cells.summary {
            Some(area) => seq![
                text_at(area, item.config.model().summary(), styles.description, Fit::Truncated),
            ],
            None => seq![],
        }) + (match cells.date {
            Some(area) => seq![
                Drawn::Text {
                    area,
                    text: if item.saved_at_unix_nanos is Some {
                        f.dates@[index]@
                    } else {
                        RECIPE_NO_DATE@
                    },
                    style: styles.description,
                    fit: Fit::Whole,
                    right: true,
                },
            ],
            None => seq![],
        })
    }

    pub open spec fn shown_rows(self, f: RecipesSheet<'_>) -> Seq<(Rect, usize)> {
        item_rows(f.list.row_rects@, f.list.first_row as int, self.items.len() as int)
    }

    /// The first `n` rows of the list.
    pub open spec fn rows_part(self, f: RecipesSheet<'_>, n: int) -> Seq<Drawn>
        decreases n,
    {
        if n <= 0 {
            seq![]
        } else {
            let (row, index) = self.shown_rows(f)[n - 1];
            self.rows_part(f, n - 1) + self.row_part(f, row, index as int)
        }
    }

    /// The rows, or what stands in their place.
    pub open spec fn list_part(self, f: RecipesSheet<'_>) -> Seq<Drawn> {
        let view = f.list.viewport;
        if self.items.len() == 0 {
            if_drawn(
                view.height > 0,
                text_at(
                    Rect::spec_new(view.x, view.y, view.width, 1),
                    self.nothing_listed(),
                    DialogStyles::of(f.theme).description,
                    Fit::Truncated,
                ),
            )
        } else {
            self.rows_part(f, self.shown_rows(f).len() as int)
        }
    }

    /// The lines of the notes that show, among the first `n`.
    pub open spec fn notes_part(self, f: RecipesSheet<'_>, n: int) -> Seq<Drawn>
        decreases n,
    {
        if n <= 0 {
            seq![]
        } else {
            let s = self.divided(f);
            let styles = DialogStyles::of(f.theme);
            let y = sat16(s.notes_y + (n - 1));
            self.notes_part(f, n - 1) + if_drawn(
                n <= s.notes && f.resolved.body.y <= y < f.resolved.body.spec_bottom(),
                text_at(
                    Rect::spec_new(
                        sat16(f.resolved.body.x + PANE_INDENT) as u16,
                        y as u16,
                        minus(f.resolved.body.width as int, PANE_INDENT as int) as u16,
                        1,
                    ),
                    f.notes@[n - 1].0@,
                    if f.notes@[n - 1].1 {
                        styles.error
                    } else {
                        styles.description
                    },
                    Fit::Truncated,
                ),
            )
        }
    }

    /// The name field shows.
    pub open spec fn shows_field(self, f: RecipesSheet<'_>) -> bool {
        let s = self.divided(f);
        s.field_rows > 0 && f.resolved.body.y <= s.field_y < f.resolved.body.spec_bottom()
    }

    pub open spec fn field_part(self, f: RecipesSheet<'_>) -> Seq<Drawn> {
        let focused = self.control == RecipeDialogControl::Input;
        let path = self.mode == RecipeDialogMode::Import || self.mode == RecipeDialogMode::Export;
        if_drawn(
            self.shows_field(f),
            Drawn::Field {
                area: Rect::spec_new(
                    f.resolved.body.x,
                    self.divided(f).field_y,
                    f.resolved.body.width,
                    1,
                ),
                label_width: RECIPE_LABEL_WIDTH,
                label: if path {
                    "TOML path"@
                } else {
                    "Name"@
                },
                value: self.name,
                placeholder: if path {
                    "path to a recipe TOML"@
                } else {
                    "a name for this recipe"@
                },
                has_focus: focused,
                caret: if focused {
                    Some(self.cursor as usize)
                } else {
                    None
                },
            },
        )
    }

    /// The button that has the focus.
    pub open spec fn focused_action(self) -> Option<int> {
        place_from(self.actions(), self.control, 0)
    }

    /// The buttons among the first `n`.
    pub open spec fn buttons_part(self, f: RecipesSheet<'_>, n: int) -> Seq<Drawn>
        decreases n,
    {
        if n <= 0 {
            seq![]
        } else {
            let (index, area) = f.resolved.actions.buttons@[n - 1];
            let control = self.actions()[index as int];
            self.buttons_part(f, n - 1) + if_drawn(
                !(f.hides() && control == RecipeDialogControl::More),
                Drawn::Button {
                    area,
                    label: action_text(self.mode, control, f.ascii),
                    style: role_look(
                        f.theme,
                        role_at(seq![], Some(0usize), index),
                        self.focused_action() == Some(index as int),
                    ),
                },
            )
        }
    }

    /// The button that stands for the hidden ones.
    pub open spec fn more_part(self, f: RecipesSheet<'_>) -> Seq<Drawn> {
        match f.resolved.actions.more {
            Some(area) => if_drawn(
                f.hides(),
                Drawn::Button {
                    area,
                    label: action_text(self.mode, RecipeDialogControl::More, f.ascii),
                    style: role_look(
                        f.theme,
                        ButtonRole::Normal,
                        self.focused_action() is Some
                            && f.resolved.actions.overflow@.contains(
                            self.focused_action()->0 as usize,
                        ),
                    ),
                },
            ),
            None => seq![],
        }
    }

    /// The regions of the controls.
    pub open spec fn control_areas(self, f: RecipesSheet<'_>) -> Seq<(Rect, RecipeDialogControl)> {
        control_regions(
            if self.shows_field(f) {
                Some(f.input)
            } else {
                None
            },
            self.actions(),
            f.resolved.actions.buttons@,
            f.hides(),
            f.resolved.actions.more,
        )
    }

    /// Where the open menu hangs.
    pub open spec fn shown_menu(self, f: RecipesSheet<'_>) -> Option<AnchoredGeometry> {
        if self.menu_open && menu_anchor(self.control_areas(f)) is Some {
            f.menu
        } else {
            None
        }
    }

    pub open spec fn all_menu_labels(self, f: RecipesSheet<'_>) -> Seq<Seq<char>> {
        self.menu_labels(f.resolved.actions.overflow@, texts(f.standing@), f.ascii)
    }

    /// The rows of the open menu.
    pub open spec fn menu_areas(self, f: RecipesSheet<'_>) -> Seq<(Rect, usize)> {
        match self.shown_menu(f) {
            Some(menu) => menu_rows(menu, span_of(0, self.all_menu_labels(f).len() as int)),
            None => seq![],
        }
    }

    /// The first `n` rows of the open menu.
    pub open spec fn menu_part(self, f: RecipesSheet<'_>, n: int) -> Seq<Drawn>
        decreases n,
    {
        if n <= 0 {
            seq![]
        } else {
            let labels = self.all_menu_labels(f);
            let styles = DialogStyles::of(f.theme);
            let (row, index) = self.menu_areas(f)[n - 1];
            self.menu_part(f, n - 1) + seq![
                text_at(
                    row,
                    labels[index as int],
                    if index == least(self.menu_selected, minus(labels.len() as int, 1)) {
                        styles.selection
                    } else {
                        Style { bg: Some(f.theme.dialog_bg), ..styles.label }
                    },
                    Fit::Whole,
                ),
            ]
        }
    }

    /// The open menu, above everything else.
    pub open spec fn popup_part(self, f: RecipesSheet<'_>) -> Seq<Drawn> {
        match self.shown_menu(f) {
            Some(menu) => seq![
                Drawn::Clear { area: menu.popup },
                Drawn::Border { area: menu.popup, style: DialogStyles::of(f.theme).label },
            ] + self.menu_part(f, self.menu_areas(f).len() as int) + bar_if(
                menu.scrollbar,
                menu.first_item,
                minus(self.all_menu_labels(f).len() as int, menu.viewport.height as int) as usize,
            ),
            None => seq![],
        }
    }

    /// The list with its bar.
    #[verifier::opaque]
    pub open spec fn upper_part(self, f: RecipesSheet<'_>) -> Seq<Drawn> {
        self.heading_part(f) + self.list_part(f) + bar_if(
            f.list.scrollbar,
            f.list.first_row,
            minus(self.items.len() as int, greatest(f.list.row_rects@.len() as int, 1)) as usize,
        )
    }

    /// The notes and the field.
    #[verifier::opaque]
    pub open spec fn lower_part(self, f: RecipesSheet<'_>) -> Seq<Drawn> {
        self.notes_part(f, f.notes@.len() as int) + self.field_part(f)
    }

    /// The list, the notes and the field.
    pub open spec fn body_part(self, f: RecipesSheet<'_>) -> Seq<Drawn> {
        self.upper_part(f) + self.lower_part(f)
    }

    /// The message, the help, and the buttons.
    pub open spec fn tail_part(self, f: RecipesSheet<'_>) -> Seq<Drawn> {
        seq![
            Drawn::Message {
                area: f.resolved.message,
                state: self.message().0,
                text: self.message().1,
            },
            Drawn::Help { area: f.resolved.help, text: mode_help(self.mode) },
        ] + self.buttons_part(f, f.resolved.actions.buttons@.len() as int) + self.more_part(f)
    }

    /// A frame, thing by thing.
    pub open spec fn picture(self, f: RecipesSheet<'_>) -> Seq<Drawn> {
        let frame = seq![Drawn::Frame { title: self.title() }];
        if f.empty() {
            frame
        } else {
            frame + self.body_part(f) + self.tail_part(f) + self.popup_part(f)
        }
    }

    /// What a frame covers.
    pub open spec fn covered(self, f: RecipesSheet<'_>) -> Surface {
        let menu = if f.empty() {
            None
        } else {
            self.shown_menu(f)
        };
        Surface {
            popup: match menu {
                Some(menu) => f.resolved.frame.spec_union(menu.popup),
                None => f.resolved.frame,
            },
            interior: f.resolved.interior,
            caret: if !f.empty() && self.shows_field(f) {
                f.caret
            } else {
                None
            },
            scrollable: !f.empty() && (f.list.scrollbar is Some || (menu matches Some(menu)
                && menu.scrollbar is Some)),
            text_focus: !self.menu_open,
        }
    }
}

impl RecipesDialog {
    fn paint_heading(&self, out: &mut Vec<Paint>, f: RecipesSheet<'_>)
        ensures
            picture(final(out)@) == picture(old(out)@) + self.model().heading_part(f),
    {
        let ghost before = picture(out@);
        let styles = DialogStyles::new(f.theme);
        if f.list.heading.height > 0 {
            put_text(
                out,
                f.list.heading,
                self.heading().to_owned(),
                styles.label.bold(),
                Fit::Whole,
            );
            if f.list.count.width > 0 {
                put_text(out, f.list.count, self.count(), styles.description, Fit::Whole);
            }
        }
        assert(picture(out@) =~= before + self.model().heading_part(f));
    }

    fn paint_row(&self, out: &mut Vec<Paint>, f: RecipesSheet<'_>, row: Rect, index: usize)
        requires
            f.fits(self.model()),
            index < self.model().items.len(),
        ensures
            picture(final(out)@) == picture(old(out)@) + self.model().row_part(
                f,
                row,
                index as int,
            ),
    {
        let ghost before = picture(out@);
        let styles = DialogStyles::new(f.theme);
        let cells = place_columns(row);
        let item: &RecipeItem = &self.state.items[index];
        assert(self.model().items[index as int].config.enrichments@.len() < usize::MAX);
        put_text(
            out,
            cells.name,
            self.row_name(index, f.ascii),
            if index == self.state.selected {
                styles.selection
            } else {
                styles.label
            },
            Fit::Truncated,
        );
        if let Some(area) = cells.summary {
            put_text(out, area, recipe_summary(&item.config), styles.description, Fit::Truncated);
        }
        if let Some(area) = cells.date {
            let text = recipe_date(item.saved_at_unix_nanos, f.dates[index].as_str());
            put(
                out,
                Paint::Text { area, text, style: styles.description, fit: Fit::Whole, right: true },
            );
        }
        assert(picture(out@) =~= before + self.model().row_part(f, row, index as int));
    }

    fn paint_list(&self, out: &mut Vec<Paint>, f: RecipesSheet<'_>) -> (r: Vec<(Rect, usize)>)
        requires
            f.fits(self.model()),
        ensures
            picture(final(out)@) == picture(old(out)@) + self.model().list_part(f),
            r@ == self.model().shown_rows(f),
    {
        let ghost before = picture(out@);
        let ghost m = self.model();
        let styles = DialogStyles::new(f.theme);
        let rows = rows_with_items(&f.list.row_rects, f.list.first_row, self.state.items.len());
        if self.state.items.len() == 0 {
            let view = f.list.viewport;
            if view.height > 0 {
                put_text(
                    out,
                    Rect::new(view.x, view.y, view.width, 1),
                    self.nothing_listed().to_owned(),
                    styles.description,
                    Fit::Truncated,
                );
            }
            assert(picture(out@) =~= before + m.list_part(f));
            return rows;
        }
        let mut i: usize = 0;
        assert(before + m.rows_part(f, 0) =~= before);
        while i < rows.len()
            invariant
                i <= rows@.len(),
                m == self.model(),
                f.fits(m),
                rows@ == m.shown_rows(f),
                picture(out@) == before + m.rows_part(f, i as int),
            decreases rows.len() - i,
        {
            let (row, index) = rows[i];
            assert(m.shown_rows(f)[i as int] == (row, index));
            self.paint_row(out, f, row, index);
            assert(before + m.rows_part(f, i as int) + m.row_part(f, row, index as int) =~= before
                + m.rows_part(f, i + 1));
            i += 1;
        }
        rows
    }

    fn paint_notes(&self, out: &mut Vec<Paint>, f: RecipesSheet<'_>, s: RecipeSections)
        requires
            s == self.model().divided(f),
        ensures
            picture(final(out)@) == picture(old(out)@) + self.model().notes_part(
                f,
                f.notes@.len() as int,
            ),
    {
        let ghost before = picture(out@);
        let ghost m = self.model();
        let styles = DialogStyles::new(f.theme);
        let mut i: usize = 0;
        assert(before + m.notes_part(f, 0) =~= before);
        while i < f.notes.len()
            invariant
                i <= f.notes@.len(),
                m == self.model(),
                s == m.divided(f),
                styles == DialogStyles::of(f.theme),
                picture(out@) == before + m.notes_part(f, i as int),
            decreases f.notes.len() - i,
        {
            let (text, warns) = &f.notes[i];
            let ghost now = picture(out@);
            if i < s.notes as usize {
                if let Some(area) = note_row(f.resolved.body, s, i as u16) {
                    put_text(
                        out,
                        area,
                        text.clone(),
                        if *warns {
                            styles.error
                        } else {
                            styles.description
                        },
                        Fit::Truncated,
                    );
                }
            }
            proof {
                let part = m.notes_part(f, i + 1);
                assert(part =~= m.notes_part(f, i as int) + part.skip(
                    m.notes_part(f, i as int).len() as int,
                ));
                assert(picture(out@) =~= before + part);
            }
            i += 1;
        }
    }

    fn paint_field(&self, out: &mut Vec<Paint>, f: RecipesSheet<'_>, s: RecipeSections) -> (r: bool)
        requires
            s == self.model().divided(f),
        ensures
            picture(final(out)@) == picture(old(out)@) + self.model().field_part(f),
            r == self.model().shows_field(f),
    {
        let ghost before = picture(out@);
        let body = f.resolved.body;
        let shown = s.field_rows > 0 && s.field_y >= body.y && s.field_y < body.bottom();
        if shown {
            let focused = self.state.control == RecipeDialogControl::Input;
            let (label, placeholder) = self.field_words();
            put(
                out,
                Paint::Field {
                    area: Rect::new(body.x, s.field_y, body.width, 1),
                    label_width: RECIPE_LABEL_WIDTH,
                    label: label.to_owned(),
                    value: self.state.name.clone(),
                    placeholder: placeholder.to_owned(),
                    has_focus: focused,
                    caret: if focused {
                        Some(self.cursor)
                    } else {
                        None
                    },
                },
            );
        }
        assert(picture(out@) =~= before + self.model().field_part(f));
        shown
    }

    fn focused_action(&self) -> (r: Option<usize>)
        ensures
            match r {
                Some(place) => self.model().focused_action() == Some(place as int),
                None => self.model().focused_action() is None,
            },
    {
        let actions = self.action_controls();
        let mut i: usize = 0;
        while i < actions.len()
            invariant
                i <= actions@.len(),
                actions@ == self.model().actions(),
                place_from(actions@, self.model().control, 0) == place_from(
                    actions@,
                    self.model().control,
                    i as int,
                ),
            decreases actions.len() - i,
        {
            if actions[i] == self.state.control {
                return Some(i);
            }
            i += 1;
        }
        None
    }

    fn paint_buttons(&self, out: &mut Vec<Paint>, f: RecipesSheet<'_>)
        requires
            f.fits(self.model()),
        ensures
            picture(final(out)@) == picture(old(out)@) + self.model().buttons_part(
                f,
                f.resolved.actions.buttons@.len() as int,
            ),
    {
        let ghost before = picture(out@);
        let ghost m = self.model();
        let actions = self.action_controls();
        let focused = self.focused_action();
        let buttons = &f.resolved.actions.buttons;
        let hides = f.resolved.actions.overflow.len() > 0;
        let none: Vec<usize> = Vec::new();
        let labels: Vec<&str> = Vec::new();
        let row = ActionRow {
            labels: labels.as_slice(),
            default: Some(0),
            destructive: none.as_slice(),
            focused,
        };
        let mut i: usize = 0;
        assert(none@ =~= seq![]);
        assert(before + m.buttons_part(f, 0) =~= before);
        while i < buttons.len()
            invariant
                i <= buttons@.len(),
                m == self.model(),
                f.fits(m),
                buttons@ == f.resolved.actions.buttons@,
                hides == f.hides(),
                actions@ == m.actions(),
                row.destructive@ == Seq::<usize>::empty(),
                row.default == Some(0usize),
                match focused {
                    Some(place) => m.focused_action() == Some(place as int),
                    None => m.focused_action() is None,
                },
                picture(out@) == before + m.buttons_part(f, i as int),
            decreases buttons.len() - i,
        {
            let (index, area) = buttons[i];
            assert(f.resolved.actions.buttons@[i as int] == (index, area));
            let control = actions[index];
            let ghost now = picture(out@);
            if !(hides && control == RecipeDialogControl::More) {
                let here = match focused {
                    Some(place) => place == index,
                    None => false,
                };
                put(
                    out,
                    Paint::Button {
                        area,
                        label: action_word(self.state.mode, control, f.ascii).to_owned(),
                        style: role_style(f.theme, row.role(index), here),
                    },
                );
            }
            assert(picture(out@) =~= before + m.buttons_part(f, i + 1));
            i += 1;
        }
    }

    fn paint_more(&self, out: &mut Vec<Paint>, f: RecipesSheet<'_>)
        ensures
            picture(final(out)@) == picture(old(out)@) + self.model().more_part(f),
    {
        let ghost before = picture(out@);
        let overflow = &f.resolved.actions.overflow;
        if overflow.len() > 0 {
            if let Some(area) = f.resolved.actions.more {
                let mut focused = false;
                if let Some(place) = self.focused_action() {
                    let mut i: usize = 0;
                    while i < overflow.len()
                        invariant
                            i <= overflow@.len(),
                            focused == overflow@.take(i as int).contains(place),
                        decreases overflow.len() - i,
                    {
                        assert(overflow@.take(i + 1) =~= overflow@.take(i as int).push(
                            overflow@[i as int],
                        ));
                        let ghost was = overflow@.take(i as int);
                        assert(was.push(overflow@[i as int]).last() == overflow@[i as int]);
                        if focused {
                            let ghost k = choose|k: int| 0 <= k < was.len() && was[k] == place;
                            assert(was.push(overflow@[i as int])[k] == place);
                        } else if overflow[i] == place {
                            focused = true;
                        }
                        i += 1;
                    }
                    assert(overflow@.take(i as int) =~= overflow@);
                }
                put(
                    out,
                    Paint::Button {
                        area,
                        label: action_word(
                            self.state.mode,
                            RecipeDialogControl::More,
                            f.ascii,
                        ).to_owned(),
                        style: role_style(f.theme, ButtonRole::Normal, focused),
                    },
                );
            }
        }
        assert(picture(out@) =~= before + self.model().more_part(f));
    }

    fn paint_menu(&self, out: &mut Vec<Paint>, f: RecipesSheet<'_>, menu: AnchoredGeometry) -> (r:
        Vec<(Rect, usize)>)
        requires
            self.model().shown_menu(f) == Some(menu),
        ensures
            picture(final(out)@) == picture(old(out)@) + self.model().popup_part(f),
            r@ == self.model().menu_areas(f),
    {
        let ghost before = picture(out@);
        let ghost m = self.model();
        let styles = DialogStyles::new(f.theme);
        let standing = copy_texts(f.standing);
        let labels = self.more_menu_labels(&f.resolved.actions.overflow, standing, f.ascii);
        let ghost all = m.all_menu_labels(f);
        let rows = rows_of_list(menu, labels.len());
        let last: usize = labels.len().saturating_sub(1);
        let selected: usize = if self.state.menu_selected < last {
            self.state.menu_selected
        } else {
            last
        };
        put(out, Paint::Clear { area: menu.popup });
        put(out, Paint::Border { area: menu.popup, style: styles.label });
        let ghost lead = seq![
            Drawn::Clear { area: menu.popup },
            Drawn::Border { area: menu.popup, style: styles.label },
        ];
        assert(picture(out@) =~= before + lead);
        let mut i: usize = 0;
        assert(before + lead + m.menu_part(f, 0) =~= before + lead);
        while i < rows.len()
            invariant
                i <= rows@.len(),
                m == self.model(),
                m.shown_menu(f) == Some(menu),
                texts(labels@) == all,
                all == m.all_menu_labels(f),
                rows@ == m.menu_areas(f),
                rows@ == menu_rows(menu, span_of(0, labels@.len() as int)),
                styles == DialogStyles::of(f.theme),
                selected == least(m.menu_selected, minus(all.len() as int, 1)),
                picture(out@) == before + lead + m.menu_part(f, i as int),
            decreases rows.len() - i,
        {
            let (row, index) = rows[i];
            assert(m.menu_areas(f)[i as int] == (row, index));
            assert(index < labels@.len());
            assert(all[index as int] == labels@[index as int]@);
            put_text(
                out,
                row,
                labels[index].clone(),
                if index == selected {
                    styles.selection
                } else {
                    button_style(f.theme, false, false)
                },
                Fit::Whole,
            );
            assert(picture(out@) =~= before + lead + m.menu_part(f, i + 1));
            i += 1;
        }
        put_bar(
            out,
            menu.scrollbar,
            menu.first_item,
            labels.len().saturating_sub(menu.viewport.height as usize),
        );
        assert(picture(out@) =~= before + m.popup_part(f));
        rows
    }

    fn paint_upper(&self, out: &mut Vec<Paint>, f: RecipesSheet<'_>) -> (r: Vec<(Rect, usize)>)
        requires
            f.fits(self.model()),
        ensures
            picture(final(out)@) == picture(old(out)@) + self.model().upper_part(f),
            r@ == self.model().shown_rows(f),
    {
        let ghost before = picture(out@);
        let ghost m = self.model();
        self.paint_heading(out, f);
        let rows = self.paint_list(out, f);
        let visible: usize = if f.list.row_rects.len() > 1 {
            f.list.row_rects.len()
        } else {
            1
        };
        put_bar(
            out,
            f.list.scrollbar,
            f.list.first_row,
            self.state.items.len().saturating_sub(visible),
        );
        proof {
            reveal(RecipesModel::upper_part);
            let (a, b, c) = (
                m.heading_part(f),
                m.list_part(f),
                bar_if(
                    f.list.scrollbar,
                    f.list.first_row,
                    minus(
                        m.items.len() as int,
                        greatest(f.list.row_rects@.len() as int, 1),
                    ) as usize,
                ),
            );
            assert(before + a + b + c =~= before + (a + b + c));
        }
        rows
    }

    fn paint_lower(&self, out: &mut Vec<Paint>, f: RecipesSheet<'_>) -> (r: bool)
        ensures
            picture(final(out)@) == picture(old(out)@) + self.model().lower_part(f),
            r == self.model().shows_field(f),
    {
        let ghost before = picture(out@);
        let ghost m = self.model();
        let s = split_sections(
            f.resolved.body,
            !f.resolved.compact,
            f.notes.len(),
            self.state.control == RecipeDialogControl::Input,
        );
        self.paint_notes(out, f, s);
        let field = self.paint_field(out, f, s);
        proof {
            reveal(RecipesModel::lower_part);
            let (a, b) = (m.notes_part(f, f.notes@.len() as int), m.field_part(f));
            assert(before + a + b =~= before + (a + b));
        }
        field
    }

    fn paint_body(&self, out: &mut Vec<Paint>, f: RecipesSheet<'_>) -> (r: (
        Vec<(Rect, usize)>,
        bool,
    ))
        requires
            f.fits(self.model()),
        ensures
            picture(final(out)@) == picture(old(out)@) + self.model().body_part(f),
            r.0@ == self.model().shown_rows(f),
            r.1 == self.model().shows_field(f),
    {
        let ghost before = picture(out@);
        let ghost m = self.model();
        let rows = self.paint_upper(out, f);
        let field = self.paint_lower(out, f);
        assert(before + m.upper_part(f) + m.lower_part(f) =~= before + m.body_part(f));
        (rows, field)
    }

    fn paint_tail(&self, out: &mut Vec<Paint>, f: RecipesSheet<'_>)
        requires
            f.fits(self.model()),
        ensures
            picture(final(out)@) == picture(old(out)@) + self.model().tail_part(f),
    {
        let ghost before = picture(out@);
        let (state, text) = self.message();
        put(out, Paint::Message { area: f.resolved.message, state, text });
        put(
            out,
            Paint::Help { area: f.resolved.help, text: help_text(self.state.mode).to_owned() },
        );
        self.paint_buttons(out, f);
        self.paint_more(out, f);
        assert(picture(out@) =~= before + self.model().tail_part(f));
    }

    fn draw(&mut self, f: RecipesSheet<'_>) -> (r: (Vec<Paint>, Surface))
        requires
            f.fits(old(self).model()),
        ensures
            picture(r.0@) == old(self).model().picture(f),
            r.1 == old(self).model().covered(f),
            final(self).model() == (RecipesModel {
                geometry: final(self).model().geometry,
                surface: r.1,
                ..old(self).model()
            }),
            f.empty() ==> final(self).model().geometry.blank(),
            !f.empty() ==> final(self).model().geometry.rows@ == old(self).model().shown_rows(f),
            !f.empty() ==> final(self).model().geometry.controls@ == old(self).model().control_areas(
                f,
            ),
            !f.empty() ==> final(self).model().geometry.menu@ == old(self).model().menu_areas(f),
    {
        let ghost m = self.model();
        let mut out: Vec<Paint> = Vec::new();
        assert(picture(out@) =~= seq![]);
        put(&mut out, Paint::Frame { title: self.title() });
        assert(picture(out@) =~= seq![Drawn::Frame { title: m.title() }]);
        let mut surface = Surface {
            popup: f.resolved.frame,
            interior: f.resolved.interior,
            caret: None,
            scrollable: false,
            text_focus: self.editing(),
        };
        if f.resolved.body.width == 0 || f.resolved.body.height == 0 {
            let surface = self.record(RecipeGeometry::default(), None, surface);
            return (out, surface);
        }
        let (rows, field) = self.paint_body(&mut out, f);
        let overflow = &f.resolved.actions.overflow;
        let controls = self.control_regions(
            if field {
                Some(f.input)
            } else {
                None
            },
            &f.resolved.actions.buttons,
            overflow.len() > 0,
            f.resolved.actions.more,
        );
        self.paint_tail(&mut out, f);
        surface.scrollable = f.list.scrollbar.is_some();
        let mut menu_regions: Vec<(Rect, usize)> = Vec::new();
        let ghost drawn_so_far = picture(out@);
        let hung = if self.state.menu_open && find_menu_anchor(&controls).is_some() {
            f.menu
        } else {
            None
        };
        if let Some(menu) = hung {
            menu_regions = self.paint_menu(&mut out, f, menu);
            surface.popup = surface.popup.union(menu.popup);
            if menu.scrollbar.is_some() {
                surface.scrollable = true;
            }
        }
        proof {
            let (a, b, c, d) = (
                seq![Drawn::Frame { title: m.title() }],
                m.body_part(f),
                m.tail_part(f),
                m.popup_part(f),
            );
            assert(picture(out@) =~= a + b + c + d);
        }
        let surface = self.record(
            RecipeGeometry { controls, rows, menu: menu_regions },
            if field {
                f.caret
            } else {
                None
            },
            surface,
        );
        (out, surface)
    }

    /// Draws a frame and remembers where it drew what can be clicked.
    pub fn render(&mut self, f: RecipesFrame<'_>) -> (r: (Vec<Paint>, Surface))
        requires
            f.fits(old(self).model()),
        ensures
            exists|s: RecipesSheet<'_>| #[trigger]
                s.is_of(old(self).model(), f) && {
                    let before = old(self).model();
                    let after = final(self).model();
                    &&& picture(r.0@) == before.picture(s)
                    &&& r.1 == before.covered(s)
                    &&& after == (RecipesModel {
                        geometry: after.geometry,
                        surface: r.1,
                        ..before
                    })
                    &&& s.empty() ==> after.geometry.blank()
                    &&& !s.empty() ==> after.geometry.rows@ == before.shown_rows(s)
                    &&& !s.empty() ==> after.geometry.controls@ == before.control_areas(s)
                    &&& !s.empty() ==> after.geometry.menu@ == before.menu_areas(s)
                },
    {
        let said = self.notes();
        assert(notes_view(said@).len() == said@.len());
        let notes = assemble_notes(&said, f.wrapped);
        let sheet = RecipesSheet {
            resolved: f.resolved,
            list: f.list,
            notes: &notes,
            dates: f.dates,
            input: f.input,
            caret: f.caret,
            menu: f.menu,
            standing: f.standing,
            theme: f.theme,
            ascii: f.ascii,
        };
        assert(sheet.is_of(self.model(), f));
        self.draw(sheet)
    }

    /// A frame is too small to draw anything in.
    pub fn render_unfit(&mut self) -> (r: Surface)
        ensures
            r == (Surface {
                text_focus: !old(self).model().menu_open,
                ..Surface::nothing()
            }),
            final(self).model().geometry.blank(),
            final(self).model() == (RecipesModel {
                geometry: final(self).model().geometry,
                surface: r,
                ..old(self).model()
            }),
    {
        let mut surface = Surface::default();
        surface.text_focus = self.editing();
        self.record(RecipeGeometry::default(), None, surface)
    }
}

proof fn rows_are_shown(m: RecipesModel, f: RecipesSheet<'_>, n: int)
    requires
        0 <= n <= m.shown_rows(f).len(),
    ensures
        all_shown(m.rows_part(f, n), m.shown_rows(f).take(n)),
    decreases n,
{
    let rows = m.shown_rows(f);
    assert(rows.take(0) =~= seq![]);
    if n > 0 {
        rows_are_shown(m, f, n - 1);
        assert(rows.take(n) =~= rows.take(n - 1).push(rows[n - 1]));
        let before = m.rows_part(f, n - 1);
        let next = m.rows_part(f, n).skip(before.len() as int);
        assert(m.rows_part(f, n) =~= before + next);
        shown_next(before, rows.take(n - 1), next, rows[n - 1]);
    }
}

proof fn menu_is_shown(m: RecipesModel, f: RecipesSheet<'_>, n: int)
    requires
        0 <= n <= m.menu_areas(f).len(),
    ensures
        all_shown(m.menu_part(f, n), m.menu_areas(f).take(n)),
    decreases n,
{
    let rows = m.menu_areas(f);
    assert(rows.take(0) =~= seq![]);
    if n > 0 {
        menu_is_shown(m, f, n - 1);
        assert(rows.take(n) =~= rows.take(n - 1).push(rows[n - 1]));
        let before = m.menu_part(f, n - 1);
        let next = m.menu_part(f, n).skip(before.len() as int);
        assert(m.menu_part(f, n) =~= before + next);
        shown_next(before, rows.take(n - 1), next, rows[n - 1]);
    }
}

proof fn buttons_are_shown(m: RecipesModel, f: RecipesSheet<'_>, n: int)
    requires
        0 <= n <= f.resolved.actions.buttons@.len(),
    ensures
        all_shown(
            m.buttons_part(f, n),
            button_regions(m.actions(), f.resolved.actions.buttons@, f.hides(), n),
        ),
    decreases n,
{
    if n > 0 {
        buttons_are_shown(m, f, n - 1);
        let buttons = f.resolved.actions.buttons@;
        let places = button_regions(m.actions(), buttons, f.hides(), n - 1);
        let control = m.actions()[buttons[n - 1].0 as int];
        let before = m.buttons_part(f, n - 1);
        let next = m.buttons_part(f, n).skip(before.len() as int);
        assert(m.buttons_part(f, n) =~= before + next);
        if f.hides() && control == RecipeDialogControl::More {
            assert(next =~= seq![]);
            assert(before + next =~= before);
        } else {
            shown_next(before, places, next, (buttons[n - 1].1, control));
        }
    }
}

/// Every row, button and menu row that can be clicked was drawn in the frame
/// that recorded it.
pub proof fn clickable_is_drawn(m: RecipesModel, f: RecipesSheet<'_>)
    requires
        !f.empty(),
    ensures
        all_shown(m.picture(f), m.shown_rows(f)),
        all_shown(m.picture(f), m.menu_areas(f)),
        forall|i: int|
            0 <= i < m.control_areas(f).len() && m.control_areas(f)[i].1
                != RecipeDialogControl::Input ==> shows(
                m.picture(f),
                (#[trigger] m.control_areas(f)[i]).0,
            ),
{
    reveal(RecipesModel::upper_part);
    let rows = m.shown_rows(f);
    let count = rows.len() as int;
    rows_are_shown(m, f, count);
    assert(rows.take(count) =~= rows);
    let body_end: int = 1int + m.body_part(f).len();
    if m.items.len() > 0 {
        shown_inside(m.upper_part(f), m.rows_part(f, count), m.heading_part(f).len() as int, rows);
        shown_inside(m.picture(f), m.upper_part(f), 1, rows);
    }
    let menu = m.menu_areas(f);
    if m.shown_menu(f) is Some {
        menu_is_shown(m, f, menu.len() as int);
        assert(menu.take(menu.len() as int) =~= menu);
        shown_inside(m.popup_part(f), m.menu_part(f, menu.len() as int), 2, menu);
        shown_inside(
            m.picture(f),
            m.popup_part(f),
            body_end + m.tail_part(f).len(),
            menu,
        );
    }
    let all = f.resolved.actions.buttons@.len() as int;
    let placed = button_regions(m.actions(), f.resolved.actions.buttons@, f.hides(), all);
    buttons_are_shown(m, f, all);
    let last = match f.resolved.actions.more {
        Some(area) => if f.hides() {
            seq![(area, RecipeDialogControl::More)]
        } else {
            seq![]
        },
        None => seq![],
    };
    if last.len() > 0 {
        assert(m.more_part(f)[0].is_on(last[0].0));
        assert(shows(m.more_part(f), last[0].0));
    }
    shown_together(m.buttons_part(f, all), placed, m.more_part(f), last);
    let controls = m.buttons_part(f, all) + m.more_part(f);
    shown_inside(m.tail_part(f), controls, 2, placed + last);
    shown_inside(m.picture(f), m.tail_part(f), body_end, placed + last);
    let typed = m.control_areas(f).len() - (placed + last).len();
    assert forall|i: int|
        0 <= i < m.control_areas(f).len() && m.control_areas(f)[i].1
            != RecipeDialogControl::Input implies shows(
        m.picture(f),
        (#[trigger] m.control_areas(f)[i]).0,
    ) by {
        if i >= typed {
            assert(m.control_areas(f)[i] == (placed + last)[i - typed]);
        }
    }
}

} // verus!
