//! A frame of the Storage layer as a list of things to draw.

use super::{
    caption_row, cleanup_label, diagnostics_panes, entry_columns, entry_line, entry_text,
    entry_widths, of_limit, storage_diagnostics_area, storage_hits, storage_list_area,
    storage_split, storage_surface, summary_cell, summary_cells, summary_figures, summary_height,
    STORAGE_CAPTION, StorageDialog, StorageFigures, StorageGeometry, StorageModel, StorageSections,
};
use crate::component::Surface;
use crate::dialog_controls::{
    button_style, role_at, role_look, role_style, ButtonRole, DialogStyles,
};
use crate::dialog_layout::{
    button_areas, item_rows, menu_rows, rows_of_menu, rows_with_items, AnchoredGeometry,
    ListGeometry, ResolvedDialog, ScrollViewport, PANE_INDENT,
};
use crate::geometry::{greatest, least, minus, sat16, Rect};
use crate::paint::{
    all_shown, bar_if, if_drawn, picture, put, put_bar, put_text, shown_inside, shown_next, shows,
    text_at, Drawn, Fit, Paint,
};
use crate::style::{Style, Theme};
use crate::text::{join, joined, texts};
use crate::width::{wrapped_line_count, MAX_WRAP_WIDTH};
use vstd::prelude::*;

verus! {

/// What a frame is drawn from: how it is divided, and what was measured and
/// written for it.
#[derive(Clone, Copy, Debug)]
pub struct StorageFrame<'a> {
    pub resolved: &'a ResolvedDialog,
    pub figures: &'a StorageFigures,
    pub list: &'a ListGeometry,
    /// The count beside the list's heading, cut to its room.
    pub count: &'a String,
    /// The sizes of the entries in words.
    pub sizes: &'a Vec<String>,
    /// The entries' statuses, cut to their column.
    pub statuses: &'a Vec<String>,
    /// What shows of the diagnostics.
    pub scrolled: ScrollViewport,
    /// Where the menu hangs, where it has something to hang on.
    pub menu: Option<AnchoredGeometry>,
    pub theme: Theme,
    pub ascii: bool,
}

impl StorageFrame<'_> {
    pub open spec fn empty(self) -> bool {
        self.resolved.body.width == 0 || self.resolved.body.height == 0
    }

    /// The frame shows what the dialog has.
    pub open spec fn fits(self, m: StorageModel) -> bool {
        &&& m.divided(self).diagnostics is Some ==> self.resolved.body.width <= MAX_WRAP_WIDTH
        &&& self.sizes@.len() == m.snapshot.entries@.len()
        &&& self.statuses@.len() == m.snapshot.entries@.len()
        &&& forall|i: int|
            0 <= i < self.resolved.actions.buttons@.len() ==> (
            #[trigger] self.resolved.actions.buttons@[i]).0 < 2
        &&& forall|i: int|
            0 <= i < self.resolved.actions.overflow@.len() ==> (
            #[trigger] self.resolved.actions.overflow@[i]) < 2
    }
}

/// A labelled figure of the summary.
pub open spec fn figure(figures: StorageFigures, index: int) -> (Seq<char>, Seq<char>) {
    if index == 0 {
        ("Row cache"@, of_limit(figures.row_cache@, figures.row_cache_limit@))
    } else if index == 1 {
        ("Membership"@, of_limit(figures.query_index@, figures.query_index_limit@))
    } else if index == 2 {
        ("Derived disk"@, of_limit(figures.total@, figures.total_limit@))
    } else {
        ("Per source"@, figures.per_source_limit@ + " cap"@)
    }
}

impl StorageModel {
    /// How the body of a frame is divided.
    pub open spec fn divided(self, f: StorageFrame<'_>) -> StorageSections {
        let body = f.resolved.body;
        let width = f.resolved.content_width as int;
        let roomy = !f.resolved.compact;
        let split = storage_split(
            body.height as int,
            width,
            roomy,
            joined(texts(self.snapshot.errors@), "\n"@).len() > 0,
            self.scroll_focused,
        );
        let list = storage_list_area(body, width, roomy, split);
        StorageSections {
            summary: split.summary,
            list,
            diagnostics: storage_diagnostics_area(body, roomy, list, split),
        }
    }

    /// The first `n` figures of the summary.
    pub open spec fn figures_part(self, f: StorageFrame<'_>, n: int) -> Seq<Drawn>
        decreases n,
    {
        if n <= 0 {
            seq![]
        } else {
            let styles = DialogStyles::of(f.theme);
            let (label, value) = figure(*f.figures, n - 1);
            self.figures_part(f, n - 1) + (match summary_cells(
                f.resolved.body,
                f.resolved.content_width >= 72,
                n - 1,
            ) {
                None => seq![],
                Some((left, right)) => seq![text_at(left, label, styles.label, Fit::Whole)] + (
                match right {
                    Some(area) => seq![text_at(area, value, styles.description, Fit::Truncated)],
                    None => seq![],
                }),
            })
        }
    }

    pub open spec fn summary_part(self, f: StorageFrame<'_>) -> Seq<Drawn> {
        let body = f.resolved.body;
        let y = sat16(body.y + summary_height(f.resolved.content_width as int) - 1);
        if self.divided(f).summary {
            self.figures_part(f, 4) + if_drawn(
                y < body.spec_bottom(),
                text_at(
                    Rect::spec_new(body.x, y as u16, body.width, 1),
                    STORAGE_CAPTION@,
                    DialogStyles::of(f.theme).description,
                    Fit::Truncated,
                ),
            )
        } else {
            seq![]
        }
    }

    /// The entry that is drawn as selected.
    pub open spec fn drawn_entry(self) -> int {
        least(self.selected, minus(self.snapshot.entries@.len() as int, 1))
    }

    /// The text of an entry's row.
    pub open spec fn entry_row(self, f: StorageFrame<'_>, index: int) -> Seq<char> {
        let entry = self.snapshot.entries@[index];
        let (name, status) = entry_widths(f.list.viewport.width as int);
        entry_line(
            entry.category,
            entry.label@,
            f.sizes@[index]@,
            index == self.drawn_entry(),
            f.ascii,
            name,
        ) + (if status > 0 {
            f.statuses@[index]@
        } else {
            seq![]
        })
    }

    pub open spec fn shown_rows(self, f: StorageFrame<'_>) -> Seq<(Rect, usize)> {
        item_rows(
            f.list.row_rects@,
            f.list.first_row as int,
            self.snapshot.entries@.len() as int,
        )
    }

    /// The first `n` rows of the list.
    pub open spec fn rows_part(self, f: StorageFrame<'_>, n: int) -> Seq<Drawn>
        decreases n,
    {
        if n <= 0 {
            seq![]
        } else {
            let styles = DialogStyles::of(f.theme);
            let (row, index) = self.shown_rows(f)[n - 1];
            self.rows_part(f, n - 1) + seq![
                text_at(
                    row,
                    self.entry_row(f, index as int),
                    if index == self.drawn_entry() {
                        styles.selection
                    } else {
                        styles.description
                    },
                    Fit::Truncated,
                ),
            ]
        }
    }

    pub open spec fn list_part(self, f: StorageFrame<'_>) -> Seq<Drawn> {
        let styles = DialogStyles::of(f.theme);
        if self.divided(f).list.height == 0 {
            seq![]
        } else {
            seq![
                text_at(
                    f.list.heading,
                    "Entries"@,
                    Style { bold: true, ..styles.label },
                    Fit::Whole,
                ),
            ] + if_drawn(
                f.list.count.width > 0,
                Drawn::Text {
                    area: f.list.count,
                    text: f.count@,
                    style: styles.description,
                    fit: Fit::Whole,
                    right: true,
                },
            ) + self.rows_part(f, self.shown_rows(f).len() as int) + bar_if(
                f.list.scrollbar,
                f.list.first_row,
                minus(
                    self.snapshot.entries@.len() as int,
                    greatest(f.list.row_rects@.len() as int, 1),
                ) as usize,
            )
        }
    }

    /// How far the diagnostics scroll: the lines that they are broken into at the
    /// width of their pane, but for those that show.
    pub open spec fn limit(self, f: StorageFrame<'_>) -> usize {
        match self.divided(f).diagnostics {
            None => 0,
            Some(area) => {
                let width = greatest(minus(area.width as int, PANE_INDENT as int), 1) as u16;
                minus(
                    wrapped_line_count(joined(texts(self.snapshot.errors@), "\n"@), width) as int,
                    minus(area.height as int, 1),
                ) as usize
            },
        }
    }

    pub open spec fn diagnostics_part(self, f: StorageFrame<'_>) -> Seq<Drawn> {
        let styles = DialogStyles::of(f.theme);
        let view = f.scrolled.viewport;
        match self.divided(f).diagnostics {
            None => seq![],
            Some(area) => seq![
                text_at(
                    Rect::spec_new(area.x, area.y, area.width, least(1, area.height as int) as u16),
                    "Diagnostics"@,
                    if self.scroll_focused {
                        Style { bold: true, ..styles.shortcut }
                    } else {
                        Style { bold: true, ..styles.label }
                    },
                    Fit::Whole,
                ),
                Drawn::Wrapped {
                    area: Rect::spec_new(
                        view.x,
                        view.y,
                        if f.scrolled.scrollbar is Some {
                            minus(view.width as int, 1) as u16
                        } else {
                            view.width
                        },
                        view.height,
                    ),
                    text: joined(texts(self.snapshot.errors@), "\n"@),
                    style: styles.error,
                    first: sat16(f.scrolled.first_row as int) as usize,
                },
            ] + bar_if(f.scrolled.scrollbar, f.scrolled.first_row, self.limit(f)),
        }
    }

    pub open spec fn button_text(self, index: usize) -> Seq<char> {
        if index == 0 {
            "&Refresh"@
        } else {
            cleanup_label(self.confirm_clear)
        }
    }

    pub open spec fn destructive(self) -> Seq<usize> {
        if self.confirm_clear {
            seq![1usize]
        } else {
            seq![]
        }
    }

    /// The first `n` buttons.
    pub open spec fn buttons_part(self, f: StorageFrame<'_>, n: int) -> Seq<Drawn>
        decreases n,
    {
        if n <= 0 {
            seq![]
        } else {
            let (index, area) = f.resolved.actions.buttons@[n - 1];
            self.buttons_part(f, n - 1) + seq![
                Drawn::Button {
                    area,
                    label: self.button_text(index),
                    style: role_look(f.theme, role_at(self.destructive(), Some(0), index), false),
                },
            ]
        }
    }

    /// The button of the overflow menu.
    pub open spec fn more(self, f: StorageFrame<'_>) -> Option<Rect> {
        if f.resolved.actions.overflow@.len() > 0 {
            f.resolved.actions.more
        } else {
            None
        }
    }

    pub open spec fn more_part(self, f: StorageFrame<'_>) -> Seq<Drawn> {
        match self.more(f) {
            Some(area) => seq![
                Drawn::Button {
                    area,
                    label: if f.ascii {
                        "More v"@
                    } else {
                        "More \u{25be}"@
                    },
                    style: role_look(f.theme, ButtonRole::Normal, false),
                },
            ],
            None => seq![],
        }
    }

    /// Where the open menu hangs.
    pub open spec fn shown_menu(self, f: StorageFrame<'_>) -> Option<AnchoredGeometry> {
        if self.menu_open && self.more(f) is Some {
            f.menu
        } else {
            None
        }
    }

    /// The first `n` rows of the open menu.
    pub open spec fn menu_part(self, f: StorageFrame<'_>, menu: AnchoredGeometry, n: int) -> Seq<Drawn>
        decreases n,
    {
        if n <= 0 {
            seq![]
        } else {
            let styles = DialogStyles::of(f.theme);
            let hidden = f.resolved.actions.overflow@;
            let (row, index) = menu_rows(menu, hidden)[n - 1];
            self.menu_part(f, menu, n - 1) + seq![
                text_at(
                    row,
                    self.button_text(index),
                    if menu.first_item + n - 1 == least(
                        self.menu_selected,
                        minus(hidden.len() as int, 1),
                    ) {
                        styles.selection
                    } else {
                        Style { bg: Some(f.theme.dialog_bg), ..styles.label }
                    },
                    Fit::Whole,
                ),
            ]
        }
    }

    pub open spec fn popup_part(self, f: StorageFrame<'_>) -> Seq<Drawn> {
        let hidden = f.resolved.actions.overflow@;
        match self.shown_menu(f) {
            Some(menu) => seq![
                Drawn::Clear { area: menu.popup },
                Drawn::Border { area: menu.popup, style: DialogStyles::of(f.theme).label },
            ] + self.menu_part(f, menu, menu_rows(menu, hidden).len() as int) + bar_if(
                menu.scrollbar,
                menu.first_item,
                minus(hidden.len() as int, menu.viewport.height as int) as usize,
            ),
            None => seq![],
        }
    }

    /// The message and the buttons.
    pub open spec fn tail_part(self, f: StorageFrame<'_>) -> Seq<Drawn> {
        seq![
            Drawn::Message {
                area: f.resolved.message,
                state: self.message().0,
                text: self.message().1,
            },
        ] + self.buttons_part(f, f.resolved.actions.buttons@.len() as int) + self.more_part(f)
            + self.popup_part(f)
    }

    /// A frame, thing by thing.
    pub open spec fn picture(self, f: StorageFrame<'_>) -> Seq<Drawn> {
        let frame = seq![Drawn::Frame { title: "Storage"@ }];
        if f.empty() {
            frame
        } else {
            frame + self.summary_part(f) + self.list_part(f) + self.diagnostics_part(f)
                + self.tail_part(f)
        }
    }

    pub open spec fn shown_list(self, f: StorageFrame<'_>) -> Option<ListGeometry> {
        if self.divided(f).list.height > 0 {
            Some(*f.list)
        } else {
            None
        }
    }

    pub open spec fn shown_diagnostics(self, f: StorageFrame<'_>) -> Option<ScrollViewport> {
        if self.divided(f).diagnostics is Some {
            Some(f.scrolled)
        } else {
            None
        }
    }

    /// What a frame covers.
    pub open spec fn covered(self, f: StorageFrame<'_>) -> Surface {
        if f.empty() {
            Surface {
                popup: f.resolved.frame,
                interior: f.resolved.interior,
                caret: None,
                scrollable: false,
                text_focus: false,
            }
        } else {
            storage_surface(
                self,
                *f.resolved,
                self.shown_list(f),
                self.shown_diagnostics(f),
                f.menu,
                self.more(f),
            )
        }
    }
}

impl StorageDialog {
    fn paint_figure(&self, out: &mut Vec<Paint>, f: StorageFrame<'_>, index: u16, label: &str, value: &str)
        requires
            (label@, value@) == figure(*f.figures, index as int),
        ensures
            picture(final(out)@) == picture(old(out)@) + self.model().figures_part(
                f,
                index + 1,
            ).skip(self.model().figures_part(f, index as int).len() as int),
    {
        let ghost before = picture(out@);
        let ghost m = self.model();
        let styles = DialogStyles::new(f.theme);
        let paired = f.resolved.content_width >= 72;
        let cell = summary_cell(f.resolved.body, paired, index);
        if let Some((left, right)) = cell {
            put_text(out, left, label.to_owned(), styles.label, Fit::Whole);
            if let Some(area) = right {
                put_text(out, area, value.to_owned(), styles.description, Fit::Truncated);
            }
        }
        proof {
            let shorter = m.figures_part(f, index as int);
            assert(picture(out@) =~= before + m.figures_part(f, index + 1).skip(
                shorter.len() as int,
            ));
        }
    }

    fn paint_summary(&self, out: &mut Vec<Paint>, f: StorageFrame<'_>, shown: bool)
        requires
            shown == self.model().divided(f).summary,
        ensures
            picture(final(out)@) == picture(old(out)@) + self.model().summary_part(f),
    {
        let ghost before = picture(out@);
        let ghost m = self.model();
        let styles = DialogStyles::new(f.theme);
        if !shown {
            assert(picture(out@) =~= before + m.summary_part(f));
            return;
        }
        let figures = summary_figures(f.figures);
        let mut i: usize = 0;
        assert(before + m.figures_part(f, 0) =~= before);
        while i < 4
            invariant
                i <= 4,
                m == self.model(),
                figures@.len() == 4,
                forall|j: int|
                    0 <= j < 4 ==> ((#[trigger] figures@[j]).0@, figures@[j].1@) == figure(
                        *f.figures,
                        j,
                    ),
                picture(out@) == before + m.figures_part(f, i as int),
            decreases 4 - i,
        {
            let (label, value) = &figures[i];
            self.paint_figure(out, f, i as u16, label, value.as_str());
            proof {
                let part = m.figures_part(f, i + 1);
                let shorter = m.figures_part(f, i as int);
                assert(part.take(shorter.len() as int) =~= shorter);
                assert(part =~= shorter + part.skip(shorter.len() as int));
                assert(picture(out@) =~= before + part);
            }
            i += 1;
        }
        if let Some(area) = caption_row(f.resolved.body, f.resolved.content_width) {
            put_text(out, area, STORAGE_CAPTION.to_owned(), styles.description, Fit::Truncated);
        }
        assert(picture(out@) =~= before + m.summary_part(f));
    }

    fn drawn_entry(&self) -> (r: usize)
        ensures
            r == self.model().drawn_entry(),
    {
        let last: usize = self.snapshot.entries.len().saturating_sub(1);
        if self.selected < last {
            self.selected
        } else {
            last
        }
    }

    fn entry_row(&self, f: StorageFrame<'_>, index: usize) -> (r: String)
        requires
            f.fits(self.model()),
            index < self.model().snapshot.entries@.len(),
        ensures
            r@ == self.model().entry_row(f, index as int),
    {
        let (name, status) = entry_columns(f.list.viewport.width);
        let mut text = entry_text(
            &self.snapshot.entries[index],
            f.sizes[index].as_str(),
            index == self.drawn_entry(),
            f.ascii,
            name,
        );
        if status > 0 {
            text.append(f.statuses[index].as_str());
        }
        assert(text@ =~= self.model().entry_row(f, index as int));
        text
    }

    fn paint_list(&self, out: &mut Vec<Paint>, f: StorageFrame<'_>, shown: bool)
        requires
            f.fits(self.model()),
            shown == (self.model().divided(f).list.height > 0),
        ensures
            picture(final(out)@) == picture(old(out)@) + self.model().list_part(f),
    {
        let ghost before = picture(out@);
        let ghost m = self.model();
        let styles = DialogStyles::new(f.theme);
        if !shown {
            assert(picture(out@) =~= before + m.list_part(f));
            return;
        }
        put_text(out, f.list.heading, "Entries".to_owned(), styles.label.bold(), Fit::Whole);
        if f.list.count.width > 0 {
            put(
                out,
                Paint::Text {
                    area: f.list.count,
                    text: f.count.clone(),
                    style: styles.description,
                    fit: Fit::Whole,
                    right: true,
                },
            );
        }
        let total: usize = self.snapshot.entries.len();
        let rows = rows_with_items(&f.list.row_rects, f.list.first_row, total);
        let chosen: usize = self.drawn_entry();
        let ghost lead = picture(out@);
        let mut i: usize = 0;
        assert(lead + m.rows_part(f, 0) =~= lead);
        while i < rows.len()
            invariant
                i <= rows@.len(),
                m == self.model(),
                f.fits(m),
                chosen == m.drawn_entry(),
                styles == DialogStyles::of(f.theme),
                rows@ == m.shown_rows(f),
                picture(out@) == lead + m.rows_part(f, i as int),
            decreases rows.len() - i,
        {
            let (row, index) = rows[i];
            assert(m.shown_rows(f)[i as int] == (row, index));
            put_text(
                out,
                row,
                self.entry_row(f, index),
                if index == chosen {
                    styles.selection
                } else {
                    styles.description
                },
                Fit::Truncated,
            );
            assert(picture(out@) =~= lead + m.rows_part(f, i + 1));
            i += 1;
        }
        let visible: usize = if f.list.row_rects.len() > 1 {
            f.list.row_rects.len()
        } else {
            1
        };
        put_bar(out, f.list.scrollbar, f.list.first_row, total.saturating_sub(visible));
        assert(picture(out@) =~= before + m.list_part(f));
    }

    fn paint_diagnostics(
        &self,
        out: &mut Vec<Paint>,
        f: StorageFrame<'_>,
        area: Option<Rect>,
        limit: usize,
    )
        requires
            area == self.model().divided(f).diagnostics,
            limit == self.model().limit(f),
        ensures
            picture(final(out)@) == picture(old(out)@) + self.model().diagnostics_part(f),
    {
        let ghost before = picture(out@);
        let ghost m = self.model();
        let styles = DialogStyles::new(f.theme);
        let view = f.scrolled.viewport;
        if let Some(area) = area {
            put_text(
                out,
                Rect::new(
                    area.x,
                    area.y,
                    area.width,
                    if area.height > 0 {
                        1
                    } else {
                        0
                    },
                ),
                "Diagnostics".to_owned(),
                if self.scroll_focused {
                    styles.shortcut.bold()
                } else {
                    styles.label.bold()
                },
                Fit::Whole,
            );
            put(
                out,
                Paint::Wrapped {
                    area: Rect::new(
                        view.x,
                        view.y,
                        if f.scrolled.scrollbar.is_some() {
                            view.width.saturating_sub(1)
                        } else {
                            view.width
                        },
                        view.height,
                    ),
                    text: join(&self.snapshot.errors, "\n"),
                    style: styles.error,
                    first: if f.scrolled.first_row < 65535 {
                        f.scrolled.first_row
                    } else {
                        65535
                    },
                },
            );
            put_bar(out, f.scrolled.scrollbar, f.scrolled.first_row, limit);
        }
        assert(picture(out@) =~= before + m.diagnostics_part(f));
    }

    fn button_word(&self, index: usize) -> (r: &'static str)
        requires
            index < 2,
        ensures
            r@ == self.model().button_text(index),
    {
        let labels = self.action_labels();
        labels[index]
    }

    fn paint_buttons(&self, out: &mut Vec<Paint>, f: StorageFrame<'_>)
        requires
            f.fits(self.model()),
        ensures
            picture(final(out)@) == picture(old(out)@) + self.model().buttons_part(
                f,
                f.resolved.actions.buttons@.len() as int,
            ),
    {
        let ghost before = picture(out@);
        let ghost m = self.model();
        let buttons = &f.resolved.actions.buttons;
        let mut i: usize = 0;
        assert(before + m.buttons_part(f, 0) =~= before);
        while i < buttons.len()
            invariant
                i <= buttons@.len(),
                m == self.model(),
                f.fits(m),
                buttons@ == f.resolved.actions.buttons@,
                picture(out@) == before + m.buttons_part(f, i as int),
            decreases buttons.len() - i,
        {
            let (index, area) = buttons[i];
            assert(f.resolved.actions.buttons@[i as int] == (index, area));
            put(
                out,
                Paint::Button {
                    area,
                    label: self.button_word(index).to_owned(),
                    style: role_style(f.theme, self.action_role(index), false),
                },
            );
            assert(picture(out@) =~= before + m.buttons_part(f, i + 1));
            i += 1;
        }
    }

    fn paint_more(&self, out: &mut Vec<Paint>, f: StorageFrame<'_>) -> (r: bool)
        ensures
            picture(final(out)@) == picture(old(out)@) + self.model().more_part(f),
            r == self.model().more(f) is Some,
    {
        let ghost before = picture(out@);
        let more = if f.resolved.actions.overflow.len() > 0 {
            f.resolved.actions.more
        } else {
            None
        };
        if let Some(area) = more {
            put(
                out,
                Paint::Button {
                    area,
                    label: (if f.ascii {
                        "More v"
                    } else {
                        "More \u{25be}"
                    }).to_owned(),
                    style: role_style(f.theme, ButtonRole::Normal, false),
                },
            );
        }
        assert(picture(out@) =~= before + self.model().more_part(f));
        more.is_some()
    }

    fn paint_menu(&self, out: &mut Vec<Paint>, f: StorageFrame<'_>, menu: AnchoredGeometry)
        requires
            f.fits(self.model()),
            self.model().shown_menu(f) == Some(menu),
        ensures
            picture(final(out)@) == picture(old(out)@) + self.model().popup_part(f),
    {
        let ghost before = picture(out@);
        let ghost m = self.model();
        let styles = DialogStyles::new(f.theme);
        let hidden = &f.resolved.actions.overflow;
        let count: usize = hidden.len();
        let last: usize = count.saturating_sub(1);
        let selected: usize = if self.menu_selected < last {
            self.menu_selected
        } else {
            last
        };
        put(out, Paint::Clear { area: menu.popup });
        put(out, Paint::Border { area: menu.popup, style: styles.label });
        let rows = rows_of_menu(menu, hidden);
        let ghost lead = picture(out@);
        let mut i: usize = 0;
        assert(lead + m.menu_part(f, menu, 0) =~= lead);
        while i < rows.len()
            invariant
                i <= rows@.len(),
                m == self.model(),
                f.fits(m),
                hidden@ == f.resolved.actions.overflow@,
                count == hidden@.len(),
                rows@ == menu_rows(menu, hidden@),
                styles == DialogStyles::of(f.theme),
                selected == least(m.menu_selected, minus(hidden@.len() as int, 1)),
                picture(out@) == lead + m.menu_part(f, menu, i as int),
            decreases rows.len() - i,
        {
            let (row, index) = rows[i];
            assert(menu_rows(menu, hidden@)[i as int] == (row, index));
            assert(menu.first_item + i < hidden@.len());
            assert(index == hidden@[menu.first_item + i]);
            assert(f.resolved.actions.overflow@[menu.first_item + i] < 2);
            put_text(
                out,
                row,
                self.button_word(index).to_owned(),
                if menu.first_item + i == selected {
                    styles.selection
                } else {
                    button_style(f.theme, false, false)
                },
                Fit::Whole,
            );
            assert(picture(out@) =~= lead + m.menu_part(f, menu, i + 1));
            i += 1;
        }
        put_bar(
            out,
            menu.scrollbar,
            menu.first_item,
            count.saturating_sub(menu.viewport.height as usize),
        );
        assert(picture(out@) =~= before + m.popup_part(f));
    }

    fn paint_tail(&self, out: &mut Vec<Paint>, f: StorageFrame<'_>)
        requires
            f.fits(self.model()),
        ensures
            picture(final(out)@) == picture(old(out)@) + self.model().tail_part(f),
    {
        let ghost before = picture(out@);
        let (state, text) = self.message();
        put(out, Paint::Message { area: f.resolved.message, state, text });
        self.paint_buttons(out, f);
        let more = self.paint_more(out, f);
        let hung = if self.menu_open && more {
            f.menu
        } else {
            None
        };
        if let Some(menu) = hung {
            self.paint_menu(out, f, menu);
        }
        assert(picture(out@) =~= before + self.model().tail_part(f));
    }

    /// Draws a frame and remembers where it drew what can be clicked.
    pub fn render(&mut self, f: StorageFrame<'_>) -> (r: (Vec<Paint>, Surface))
        requires
            f.fits(old(self).model()),
        ensures
            picture(r.0@) == old(self).model().picture(f),
            r.1 == old(self).model().covered(f),
            ({
                let before = old(self).model();
                let after = final(self).model();
                if f.empty() {
                    after.geometry.blank() && after == (StorageModel {
                        geometry: after.geometry,
                        scroll_limit: 0,
                        surface: r.1,
                        ..before
                    })
                } else {
                    &&& storage_hits(
                        before,
                        *f.resolved,
                        before.shown_list(f),
                        before.divided(f).diagnostics,
                        f.menu,
                        after.geometry,
                    )
                    &&& after == before.recorded(
                        super::StorageDrawn {
                            geometry: after.geometry,
                            surface: r.1,
                            scroll: if before.divided(f).diagnostics is Some {
                                f.scrolled.first_row
                            } else {
                                before.scroll as usize
                            },
                            scroll_limit: if before.divided(f).diagnostics is Some {
                                before.limit(f)
                            } else {
                                0
                            },
                        },
                    )
                }
            }),
    {
        let ghost m = self.model();
        let mut out: Vec<Paint> = Vec::new();
        assert(picture(out@) =~= seq![]);
        put(&mut out, Paint::Frame { title: "Storage".to_owned() });
        let body = f.resolved.body;
        if body.width == 0 || body.height == 0 {
            assert(picture(out@) =~= m.picture(f));
            let surface = Surface {
                popup: f.resolved.frame,
                interior: f.resolved.interior,
                caret: None,
                scrollable: false,
                text_focus: false,
            };
            self.record_nothing(surface);
            return (out, surface);
        }
        let parts = self.sections(body, f.resolved.content_width, !f.resolved.compact);
        assert(parts == m.divided(f));
        self.paint_summary(&mut out, f, parts.summary);
        self.paint_list(&mut out, f, parts.list.height > 0);
        let limit: usize = match parts.diagnostics {
            Some(area) => {
                let (_, pane) = diagnostics_panes(area);
                self.diagnostics(pane).1
            },
            None => 0,
        };
        self.paint_diagnostics(&mut out, f, parts.diagnostics, limit);
        self.paint_tail(&mut out, f);
        assert(picture(out@) =~= m.picture(f));
        let surface = self.lay_out(
            f.resolved,
            if parts.list.height > 0 {
                Some(f.list)
            } else {
                None
            },
            match parts.diagnostics {
                Some(area) => Some((area, limit, f.scrolled)),
                None => None,
            },
            f.menu,
        );
        (out, surface)
    }
}

proof fn rows_are_shown(m: StorageModel, f: StorageFrame<'_>, n: int)
    requires
        0 <= n <= m.shown_rows(f).len(),
    ensures
        all_shown(m.rows_part(f, n), m.shown_rows(f).take(n)),
    decreases n,
{
    let rows = m.shown_rows(f);
    assert(rows.take(0) =~= seq![]);
    if n > 0 {
        rows_are_shown(m, f, n - 1);
        assert(rows.take(n) =~= rows.take(n - 1).push(rows[n - 1]));
        let before = m.rows_part(f, n - 1);
        let next = m.rows_part(f, n).skip(before.len() as int);
        assert(m.rows_part(f, n) =~= before + next);
        shown_next(before, rows.take(n - 1), next, rows[n - 1]);
    }
}

proof fn menu_is_shown(m: StorageModel, f: StorageFrame<'_>, menu: AnchoredGeometry, n: int)
    requires
        0 <= n <= menu_rows(menu, f.resolved.actions.overflow@).len(),
    ensures
        all_shown(m.menu_part(f, menu, n), menu_rows(menu, f.resolved.actions.overflow@).take(n)),
    decreases n,
{
    let rows = menu_rows(menu, f.resolved.actions.overflow@);
    assert(rows.take(0) =~= seq![]);
    if n > 0 {
        menu_is_shown(m, f, menu, n - 1);
        assert(rows.take(n) =~= rows.take(n - 1).push(rows[n - 1]));
        let before = m.menu_part(f, menu, n - 1);
        let next = m.menu_part(f, menu, n).skip(before.len() as int);
        assert(m.menu_part(f, menu, n) =~= before + next);
        shown_next(before, rows.take(n - 1), next, rows[n - 1]);
    }
}

proof fn buttons_are_shown(m: StorageModel, f: StorageFrame<'_>, n: int)
    requires
        0 <= n <= f.resolved.actions.buttons@.len(),
    ensures
        all_shown(m.buttons_part(f, n), button_areas(f.resolved.actions.buttons@).take(n)),
    decreases n,
{
    let places = button_areas(f.resolved.actions.buttons@);
    assert(places.take(0) =~= seq![]);
    if n > 0 {
        buttons_are_shown(m, f, n - 1);
        assert(places.take(n) =~= places.take(n - 1).push(places[n - 1]));
        let before = m.buttons_part(f, n - 1);
        let next = m.buttons_part(f, n).skip(before.len() as int);
        assert(m.buttons_part(f, n) =~= before + next);
        shown_next(before, places.take(n - 1), next, places[n - 1]);
    }
}

/// Every entry, button and menu row that can be clicked was drawn in the frame
/// that recorded it, and so was the heading of the diagnostics that scroll.
pub proof fn clickable_is_drawn(m: StorageModel, f: StorageFrame<'_>, g: StorageGeometry)
    requires
        !f.empty(),
        storage_hits(m, *f.resolved, m.shown_list(f), m.divided(f).diagnostics, f.menu, g),
    ensures
        all_shown(m.picture(f), g.rows@),
        all_shown(m.picture(f), g.menu@),
        forall|i: int|
            0 <= i < g.actions@.len() ==> shows(m.picture(f), (#[trigger] g.actions@[i]).1),
        g.more matches Some(area) ==> shows(m.picture(f), area),
        g.diagnostics matches Some(area) ==> shows(m.picture(f), area),
{
    let all = m.picture(f);
    let summary: int = 1int + m.summary_part(f).len();
    let listed: int = summary + m.list_part(f).len();
    let told: int = listed + m.diagnostics_part(f).len();
    if m.shown_list(f) is Some {
        let rows = m.shown_rows(f);
        let count = rows.len() as int;
        rows_are_shown(m, f, count);
        assert(rows.take(count) =~= rows);
        let at: int = if f.list.count.width > 0 {
            2
        } else {
            1
        };
        shown_inside(m.list_part(f), m.rows_part(f, count), at, rows);
        shown_inside(all, m.list_part(f), summary, rows);
    }
    if let Some(area) = g.diagnostics {
        assert(all[listed] == m.diagnostics_part(f)[0]);
        assert(all[listed].is_on(area));
    }
    let places = button_areas(f.resolved.actions.buttons@);
    let count = places.len() as int;
    buttons_are_shown(m, f, count);
    assert(places.take(count) =~= places);
    shown_inside(m.tail_part(f), m.buttons_part(f, count), 1, places);
    shown_inside(all, m.tail_part(f), told, places);
    assert forall|i: int| 0 <= i < g.actions@.len() implies shows(
        all,
        (#[trigger] g.actions@[i]).1,
    ) by {
        assert(places[i].0 == g.actions@[i].1);
    }
    let after: int = 1int + m.buttons_part(f, count).len();
    if let Some(area) = g.more {
        assert(m.tail_part(f)[after] == m.more_part(f)[0]);
        assert(all[told + after] == m.more_part(f)[0]);
        assert(all[told + after].is_on(area));
    }
    if let Some(menu) = m.shown_menu(f) {
        let rows = menu_rows(menu, f.resolved.actions.overflow@);
        menu_is_shown(m, f, menu, rows.len() as int);
        assert(rows.take(rows.len() as int) =~= rows);
        shown_inside(m.popup_part(f), m.menu_part(f, menu, rows.len() as int), 2, rows);
        shown_inside(m.tail_part(f), m.popup_part(f), after + m.more_part(f).len(), rows);
        shown_inside(all, m.tail_part(f), told, rows);
    }
}

} // verus!
