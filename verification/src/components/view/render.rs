//! A frame of the View layer as a list of things to draw.

use super::frame::{
    apply_labels, apply_text, name_field, place_name_field, regions_of_buttons, regions_of_tabs,
    tab_regions, view_apply_label,
};
use super::{
    mode_place, ViewContext, ViewDialog, ViewDialogControl, ViewDialogMode, ViewGeometry, ViewModel,
};
use crate::component::Surface;
use crate::dialog_controls::{button_layout, is_button_layout, DialogStyles};
use crate::dialog_layout::{FrameRegions, PaneGeometry};
use crate::geometry::{minus, Rect};
use crate::paint::{
    all_shown, all_shown_among, bar_if, if_drawn, picture, put, put_bar, put_text, shown_inside,
    shown_next, text_at, Drawn, Fit, Paint,
};
use crate::style::{Style, Theme};
use crate::text::texts;
use vstd::prelude::*;

verus! {

/// What a frame is drawn from: how it is divided, and what was measured for it.
#[derive(Clone, Copy, Debug)]
pub struct ViewFrame<'a> {
    pub ctx: ViewContext<'a>,
    pub regions: FrameRegions,
    /// The segments of the header.
    pub tabs: &'a Vec<Rect>,
    /// The pane of the sources.
    pub pane: PaneGeometry,
    /// The caret of the name field.
    pub caret: Option<(u16, u16)>,
    pub theme: Theme,
    pub ascii: bool,
}

impl ViewFrame<'_> {
    pub open spec fn empty(self) -> bool {
        self.regions.content.width == 0
    }
}

impl ViewModel {
    pub open spec fn header_part(self, f: ViewFrame<'_>) -> Seq<Drawn> {
        let active = mode_place(self.mode) as usize;
        seq![
            Drawn::Frame {
                title: match f.ctx.read().view {
                    Some(view) => "View \u{b7} "@ + view.name,
                    None => "View"@,
                },
            },
            Drawn::Segments {
                area: f.regions.header,
                active,
                focused: if self.control == ViewDialogControl::Tabs {
                    Some(active)
                } else {
                    None
                },
            },
        ]
    }

    /// The first `n` rows of the sources.
    pub open spec fn rows_part(self, f: ViewFrame<'_>, n: int) -> Seq<Drawn>
        decreases n,
    {
        if n <= 0 {
            seq![]
        } else {
            let styles = DialogStyles::of(f.theme);
            let total = f.ctx.sources@.len() as int;
            let (row, index) = self.source_rows(total, f.pane.viewport)[n - 1];
            let source = f.ctx.sources@[index as int];
            self.rows_part(f, n - 1) + seq![
                text_at(
                    row,
                    self.row_text(index as int, source.id@, source.name@, f.ascii),
                    if index == self.selected {
                        styles.selection
                    } else {
                        styles.description
                    },
                    Fit::Clipped,
                ),
            ]
        }
    }

    pub open spec fn sources_part(self, f: ViewFrame<'_>) -> Seq<Drawn> {
        let styles = DialogStyles::of(f.theme);
        let total = f.ctx.sources@.len() as int;
        let visible = f.pane.viewport.height as int;
        seq![
            text_at(
                f.pane.heading,
                "Sources"@,
                Style { bold: true, ..styles.label },
                Fit::Whole,
            ),
        ] + if_drawn(
            f.pane.count.width > 0,
            Drawn::Text {
                area: f.pane.count,
                text: self.count(total),
                style: styles.description,
                fit: Fit::Whole,
                right: true,
            },
        ) + self.rows_part(f, self.source_rows(total, f.pane.viewport).len() as int) + bar_if(
            f.pane.scrollbar,
            self.first_row(total, visible) as usize,
            minus(total, visible) as usize,
        )
    }

    pub open spec fn name_part(self, f: ViewFrame<'_>) -> Seq<Drawn> {
        let content = f.regions.content;
        let field = name_field(content, f.regions.body.y);
        seq![
            text_at(
                Rect::spec_new(content.x, f.regions.body.y, content.width, 1),
                "Name"@,
                DialogStyles::of(f.theme).label,
                Fit::Whole,
            ),
        ] + if_drawn(
            field.width > 0,
            Drawn::Input { area: field, value: self.draft, place: self.caret_place() as usize },
        )
    }

    pub open spec fn body_part(self, f: ViewFrame<'_>) -> Seq<Drawn> {
        if self.mode == ViewDialogMode::Sources {
            self.sources_part(f)
        } else {
            self.name_part(f)
        }
    }

    pub open spec fn tail_part(self, f: ViewFrame<'_>) -> Seq<Drawn> {
        seq![
            Drawn::Message {
                area: f.regions.message,
                state: self.message().0,
                text: self.message().1,
            },
            Drawn::Help { area: f.regions.help, text: self.help(f.ctx.sources@.len() as int) },
            Drawn::Actions {
                area: f.regions.actions,
                labels: seq![apply_text(self.mode)],
                default: None,
                focused: if self.control == ViewDialogControl::Apply {
                    Some(0usize)
                } else {
                    None
                },
            },
        ]
    }

    /// A frame, thing by thing.
    pub open spec fn picture(self, f: ViewFrame<'_>) -> Seq<Drawn> {
        if f.empty() {
            self.header_part(f)
        } else {
            self.header_part(f) + self.body_part(f) + self.tail_part(f)
        }
    }

    /// Where a frame draws what can be clicked.
    pub open spec fn is_laid_out(self, f: ViewFrame<'_>, geometry: ViewGeometry) -> bool {
        &&& geometry.body == f.regions.body
        &&& geometry.tabs@ == tab_regions(f.tabs@)
        &&& geometry.sources@ == if !f.empty() && self.mode == ViewDialogMode::Sources {
            self.source_rows(f.ctx.sources@.len() as int, f.pane.viewport)
        } else {
            seq![]
        }
        &&& if f.empty() {
            geometry.controls@.len() == 0
        } else {
            exists|placed: Seq<(usize, Rect)>| #[trigger]
                is_button_layout(
                    f.regions.actions,
                    apply_labels(self.mode),
                    self.focused_action(),
                    placed,
                ) && geometry.controls@ == placed.map_values(
                    |button: (usize, Rect)| (button.1, ViewDialogControl::Apply),
                )
        }
    }

    /// The button where it has the focus.
    pub open spec fn focused_action(self) -> Option<usize> {
        if self.control == ViewDialogControl::Apply {
            Some(0usize)
        } else {
            None
        }
    }

    pub open spec fn covered(self, f: ViewFrame<'_>) -> Surface {
        Surface {
            popup: f.regions.popup,
            interior: f.regions.interior,
            caret: if !f.empty() && self.mode != ViewDialogMode::Sources && name_field(
                f.regions.content,
                f.regions.body.y,
            ).width > 0 {
                f.caret
            } else {
                None
            },
            scrollable: true,
            text_focus: self.editing(),
        }
    }
}

impl ViewDialog {
    fn paint_sources(&self, out: &mut Vec<Paint>, f: ViewFrame<'_>) -> (r: Vec<(Rect, usize)>)
        requires
            self.model().source_ids.len() < u64::MAX,
        ensures
            picture(final(out)@) == picture(old(out)@) + self.model().sources_part(f),
            r@ == self.model().source_rows(f.ctx.sources@.len() as int, f.pane.viewport),
    {
        let ghost before = picture(out@);
        let ghost m = self.model();
        let styles = DialogStyles::new(f.theme);
        let total: usize = f.ctx.sources.len();
        let visible: usize = f.pane.viewport.height as usize;
        put_text(out, f.pane.heading, "Sources".to_owned(), styles.label.bold(), Fit::Whole);
        if f.pane.count.width > 0 {
            put(
                out,
                Paint::Text {
                    area: f.pane.count,
                    text: self.count(total),
                    style: styles.description,
                    fit: Fit::Whole,
                    right: true,
                },
            );
        }
        let rows = self.source_rows(total, f.pane.viewport);
        let ghost lead = picture(out@);
        let mut i: usize = 0;
        assert(lead + m.rows_part(f, 0) =~= lead);
        while i < rows.len()
            invariant
                i <= rows@.len(),
                m == self.model(),
                m.source_ids.len() < u64::MAX,
                total == f.ctx.sources@.len(),
                styles == DialogStyles::of(f.theme),
                rows@ == m.source_rows(total as int, f.pane.viewport),
                picture(out@) == lead + m.rows_part(f, i as int),
            decreases rows.len() - i,
        {
            let (row, index) = rows[i];
            assert(m.source_rows(total as int, f.pane.viewport)[i as int] == (row, index));
            put_text(
                out,
                row,
                self.row_text(index, &f.ctx.sources[index], f.ascii),
                if index == self.selected_source {
                    styles.selection
                } else {
                    styles.description
                },
                Fit::Clipped,
            );
            assert(picture(out@) =~= lead + m.rows_part(f, i + 1));
            i += 1;
        }
        let limit: usize = total.saturating_sub(visible);
        let back: usize = self.selected_source.saturating_sub(visible.saturating_sub(1));
        put_bar(
            out,
            f.pane.scrollbar,
            if back < limit {
                back
            } else {
                limit
            },
            limit,
        );
        assert(picture(out@) =~= before + m.sources_part(f));
        rows
    }

    fn paint_name(&self, out: &mut Vec<Paint>, f: ViewFrame<'_>) -> (r: bool)
        ensures
            picture(final(out)@) == picture(old(out)@) + self.model().name_part(f),
            r == (name_field(f.regions.content, f.regions.body.y).width > 0),
    {
        let ghost before = picture(out@);
        let styles = DialogStyles::new(f.theme);
        let content = f.regions.content;
        put_text(
            out,
            Rect::new(content.x, f.regions.body.y, content.width, 1),
            "Name".to_owned(),
            styles.label,
            Fit::Whole,
        );
        let field = place_name_field(content, f.regions.body.y);
        if field.width > 0 {
            put(
                out,
                Paint::Input { area: field, value: self.draft.clone(), place: self.caret_place() },
            );
        }
        assert(picture(out@) =~= before + self.model().name_part(f));
        field.width > 0
    }

    fn paint_header(&self, out: &mut Vec<Paint>, f: ViewFrame<'_>)
        ensures
            picture(final(out)@) == picture(old(out)@) + self.model().header_part(f),
    {
        let ghost before = picture(out@);
        put(out, Paint::Frame { title: self.title(f.ctx) });
        let active: usize = self.mode.place();
        put(
            out,
            Paint::Segments {
                area: f.regions.header,
                active,
                focused: if self.control == ViewDialogControl::Tabs {
                    Some(active)
                } else {
                    None
                },
            },
        );
        assert(picture(out@) =~= before + self.model().header_part(f));
    }

    fn paint_tail(&self, out: &mut Vec<Paint>, f: ViewFrame<'_>)
        ensures
            picture(final(out)@) == picture(old(out)@) + self.model().tail_part(f),
    {
        let ghost before = picture(out@);
        let (state, text) = self.message();
        put(out, Paint::Message { area: f.regions.message, state, text });
        put(
            out,
            Paint::Help {
                area: f.regions.help,
                text: self.help(f.ctx.sources.len()).to_owned(),
            },
        );
        let labels: Vec<String> = vec![view_apply_label(self.mode).to_owned()];
        assert(texts(labels@) =~= seq![apply_text(self.model().mode)]);
        put(
            out,
            Paint::Actions {
                area: f.regions.actions,
                labels,
                default: None,
                focused: if self.control == ViewDialogControl::Apply {
                    Some(0)
                } else {
                    None
                },
            },
        );
        assert(picture(out@) =~= before + self.model().tail_part(f));
    }

    /// Draws a frame and remembers where it drew what can be clicked.
    pub fn render(&mut self, f: ViewFrame<'_>) -> (r: (Vec<Paint>, Surface))
        requires
            old(self).model().source_ids.len() < u64::MAX,
        ensures
            picture(r.0@) == old(self).model().picture(f),
            r.1 == old(self).model().covered(f),
            old(self).model().is_laid_out(f, final(self).model().geometry),
            final(self).model() == (ViewModel {
                geometry: final(self).model().geometry,
                surface: r.1,
                ..old(self).model()
            }),
    {
        let ghost m = self.model();
        let mut out: Vec<Paint> = Vec::new();
        assert(picture(out@) =~= seq![]);
        self.paint_header(&mut out, f);
        assert(picture(out@) =~= m.header_part(f));
        let tabs = regions_of_tabs(f.tabs);
        let mut sources: Vec<(Rect, usize)> = Vec::new();
        let mut controls: Vec<(Rect, ViewDialogControl)> = Vec::new();
        let mut caret: Option<(u16, u16)> = None;
        if f.regions.content.width > 0 {
            if self.mode == ViewDialogMode::Sources {
                sources = self.paint_sources(&mut out, f);
            } else if self.paint_name(&mut out, f) {
                caret = f.caret;
            }
            self.paint_tail(&mut out, f);
            let label = view_apply_label(self.mode);
            let labels = [label];
            assert(labels@ =~= apply_labels(self.mode));
            let focused = if self.control == ViewDialogControl::Apply {
                Some(0)
            } else {
                None
            };
            let buttons = button_layout(f.regions.actions, labels.as_slice(), focused);
            controls = regions_of_buttons(&buttons);
        }
        assert(picture(out@) =~= m.picture(f));
        let surface = self.record(
            ViewGeometry { body: f.regions.body, sources, tabs, controls },
            f.regions.popup,
            f.regions.interior,
            caret,
        );
        (out, surface)
    }
}

proof fn rows_are_shown(m: ViewModel, f: ViewFrame<'_>, n: int)
    requires
        0 <= n <= m.source_rows(f.ctx.sources@.len() as int, f.pane.viewport).len(),
    ensures
        all_shown(m.rows_part(f, n), m.source_rows(f.ctx.sources@.len() as int, f.pane.viewport).take(n)),
    decreases n,
{
    let rows = m.source_rows(f.ctx.sources@.len() as int, f.pane.viewport);
    assert(rows.take(0) =~= seq![]);
    if n > 0 {
        rows_are_shown(m, f, n - 1);
        assert(rows.take(n) =~= rows.take(n - 1).push(rows[n - 1]));
        let before = m.rows_part(f, n - 1);
        let next = m.rows_part(f, n).skip(before.len() as int);
        assert(m.rows_part(f, n) =~= before + next);
        shown_next(before, rows.take(n - 1), next, rows[n - 1]);
    }
}

/// Every source that can be clicked was drawn in the frame that recorded it.
pub proof fn clickable_sources_are_drawn(m: ViewModel, f: ViewFrame<'_>, g: ViewGeometry)
    requires
        m.is_laid_out(f, g),
    ensures
        all_shown(m.picture(f), g.sources@),
{
    if !f.empty() && m.mode == ViewDialogMode::Sources {
        let rows = m.source_rows(f.ctx.sources@.len() as int, f.pane.viewport);
        let count = rows.len() as int;
        rows_are_shown(m, f, count);
        assert(rows.take(count) =~= rows);
        let at: int = if f.pane.count.width > 0 {
            2
        } else {
            1
        };
        shown_inside(m.sources_part(f), m.rows_part(f, count), at, rows);
        all_shown_among(m.header_part(f), m.body_part(f), m.tail_part(f), rows);
    }
}

} // verus!
