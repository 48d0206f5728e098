//! A frame of the View summary layer as a list of things to draw.

use super::frame::{
    entry_text, message_of, row_text, summary_message, SummaryControl, SummaryGeometry,
    SummaryModel, ViewSummaryDialog, OPEN_LABEL, SUMMARY_HELP,
};
use super::SummaryEntry;
use crate::component::Surface;
use crate::dialog_controls::{button_layout, is_button_layout, DialogStyles};
use crate::dialog_layout::{FrameRegions, PaneGeometry};
use crate::geometry::{minus, Rect};
use crate::paint::{
    all_shown, bar_if, if_drawn, picture, put, put_bar, put_text, shown_inside, shown_next, text_at,
    Drawn, Fit, Paint,
};
use crate::style::{Style, Theme};
use crate::text::{decimal, texts};
use vstd::prelude::*;

verus! {

/// What a frame is drawn from.
#[derive(Clone, Copy, Debug)]
pub struct SummaryFrame<'a> {
    /// The name of the view that is shown.
    pub view: &'a Option<String>,
    pub entries: &'a Vec<SummaryEntry>,
    pub regions: FrameRegions,
    pub pane: PaneGeometry,
    /// The layer is the topmost.
    pub active: bool,
    pub theme: Theme,
    pub ascii: bool,
}

impl SummaryFrame<'_> {
    pub open spec fn empty(self) -> bool {
        self.regions.content.width == 0 || !self.active
    }
}

impl SummaryModel {
    /// The button where it has the focus.
    pub open spec fn focused_action(self) -> Option<usize> {
        if self.control == SummaryControl::Open {
            Some(0usize)
        } else {
            None
        }
    }

    /// The style of a row.
    pub open spec fn row_look(self, f: SummaryFrame<'_>, index: int) -> Style {
        let styles = DialogStyles::of(f.theme);
        let chosen = index == self.drawn(f.entries@.len() as int);
        if chosen && self.control == SummaryControl::List {
            styles.selection
        } else if chosen {
            Style { bold: true, ..styles.label }
        } else if f.entries@[index].applied {
            styles.label
        } else {
            styles.description
        }
    }

    /// The first `n` rows of a frame.
    pub open spec fn rows_part(self, f: SummaryFrame<'_>, n: int) -> Seq<Drawn>
        decreases n,
    {
        if n <= 0 {
            seq![]
        } else {
            let total = f.entries@.len() as int;
            let (row, index) = self.rows(total, f.pane.viewport)[n - 1];
            self.rows_part(f, n - 1) + seq![
                text_at(
                    row,
                    entry_text(f.entries@[index as int], index == self.drawn(total), f.ascii),
                    self.row_look(f, index as int),
                    Fit::Truncated,
                ),
            ]
        }
    }

    pub open spec fn list_part(self, f: SummaryFrame<'_>) -> Seq<Drawn> {
        let styles = DialogStyles::of(f.theme);
        let total = f.entries@.len() as int;
        let visible = f.pane.viewport.height as int;
        seq![
            text_at(
                f.pane.heading,
                "Operations"@,
                Style { bold: true, ..styles.label },
                Fit::Whole,
            ),
        ] + if_drawn(
            f.pane.count.width > 0 && total > 0,
            Drawn::Text {
                area: f.pane.count,
                text: decimal((self.drawn(total) + 1) as nat) + " of "@ + decimal(total as nat),
                style: styles.description,
                fit: Fit::Whole,
                right: true,
            },
        ) + self.rows_part(f, self.rows(total, f.pane.viewport).len() as int) + bar_if(
            f.pane.scrollbar,
            self.first_row(total, visible) as usize,
            minus(total, visible) as usize,
        )
    }

    pub open spec fn tail_part(self, f: SummaryFrame<'_>) -> Seq<Drawn> {
        let message = summary_message(f.entries@);
        seq![
            Drawn::Message { area: f.regions.message, state: message.0, text: message.1 },
            Drawn::Help { area: f.regions.help, text: SUMMARY_HELP@ },
            Drawn::Actions {
                area: f.regions.actions,
                labels: seq![OPEN_LABEL@],
                default: Some(0),
                focused: if self.control == SummaryControl::Open {
                    Some(0)
                } else {
                    None
                },
            },
        ]
    }

    /// A frame, thing by thing.
    pub open spec fn picture(self, f: SummaryFrame<'_>) -> Seq<Drawn> {
        let frame = seq![
            Drawn::Frame {
                title: match *f.view {
                    Some(name) => "View summary \u{b7} "@ + name@,
                    None => "View summary"@,
                },
            },
        ];
        if f.empty() {
            frame
        } else {
            frame + self.list_part(f) + self.tail_part(f)
        }
    }
}

/// The buttons, which all press the default.
pub open spec fn open_areas(buttons: Seq<(usize, Rect)>) -> Seq<(Rect, SummaryControl)> {
    buttons.map_values(|button: (usize, Rect)| (button.1, SummaryControl::Open))
}

fn areas_of_buttons(buttons: &Vec<(usize, Rect)>) -> (r: Vec<(Rect, SummaryControl)>)
    ensures
        r@ == open_areas(buttons@),
{
    let mut out: Vec<(Rect, SummaryControl)> = Vec::new();
    let mut i: usize = 0;
    while i < buttons.len()
        invariant
            i <= buttons@.len(),
            out@ =~= open_areas(buttons@).take(i as int),
        decreases buttons.len() - i,
    {
        out.push((buttons[i].1, ViewSummaryDialog::default_control()));
        i += 1;
    }
    assert(out@ =~= open_areas(buttons@));
    out
}

impl ViewSummaryDialog {
    fn row_style(&self, f: SummaryFrame<'_>, index: usize) -> (r: Style)
        requires
            index < f.entries@.len(),
        ensures
            r == self.model().row_look(f, index as int),
    {
        let styles = DialogStyles::new(f.theme);
        let chosen = index == self.drawn(f.entries.len());
        if chosen && self.control() == SummaryControl::List {
            styles.selection
        } else if chosen {
            styles.label.bold()
        } else if f.entries[index].applied {
            styles.label
        } else {
            styles.description
        }
    }

    fn paint_list(&self, out: &mut Vec<Paint>, f: SummaryFrame<'_>) -> (r: Vec<(Rect, usize)>)
        ensures
            picture(final(out)@) == picture(old(out)@) + self.model().list_part(f),
            r@ == self.model().rows(f.entries@.len() as int, f.pane.viewport),
    {
        let ghost before = picture(out@);
        let ghost m = self.model();
        let styles = DialogStyles::new(f.theme);
        let total: usize = f.entries.len();
        put_text(out, f.pane.heading, "Operations".to_owned(), styles.label.bold(), Fit::Whole);
        if f.pane.count.width > 0 && total > 0 {
            put(
                out,
                Paint::Text {
                    area: f.pane.count,
                    text: self.count(total),
                    style: styles.description,
                    fit: Fit::Whole,
                    right: true,
                },
            );
        }
        let chosen: usize = self.drawn(total);
        let rows = self.lay_rows(total, f.pane.viewport);
        let ghost lead = picture(out@);
        let mut i: usize = 0;
        assert(lead + m.rows_part(f, 0) =~= lead);
        while i < rows.len()
            invariant
                i <= rows@.len(),
                m == self.model(),
                total == f.entries@.len(),
                chosen == m.drawn(total as int),
                rows@ == m.rows(total as int, f.pane.viewport),
                picture(out@) == lead + m.rows_part(f, i as int),
            decreases rows.len() - i,
        {
            let (row, index) = rows[i];
            assert(m.rows(total as int, f.pane.viewport)[i as int] == (row, index));
            put_text(
                out,
                row,
                row_text(&f.entries[index], index == chosen, f.ascii),
                self.row_style(f, index),
                Fit::Truncated,
            );
            assert(picture(out@) =~= lead + m.rows_part(f, i + 1));
            i += 1;
        }
        let visible: usize = f.pane.viewport.height as usize;
        let limit: usize = total.saturating_sub(visible);
        let back: usize = chosen.saturating_sub(visible.saturating_sub(1));
        put_bar(
            out,
            f.pane.scrollbar,
            if back < limit {
                back
            } else {
                limit
            },
            limit,
        );
        assert(picture(out@) =~= before + m.list_part(f));
        rows
    }

    fn paint_tail(&self, out: &mut Vec<Paint>, f: SummaryFrame<'_>)
        ensures
            picture(final(out)@) == picture(old(out)@) + self.model().tail_part(f),
    {
        let ghost before = picture(out@);
        let (state, text) = message_of(f.entries);
        put(out, Paint::Message { area: f.regions.message, state, text });
        put(out, Paint::Help { area: f.regions.help, text: SUMMARY_HELP.to_owned() });
        let labels: Vec<String> = vec![OPEN_LABEL.to_owned()];
        assert(texts(labels@) =~= seq![OPEN_LABEL@]);
        put(
            out,
            Paint::Actions {
                area: f.regions.actions,
                labels,
                default: Some(0),
                focused: if self.control() == SummaryControl::Open {
                    Some(0)
                } else {
                    None
                },
            },
        );
        assert(picture(out@) =~= before + self.model().tail_part(f));
    }

    /// Draws a frame and remembers where it drew what can be clicked.
    pub fn render(&mut self, f: SummaryFrame<'_>) -> (r: (Vec<Paint>, Surface))
        ensures
            picture(r.0@) == old(self).model().picture(f),
            r.1 == (Surface {
                popup: f.regions.popup,
                interior: f.regions.interior,
                caret: None,
                scrollable: true,
                text_focus: false,
            }),
            final(self).model().geometry.body == f.regions.body,
            final(self).model().geometry.rows@ == if f.empty() {
                seq![]
            } else {
                old(self).model().rows(f.entries@.len() as int, f.pane.viewport)
            },
            if f.empty() {
                final(self).model().geometry.controls@.len() == 0
            } else {
                exists|placed: Seq<(usize, Rect)>| #[trigger]
                    is_button_layout(
                        f.regions.actions,
                        seq![OPEN_LABEL],
                        old(self).model().focused_action(),
                        placed,
                    ) && final(self).model().geometry.controls@ == open_areas(placed)
            },
            final(self).model() == (SummaryModel {
                geometry: final(self).model().geometry,
                surface: r.1,
                ..old(self).model()
            }),
    {
        let ghost m = self.model();
        let mut out: Vec<Paint> = Vec::new();
        assert(picture(out@) =~= seq![]);
        put(&mut out, Paint::Frame { title: self.title(f.view) });
        let mut rows: Vec<(Rect, usize)> = Vec::new();
        let mut controls: Vec<(Rect, SummaryControl)> = Vec::new();
        if f.regions.content.width > 0 && f.active {
            rows = self.paint_list(&mut out, f);
            self.paint_tail(&mut out, f);
            let labels = self.action_labels();
            let focused = if self.control() == SummaryControl::Open {
                Some(0)
            } else {
                None
            };
            let buttons = button_layout(f.regions.actions, labels.as_slice(), focused);
            controls = areas_of_buttons(&buttons);
        }
        assert(picture(out@) =~= m.picture(f));
        let surface = self.record(
            SummaryGeometry { body: f.regions.body, rows, controls },
            f.regions.popup,
            f.regions.interior,
        );
        (out, surface)
    }
}

proof fn rows_are_shown(m: SummaryModel, f: SummaryFrame<'_>, n: int)
    requires
        0 <= n <= m.rows(f.entries@.len() as int, f.pane.viewport).len(),
    ensures
        all_shown(m.rows_part(f, n), m.rows(f.entries@.len() as int, f.pane.viewport).take(n)),
    decreases n,
{
    let rows = m.rows(f.entries@.len() as int, f.pane.viewport);
    assert(rows.take(0) =~= seq![]);
    if n > 0 {
        rows_are_shown(m, f, n - 1);
        assert(rows.take(n) =~= rows.take(n - 1).push(rows[n - 1]));
        let before = m.rows_part(f, n - 1);
        let next = m.rows_part(f, n).skip(before.len() as int);
        assert(m.rows_part(f, n) =~= before + next);
        shown_next(before, rows.take(n - 1), next, rows[n - 1]);
    }
}

/// Every row that can be clicked was drawn in the frame that recorded it.
pub proof fn clickable_rows_are_drawn(m: SummaryModel, f: SummaryFrame<'_>)
    requires
        !f.empty(),
    ensures
        all_shown(m.picture(f), m.rows(f.entries@.len() as int, f.pane.viewport)),
{
    let rows = m.rows(f.entries@.len() as int, f.pane.viewport);
    let count = rows.len() as int;
    rows_are_shown(m, f, count);
    assert(rows.take(count) =~= rows);
    let at: int = if f.pane.count.width > 0 && f.entries@.len() > 0 {
        2
    } else {
        1
    };
    shown_inside(m.list_part(f), m.rows_part(f, count), at, rows);
    shown_inside(m.picture(f), m.list_part(f), 1, rows);
}

} // verus!
