//! A frame of the Investigation layer as a list of things to draw.

use super::frame::{
    areas_of, broken_rows, caret_cell, control_regions, flatten_rows, mark_rows, marked_rows,
    question_top, rows_view, split_body, title_for, INVESTIGATION_LABEL_WIDTH, InvestigationAreas,
};
use super::{
    InvestigationControl, InvestigationDialog, InvestigationDialogState, InvestigationGeometry,
    InvestigationModel, TalkModel,
};
use crate::component::{place_from, Surface};
use crate::dialog_controls::{role_at, role_look, role_style, ActionRow, DialogStyles};
use crate::dialog_layout::{ListGeometry, ResolvedDialog};
use crate::geometry::{greatest, least, minus, Rect};
use crate::paint::{bar_if, if_drawn, picture, put, put_bar, put_text, text_at, Drawn, Fit, Paint};
use crate::style::{Style, Theme};
use crate::text::{join, joined, text_lists, texts};
use vstd::prelude::*;

verus! {

/// What a frame is drawn from: how the screen is divided, and what was broken into
/// lines for it.
#[derive(Clone, Copy, Debug)]
pub struct InvestigationFrame<'a> {
    pub resolved: &'a ResolvedDialog,
    /// The segments of the header.
    pub modes: &'a Vec<Rect>,
    pub list: &'a ListGeometry,
    /// The question, broken into lines, and the place of its caret.
    pub question: &'a Vec<String>,
    pub cursor_row: usize,
    pub cursor_col: usize,
    /// The messages of the transcript, each broken into lines.
    pub wrapped: &'a Vec<Vec<String>>,
    pub theme: Theme,
    pub ascii: bool,
}

/// A frame with what the layer works out for it.
#[derive(Clone, Copy, Debug)]
pub struct InvestigationSheet<'a> {
    pub resolved: &'a ResolvedDialog,
    pub modes: &'a Vec<Rect>,
    pub list: &'a ListGeometry,
    pub question: &'a Vec<String>,
    pub cursor_row: usize,
    pub cursor_col: usize,
    /// The lines of the pane, and which of them is selected.
    pub lines: &'a Vec<(String, bool)>,
    pub theme: Theme,
    pub ascii: bool,
}

impl InvestigationFrame<'_> {
    /// The frame shows what the dialog has.
    pub open spec fn fits(self, talk: TalkModel) -> bool {
        &&& self.resolved.body.valid()
        &&& self.cursor_row < usize::MAX
        &&& forall|i: int|
            0 <= i < self.resolved.actions.buttons@.len() ==> (
            #[trigger] self.resolved.actions.buttons@[i]).0 < talk.actions().len()
    }
}

impl InvestigationSheet<'_> {
    /// What the layer works out for a frame: the lines of its pane, which are the
    /// saved sessions or the broken messages.
    pub open spec fn is_of(self, talk: TalkModel, f: InvestigationFrame<'_>) -> bool {
        &&& self.resolved == f.resolved
        &&& self.modes == f.modes
        &&& self.list == f.list
        &&& self.question == f.question
        &&& self.cursor_row == f.cursor_row
        &&& self.cursor_col == f.cursor_col
        &&& self.theme == f.theme
        &&& self.ascii == f.ascii
        &&& rows_view(self.lines@) == if talk.shows_saved() {
            marked_rows(talk.pane(true, talk.help(), f.ascii).2, talk.selected)
        } else {
            broken_rows(text_lists(f.wrapped@), f.wrapped@.len() as int)
        }
    }
}

impl InvestigationSheet<'_> {
    pub open spec fn empty(self) -> bool {
        self.resolved.body.width == 0 || self.resolved.body.height == 0
    }

    /// The frame shows what the dialog has.
    pub open spec fn fits(self, talk: TalkModel) -> bool {
        &&& self.resolved.body.valid()
        &&& self.cursor_row < usize::MAX
        &&& forall|i: int|
            0 <= i < self.resolved.actions.buttons@.len() ==> (
            #[trigger] self.resolved.actions.buttons@[i]).0 < talk.actions().len()
    }
}

impl TalkModel {
    pub open spec fn areas(self, f: InvestigationSheet<'_>) -> InvestigationAreas {
        areas_of(f.resolved.body, self.provenance() is Some, !f.resolved.compact)
    }

    /// The segments of the header show.
    pub open spec fn shows_modes(self, f: InvestigationSheet<'_>) -> bool {
        self.items.len() > 0 && f.resolved.header.height > 0
    }

    pub open spec fn header_part(self, f: InvestigationSheet<'_>) -> Seq<Drawn> {
        if_drawn(
            self.shows_modes(f),
            Drawn::Segments {
                area: f.resolved.header,
                active: if self.shows_saved() {
                    1
                } else {
                    0
                },
                focused: match self.focus {
                    InvestigationControl::ModeNew => Some(0),
                    InvestigationControl::Saved => Some(1),
                    _ => None,
                },
            },
        )
    }

    /// The question can be clicked.
    pub open spec fn asks_here(self, f: InvestigationSheet<'_>) -> bool {
        self.stage.editable() && self.areas(f).question.width > 0
    }

    /// The cell of the caret.
    pub open spec fn caret(self, f: InvestigationSheet<'_>) -> Option<(u16, u16)> {
        let question = self.areas(f).question;
        let top = minus(f.cursor_row + 1, greatest(question.height as int, 1));
        if self.editing() && question.width > 0 && question.height > 0 {
            Some(
                (
                    (question.x + least(f.cursor_col as int, question.width - 1)) as u16,
                    (question.y + least(minus(f.cursor_row as int, top), question.height - 1)) as u16,
                ),
            )
        } else {
            None
        }
    }

    /// The lines of the question from the first that shows.
    pub open spec fn question_text(self, f: InvestigationSheet<'_>) -> Seq<char> {
        let top = minus(f.cursor_row + 1, greatest(self.areas(f).question.height as int, 1));
        joined(
            if top <= f.question@.len() {
                texts(f.question@).skip(top)
            } else {
                seq![]
            },
            "\n"@,
        )
    }

    pub open spec fn question_part(self, f: InvestigationSheet<'_>) -> Seq<Drawn> {
        let styles = DialogStyles::of(f.theme);
        let body = f.resolved.body;
        let question = self.areas(f).question;
        seq![
            text_at(
                Rect::spec_new(body.x, body.y, INVESTIGATION_LABEL_WIDTH, 1),
                "Question"@,
                if self.focus == InvestigationControl::Prompt {
                    styles.shortcut
                } else {
                    styles.label
                },
                Fit::Whole,
            ),
        ] + if_drawn(
            self.asks_here(f),
            Drawn::Fill { area: question, style: styles.input },
        ) + seq![
            text_at(
                question,
                self.question_text(f),
                if self.stage.editable() {
                    styles.input
                } else {
                    styles.description
                },
                Fit::Whole,
            ),
        ] + (match self.caret(f) {
            Some((column, row)) => seq![
                Drawn::Caret {
                    column,
                    row,
                    style: Style {
                        bg: Some(f.theme.cursor),
                        ..Style::spec_colored(f.theme.input_fg)
                    },
                },
            ],
            None => seq![],
        })
    }

    pub open spec fn provenance_part(self, f: InvestigationSheet<'_>) -> Seq<Drawn> {
        match (self.provenance(), self.areas(f).provenance) {
            (Some(text), Some(area)) => seq![
                text_at(area, text, DialogStyles::of(f.theme).description, Fit::Truncated),
            ],
            _ => seq![],
        }
    }

    pub open spec fn heading_part(self, f: InvestigationSheet<'_>) -> Seq<Drawn> {
        let styles = DialogStyles::of(f.theme);
        let pane = self.pane(self.shows_saved(), self.help(), f.ascii);
        if f.list.heading.height > 0 {
            seq![
                text_at(
                    f.list.heading,
                    pane.0,
                    if self.focus == InvestigationControl::More {
                        Style { bold: true, ..styles.shortcut }
                    } else {
                        Style { bold: true, ..styles.label }
                    },
                    Fit::Whole,
                ),
            ] + if_drawn(
                f.list.count.width > 0,
                text_at(f.list.count, pane.1, styles.description, Fit::Whole),
            )
        } else {
            seq![]
        }
    }

    /// How far the pane can scroll.
    pub open spec fn scroll_limit(self, f: InvestigationSheet<'_>) -> int {
        minus(greatest(f.lines@.len() as int, 1), f.list.row_rects@.len() as int)
    }

    /// The first line of the pane that shows.
    pub open spec fn first_line(self, f: InvestigationSheet<'_>) -> int {
        least(f.list.first_row as int, self.scroll_limit(f))
    }

    /// How many lines of the pane show.
    pub open spec fn line_count(self, f: InvestigationSheet<'_>) -> int {
        least(minus(f.lines@.len() as int, self.first_line(f)), f.list.row_rects@.len() as int)
    }

    /// The first `n` lines of the pane that show.
    pub open spec fn lines_part(self, f: InvestigationSheet<'_>, n: int) -> Seq<Drawn>
        decreases n,
    {
        if n <= 0 {
            seq![]
        } else {
            let styles = DialogStyles::of(f.theme);
            let line = f.lines@[self.first_line(f) + n - 1];
            self.lines_part(f, n - 1) + seq![
                text_at(
                    f.list.row_rects@[n - 1],
                    line.0@,
                    if line.1 {
                        styles.selection
                    } else {
                        styles.description
                    },
                    Fit::Truncated,
                ),
            ]
        }
    }

    pub open spec fn pane_part(self, f: InvestigationSheet<'_>) -> Seq<Drawn> {
        self.heading_part(f) + self.lines_part(f, self.line_count(f)) + bar_if(
            f.list.scrollbar,
            self.first_line(f) as usize,
            self.scroll_limit(f) as usize,
        )
    }

    /// The button that has the focus.
    pub open spec fn focused_action(self) -> Option<int> {
        place_from(self.actions(), self.focus, 0)
    }

    /// The first `n` buttons.
    pub open spec fn buttons_part(self, f: InvestigationSheet<'_>, n: int) -> Seq<Drawn>
        decreases n,
    {
        if n <= 0 {
            seq![]
        } else {
            let (index, area) = f.resolved.actions.buttons@[n - 1];
            self.buttons_part(f, n - 1) + seq![
                Drawn::Button {
                    area,
                    label: self.action_text(self.actions()[index as int]),
                    style: role_look(
                        f.theme,
                        role_at(seq![], Some(0usize), index),
                        self.focused_action() == Some(index as int),
                    ),
                },
            ]
        }
    }

    pub open spec fn tail_part(self, f: InvestigationSheet<'_>) -> Seq<Drawn> {
        seq![
            Drawn::Message {
                area: f.resolved.message,
                state: self.message(),
                text: self.progress,
            },
            Drawn::Help { area: f.resolved.help, text: self.help_row() },
        ] + self.buttons_part(f, f.resolved.actions.buttons@.len() as int)
    }

    /// A frame, thing by thing.
    pub open spec fn picture(self, f: InvestigationSheet<'_>) -> Seq<Drawn> {
        let frame = seq![
            Drawn::Frame {
                title: if f.ascii {
                    "Investigation Agent"@
                } else {
                    "Investigation \u{1f9e0}"@
                },
            },
        ];
        if f.empty() {
            frame
        } else {
            frame + self.body_part(f) + self.tail_part(f)
        }
    }

    /// The header, the question with what is known of its session, and the pane.
    pub open spec fn body_part(self, f: InvestigationSheet<'_>) -> Seq<Drawn> {
        self.header_part(f) + self.question_part(f) + self.provenance_part(f) + self.pane_part(f)
    }

    /// The state that a frame leaves.
    pub open spec fn after_frame(self, f: InvestigationSheet<'_>) -> TalkModel {
        if f.empty() {
            self
        } else {
            self.settled(
                greatest(f.lines@.len() as int, 1),
                f.list.row_rects@.len() as int,
                f.list.first_row as int,
            )
        }
    }

    /// Where a frame draws what can be clicked.
    pub open spec fn is_laid_out(self, f: InvestigationSheet<'_>, geometry: InvestigationGeometry) -> bool {
        if f.empty() {
            geometry.blank()
        } else {
            &&& geometry.controls@ == control_regions(
                if self.shows_modes(f) {
                    f.modes@
                } else {
                    seq![]
                },
                if self.asks_here(f) {
                    Some(self.areas(f).question)
                } else {
                    None
                },
                self.actions(),
                f.resolved.actions.buttons@,
            )
            &&& geometry.body == if self.areas(f).pane.height > 0 {
                Some(f.list.viewport)
            } else {
                None
            }
        }
    }

    pub open spec fn covered(self, f: InvestigationSheet<'_>) -> Surface {
        Surface {
            popup: f.resolved.frame,
            interior: f.resolved.interior,
            caret: if f.empty() {
                None
            } else {
                self.caret(f)
            },
            scrollable: !f.empty() && f.list.scrollbar is Some,
            text_focus: self.editing(),
        }
    }
}

impl InvestigationDialogState {
    fn paint_header(&self, out: &mut Vec<Paint>, f: InvestigationSheet<'_>)
        ensures
            picture(final(out)@) == picture(old(out)@) + self.model().header_part(f),
    {
        let ghost before = picture(out@);
        let shown = self.items.len() > 0 && f.resolved.header.height > 0;
        if shown {
            put(
                out,
                Paint::Segments {
                    area: f.resolved.header,
                    active: if self.shows_saved() {
                        1
                    } else {
                        0
                    },
                    focused: match self.focus {
                        InvestigationControl::ModeNew => Some(0),
                        InvestigationControl::Saved => Some(1),
                        _ => None,
                    },
                },
            );
        }
        assert(picture(out@) =~= before + self.model().header_part(f));
    }

    fn question_text(&self, f: InvestigationSheet<'_>, top: usize) -> (r: String)
        requires
            top == minus(
                f.cursor_row + 1,
                greatest(self.model().areas(f).question.height as int, 1),
            ),
        ensures
            r@ == self.model().question_text(f),
    {
        let mut lines: Vec<String> = Vec::new();
        let ghost all = texts(f.question@);
        let mut i: usize = top;
        if top > f.question.len() {
            assert(texts(lines@) =~= seq![]);
            return join(&lines, "\n");
        }
        while i < f.question.len()
            invariant
                top <= i <= f.question@.len(),
                all == texts(f.question@),
                texts(lines@) =~= all.subrange(top as int, i as int),
            decreases f.question.len() - i,
        {
            let ghost before = lines@;
            lines.push(f.question[i].clone());
            assert(texts(lines@) =~= texts(before).push(all[i as int]));
            i += 1;
        }
        assert(texts(lines@) =~= all.skip(top as int));
        join(&lines, "\n")
    }

    fn paint_question(&self, out: &mut Vec<Paint>, f: InvestigationSheet<'_>, areas: InvestigationAreas) -> (r:
        Option<(u16, u16)>)
        requires
            f.fits(self.model()),
            areas == self.model().areas(f),
        ensures
            picture(final(out)@) == picture(old(out)@) + self.model().question_part(f),
            r == self.model().caret(f),
    {
        let ghost before = picture(out@);
        let styles = DialogStyles::new(f.theme);
        let body = f.resolved.body;
        let question = areas.question;
        let editable = self.stage.is_editable();
        put_text(
            out,
            Rect::new(body.x, body.y, INVESTIGATION_LABEL_WIDTH, 1),
            "Question".to_owned(),
            if self.focus == InvestigationControl::Prompt {
                styles.shortcut
            } else {
                styles.label
            },
            Fit::Whole,
        );
        if editable && question.width > 0 {
            put(out, Paint::Fill { area: question, style: styles.input });
        }
        let top: usize = question_top(f.cursor_row, question.height);
        put_text(
            out,
            question,
            self.question_text(f, top),
            if editable {
                styles.input
            } else {
                styles.description
            },
            Fit::Whole,
        );
        let caret = if self.editing() && question.width > 0 && question.height > 0 {
            assert(question.valid());
            caret_cell(question, f.cursor_row, f.cursor_col, top)
        } else {
            None
        };
        if let Some((column, row)) = caret {
            let style = Style::plain().fg(f.theme.input_fg).bg(f.theme.cursor);
            put(out, Paint::Caret { column, row, style });
        }
        assert(picture(out@) =~= before + self.model().question_part(f));
        caret
    }

    fn paint_provenance(&self, out: &mut Vec<Paint>, f: InvestigationSheet<'_>, areas: InvestigationAreas)
        requires
            areas == self.model().areas(f),
        ensures
            picture(final(out)@) == picture(old(out)@) + self.model().provenance_part(f),
    {
        let ghost before = picture(out@);
        let styles = DialogStyles::new(f.theme);
        if let Some(text) = self.provenance() {
            if let Some(area) = areas.provenance {
                put_text(out, area, text, styles.description, Fit::Truncated);
            }
        }
        assert(picture(out@) =~= before + self.model().provenance_part(f));
    }

    fn paint_heading(&self, out: &mut Vec<Paint>, f: InvestigationSheet<'_>)
        ensures
            picture(final(out)@) == picture(old(out)@) + self.model().heading_part(f),
    {
        let ghost before = picture(out@);
        let styles = DialogStyles::new(f.theme);
        if f.list.heading.height > 0 {
            let (heading, count, _) = self.pane_content(self.shows_saved(), self.help(), f.ascii);
            put_text(
                out,
                f.list.heading,
                heading.to_owned(),
                if self.focus == InvestigationControl::More {
                    styles.shortcut.bold()
                } else {
                    styles.label.bold()
                },
                Fit::Whole,
            );
            if f.list.count.width > 0 {
                put_text(out, f.list.count, count, styles.description, Fit::Whole);
            }
        }
        assert(picture(out@) =~= before + self.model().heading_part(f));
    }

    fn paint_pane(&self, out: &mut Vec<Paint>, f: InvestigationSheet<'_>)
        ensures
            picture(final(out)@) == picture(old(out)@) + self.model().pane_part(f),
    {
        let ghost before = picture(out@);
        let ghost m = self.model();
        let styles = DialogStyles::new(f.theme);
        self.paint_heading(out, f);
        let total: usize = if f.lines.len() > 1 {
            f.lines.len()
        } else {
            1
        };
        let limit: usize = total.saturating_sub(f.list.row_rects.len());
        let first: usize = if f.list.first_row < limit {
            f.list.first_row
        } else {
            limit
        };
        let ghost lead = picture(out@);
        let mut i: usize = 0;
        assert(lead + m.lines_part(f, 0) =~= lead);
        while i < f.list.row_rects.len() && first < f.lines.len() && i < f.lines.len() - first
            invariant
                m == self.model(),
                first == m.first_line(f),
                i <= f.list.row_rects@.len(),
                first < f.lines@.len() ==> i <= f.lines@.len() - first,
                first >= f.lines@.len() ==> i == 0,
                styles == DialogStyles::of(f.theme),
                picture(out@) == lead + m.lines_part(f, i as int),
            decreases f.list.row_rects.len() - i,
        {
            let (line, chosen) = &f.lines[first + i];
            put_text(
                out,
                f.list.row_rects[i],
                line.clone(),
                if *chosen {
                    styles.selection
                } else {
                    styles.description
                },
                Fit::Truncated,
            );
            assert(picture(out@) =~= lead + m.lines_part(f, i + 1));
            i += 1;
        }
        assert(i == m.line_count(f));
        put_bar(out, f.list.scrollbar, first, limit);
        assert(picture(out@) =~= before + m.pane_part(f));
    }

    fn focused_action(&self) -> (r: Option<usize>)
        ensures
            match r {
                Some(place) => self.model().focused_action() == Some(place as int),
                None => self.model().focused_action() is None,
            },
    {
        let actions = self.actions();
        let ghost all = self.model().actions();
        let mut i: usize = 0;
        while i < actions.len()
            invariant
                i <= actions@.len(),
                all == self.model().actions(),
                actions@.len() == all.len(),
                forall|j: int| 0 <= j < actions@.len() ==> (#[trigger] actions@[j]).1 == all[j],
                place_from(all, self.focus, 0) == place_from(all, self.focus, i as int),
            decreases actions.len() - i,
        {
            let action = &actions[i];
            if action.1 == self.focus {
                return Some(i);
            }
            i += 1;
        }
        None
    }

    fn paint_buttons(&self, out: &mut Vec<Paint>, f: InvestigationSheet<'_>)
        requires
            f.fits(self.model()),
        ensures
            picture(final(out)@) == picture(old(out)@) + self.model().buttons_part(
                f,
                f.resolved.actions.buttons@.len() as int,
            ),
    {
        let ghost before = picture(out@);
        let ghost m = self.model();
        let actions = self.actions();
        let focused = self.focused_action();
        let buttons = &f.resolved.actions.buttons;
        let none: Vec<usize> = Vec::new();
        let labels: Vec<&str> = Vec::new();
        let row = ActionRow {
            labels: labels.as_slice(),
            default: Some(0),
            destructive: none.as_slice(),
            focused,
        };
        let mut i: usize = 0;
        assert(none@ =~= seq![]);
        assert(before + m.buttons_part(f, 0) =~= before);
        while i < buttons.len()
            invariant
                i <= buttons@.len(),
                m == self.model(),
                f.fits(m),
                buttons@ == f.resolved.actions.buttons@,
                actions@.len() == m.actions().len(),
                forall|j: int|
                    0 <= j < actions@.len() ==> (#[trigger] actions@[j]).1 == m.actions()[j]
                        && actions@[j].0@ == m.action_text(m.actions()[j]),
                row.destructive@ == Seq::<usize>::empty(),
                row.default == Some(0usize),
                match focused {
                    Some(place) => m.focused_action() == Some(place as int),
                    None => m.focused_action() is None,
                },
                picture(out@) == before + m.buttons_part(f, i as int),
            decreases buttons.len() - i,
        {
            let (index, area) = buttons[i];
            assert(f.resolved.actions.buttons@[i as int] == (index, area));
            let here = match focused {
                Some(place) => place == index,
                None => false,
            };
            let action = &actions[index];
            put(
                out,
                Paint::Button {
                    area,
                    label: action.0.to_owned(),
                    style: role_style(f.theme, row.role(index), here),
                },
            );
            assert(picture(out@) =~= before + m.buttons_part(f, i + 1));
            i += 1;
        }
    }

    fn paint(&self, out: &mut Vec<Paint>, f: InvestigationSheet<'_>) -> (r: (
        InvestigationGeometry,
        Option<(u16, u16)>,
    ))
        requires
            f.fits(self.model()),
        ensures
            picture(final(out)@) == picture(old(out)@) + self.model().picture(f),
            self.model().is_laid_out(f, r.0),
            r.1 == self.model().covered(f).caret,
    {
        let ghost before = picture(out@);
        let ghost m = self.model();
        put(out, Paint::Frame { title: title_for(f.ascii).to_owned() });
        let body = f.resolved.body;
        if body.width == 0 || body.height == 0 {
            assert(picture(out@) =~= before + m.picture(f));
            return (InvestigationGeometry::default(), None);
        }
        let known = self.provenance().is_some();
        let areas = split_body(body, known, !f.resolved.compact);
        let caret = self.paint_body(out, f, areas);
        self.paint_tail(out, f);
        assert(picture(out@) =~= before + m.picture(f));
        (self.lay_out(f, areas), caret)
    }

    fn paint_body(&self, out: &mut Vec<Paint>, f: InvestigationSheet<'_>, areas: InvestigationAreas) -> (r:
        Option<(u16, u16)>)
        requires
            f.fits(self.model()),
            areas == self.model().areas(f),
        ensures
            picture(final(out)@) == picture(old(out)@) + self.model().body_part(f),
            r == self.model().caret(f),
    {
        let ghost before = picture(out@);
        let ghost m = self.model();
        self.paint_header(out, f);
        let caret = self.paint_question(out, f, areas);
        self.paint_provenance(out, f, areas);
        self.paint_pane(out, f);
        proof {
            let (a, b, c, d) = (
                m.header_part(f),
                m.question_part(f),
                m.provenance_part(f),
                m.pane_part(f),
            );
            assert(before + a + b + c + d =~= before + (a + b + c + d));
        }
        caret
    }

    fn paint_tail(&self, out: &mut Vec<Paint>, f: InvestigationSheet<'_>)
        requires
            f.fits(self.model()),
        ensures
            picture(final(out)@) == picture(old(out)@) + self.model().tail_part(f),
    {
        let ghost before = picture(out@);
        let (state, text) = self.message();
        put(out, Paint::Message { area: f.resolved.message, state, text });
        put(out, Paint::Help { area: f.resolved.help, text: self.help_row().to_owned() });
        self.paint_buttons(out, f);
        assert(picture(out@) =~= before + self.model().tail_part(f));
    }

    /// Where a frame draws what can be clicked.
    fn lay_out(&self, f: InvestigationSheet<'_>, areas: InvestigationAreas) -> (r:
        InvestigationGeometry)
        requires
            !f.empty(),
            areas == self.model().areas(f),
        ensures
            self.model().is_laid_out(f, r),
    {
        let none: Vec<Rect> = Vec::new();
        assert(none@ =~= seq![]);
        let controls = self.control_regions(
            if self.items.len() > 0 && f.resolved.header.height > 0 {
                f.modes
            } else {
                &none
            },
            if self.stage.is_editable() && areas.question.width > 0 {
                Some(areas.question)
            } else {
                None
            },
            &f.resolved.actions.buttons,
        );
        InvestigationGeometry {
            controls,
            body: if areas.pane.height > 0 {
                Some(f.list.viewport)
            } else {
                None
            },
        }
    }
}

impl InvestigationDialog {
    fn draw(&mut self, f: InvestigationSheet<'_>) -> (r: (Vec<Paint>, Surface))
        requires
            old(self).model().talk matches Some(talk) ==> f.fits(talk),
        ensures
            match old(self).model().talk {
                Some(talk) => {
                    &&& picture(r.0@) == talk.picture(f)
                    &&& r.1 == talk.covered(f)
                    &&& talk.is_laid_out(f, final(self).model().geometry)
                    &&& final(self).model() == (InvestigationModel {
                        talk: Some(talk.after_frame(f)),
                        geometry: final(self).model().geometry,
                        surface: r.1,
                        ..old(self).model()
                    })
                },
                None => {
                    &&& r.0@.len() == 0
                    &&& r.1 == Surface::nothing()
                    &&& final(self).model() == (InvestigationModel {
                        surface: r.1,
                        ..old(self).model()
                    })
                },
            },
    {
        let mut out: Vec<Paint> = Vec::new();
        assert(picture(out@) =~= seq![]);
        let (geometry, caret, editing) = match &self.state {
            Some(state) => {
                let (geometry, caret) = state.paint(&mut out, f);
                assert(picture(out@) =~= state.model().picture(f));
                (geometry, caret, state.editing())
            },
            None => {
                self.surface = Surface::default();
                return (out, self.surface);
            },
        };
        let drawn = f.resolved.body.width > 0 && f.resolved.body.height > 0;
        if drawn {
            let total: usize = if f.lines.len() > 1 {
                f.lines.len()
            } else {
                1
            };
            self.settle(total, f.list.row_rects.len(), f.list.first_row);
        }
        let surface = self.record(
            geometry,
            Surface {
                popup: f.resolved.frame,
                interior: f.resolved.interior,
                caret,
                scrollable: drawn && f.list.scrollbar.is_some(),
                text_focus: editing,
            },
        );
        (out, surface)
    }

    /// Draws a frame, remembers where it drew what can be clicked, and settles
    /// how far the pane scrolls. Nothing is drawn of a dialog that is not open.
    pub fn render(&mut self, f: InvestigationFrame<'_>) -> (r: (Vec<Paint>, Surface))
        requires
            old(self).model().talk matches Some(talk) ==> f.fits(talk),
        ensures
            match old(self).model().talk {
                Some(talk) => exists|s: InvestigationSheet<'_>| #[trigger]
                    s.is_of(talk, f) && {
                        &&& picture(r.0@) == talk.picture(s)
                        &&& r.1 == talk.covered(s)
                        &&& talk.is_laid_out(s, final(self).model().geometry)
                        &&& final(self).model() == (InvestigationModel {
                            talk: Some(talk.after_frame(s)),
                            geometry: final(self).model().geometry,
                            surface: r.1,
                            ..old(self).model()
                        })
                    },
                None => {
                    &&& r.0@.len() == 0
                    &&& r.1 == Surface::nothing()
                    &&& final(self).model() == (InvestigationModel {
                        surface: r.1,
                        ..old(self).model()
                    })
                },
            },
    {
        let lines = match &self.state {
            Some(state) => if state.shows_saved() {
                let (_, _, sessions) = state.pane_content(true, state.help(), f.ascii);
                mark_rows(&sessions, state.selected)
            } else {
                flatten_rows(f.wrapped)
            },
            None => Vec::new(),
        };
        let sheet = InvestigationSheet {
            resolved: f.resolved,
            modes: f.modes,
            list: f.list,
            question: f.question,
            cursor_row: f.cursor_row,
            cursor_col: f.cursor_col,
            lines: &lines,
            theme: f.theme,
            ascii: f.ascii,
        };
        assert(self.model().talk matches Some(talk) ==> sheet.is_of(talk, f));
        self.draw(sheet)
    }

    /// A frame is too small to draw anything in: the pane does not scroll.
    pub fn render_unfit(&mut self) -> (r: Surface)
        ensures
            r == Surface::nothing(),
            final(self).model().geometry.blank(),
            final(self).model() == (InvestigationModel {
                talk: match old(self).model().talk {
                    Some(talk) => Some(talk.unfit()),
                    None => None,
                },
                geometry: final(self).model().geometry,
                surface: r,
                ..old(self).model()
            }),
    {
        self.settle_unfit();
        self.record(InvestigationGeometry::default(), Surface::default())
    }
}

} // verus!
