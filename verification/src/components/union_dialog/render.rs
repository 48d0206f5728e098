//! A frame of the Union layer as a list of things to draw.

use super::{
    ids, union_labels, UNION_HELP, UnionCandidate, UnionDialogComponent, UnionFocus, UnionModel,
};
use crate::component::Surface;
use crate::dialog_controls::{button_layout, is_button_layout, DialogStyles};
use crate::dialog_layout::{button_areas, FrameRegions};
use crate::geometry::Rect;
use crate::paint::{
    all_shown, all_shown_among, if_drawn, picture, put, put_text, shown_next, text_at, Drawn, Fit,
    Paint,
};
use crate::style::Theme;
use crate::text::texts;
use vstd::prelude::*;

verus! {

/// What a frame is drawn from.
#[derive(Clone, Copy, Debug)]
pub struct UnionFrame<'a> {
    pub candidates: &'a Vec<UnionCandidate>,
    pub regions: FrameRegions,
    pub theme: Theme,
}

impl UnionModel {
    /// The state that a frame leaves: the highlight is on a view, and in sight.
    pub open spec fn settled(self, f: UnionFrame<'_>) -> UnionModel {
        let count = f.candidates@.len() as int;
        let kept = self.highlight_kept(count);
        if f.regions.content.width == 0 {
            kept
        } else {
            kept.scroll_settled(count, f.regions.body.height as int)
        }
    }

    /// The rows of a frame.
    pub open spec fn shown_rows(self, f: UnionFrame<'_>) -> Seq<(Rect, usize)> {
        self.settled(f).rows(f.candidates@.len() as int, f.regions.body, f.regions.content)
    }

    /// The text of a row.
    pub open spec fn row_text(self, candidate: UnionCandidate) -> Seq<char> {
        (if self.draft.inputs.contains(candidate.id@) {
            "[x]"@
        } else {
            "[ ]"@
        }) + " "@ + candidate.name@
    }

    /// The first `n` rows of a frame.
    pub open spec fn rows_part(self, f: UnionFrame<'_>, n: int) -> Seq<Drawn>
        decreases n,
    {
        if n <= 0 {
            seq![]
        } else {
            let styles = DialogStyles::of(f.theme);
            let (row, index) = self.shown_rows(f)[n - 1];
            self.rows_part(f, n - 1) + seq![
                text_at(
                    row,
                    self.row_text(f.candidates@[index as int]),
                    if index == self.settled(f).highlighted {
                        styles.selection
                    } else {
                        styles.label
                    },
                    Fit::Truncated,
                ),
            ]
        }
    }

    pub open spec fn tail_part(self, f: UnionFrame<'_>) -> Seq<Drawn> {
        let message = self.message(ids(f.candidates@));
        seq![
            Drawn::Message { area: f.regions.message, state: message.0, text: message.1 },
            Drawn::Help { area: f.regions.help, text: UNION_HELP@ },
            Drawn::Actions {
                area: f.regions.actions,
                labels: seq!["&Create union"@, "Cancel"@],
                default: Some(0),
                focused: match self.focus {
                    UnionFocus::Inputs => None,
                    UnionFocus::Create => Some(0),
                    UnionFocus::Cancel => Some(1),
                },
            },
        ]
    }

    /// A frame, thing by thing.
    pub open spec fn picture(self, f: UnionFrame<'_>) -> Seq<Drawn> {
        let frame = seq![Drawn::Frame { title: "Union views"@ }];
        if f.regions.content.width == 0 {
            frame
        } else {
            frame + if_drawn(
                f.candidates@.len() == 0,
                text_at(
                    f.regions.body,
                    "no views are open"@,
                    DialogStyles::of(f.theme).label,
                    Fit::Whole,
                ),
            ) + self.rows_part(f, self.shown_rows(f).len() as int) + self.tail_part(f)
        }
    }
}

fn areas_of_buttons(buttons: &Vec<(usize, Rect)>) -> (r: Vec<(Rect, usize)>)
    ensures
        r@ == button_areas(buttons@),
{
    let mut out: Vec<(Rect, usize)> = Vec::new();
    let mut i: usize = 0;
    while i < buttons.len()
        invariant
            i <= buttons@.len(),
            out@ =~= button_areas(buttons@).take(i as int),
        decreases buttons.len() - i,
    {
        out.push((buttons[i].1, buttons[i].0));
        i += 1;
    }
    assert(out@ =~= button_areas(buttons@));
    out
}

impl UnionDialogComponent {
    fn paint_tail(&self, out: &mut Vec<Paint>, f: UnionFrame<'_>)
        ensures
            picture(final(out)@) == picture(old(out)@) + self.model().tail_part(f),
    {
        let ghost before = picture(out@);
        let (state, text) = self.message(f.candidates);
        put(out, Paint::Message { area: f.regions.message, state, text });
        put(out, Paint::Help { area: f.regions.help, text: UNION_HELP.to_owned() });
        let labels: Vec<String> = vec!["&Create union".to_owned(), "Cancel".to_owned()];
        assert(texts(labels@) =~= seq!["&Create union"@, "Cancel"@]);
        put(
            out,
            Paint::Actions {
                area: f.regions.actions,
                labels,
                default: Some(0),
                focused: self.focused_button(),
            },
        );
        assert(picture(out@) =~= before + self.model().tail_part(f));
    }

    /// Draws a frame and remembers where it drew what can be clicked.
    pub fn render(&mut self, f: UnionFrame<'_>) -> (r: (Vec<Paint>, Surface))
        ensures
            picture(r.0@) == old(self).model().picture(f),
            r.1 == (Surface {
                popup: f.regions.popup,
                interior: f.regions.interior,
                caret: None,
                scrollable: f.candidates@.len() > f.regions.body.height,
                text_focus: false,
            }),
            final(self).model().geometry.body == f.regions.body,
            final(self).model().geometry.inputs@ == if f.regions.content.width == 0 {
                seq![]
            } else {
                old(self).model().shown_rows(f)
            },
            if f.regions.content.width == 0 {
                final(self).model().geometry.buttons@.len() == 0
            } else {
                exists|placed: Seq<(usize, Rect)>| #[trigger]
                    is_button_layout(
                        f.regions.actions,
                        union_labels(),
                        old(self).model().focused_button(),
                        placed,
                    ) && final(self).model().geometry.buttons@ == button_areas(placed)
            },
            final(self).model() == (UnionModel {
                geometry: final(self).model().geometry,
                surface: r.1,
                ..old(self).model().settled(f)
            }),
    {
        let ghost m = self.model();
        let styles = DialogStyles::new(f.theme);
        let mut out: Vec<Paint> = Vec::new();
        assert(picture(out@) =~= seq![]);
        put(&mut out, Paint::Frame { title: "Union views".to_owned() });
        assert(picture(out@) =~= seq![Drawn::Frame { title: "Union views"@ }]);
        let count: usize = f.candidates.len();
        let surface = self.begin_frame(count, f.regions.popup, f.regions.interior, f.regions.body);
        if f.regions.content.width == 0 {
            return (out, surface);
        }
        if count == 0 {
            put_text(
                &mut out,
                f.regions.body,
                "no views are open".to_owned(),
                styles.label,
                Fit::Whole,
            );
        }
        let rows = self.lay_rows(count, f.regions.content);
        let ghost lead = picture(out@);
        let mut i: usize = 0;
        assert(lead + m.rows_part(f, 0) =~= lead);
        while i < rows.len()
            invariant
                i <= rows@.len(),
                0 <= m.scroll,
                0 <= m.highlighted,
                rows@ == m.shown_rows(f),
                count == f.candidates@.len(),
                styles == DialogStyles::of(f.theme),
                self.model().draft == m.draft,
                self.model().highlighted == m.settled(f).highlighted,
                picture(out@) == lead + m.rows_part(f, i as int),
            decreases rows.len() - i,
        {
            let (row, index) = rows[i];
            assert(m.shown_rows(f)[i as int] == (row, index));
            put_text(
                &mut out,
                row,
                self.row_text(&f.candidates[index]),
                if index == self.highlighted {
                    styles.selection
                } else {
                    styles.label
                },
                Fit::Truncated,
            );
            assert(picture(out@) =~= lead + m.rows_part(f, i + 1));
            i += 1;
        }
        self.paint_tail(&mut out, f);
        assert(picture(out@) =~= m.picture(f));
        let labels = self.action_labels();
        let buttons = button_layout(f.regions.actions, labels.as_slice(), self.focused_button());
        self.record(rows, areas_of_buttons(&buttons));
        (out, surface)
    }
}

proof fn rows_are_shown(m: UnionModel, f: UnionFrame<'_>, n: int)
    requires
        0 <= n <= m.shown_rows(f).len(),
    ensures
        all_shown(m.rows_part(f, n), m.shown_rows(f).take(n)),
    decreases n,
{
    let rows = m.shown_rows(f);
    assert(rows.take(0) =~= seq![]);
    if n > 0 {
        rows_are_shown(m, f, n - 1);
        assert(rows.take(n) =~= rows.take(n - 1).push(rows[n - 1]));
        let before = m.rows_part(f, n - 1);
        let next = m.rows_part(f, n).skip(before.len() as int);
        assert(m.rows_part(f, n) =~= before + next);
        shown_next(before, rows.take(n - 1), next, rows[n - 1]);
    }
}

/// Every row that can be clicked was drawn in the frame that recorded it.
pub proof fn clickable_rows_are_drawn(m: UnionModel, f: UnionFrame<'_>)
    requires
        f.regions.content.width > 0,
    ensures
        all_shown(m.picture(f), m.shown_rows(f)),
{
    let rows = m.shown_rows(f);
    rows_are_shown(m, f, rows.len() as int);
    assert(rows.take(rows.len() as int) =~= rows);
    all_shown_among(
        seq![Drawn::Frame { title: "Union views"@ }] + if_drawn(
            f.candidates@.len() == 0,
            text_at(
                f.regions.body,
                "no views are open"@,
                DialogStyles::of(f.theme).label,
                Fit::Whole,
            ),
        ),
        m.rows_part(f, rows.len() as int),
        m.tail_part(f),
        rows,
    );
}

} // verus!
