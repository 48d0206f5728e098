//! How a frame of the Investigation layer is laid out and what it says.

use super::{
    InvestigationControl, InvestigationDialog, InvestigationDialogState, InvestigationGeometry,
    InvestigationHit, InvestigationItem, InvestigationModel, InvestigationStage, TalkModel,
};
use crate::component::{CommandEntry, CommandId, CommandSpec, MessageState, Surface};
use crate::dialog_layout::{
    action_rows, budget_actions, find_region, region_at, DialogSpec, PANE_INDENT,
};
use crate::geometry::{greatest, least, max16, min16, minus, sat16, Rect};
use crate::text::{
    copy_texts, decimal, decimal_text, some_str, some_text, strs, text_lists, texts, trim, trimmed,
};
use vstd::prelude::*;

verus! {

/// The rows of the question, where there is room.
pub const QUESTION_ROWS: u16 = 3;

/// The columns of the labels.
pub const INVESTIGATION_LABEL_WIDTH: u16 = 11;

/// The rows that the pane keeps before the question takes more than one.
pub const PANE_ROWS: u16 = 3;

/// What a session is bound to.
pub const SESSION_HELP: &'static str =
    "Follow-ups reuse the fixed snapshot this session started from.";

/// What a new question does.
pub const START_HELP: &'static str =
    "Start an investigation on a fixed snapshot of this view; follow-ups reuse it.";

/// The widest buttons of any stage.
pub open spec fn widest_labels() -> Seq<&'static str> {
    seq!["New snapshot", "Resume", "Open"]
}

/// The rows set aside for each part, where the two help sentences take so many
/// rows each.
pub fn investigation_spec_for(policy_width: u16, session_help: u16, start_help: u16) -> (r: DialogSpec)
    ensures
        r == (DialogSpec {
            header: 1,
            body: 5,
            message: 2,
            help: greatest(least(session_help as int, 2), least(start_help as int, 2)) as u16,
            actions: action_rows(policy_width, widest_labels()) as u16,
        }),
{
    let labels: Vec<&'static str> = vec!["New snapshot", "Resume", "Open"];
    assert(labels@ =~= widest_labels());
    DialogSpec {
        header: 1,
        body: 5,
        message: 2,
        help: max16(min16(session_help, 2), min16(start_help, 2)),
        actions: budget_actions(policy_width, labels.as_slice()),
    }
}

/// The title of the dialog.
pub fn title_for(ascii: bool) -> (r: &'static str)
    ensures
        r@ == if ascii {
            "Investigation Agent"@
        } else {
            "Investigation \u{1f9e0}"@
        },
{
    if ascii {
        "Investigation Agent"
    } else {
        "Investigation \u{1f9e0}"
    }
}

/// The row of a saved session.
pub open spec fn session_row(item: InvestigationItem, chosen: bool, ascii: bool) -> Seq<char> {
    (if !chosen {
        "  "@
    } else if ascii {
        "> "@
    } else {
        "\u{203a} "@
    }) + item.session_id@ + " \u{2014} "@ + item.question@
}

impl TalkModel {
    /// The saved sessions are shown in place of the transcript.
    pub open spec fn shows_saved(self) -> bool {
        self.saved_mode && self.items.len() > 0
    }

    /// What the dialog is doing.
    pub open spec fn message(self) -> MessageState {
        match self.stage {
            InvestigationStage::Input | InvestigationStage::Conversation => MessageState::Ready,
            InvestigationStage::Error => MessageState::Error,
            _ => MessageState::Pending,
        }
    }

    pub open spec fn help(self) -> Seq<char> {
        if self.session_id is Some {
            SESSION_HELP@
        } else {
            START_HELP@
        }
    }

    /// The help row, which an empty transcript does without: it shows the same
    /// sentence.
    pub open spec fn help_row(self) -> Seq<char> {
        if self.messages.len() == 0 && !self.saved_mode {
            ""@
        } else {
            self.help()
        }
    }

    /// Which session answers, and from which snapshot.
    pub open spec fn provenance(self) -> Option<Seq<char>> {
        match (self.session_id, self.snapshot_dir) {
            (Some(session), Some(snapshot)) => Some(
                "Session: "@ + session + " \u{b7} Snapshot: "@ + snapshot,
            ),
            (Some(session), None) => Some("Session: "@ + session),
            (None, Some(snapshot)) => Some("Snapshot: "@ + snapshot),
            (None, None) => None,
        }
    }

    /// The label of the default button.
    pub open spec fn primary(self) -> Seq<char> {
        if self.stage == InvestigationStage::Conversation {
            "Send"@
        } else if trimmed(self.input).len() == 0 && self.items.len() > 0 {
            "Resume"@
        } else {
            "Start"@
        }
    }

    /// The buttons in drawn order.
    pub open spec fn actions(self) -> Seq<InvestigationControl> {
        if !self.stage.editable() {
            seq![]
        } else {
            seq![InvestigationControl::Submit] + super::one_if(
                self.shows_saved(),
                InvestigationControl::Open,
            ) + super::one_if(self.has_session(), InvestigationControl::New)
        }
    }

    /// The label of a button.
    pub open spec fn action_text(self, control: InvestigationControl) -> Seq<char> {
        match control {
            InvestigationControl::Submit => self.primary(),
            InvestigationControl::Open => "Open"@,
            _ => "New snapshot"@,
        }
    }

    /// The heading of the pane, its count, and its lines.
    pub open spec fn pane(self, saved: bool, help: Seq<char>, ascii: bool) -> (
        Seq<char>,
        Seq<char>,
        Seq<Seq<char>>,
    ) {
        if saved {
            (
                "Saved investigations"@,
                decimal(self.items.len()) + " saved"@,
                Seq::new(
                    self.items.len(),
                    |i: int| session_row(self.items[i], i == self.selected, ascii),
                ),
            )
        } else {
            (
                "Transcript"@,
                decimal(self.messages.len()) + " message"@ + (if self.messages.len() == 1 {
                    ""@
                } else {
                    "s"@
                }),
                if self.messages.len() == 0 {
                    seq![help]
                } else {
                    self.messages
                },
            )
        }
    }

    /// Where more gives up the focus: there is nothing to scroll.
    pub open spec fn without_more(self) -> TalkModel {
        TalkModel {
            focus: if self.focus != InvestigationControl::More {
                self.focus
            } else if self.stage.editable() {
                InvestigationControl::Submit
            } else {
                InvestigationControl::Prompt
            },
            ..self
        }
    }

    /// A frame was drawn whose pane shows `rows` of `total` lines from `first`.
    pub open spec fn settled(self, total: int, rows: int, first: int) -> TalkModel {
        let limit = minus(total, rows);
        let scroll = least(first, limit);
        let there = TalkModel {
            review_scroll_limit: sat16(limit),
            review_scroll: if scroll <= 65535 {
                scroll
            } else {
                0
            },
            ..self
        };
        if limit == 0 {
            there.without_more()
        } else {
            there
        }
    }

    /// A frame was too small to draw anything.
    pub open spec fn unfit(self) -> TalkModel {
        TalkModel { review_scroll_limit: 0, ..self }.without_more()
    }
}

impl InvestigationDialogState {
    pub fn shows_saved(&self) -> (r: bool)
        ensures
            r == self.model().shows_saved(),
    {
        self.saved_mode && self.items.len() > 0
    }

    /// The message row.
    pub fn message(&self) -> (r: (MessageState, String))
        ensures
            r.0 == self.model().message(),
            r.1@ == self.model().progress,
    {
        let state = match self.stage {
            InvestigationStage::Input | InvestigationStage::Conversation => MessageState::Ready,
            InvestigationStage::Error => MessageState::Error,
            _ => MessageState::Pending,
        };
        (state, self.progress.clone())
    }

    pub fn help(&self) -> (r: &'static str)
        ensures
            r@ == self.model().help(),
    {
        if self.session_id.is_some() {
            SESSION_HELP
        } else {
            START_HELP
        }
    }

    pub fn help_row(&self) -> (r: &'static str)
        ensures
            r@ == self.model().help_row(),
    {
        if self.messages.len() == 0 && !self.saved_mode {
            ""
        } else {
            self.help()
        }
    }

    pub fn provenance(&self) -> (r: Option<String>)
        ensures
            some_text(r) == self.model().provenance(),
    {
        match (&self.session_id, &self.snapshot_dir) {
            (Some(session), Some(snapshot)) => {
                let mut text = "Session: ".to_owned();
                text.append(session.as_str());
                text.append(" \u{b7} Snapshot: ");
                text.append(snapshot.as_str());
                Some(text)
            },
            (Some(session), None) => {
                let mut text = "Session: ".to_owned();
                text.append(session.as_str());
                Some(text)
            },
            (None, Some(snapshot)) => {
                let mut text = "Snapshot: ".to_owned();
                text.append(snapshot.as_str());
                Some(text)
            },
            (None, None) => None,
        }
    }

    fn primary(&self) -> (r: &'static str)
        ensures
            r@ == self.model().primary(),
    {
        if self.stage == InvestigationStage::Conversation {
            "Send"
        } else if trim(self.input.as_str()).as_str().is_empty() && self.items.len() > 0 {
            "Resume"
        } else {
            "Start"
        }
    }

    /// The buttons in drawn order, with their labels.
    pub fn actions(&self) -> (r: Vec<(&'static str, InvestigationControl)>)
        ensures
            r@.len() == self.model().actions().len(),
            forall|i: int|
                0 <= i < r@.len() ==> (#[trigger] r@[i]).1 == self.model().actions()[i] && r@[i].0@
                    == self.model().action_text(self.model().actions()[i]),
    {
        let mut list: Vec<(&'static str, InvestigationControl)> = Vec::new();
        if self.stage.is_editable() {
            list.push((self.primary(), InvestigationControl::Submit));
            if self.shows_saved() {
                list.push(("Open", InvestigationControl::Open));
            }
            if self.investigation_id.is_some() || self.session_id.is_some() {
                list.push(("New snapshot", InvestigationControl::New));
            }
        }
        list
    }

    fn session_rows(&self, ascii: bool) -> (r: Vec<String>)
        ensures
            texts(r@) == self.model().pane(true, ""@, ascii).2,
    {
        let mut rows: Vec<String> = Vec::new();
        let mut i: usize = 0;
        while i < self.items.len()
            invariant
                i <= self.items@.len(),
                rows@.len() == i,
                forall|j: int|
                    0 <= j < i ==> (#[trigger] rows@[j])@ == session_row(
                        self.items@[j],
                        j == self.selected,
                        ascii,
                    ),
            decreases self.items.len() - i,
        {
            let item = &self.items[i];
            let mut text = (if i != self.selected {
                "  "
            } else if ascii {
                "> "
            } else {
                "\u{203a} "
            }).to_owned();
            text.append(item.session_id.as_str());
            text.append(" \u{2014} ");
            text.append(item.question.as_str());
            rows.push(text);
            i += 1;
        }
        assert(texts(rows@) =~= self.model().pane(true, ""@, ascii).2);
        rows
    }

    /// The heading of the pane, its count, and its lines.
    pub fn pane_content(&self, saved_mode: bool, help: &str, ascii: bool) -> (r: (
        &'static str,
        String,
        Vec<String>,
    ))
        ensures
            (r.0@, r.1@, texts(r.2@)) == self.model().pane(saved_mode, help@, ascii),
    {
        if saved_mode {
            let mut count = decimal_text(self.items.len() as u64);
            count.append(" saved");
            return ("Saved investigations", count, self.session_rows(ascii));
        }
        let total: usize = self.messages.len();
        let mut count = decimal_text(total as u64);
        count.append(" message");
        count.append(
            if total == 1 {
                ""
            } else {
                "s"
            },
        );
        let lines = if total == 0 {
            let lines: Vec<String> = vec![help.to_owned()];
            assert(texts(lines@) =~= seq![help@]);
            lines
        } else {
            copy_texts(&self.messages)
        };
        ("Transcript", count, lines)
    }

    /// More gives up the focus.
    fn leave_more(&mut self)
        ensures
            final(self).model() == old(self).model().without_more(),
    {
        if self.focus == InvestigationControl::More {
            self.focus = if self.stage.is_editable() {
                InvestigationControl::Submit
            } else {
                InvestigationControl::Prompt
            };
        }
    }

    fn settle(&mut self, total: usize, rows: usize, first: usize)
        ensures
            final(self).model() == old(self).model().settled(
                total as int,
                rows as int,
                first as int,
            ),
    {
        let limit: usize = total.saturating_sub(rows);
        let scroll: usize = if first < limit {
            first
        } else {
            limit
        };
        self.review_scroll_limit = if limit <= 65535 {
            limit as u16
        } else {
            65535
        };
        self.review_scroll = if scroll <= 65535 {
            scroll as u16
        } else {
            0
        };
        if limit == 0 {
            self.leave_more();
        }
    }
}

/// A saved session's rows with the one that is selected; none is broken.
pub open spec fn marked_rows(lines: Seq<Seq<char>>, selected: int) -> Seq<(Seq<char>, bool)> {
    Seq::new(lines.len(), |i: int| (lines[i], i == selected))
}

/// The lines of a transcript, broken into rows; none is selected.
pub open spec fn broken_rows(wrapped: Seq<Seq<Seq<char>>>, n: int) -> Seq<(Seq<char>, bool)>
    decreases n,
{
    if n <= 0 {
        seq![]
    } else {
        broken_rows(wrapped, n - 1) + wrapped[n - 1].map_values(|line: Seq<char>| (line, false))
    }
}

/// The rows by what they say.
pub open spec fn rows_view(rows: Seq<(String, bool)>) -> Seq<(Seq<char>, bool)> {
    rows.map_values(|row: (String, bool)| (row.0@, row.1))
}

/// Marks the selected of the saved sessions.
pub fn mark_rows(lines: &Vec<String>, selected: usize) -> (r: Vec<(String, bool)>)
    ensures
        rows_view(r@) == marked_rows(texts(lines@), selected as int),
{
    let mut out: Vec<(String, bool)> = Vec::new();
    let mut i: usize = 0;
    while i < lines.len()
        invariant
            i <= lines@.len(),
            out@.len() == i,
            forall|j: int|
                0 <= j < i ==> (#[trigger] out@[j]).0@ == lines@[j]@ && out@[j].1 == (j == selected),
        decreases lines.len() - i,
    {
        out.push((lines[i].clone(), i == selected));
        i += 1;
    }
    assert(rows_view(out@) =~= marked_rows(texts(lines@), selected as int));
    out
}

/// Puts the broken lines of a transcript together.
pub fn flatten_rows(wrapped: &Vec<Vec<String>>) -> (r: Vec<(String, bool)>)
    ensures
        rows_view(r@) == broken_rows(text_lists(wrapped@), wrapped@.len() as int),
{
    let ghost all = text_lists(wrapped@);
    let mut out: Vec<(String, bool)> = Vec::new();
    let mut i: usize = 0;
    assert(rows_view(out@) =~= seq![]);
    while i < wrapped.len()
        invariant
            i <= wrapped@.len(),
            all == text_lists(wrapped@),
            rows_view(out@) == broken_rows(all, i as int),
        decreases wrapped.len() - i,
    {
        let lines = &wrapped[i];
        let ghost before = rows_view(out@);
        let ghost part = all[i as int].map_values(|line: Seq<char>| (line, false));
        let mut j: usize = 0;
        assert(before + part.take(0) =~= before);
        while j < lines.len()
            invariant
                j <= lines@.len(),
                part.len() == lines@.len(),
                forall|k: int| 0 <= k < part.len() ==> #[trigger] part[k] == (lines@[k]@, false),
                rows_view(out@) == before + part.take(j as int),
            decreases lines.len() - j,
        {
            let ghost now = out@;
            out.push((lines[j].clone(), false));
            proof {
                assert(rows_view(out@) =~= rows_view(now).push(part[j as int]));
                assert(before + part.take(j + 1) =~= (before + part.take(j as int)).push(
                    part[j as int],
                ));
            }
            j += 1;
        }
        assert(part.take(j as int) =~= part);
        i += 1;
    }
    out
}

/// The columns that the pane's lines are broken at: one less for the scroll bar
/// where they would not all show.
pub fn wrap_width(pane: Rect, rows: usize) -> (r: usize)
    ensures
        r == {
            let room = greatest(minus(pane.width as int, PANE_INDENT as int), 1);
            let shown = if pane.height > 1 {
                pane.height - 1
            } else {
                pane.height as int
            };
            if rows > shown && room > 1 {
                room - 1
            } else {
                room
            }
        },
{
    let room: u16 = max16(pane.width.saturating_sub(PANE_INDENT), 1);
    let shown: u16 = if pane.height > 1 {
        pane.height - 1
    } else {
        pane.height
    };
    if rows > shown as usize && room > 1 {
        (room - 1) as usize
    } else {
        room as usize
    }
}

/// How the body is divided: the question, a row for the provenance, the pane.
#[derive(Clone, Copy, Debug, PartialEq, Eq, Structural)]
pub struct InvestigationAreas {
    pub question: Rect,
    pub provenance: Option<Rect>,
    pub pane: Rect,
}

/// The row of the provenance, where there is one beside the question.
pub open spec fn provenance_rows(height: int, known: bool) -> int {
    if known {
        least(1, minus(height, 1))
    } else {
        0
    }
}

/// The rows of the question: so many that the pane keeps its own, and one at
/// least.
pub open spec fn question_rows(height: int, known: bool) -> int {
    least(
        least(QUESTION_ROWS as int, height),
        greatest(minus(minus(height, provenance_rows(height, known)), PANE_ROWS as int), 1),
    )
}

/// The blank row before the pane.
pub open spec fn gap_rows(height: int, known: bool, roomy: bool) -> int {
    least(
        if roomy {
            1
        } else {
            0
        },
        minus(
            minus(minus(height, question_rows(height, known)), provenance_rows(height, known)),
            PANE_ROWS as int,
        ),
    )
}

/// How a body is divided.
pub open spec fn areas_of(body: Rect, known: bool, roomy: bool) -> InvestigationAreas {
    let height = body.height as int;
    let told = provenance_rows(height, known);
    let asked = question_rows(height, known);
    let fixed = asked + told + gap_rows(height, known, roomy);
    InvestigationAreas {
        question: Rect::spec_new(
            sat16(body.x + INVESTIGATION_LABEL_WIDTH) as u16,
            body.y,
            minus(body.width as int, INVESTIGATION_LABEL_WIDTH as int) as u16,
            asked as u16,
        ),
        provenance: if told > 0 {
            Some(Rect::spec_new(body.x, sat16(body.y + asked) as u16, body.width, 1))
        } else {
            None
        },
        pane: Rect::spec_new(
            body.x,
            sat16(body.y + fixed) as u16,
            body.width,
            minus(height, fixed) as u16,
        ),
    }
}

/// Divides the body.
pub fn split_body(body: Rect, known: bool, roomy: bool) -> (r: InvestigationAreas)
    ensures
        r == areas_of(body, known, roomy),
{
    let height: u16 = body.height;
    let told: u16 = if known {
        min16(1, height.saturating_sub(1))
    } else {
        0
    };
    let asked: u16 = min16(
        min16(QUESTION_ROWS, height),
        max16(height.saturating_sub(told).saturating_sub(PANE_ROWS), 1),
    );
    let gap: u16 = min16(
        if roomy {
            1
        } else {
            0
        },
        height.saturating_sub(asked).saturating_sub(told).saturating_sub(PANE_ROWS),
    );
    let fixed: u16 = asked + told + gap;
    InvestigationAreas {
        question: Rect::new(
            body.x.saturating_add(INVESTIGATION_LABEL_WIDTH),
            body.y,
            body.width.saturating_sub(INVESTIGATION_LABEL_WIDTH),
            asked,
        ),
        provenance: if told > 0 {
            Some(Rect::new(body.x, body.y.saturating_add(asked), body.width, 1))
        } else {
            None
        },
        pane: Rect::new(
            body.x,
            body.y.saturating_add(fixed),
            body.width,
            height.saturating_sub(fixed),
        ),
    }
}

/// The question, the provenance and the pane follow one another within the
/// body; the question has a row wherever there is one, and the pane its own
/// wherever the body has five.
pub proof fn body_is_divided(body: Rect, known: bool, roomy: bool)
    requires
        body.valid(),
        body.height > 0,
    ensures
        ({
            let areas = areas_of(body, known, roomy);
            &&& 1 <= areas.question.height <= QUESTION_ROWS
            &&& areas.question.y == body.y
            &&& areas.provenance matches Some(row) ==> row.y == areas.question.spec_bottom()
                && row.spec_bottom() <= areas.pane.y
            &&& areas.question.spec_bottom() <= areas.pane.y
            &&& areas.pane.spec_bottom() == body.spec_bottom()
            &&& body.height >= 5 ==> areas.pane.height >= PANE_ROWS
        }),
{
}

/// The first row of the question that is shown, so that the caret's row is.
pub fn question_top(cursor_row: usize, height: u16) -> (r: usize)
    requires
        cursor_row < usize::MAX,
    ensures
        r == minus(cursor_row + 1, greatest(height as int, 1)),
        r <= cursor_row,
        cursor_row - r < greatest(height as int, 1),
{
    let shown: u16 = max16(height, 1);
    (cursor_row + 1).saturating_sub(shown as usize)
}

/// The cell of the caret.
pub fn caret_cell(question: Rect, cursor_row: usize, cursor_col: usize, top: usize) -> (r: Option<
    (u16, u16),
>)
    requires
        question.valid(),
    ensures
        r == if question.width > 0 && question.height > 0 {
            Some(
                (
                    (question.x + least(cursor_col as int, question.width - 1)) as u16,
                    (question.y + least(minus(cursor_row as int, top as int), question.height - 1))
                        as u16,
                ),
            )
        } else {
            None
        },
        r matches Some((x, y)) ==> question.covers(x as int, y as int),
{
    if question.width == 0 || question.height == 0 {
        return None;
    }
    let last_col: u16 = question.width - 1;
    let last_row: u16 = question.height - 1;
    let down: usize = cursor_row.saturating_sub(top);
    let col: u16 = if cursor_col < last_col as usize {
        cursor_col as u16
    } else {
        last_col
    };
    let row: u16 = if down < last_row as usize {
        down as u16
    } else {
        last_row
    };
    Some((question.x + col, question.y + row))
}

/// The regions of a frame in drawn order: the two modes, the question, and the
/// buttons.
pub open spec fn control_regions(
    modes: Seq<Rect>,
    question: Option<Rect>,
    actions: Seq<InvestigationControl>,
    buttons: Seq<(usize, Rect)>,
) -> Seq<(Rect, InvestigationControl)> {
    Seq::new(
        modes.len(),
        |i: int|
            (
                modes[i],
                if i == 0 {
                    InvestigationControl::ModeNew
                } else {
                    InvestigationControl::Saved
                },
            ),
    ) + (match question {
        Some(rect) => seq![(rect, InvestigationControl::Prompt)],
        None => seq![],
    }) + button_regions(actions, buttons, buttons.len() as int)
}

/// The regions of the buttons among the first `n`.
pub open spec fn button_regions(
    actions: Seq<InvestigationControl>,
    buttons: Seq<(usize, Rect)>,
    n: int,
) -> Seq<(Rect, InvestigationControl)>
    decreases n,
{
    if n <= 0 {
        seq![]
    } else {
        let before = button_regions(actions, buttons, n - 1);
        let index = buttons[n - 1].0 as int;
        if index < actions.len() {
            before.push((buttons[n - 1].1, actions[index]))
        } else {
            before
        }
    }
}

impl InvestigationDialogState {
    /// The regions of the controls of a frame.
    pub fn control_regions(
        &self,
        modes: &Vec<Rect>,
        question: Option<Rect>,
        buttons: &Vec<(usize, Rect)>,
    ) -> (r: Vec<(Rect, InvestigationControl)>)
        ensures
            r@ == control_regions(modes@, question, self.model().actions(), buttons@),
    {
        let actions = self.actions();
        let mut out: Vec<(Rect, InvestigationControl)> = Vec::new();
        let mut i: usize = 0;
        while i < modes.len()
            invariant
                i <= modes@.len(),
                out@.len() == i,
                forall|j: int|
                    0 <= j < i ==> #[trigger] out@[j] == (
                        modes@[j],
                        if j == 0 {
                            InvestigationControl::ModeNew
                        } else {
                            InvestigationControl::Saved
                        },
                    ),
            decreases modes.len() - i,
        {
            out.push(
                (
                    modes[i],
                    if i == 0 {
                        InvestigationControl::ModeNew
                    } else {
                        InvestigationControl::Saved
                    },
                ),
            );
            i += 1;
        }
        if let Some(rect) = question {
            out.push((rect, InvestigationControl::Prompt));
        }
        let ghost first = out@;
        let ghost all = self.model().actions();
        let mut k: usize = 0;
        assert(first + button_regions(all, buttons@, 0) =~= first);
        while k < buttons.len()
            invariant
                k <= buttons@.len(),
                actions@.len() == all.len(),
                forall|j: int| 0 <= j < actions@.len() ==> (#[trigger] actions@[j]).1 == all[j],
                out@ == first + button_regions(all, buttons@, k as int),
            decreases buttons.len() - k,
        {
            let button = buttons[k];
            let ghost before = button_regions(all, buttons@, k as int);
            if button.0 < actions.len() {
                let action = &actions[button.0];
                out.push((button.1, action.1));
                assert(out@ =~= first + before.push((button.1, all[button.0 as int])));
            }
            k += 1;
        }
        assert(out@ =~= control_regions(modes@, question, all, buttons@));
        out
    }
}

impl InvestigationModel {
    /// What a point of the last frame stands for.
    pub open spec fn at(self, column: int, row: int) -> Option<InvestigationHit> {
        match region_at(self.geometry.controls@, column, row) {
            Some(control) => Some(InvestigationHit::Control(control)),
            None => match self.geometry.body {
                Some(body) => if body.covers(column, row) {
                    Some(InvestigationHit::Body)
                } else {
                    None
                },
                None => None,
            },
        }
    }

    /// The selected session can be resumed.
    pub open spec fn can_resume(self) -> bool {
        &&& self.talk is Some
        &&& self.talk->0.stage == InvestigationStage::Input
        &&& trimmed(self.talk->0.input).len() == 0
        &&& 0 <= self.talk->0.selected < self.talk->0.items.len()
    }

    /// There is a follow-up and a session to send it to.
    pub open spec fn can_follow_up(self) -> bool {
        &&& self.talk is Some
        &&& self.talk->0.stage == InvestigationStage::Conversation || self.talk->0.stage
            == InvestigationStage::Error
        &&& self.talk->0.session_id is Some
        &&& trimmed(self.talk->0.input).len() > 0
    }
}

impl InvestigationDialog {
    /// The surface of the last frame; whether it takes text is as it is now.
    pub fn surface(&self) -> (r: Surface)
        ensures
            r == (Surface { text_focus: self.model().editing(), ..self.model().surface }),
    {
        Surface { text_focus: self.editing(), ..self.surface }
    }

    pub fn hit(&self, column: u16, row: u16) -> (r: Option<InvestigationHit>)
        ensures
            r == self.model().at(column as int, row as int),
    {
        if let Some(control) = find_region(&self.geometry.controls, column, row) {
            return Some(InvestigationHit::Control(control));
        }
        match self.geometry.body {
            Some(body) => if body.contains(column, row) {
                Some(InvestigationHit::Body)
            } else {
                None
            },
            None => None,
        }
    }

    /// A frame was drawn whose pane shows `rows` of `total` lines from `first`.
    pub fn settle(&mut self, total: usize, rows: usize, first: usize)
        ensures
            final(self).model() == (InvestigationModel {
                talk: match old(self).model().talk {
                    Some(talk) => Some(talk.settled(total as int, rows as int, first as int)),
                    None => None,
                },
                ..old(self).model()
            }),
    {
        if let Some(state) = &mut self.state {
            state.settle(total, rows, first);
        }
    }

    /// A frame was too small to draw anything.
    pub fn settle_unfit(&mut self)
        ensures
            final(self).model() == (InvestigationModel {
                talk: match old(self).model().talk {
                    Some(talk) => Some(talk.unfit()),
                    None => None,
                },
                ..old(self).model()
            }),
    {
        if let Some(state) = &mut self.state {
            state.review_scroll_limit = 0;
            state.leave_more();
        }
    }

    /// Remembers a frame.
    pub fn record(&mut self, geometry: InvestigationGeometry, surface: Surface) -> (r: Surface)
        ensures
            r == surface,
            final(self).model() == (InvestigationModel { geometry, surface, ..old(self).model() }),
    {
        self.geometry = geometry;
        self.surface = surface;
        surface
    }

    fn can_resume(&self) -> (r: bool)
        ensures
            r == self.model().can_resume(),
    {
        match &self.state {
            Some(state) => state.stage == InvestigationStage::Input && trim(
                state.input.as_str(),
            ).as_str().is_empty() && state.selected < state.items.len(),
            None => false,
        }
    }

    fn can_follow_up(&self) -> (r: bool)
        ensures
            r == self.model().can_follow_up(),
    {
        match &self.state {
            Some(state) => (state.stage == InvestigationStage::Conversation || state.stage
                == InvestigationStage::Error) && state.session_id.is_some() && !trim(
                state.input.as_str(),
            ).as_str().is_empty(),
            None => false,
        }
    }

    /// The palette entries of the layer.
    pub fn commands(&self) -> (r: Vec<CommandEntry>)
        ensures
            r@.len() == 3,
            is_agent_entry(
                r@[0],
                CommandId::NewInvestigation,
                if self.model().talk is Some {
                    Some("Alt-N"@)
                } else {
                    None
                },
                if self.model().talk is Some {
                    None
                } else {
                    Some("open Investigations first"@)
                },
            ),
            is_agent_entry(
                r@[1],
                CommandId::ResumeInvestigation,
                None,
                if self.model().can_resume() {
                    None
                } else {
                    Some("open Investigations and select a saved session first"@)
                },
            ),
            is_agent_entry(
                r@[2],
                CommandId::InvestigationFollowup,
                None,
                if self.model().can_follow_up() {
                    None
                } else {
                    Some("open an active investigation and enter a follow-up first"@)
                },
            ),
    {
        let open = self.state.is_some();
        let mut entries: Vec<CommandEntry> = Vec::new();
        let start: Vec<&'static str> = vec!["question", "conversation"];
        assert(strs(start@) =~= seq!["question"@, "conversation"@]);
        entries.push(
            CommandEntry {
                spec: CommandSpec {
                    id: CommandId::NewInvestigation,
                    name: "New investigation",
                    description: "Start a new investigation draft",
                    category: "Agent",
                    aliases: start,
                    shortcut: if open {
                        Some("Alt-N")
                    } else {
                        None
                    },
                },
                unavailable_reason: if open {
                    None
                } else {
                    Some("open Investigations first")
                },
            },
        );
        let resume: Vec<&'static str> = vec!["continue session", "history"];
        assert(strs(resume@) =~= seq!["continue session"@, "history"@]);
        entries.push(
            CommandEntry {
                spec: CommandSpec {
                    id: CommandId::ResumeInvestigation,
                    name: "Resume selected investigation",
                    description: "Resume the selected saved session",
                    category: "Agent",
                    aliases: resume,
                    shortcut: None,
                },
                unavailable_reason: if self.can_resume() {
                    None
                } else {
                    Some("open Investigations and select a saved session first")
                },
            },
        );
        let follow: Vec<&'static str> = vec!["reply", "continue conversation"];
        assert(strs(follow@) =~= seq!["reply"@, "continue conversation"@]);
        entries.push(
            CommandEntry {
                spec: CommandSpec {
                    id: CommandId::InvestigationFollowup,
                    name: "Send investigation follow-up",
                    description: "Send the current prompt to the active session",
                    category: "Agent",
                    aliases: follow,
                    shortcut: None,
                },
                unavailable_reason: if self.can_follow_up() {
                    None
                } else {
                    Some("open an active investigation and enter a follow-up first")
                },
            },
        );
        entries
    }
}

/// The words of a palette entry: its name, what it does, and what else it is
/// found by.
pub open spec fn command_words(id: CommandId) -> (Seq<char>, Seq<char>, Seq<Seq<char>>) {
    match id {
        CommandId::NewInvestigation => (
            "New investigation"@,
            "Start a new investigation draft"@,
            seq!["question"@, "conversation"@],
        ),
        CommandId::ResumeInvestigation => (
            "Resume selected investigation"@,
            "Resume the selected saved session"@,
            seq!["continue session"@, "history"@],
        ),
        _ => (
            "Send investigation follow-up"@,
            "Send the current prompt to the active session"@,
            seq!["reply"@, "continue conversation"@],
        ),
    }
}

/// A palette entry of the layer.
pub open spec fn is_agent_entry(
    entry: CommandEntry,
    id: CommandId,
    shortcut: Option<Seq<char>>,
    reason: Option<Seq<char>>,
) -> bool {
    let (name, description, aliases) = command_words(id);
    &&& entry.spec.id == id
    &&& entry.spec.name@ == name
    &&& entry.spec.description@ == description
    &&& entry.spec.category@ == "Agent"@
    &&& strs(entry.spec.aliases@) == aliases
    &&& some_str(entry.spec.shortcut) == shortcut
    &&& some_str(entry.unavailable_reason) == reason
}

} // verus!
