//! What the Investigation layer shows.

use super::{InvestigationControl, InvestigationStage, TalkModel};
use super::frame::{broken_rows, marked_rows};
use crate::component::MessageState;
use crate::text::{all_white, blank_text_has_no_core};
use super::render::InvestigationSheet;
use crate::paint::is_text;
use vstd::prelude::*;

verus! {

/// The pane shows every message of the transcript in its order, or every saved
/// session with its question, the selected one alone marked.
pub proof fn pane_shows_every_message(talk: TalkModel, help: Seq<char>, ascii: bool, i: int)
    requires
        i >= 0,
    ensures
        talk.messages.len() > 0 ==> talk.pane(false, help, ascii).2 == talk.messages,
        talk.messages.len() == 0 ==> talk.pane(false, help, ascii).2 == seq![help],
        talk.pane(true, help, ascii).2.len() == talk.items.len(),
        i < talk.items.len() ==> {
            let row = talk.pane(true, help, ascii).2[i];
            &&& talk.items[i].question@.is_suffix_of(row)
            &&& (row[0] == ' ') == (i != talk.selected)
            &&& row.skip(2) == talk.items[i].session_id@ + " \u{2014} "@ + talk.items[i].question@
        },
{
    if i < talk.items.len() {
        let row = talk.pane(true, help, ascii).2[i];
        let item = talk.items[i];
        reveal_strlit("  ");
        reveal_strlit("> ");
        reveal_strlit("\u{203a} ");
        assert(row.skip(2) =~= item.session_id@ + " \u{2014} "@ + item.question@);
        assert(row.skip(row.len() - item.question@.len()) =~= item.question@);
    }
}

/// The first button is named for what it does: it sends in a conversation, resumes
/// where the question is blank and there is a session, and starts otherwise.
pub proof fn first_button_says_what_it_does(talk: TalkModel)
    ensures
        talk.stage == InvestigationStage::Conversation ==> talk.primary() == "Send"@,
        talk.stage != InvestigationStage::Conversation && all_white(talk.input) && talk.items.len()
            > 0 ==> talk.primary() == "Resume"@,
        talk.stage != InvestigationStage::Conversation && (!all_white(talk.input)
            || talk.items.len() == 0) ==> talk.primary() == "Start"@,
        talk.stage == InvestigationStage::Input || talk.stage == InvestigationStage::Conversation
            || talk.stage == InvestigationStage::Error ==> talk.actions()[0]
            == InvestigationControl::Submit,
{
    blank_text_has_no_core(talk.input);
}

/// The session and its snapshot are shown where they are known.
pub proof fn provenance_is_shown(talk: TalkModel)
    ensures
        talk.session_id is None && talk.snapshot_dir is None <==> talk.provenance() is None,
        talk.session_id is Some && talk.snapshot_dir is Some ==> talk.provenance() == Some(
            "Session: "@ + talk.session_id->0 + " \u{b7} Snapshot: "@ + talk.snapshot_dir->0,
        ),
        talk.session_id is Some && talk.snapshot_dir is None ==> talk.provenance() == Some(
            "Session: "@ + talk.session_id->0,
        ),
        talk.session_id is None && talk.snapshot_dir is Some ==> talk.provenance() == Some(
            "Snapshot: "@ + talk.snapshot_dir->0,
        ),
{
}

/// The broken lines of the messages follow one another, none left out.
pub proof fn broken_lines_follow_one_another(wrapped: Seq<Seq<Seq<char>>>, n: int)
    requires
        0 <= n < wrapped.len(),
    ensures
        broken_rows(wrapped, 0).len() == 0,
        broken_rows(wrapped, n + 1).len() == broken_rows(wrapped, n).len() + wrapped[n].len(),
        forall|i: int|
            0 <= i < wrapped[n].len() ==> (#[trigger] broken_rows(wrapped, n + 1)[broken_rows(
                wrapped,
                n,
            ).len() + i]) == (wrapped[n][i], false),
        broken_rows(wrapped, n).is_prefix_of(broken_rows(wrapped, n + 1)),
{
}

/// The saved sessions are marked where they are selected, row by row.
pub proof fn selected_session_is_marked(lines: Seq<Seq<char>>, selected: int, i: int)
    requires
        0 <= i < lines.len(),
    ensures
        marked_rows(lines, selected).len() == lines.len(),
        marked_rows(lines, selected)[i] == (lines[i], i == selected),
{
}

/// A turn that is under way is pending, a failure is an error, and a dialog that
/// takes a question is ready.
pub proof fn stage_is_shown(talk: TalkModel)
    ensures
        talk.stage == InvestigationStage::Error ==> talk.message() == MessageState::Error,
        talk.stage == InvestigationStage::Input || talk.stage == InvestigationStage::Conversation
            ==> talk.message() == MessageState::Ready,
        talk.stage != InvestigationStage::Error && talk.stage != InvestigationStage::Input
            && talk.stage != InvestigationStage::Conversation ==> talk.message()
            == MessageState::Pending,
{
}

/// The transcript is scrolled no further than to its last row, and not at all where
/// it shows whole.
pub proof fn transcript_shows_its_end(talk: TalkModel, total: int, rows: int, first: int)
    requires
        0 <= rows,
        0 <= total <= 65535,
        0 <= first,
    ensures
        ({
            let after = talk.settled(total, rows, first);
            &&& total <= rows ==> after.review_scroll == 0 && after.review_scroll_limit == 0
            &&& total > rows ==> after.review_scroll_limit == total - rows
                && after.review_scroll <= total - rows
            &&& first + rows <= total ==> after.review_scroll == first
            &&& after.messages == talk.messages
        }),
{
}

/// Each line that shows is drawn with its own text, from the first that is
/// scrolled to on.
pub proof fn line_is_drawn_in_its_row(talk: TalkModel, s: InvestigationSheet<'_>, n: int, k: int)
    requires
        0 <= k < n,
    ensures
        talk.lines_part(s, n).len() == n,
        is_text(
            talk.lines_part(s, n)[k],
            s.list.row_rects@[k],
            s.lines@[talk.first_line(s) + k].0@,
        ),
    decreases n,
{
    if n - 1 > 0 {
        line_is_drawn_in_its_row(talk, s, n - 1, if k < n - 1 {
            k
        } else {
            0
        });
    } else {
        assert(talk.lines_part(s, 0).len() == 0);
    }
}

} // verus!
