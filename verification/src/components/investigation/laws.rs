//! What holds of the Investigation layer as a whole.

use super::{
    ask_of, bounded, kept, merged, session_place, with_session, AgentModel, InvestigationAsk,
    InvestigationControl, InvestigationDialogState, InvestigationGeometry, InvestigationHit,
    InvestigationItem, InvestigationModel, InvestigationRequest, InvestigationStage,
    MAX_SAVED_INVESTIGATIONS, TalkModel,
};
use crate::component::{
    distinct_item_is_found, ring_goes_round, CommandId, EditCommand, Event, Outcome, Step,
};
use crate::text::{all_white, blank_text_has_no_core, trimmed};
use crate::input::{KeyCode, KeyEvent, KeyEventKind, MouseEventKind};
use vstd::prelude::*;

verus! {

/// The text field and the dialog agree on the question.
pub open spec fn agrees(m: InvestigationModel) -> bool {
    m.talk is Some ==> m.talk->0.input == m.question
}

/// No event parts the text field from the dialog's question, nor does an edit.
pub proof fn question_stays_in_step(
    m: InvestigationModel,
    event: Event<InvestigationHit>,
    limit: int,
    value: Seq<char>,
    cursor: int,
)
    requires
        agrees(m),
    ensures
        agrees(m.after_event(event, limit).0),
        agrees(m.edited(value, cursor)),
        agrees(m.opened(Some(value), 0, m.geometry)),
{
}

/// What is reported for another generation changes nothing, and neither does
/// the session that it made.
pub proof fn other_generation_is_ignored(
    m: InvestigationModel,
    generation: int,
    item: InvestigationItem,
)
    requires
        !m.awaits(generation),
    ensures
        m.session_ready(generation, item) == (m, false),
{
}

/// A dialog that is opened anew waits for none of the answers to the one before.
pub proof fn reopening_fences(m: InvestigationModel, view_id: Seq<char>, revision: int)
    requires
        m.talk is Some,
        m.talk->0.generation <= m.queue.generation < u64::MAX,
    ensures
        !m.opened(Some(view_id), revision, m.geometry).awaits(m.talk->0.generation),
{
}

proof fn merging_keeps_known(known: Seq<InvestigationItem>, found: Seq<InvestigationItem>, n: int)
    requires
        0 <= n <= found.len(),
    ensures
        merged(known, found, n).len() >= known.len(),
        merged(known, found, n).take(known.len() as int) == known,
        forall|i: int|
            0 <= i < n ==> session_place(
                merged(known, found, n),
                (#[trigger] found[i]).id@,
                0,
            ) is Some,
    decreases n,
{
    if n == 0 {
        assert(known.take(known.len() as int) =~= known);
    } else {
        let before = merged(known, found, n - 1);
        let after = merged(known, found, n);
        merging_keeps_known(known, found, n - 1);
        assert(after.take(known.len() as int) =~= known);
        assert forall|i: int| 0 <= i < n implies session_place(
            after,
            (#[trigger] found[i]).id@,
            0,
        ) is Some by {
            if after != before {
                if i < n - 1 {
                    place_in_longer(before, found[n - 1], found[i].id@, 0);
                } else {
                    place_at_end(before, found[i], 0);
                }
            }
        }
    }
}

proof fn place_in_longer(
    items: Seq<InvestigationItem>,
    added: InvestigationItem,
    id: Seq<char>,
    from: int,
)
    requires
        from >= 0,
        session_place(items, id, from) is Some,
    ensures
        session_place(items.push(added), id, from) is Some,
    decreases items.len() - from,
{
    if from < items.len() && items[from].id@ != id {
        place_in_longer(items, added, id, from + 1);
    }
}

proof fn place_at_end(items: Seq<InvestigationItem>, added: InvestigationItem, from: int)
    requires
        0 <= from <= items.len(),
    ensures
        session_place(items.push(added), added.id@, from) is Some,
    decreases items.len() - from,
{
    if from < items.len() {
        place_at_end(items, added, from + 1);
    }
}

/// Reading the disk replaces no session that is known: the known ones stay
/// where they are, and at most so many are kept in all.
pub proof fn known_sessions_are_kept(m: InvestigationModel, found: Seq<InvestigationItem>)
    requires
        m.saved.len() <= MAX_SAVED_INVESTIGATIONS,
    ensures
        m.saved_found(found).saved.len() <= MAX_SAVED_INVESTIGATIONS,
        m.saved_found(found).saved.len() >= m.saved.len(),
        m.saved_found(found).saved.take(m.saved.len() as int) == m.saved,
{
    let n = found.len() as int;
    merging_keeps_known(m.saved, found, n);
    let all = merged(m.saved, found, n);
    assert(bounded(all).take(m.saved.len() as int) =~= all.take(m.saved.len() as int));
}

/// Every session that was read is kept, as long as there is room.
pub proof fn found_sessions_are_kept(m: InvestigationModel, found: Seq<InvestigationItem>, i: int)
    requires
        m.saved.len() + found.len() <= MAX_SAVED_INVESTIGATIONS,
        0 <= i < found.len(),
    ensures
        session_place(m.saved_found(found).saved, found[i].id@, 0) is Some,
{
    merging_keeps_known(m.saved, found, found.len() as int);
    merging_is_bounded(m.saved, found, found.len() as int);
}

proof fn merging_is_bounded(known: Seq<InvestigationItem>, found: Seq<InvestigationItem>, n: int)
    requires
        0 <= n <= found.len(),
    ensures
        merged(known, found, n).len() <= known.len() + n,
    decreases n,
{
    if n > 0 {
        merging_is_bounded(known, found, n - 1);
    }
}

proof fn place_holds(items: Seq<InvestigationItem>, id: Seq<char>, from: int)
    requires
        from >= 0,
    ensures
        session_place(items, id, from) matches Some(place) ==> from <= place < items.len()
            && items[place].id@ == id,
    decreases items.len() - from,
{
    if from < items.len() && items[from].id@ != id {
        place_holds(items, id, from + 1);
    }
}

/// A session that is ready is among those that are kept, which are never too
/// many.
pub proof fn ready_session_is_kept(m: InvestigationModel, generation: int, item: InvestigationItem)
    requires
        m.awaits(generation),
        m.saved.len() <= MAX_SAVED_INVESTIGATIONS,
    ensures
        m.session_ready(generation, item).0.saved.contains(item),
        m.session_ready(generation, item).0.saved.len() <= MAX_SAVED_INVESTIGATIONS,
        m.session_ready(generation, item).0.hears(item.session_id@),
{
    place_holds(m.saved, item.id@, 0);
    let saved = with_session(m.saved, item);
    match session_place(m.saved, item.id@, 0) {
        Some(place) => {
            assert(saved[place] == item);
        },
        None => {
            assert(saved[0] == item);
        },
    }
}

/// A turn under way takes no second question.
pub proof fn one_turn_at_a_time(m: InvestigationModel, limit: int)
    requires
        m.talk is Some,
        m.talk->0.working(),
        m.queue.items.len() < super::MAX_INVESTIGATION_REQUESTS,
    ensures
        m.submitted(limit) == m,
{
}

/// A question that was sent leaves the field, stands in the transcript, and puts
/// the dialog to work.
pub proof fn sent_question_is_told(m: InvestigationModel, limit: int)
    requires
        m.talk is Some,
        m.talk->0.stage == InvestigationStage::Input,
        trimmed(m.talk->0.input).len() > 0,
        m.queue.items.len() < super::MAX_INVESTIGATION_REQUESTS,
        limit > 0,
    ensures
        m.submitted(limit).talk->0.working(),
        m.submitted(limit).question.len() == 0,
        m.submitted(limit).talk->0.messages.last() == "You: "@ + m.talk->0.input,
{
    let all = m.talk->0.messages.push("You: "@ + m.talk->0.input);
    if all.len() > limit {
        assert(all.skip(all.len() - limit).last() == all.last());
    }
}

/// The transcript never holds more messages than it may, and its last one is
/// the one that came last.
pub proof fn transcript_is_bounded(messages: Seq<Seq<char>>, message: Seq<char>, limit: int)
    requires
        limit > 0,
    ensures
        kept(messages, message, limit).len() <= limit,
        kept(messages, message, limit).last() == message,
{
    let all = messages.push(message);
    if all.len() > limit {
        assert(all.skip(all.len() - limit).last() == all.last());
    }
}

/// Closing the dialog cancels what it waits for, once; an idle one cancels
/// nothing.
pub proof fn closing_cancels_once(m: InvestigationModel)
    ensures
        m.dismissed().talk is None,
        m.dismissed().dismissed() == m.dismissed(),
        m.talk is None || m.talk->0.stage == InvestigationStage::Input ==> m.dismissed().queue
            == m.queue,
{
}

/// Starting over leaves no trace of the session.
pub proof fn starting_over_drops_the_session(m: InvestigationModel, session_id: Seq<char>)
    ensures
        !m.started_over().hears(session_id),
        m.started_over().talk is Some ==> m.started_over().talk->0.messages.len() == 0,
        m.started_over().started_over() == m.started_over(),
        m.started_over().saved == m.saved,
{
}

/// A scroll stays within its limit.
pub proof fn scroll_is_within(talk: TalkModel, delta: int)
    requires
        talk.review_scroll_limit >= 0,
    ensures
        0 <= talk.scrolled(delta).review_scroll <= talk.review_scroll_limit,
{
}

/// A key goes down, first or by repetition, without Control or Alt.
pub open spec fn goes_down(key: KeyEvent) -> bool {
    &&& key.kind == KeyEventKind::Press || key.kind == KeyEventKind::Repeat
    &&& !key.modifiers.control && !key.modifiers.alt
}

/// A message comes last in a transcript, and what stands before it was there
/// before, in its order, up to the limit.
pub open spec fn comes_last(
    before: Seq<Seq<char>>,
    after: Seq<Seq<char>>,
    message: Seq<char>,
    limit: int,
) -> bool {
    &&& after.len() > 0
    &&& after.last() == message
    &&& after.len() == if before.len() + 1 <= limit {
        before.len() + 1
    } else {
        limit as nat
    }
    &&& forall|i: int|
        0 <= i < after.len() - 1 ==> #[trigger] after[i] == before[before.len() + 1 - after.len()
            + i]
}

proof fn kept_comes_last(messages: Seq<Seq<char>>, message: Seq<char>, limit: int)
    requires
        limit > 0,
    ensures
        comes_last(messages, kept(messages, message, limit), message, limit),
{
    let all = messages.push(message);
    if all.len() > limit {
        assert(all.skip(all.len() - limit).last() == all.last());
    }
}

/// When a turn of the session ends, well or badly, what was said stands last in
/// the transcript, and an empty message leaves the transcript as it is. A turn
/// that ended well goes on with the conversation; one that failed says why.
pub proof fn ended_turn_is_told(
    talk: TalkModel,
    message: Seq<char>,
    failure: Option<Seq<char>>,
    limit: int,
)
    requires
        limit > 0,
    ensures
        ({
            let after = talk.turn_ended(message, failure, limit);
            &&& message.len() > 0 ==> comes_last(talk.messages, after.messages, message, limit)
            &&& message.len() == 0 ==> after.messages == talk.messages
            &&& failure is None ==> after.stage == InvestigationStage::Conversation
            &&& failure matches Some(error) ==> after.stage == InvestigationStage::Error
                && after.progress == error
            &&& after.focus == InvestigationControl::Prompt
            &&& after.input == talk.input
            &&& after.session_id == talk.session_id
            &&& after.investigation_id == talk.investigation_id
            &&& after.generation == talk.generation
            &&& after.items == talk.items
        }),
{
    kept_comes_last(talk.messages, message, limit);
}

/// What the session puts out stands last in the transcript, and nothing else of
/// the dialog changes.
pub proof fn output_is_told(talk: TalkModel, message: Seq<char>, limit: int)
    requires
        limit > 0,
    ensures
        comes_last(talk.messages, talk.told(message, limit).messages, message, limit),
        talk.told(message, limit) == (TalkModel {
            messages: talk.told(message, limit).messages,
            ..talk
        }),
{
    kept_comes_last(talk.messages, message, limit);
}

/// The dialog hears the session that it shows and no other, and awaits the
/// answers of its own generation.
pub proof fn only_its_own_session_is_heard(
    m: InvestigationModel,
    session: Seq<char>,
    generation: int,
)
    ensures
        m.hears(session) <==> m.talk is Some && m.talk->0.session_id is Some
            && m.talk->0.session_id->0 == session,
        m.awaits(generation) <==> m.talk is Some && m.talk->0.generation == generation,
{
}

/// A new question starts an investigation of the view as it was defined when the
/// layer opened, with exactly the text that was typed and the agent that is set.
/// The question is told, and the field is emptied.
pub proof fn question_starts_an_investigation(m: InvestigationModel, key: KeyEvent, limit: int)
    requires
        m.talk is Some,
        m.talk->0.stage == InvestigationStage::Input,
        m.talk->0.focus == InvestigationControl::Submit || m.talk->0.focus
            == InvestigationControl::Open,
        !all_white(m.talk->0.input),
        m.queue.items.len() < 4 <= m.queue.cap,
        goes_down(key),
        key.code == KeyCode::Enter,
        limit > 0,
    ensures
        ({
            let talk = m.talk->0;
            let (after, step) = m.after_key(key, limit);
            &&& step == Step::Done(Outcome::Consumed)
            &&& after.queue.items == m.queue.items.push(
                InvestigationAsk::Start {
                    generation: talk.generation,
                    view_id: talk.view_id,
                    definition_revision: talk.definition_revision,
                    question: talk.input,
                    agent: m.agent,
                },
            )
            &&& comes_last(talk.messages, after.talk->0.messages, "You: "@ + talk.input, limit)
            &&& after.talk->0.input.len() == 0
            &&& after.question.len() == 0
            &&& after.talk->0.stage == InvestigationStage::Snapshot
            &&& after.saved == m.saved
        }),
{
    blank_text_has_no_core(m.talk->0.input);
    kept_comes_last(m.talk->0.messages, "You: "@ + m.talk->0.input, limit);
}

/// A blank question resumes the saved session that is selected, and no other.
pub proof fn blank_question_resumes_the_selected_session(
    m: InvestigationModel,
    key: KeyEvent,
    limit: int,
)
    requires
        m.talk is Some,
        m.talk->0.stage == InvestigationStage::Input,
        m.talk->0.focus == InvestigationControl::Submit || m.talk->0.focus
            == InvestigationControl::Open,
        all_white(m.talk->0.input),
        m.queue.items.len() < 4 <= m.queue.cap,
        goes_down(key),
        key.code == KeyCode::Enter,
    ensures
        ({
            let talk = m.talk->0;
            let after = m.after_key(key, limit).0;
            &&& 0 <= talk.selected < talk.items.len() ==> after.queue.items == m.queue.items.push(
                InvestigationAsk::Resume {
                    generation: talk.generation,
                    item: talk.items[talk.selected],
                },
            ) && after.talk->0.stage == InvestigationStage::Resuming && !after.talk->0.saved_mode
            &&& talk.items.len() == 0 ==> after.queue == m.queue && after.talk->0.stage
                == InvestigationStage::Error
            &&& after.talk->0.messages == talk.messages
        }),
{
    blank_text_has_no_core(m.talk->0.input);
}

/// A follow-up is sent to the session of the conversation, with exactly the text
/// that was typed; a blank one is not sent, and none without a session.
pub proof fn follow_up_is_sent(m: InvestigationModel, key: KeyEvent, limit: int)
    requires
        m.talk is Some,
        m.talk->0.stage == InvestigationStage::Conversation || m.talk->0.stage
            == InvestigationStage::Error,
        m.talk->0.focus == InvestigationControl::Submit,
        m.queue.items.len() < 4 <= m.queue.cap,
        goes_down(key),
        key.code == KeyCode::Enter,
        limit > 0,
    ensures
        ({
            let talk = m.talk->0;
            let after = m.after_key(key, limit).0;
            &&& talk.session_id is Some && !all_white(talk.input) ==> {
                &&& after.queue.items == m.queue.items.push(
                    InvestigationAsk::Send {
                        generation: talk.generation,
                        session_id: talk.session_id->0,
                        prompt: talk.input,
                    },
                )
                &&& comes_last(talk.messages, after.talk->0.messages, "You: "@ + talk.input, limit)
                &&& after.talk->0.input.len() == 0
                &&& after.question.len() == 0
                &&& after.talk->0.stage == InvestigationStage::Sending
                &&& after.talk->0.session_id == talk.session_id
            }
            &&& talk.session_id is None || all_white(talk.input) ==> after.queue == m.queue
                && after.talk->0.messages == talk.messages && after.talk->0.input == talk.input
        }),
{
    blank_text_has_no_core(m.talk->0.input);
    kept_comes_last(m.talk->0.messages, "You: "@ + m.talk->0.input, limit);
}

/// With four requests waiting nothing is sent, and the question is kept.
pub proof fn full_queue_keeps_the_question(m: InvestigationModel, limit: int)
    requires
        m.talk is Some,
        m.queue.items.len() >= 4,
    ensures
        m.submitted(limit).queue == m.queue,
        m.submitted(limit).question == m.question,
        m.submitted(limit).talk->0.input == m.talk->0.input,
        m.submitted(limit).talk->0.messages == m.talk->0.messages,
        m.submitted(limit).talk->0.stage == InvestigationStage::Error,
{
}

/// What is typed becomes the question, of the field and of the dialog.
pub proof fn typing_changes_the_question(m: InvestigationModel, value: Seq<char>, cursor: int)
    ensures
        ({
            let after = m.edited(value, cursor);
            let edits = m.talk is Some && m.talk->0.focus == InvestigationControl::Prompt && (
            m.talk->0.stage == InvestigationStage::Input || m.talk->0.stage
                == InvestigationStage::Conversation || m.talk->0.stage
                == InvestigationStage::Error);
            &&& edits ==> after.question == value && after.cursor == cursor && after.talk->0.input
                == value && after.talk->0 == (TalkModel { input: value, ..m.talk->0 })
                && after.queue == m.queue && after.saved == m.saved
            &&& !edits ==> after == m
        }),
{
}

/// In the question the keys are handed to its editor, and Enter begins a line.
pub proof fn keys_edit_the_question(m: InvestigationModel, key: KeyEvent, limit: int)
    requires
        m.talk is Some,
        m.talk->0.focus == InvestigationControl::Prompt,
        m.talk->0.stage == InvestigationStage::Input || m.talk->0.stage
            == InvestigationStage::Conversation || m.talk->0.stage == InvestigationStage::Error,
        goes_down(key),
    ensures
        ({
            let (after, step) = m.after_key(key, limit);
            &&& key.code matches KeyCode::Char(ch) ==> after == m && step == Step::Edit(
                EditCommand::Insert(ch),
            )
            &&& key.code == KeyCode::Enter ==> after == m && step == Step::Edit(
                EditCommand::Insert('\n'),
            )
            &&& key.code == KeyCode::Backspace ==> after == m && step == Step::Edit(
                EditCommand::Backspace,
            )
            &&& key.code == KeyCode::Left ==> step == Step::Edit(EditCommand::MoveLeft)
            &&& key.code == KeyCode::Right ==> step == Step::Edit(EditCommand::MoveRight)
            &&& key.code == KeyCode::Up ==> step == Step::Edit(EditCommand::MoveUp)
            &&& key.code == KeyCode::Down ==> step == Step::Edit(EditCommand::MoveDown)
        }),
{
}

/// A session that is ready becomes that of the dialog: its identities and its
/// snapshot are those that were reported. It replaces the saved session of the
/// same identity in its place, or comes first where there is none.
pub proof fn ready_session_is_taken(
    m: InvestigationModel,
    generation: int,
    item: InvestigationItem,
    k: int,
)
    requires
        m.talk is Some,
        m.talk->0.generation == generation,
        m.saved.len() < 64,
    ensures
        ({
            let (after, taken) = m.session_ready(generation, item);
            let talk = after.talk->0;
            &&& taken
            &&& talk.investigation_id == Some(item.id@)
            &&& talk.session_id == Some(item.session_id@)
            &&& talk.snapshot_dir == Some(item.snapshot_dir@)
            &&& talk.manifest_path == Some(item.manifest_path@)
            &&& talk.stage == InvestigationStage::Sending
            &&& talk.messages == m.talk->0.messages
            &&& talk.input == m.talk->0.input
            &&& talk.items == after.saved
            &&& after.queue == m.queue
            &&& (forall|i: int| 0 <= i < m.saved.len() ==> (#[trigger] m.saved[i]).id@ != item.id@)
                ==> after.saved == seq![item] + m.saved
            &&& 0 <= k < m.saved.len() && m.saved[k].id@ == item.id@ && (forall|i: int|
                0 <= i < k ==> (#[trigger] m.saved[i]).id@ != item.id@) ==> after.saved
                == m.saved.update(k, item)
        }),
{
    place_holds(m.saved, item.id@, 0);
    if 0 <= k < m.saved.len() && m.saved[k].id@ == item.id@ && (forall|i: int|
        0 <= i < k ==> (#[trigger] m.saved[i]).id@ != item.id@) {
        first_place(m.saved, item.id@, k, 0);
    }
}

proof fn first_place(items: Seq<InvestigationItem>, id: Seq<char>, k: int, from: int)
    requires
        0 <= from <= k < items.len(),
        items[k].id@ == id,
        forall|i: int| from <= i < k ==> (#[trigger] items[i]).id@ != id,
    ensures
        session_place(items, id, from) == Some(k),
    decreases k - from,
{
    if from < k {
        first_place(items, id, k, from + 1);
    }
}

/// A stage that is reported is shown with what was said of it; the identities
/// that come with it replace those known, and any that does not come stays.
pub proof fn progress_is_shown(
    talk: TalkModel,
    stage: InvestigationStage,
    text: Seq<char>,
    session: Option<Seq<char>>,
    snapshot: Option<Seq<char>>,
    manifest: Option<Seq<char>>,
)
    ensures
        ({
            let after = talk.progressed(stage, text, session, snapshot, manifest);
            &&& after.stage == stage
            &&& after.progress == text
            &&& after.session_id == match session {
                Some(id) => Some(id),
                None => talk.session_id,
            }
            &&& after.snapshot_dir == match snapshot {
                Some(path) => Some(path),
                None => talk.snapshot_dir,
            }
            &&& after.manifest_path == match manifest {
                Some(path) => Some(path),
                None => talk.manifest_path,
            }
            &&& after.messages == talk.messages
            &&& after.input == talk.input
            &&& after.generation == talk.generation
            &&& after.investigation_id == talk.investigation_id
        }),
{
}

/// The layer opens over the view that is shown, with a blank question and
/// transcript, the saved sessions to resume, and a generation of its own.
pub proof fn opening_starts_afresh(
    m: InvestigationModel,
    view: Seq<char>,
    revision: int,
    geometry: InvestigationGeometry,
)
    requires
        m.queue.generation < u64::MAX,
    ensures
        ({
            let after = m.opened(Some(view), revision, geometry);
            let talk = after.talk->0;
            &&& after.open
            &&& after.talk is Some
            &&& talk.view_id == view
            &&& talk.definition_revision == revision
            &&& talk.generation == m.queue.generation + 1
            &&& talk.stage == InvestigationStage::Input
            &&& talk.focus == InvestigationControl::Prompt
            &&& talk.input.len() == 0
            &&& after.question.len() == 0
            &&& talk.messages.len() == 0
            &&& talk.items == m.saved
            &&& talk.selected == 0
            &&& talk.session_id is None
            &&& talk.investigation_id is None
            &&& after.queue.items == m.queue.items
            &&& after.agent == m.agent
            &&& m.opened(None, revision, geometry) == m
        }),
{
}

/// Closing the layer cancels the turn or the conversation of its generation; one
/// that only awaits a question cancels nothing.
pub proof fn closing_cancels_its_generation(m: InvestigationModel)
    requires
        m.talk is Some,
        m.queue.items.len() < m.queue.cap,
    ensures
        ({
            let talk = m.talk->0;
            let after = m.dismissed();
            let idle = talk.stage == InvestigationStage::Input || talk.stage
                == InvestigationStage::Error;
            &&& !after.open
            &&& after.talk is None
            &&& idle ==> after.queue == m.queue
            &&& !idle ==> after.queue.items == m.queue.items.push(
                InvestigationAsk::Cancel { generation: talk.generation },
            )
            &&& after.saved == m.saved
        }),
{
}

/// Starting over, by Alt and n or its command or button, keeps the view and the
/// saved sessions and asks for nothing.
pub proof fn starting_over_keeps_the_view(m: InvestigationModel, key: KeyEvent, limit: int)
    requires
        m.talk is Some,
        key.kind == KeyEventKind::Press || key.kind == KeyEventKind::Repeat,
        key.modifiers.alt && !key.modifiers.control,
        key.code == KeyCode::Char('n'),
    ensures
        ({
            let after = m.after_key(key, limit).0;
            let talk = after.talk->0;
            &&& talk.stage == InvestigationStage::Input
            &&& talk.session_id is None && talk.investigation_id is None
            &&& talk.messages.len() == 0 && talk.input.len() == 0 && after.question.len() == 0
            &&& talk.view_id == m.talk->0.view_id
            &&& talk.definition_revision == m.talk->0.definition_revision
            &&& talk.generation == m.talk->0.generation
            &&& after.queue == m.queue
            &&& after.saved == m.saved
            &&& m.after_event(Event::Command(CommandId::NewInvestigation), limit).0 == after
        }),
{
}

/// Up and Down select the saved session before and after, round the ends of the
/// list.
pub proof fn saved_sessions_are_walked(m: InvestigationModel, key: KeyEvent, limit: int)
    requires
        m.talk is Some,
        m.talk->0.focus == InvestigationControl::Saved || m.talk->0.focus
            == InvestigationControl::Open,
        m.talk->0.stage == InvestigationStage::Input,
        0 <= m.talk->0.selected < m.talk->0.items.len(),
        goes_down(key),
    ensures
        ({
            let n = m.talk->0.items.len() as int;
            let at = m.talk->0.selected;
            let after = m.after_key(key, limit).0;
            &&& key.code == KeyCode::Down ==> after.talk->0.selected == if at + 1 < n {
                at + 1
            } else {
                0
            }
            &&& key.code == KeyCode::Up ==> after.talk->0.selected == if at > 0 {
                at - 1
            } else {
                n - 1
            }
            &&& key.code == KeyCode::Down || key.code == KeyCode::Up ==> after.queue == m.queue
                && after.talk->0.items == m.talk->0.items
        }),
{
    ring_goes_round(m.talk->0.selected, m.talk->0.items.len() as int);
}

/// The segments of the header turn to the saved sessions and back, and the
/// transcript scrolls a row at a time.
pub proof fn controls_do_what_they_say(m: InvestigationModel, key: KeyEvent, limit: int)
    requires
        m.talk is Some,
        goes_down(key),
        0 <= m.talk->0.review_scroll <= m.talk->0.review_scroll_limit,
    ensures
        ({
            let talk = m.talk->0;
            let after = m.after_key(key, limit).0.talk->0;
            let wheel = m.after_mouse(
                MouseEventKind::ScrollDown,
                Some(InvestigationHit::Body),
                limit,
            ).talk->0;
            let down = if talk.review_scroll < talk.review_scroll_limit {
                talk.review_scroll + 1
            } else {
                talk.review_scroll
            };
            &&& key.code == KeyCode::Enter && talk.focus == InvestigationControl::Saved
                ==> after.saved_mode
            &&& key.code == KeyCode::Enter && talk.focus == InvestigationControl::ModeNew
                ==> !after.saved_mode
            &&& key.code == KeyCode::Enter && talk.focus == InvestigationControl::New
                ==> m.after_key(key, limit).0 == m.started_over()
            &&& key.code == KeyCode::Down && talk.focus == InvestigationControl::More
                ==> after.review_scroll == down
            &&& wheel.review_scroll == down
        }),
{
}

/// The commands and the click on the first button submit as Enter on it does.
pub proof fn commands_submit(m: InvestigationModel, limit: int)
    requires
        m.talk is Some,
        m.talk->0.stage == InvestigationStage::Input || m.talk->0.stage
            == InvestigationStage::Conversation || m.talk->0.stage == InvestigationStage::Error,
    ensures
        m.after_event(Event::Command(CommandId::ResumeInvestigation), limit).0 == m.submitted(
            limit,
        ),
        m.after_event(Event::Command(CommandId::InvestigationFollowup), limit).0 == m.submitted(
            limit,
        ),
        m.after_mouse(
            MouseEventKind::LeftDown,
            Some(InvestigationHit::Control(InvestigationControl::Submit)),
            limit,
        ).queue == m.submitted(limit).queue,
{
    let list = m.talk->0.controls();
    let lead = super::one_if(m.talk->0.items.len() > 0, InvestigationControl::ModeNew)
        + super::one_if(m.talk->0.items.len() > 0, InvestigationControl::Saved);
    assert(list[lead.len() as int + 1] == InvestigationControl::Submit);
}

/// The focus goes from the header to the question, the buttons and the transcript:
/// what is there of them, in this order.
pub proof fn focus_goes_from_top_to_bottom(talk: TalkModel)
    requires
        talk.stage == InvestigationStage::Input,
    ensures
        talk.items.len() == 0 && talk.session_id is None && talk.investigation_id is None
            && talk.review_scroll_limit == 0 ==> talk.controls() == seq![
            InvestigationControl::Prompt,
            InvestigationControl::Submit,
        ],
        talk.items.len() > 0 && talk.saved_mode && talk.session_id is None
            && talk.investigation_id is None && talk.review_scroll_limit > 0 ==> talk.controls()
            == seq![
            InvestigationControl::ModeNew,
            InvestigationControl::Saved,
            InvestigationControl::Prompt,
            InvestigationControl::Submit,
            InvestigationControl::Open,
            InvestigationControl::More,
        ],
{
    let list = talk.controls();
    if talk.items.len() == 0 && talk.session_id is None && talk.investigation_id is None
        && talk.review_scroll_limit == 0 {
        assert(list =~= seq![InvestigationControl::Prompt, InvestigationControl::Submit]);
    }
    if talk.items.len() > 0 && talk.saved_mode && talk.session_id is None && talk.investigation_id
        is None && talk.review_scroll_limit > 0 {
        assert(list =~= seq![
            InvestigationControl::ModeNew,
            InvestigationControl::Saved,
            InvestigationControl::Prompt,
            InvestigationControl::Submit,
            InvestigationControl::Open,
            InvestigationControl::More,
        ]);
    }
}

/// Tab goes to the next control of the order and its reverse to the one before.
pub proof fn tab_follows_the_order(talk: TalkModel, k: int)
    requires
        0 <= k < talk.controls().len(),
        talk.focus == talk.controls()[k],
        talk.controls().no_duplicates(),
    ensures
        talk.focus_moved(1).focus == talk.controls()[if k + 1 < talk.controls().len() {
            k + 1
        } else {
            0
        }],
        talk.focus_moved(-1).focus == talk.controls()[if k > 0 {
            k - 1
        } else {
            talk.controls().len() - 1
        }],
        talk.focus_moved(1) == (TalkModel { focus: talk.focus_moved(1).focus, ..talk }),
{
    distinct_item_is_found(talk.controls(), k);
    ring_goes_round(k, talk.controls().len() as int);
}

/// The sessions that were read are offered while a question is awaited, with the
/// selection among them.
pub proof fn read_sessions_are_offered(m: InvestigationModel, found: Seq<InvestigationItem>)
    requires
        m.talk is Some,
        m.talk->0.stage == InvestigationStage::Input,
        m.talk->0.selected >= 0,
    ensures
        ({
            let after = m.saved_found(found);
            let n = after.saved.len();
            &&& after.talk->0.items == after.saved
            &&& m.talk->0.selected < n ==> after.talk->0.selected == m.talk->0.selected
            &&& m.talk->0.selected >= n > 0 ==> after.talk->0.selected == n - 1
            &&& after.talk->0.input == m.talk->0.input
            &&& after.queue == m.queue
        }),
{
}

/// A request is read as it is written, each part under its own name.
pub proof fn request_is_read_as_written(
    generation: u64,
    item: InvestigationItem,
    text: String,
    view: String,
    revision: u64,
    provider: String,
    mode: String,
    thinking: String,
)
    ensures
        ask_of((InvestigationRequest::Resume { generation, item })) == (InvestigationAsk::Resume {
            generation: generation as int,
            item,
        }),
        ask_of(
            (InvestigationRequest::Start {
                generation,
                view_id: view,
                definition_revision: revision,
                question: text,
                provider,
                mode,
                thinking,
            }),
        ) == (InvestigationAsk::Start {
            generation: generation as int,
            view_id: view@,
            definition_revision: revision as int,
            question: text@,
            agent: (AgentModel { provider: provider@, mode: mode@, thinking: thinking@ }),
        }),
        ask_of((InvestigationRequest::Send { generation, session_id: view, prompt: text })) == (
        InvestigationAsk::Send { generation: generation as int, session_id: view@, prompt: text@ }),
        ask_of((InvestigationRequest::Cancel { generation })) == (InvestigationAsk::Cancel {
            generation: generation as int,
        }),
{
}

/// So is the state of the dialog.
pub proof fn state_is_read_as_written(state: InvestigationDialogState, i: int)
    ensures
        state.model().generation == state.generation,
        state.model().definition_revision == state.definition_revision,
        state.model().view_id == state.view_id@,
        state.model().stage == state.stage,
        state.model().focus == state.focus,
        state.model().input == state.input@,
        state.model().progress == state.progress@,
        state.model().selected == state.selected,
        state.model().items == state.items@,
        state.model().messages.len() == state.messages@.len(),
        0 <= i < state.messages@.len() ==> state.model().messages[i] == state.messages@[i]@,
        state.session_id is Some ==> state.model().session_id == Some(state.session_id->0@),
        state.session_id is None ==> state.model().session_id is None,
        state.snapshot_dir is Some ==> state.model().snapshot_dir == Some(state.snapshot_dir->0@),
        state.manifest_path is Some ==> state.model().manifest_path == Some(
            state.manifest_path->0@,
        ),
        state.model().review_scroll == state.review_scroll,
        state.model().review_scroll_limit == state.review_scroll_limit,
        state.model().saved_mode == state.saved_mode,
{
}

/// What was typed is what is asked: a question that was typed and submitted starts
/// an investigation with exactly that text.
pub proof fn typed_question_is_asked(
    m: InvestigationModel,
    value: Seq<char>,
    cursor: int,
    limit: int,
)
    requires
        m.talk is Some,
        m.talk->0.stage == InvestigationStage::Input,
        m.talk->0.focus == InvestigationControl::Prompt,
        !all_white(value),
        m.queue.items.len() < 4 <= m.queue.cap,
        limit > 0,
    ensures
        ({
            let after = m.edited(value, cursor).submitted(limit);
            &&& after.queue.items.len() == m.queue.items.len() + 1
            &&& after.queue.items.last() matches InvestigationAsk::Start { question, view_id, .. }
                && question == value && view_id == m.talk->0.view_id
            &&& after.talk->0.messages.last() == "You: "@ + value
        }),
{
    blank_text_has_no_core(value);
    kept_comes_last(m.talk->0.messages, "You: "@ + value, limit);
}

} // verus!
