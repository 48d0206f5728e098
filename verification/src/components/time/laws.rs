//! What holds of the Time window layer as a whole.

use super::{
    focus_order, one_if, seed_range, window_list, zone_row, BoundModel, CandidateModel,
    CaptureTimePolicy, CaptureTimeRange, SubmitAnswer, TimeAnchor, TimeBasis, TimeBound,
    TimeControl, TimeDropdown, TimeGeometry, TimeHit, TimeModel, TimeRecognition,
    TimeRecognitionRequest, TimeStep, TimeView, TimeWindowChoice, TimeWorld, ViewModel,
};
use crate::component::{
    distinct_item_is_found, found_item_is_there, place_from, place_or_start, ring_goes_round,
    ring_step, ring_steps_cancel, Action, CommandId, EditCommand, Outcome,
};
use crate::input::{KeyCode, KeyEvent, KeyEventKind, MouseEventKind};
use crate::text::{
    byte_count, byte_count_is_positive, byte_count_of_last, bytes_add, char_bytes, is_control_char,
};
use vstd::prelude::*;

verus! {

/// A field whose reading rests on an assumption changes neither the basis nor
/// the view until the assumption is accepted.
pub proof fn assumption_waits_for_acceptance(w: TimeWorld, candidate: CandidateModel)
    requires
        candidate.first_usable(0) is Some,
        candidate.reading_at(candidate.first_usable(0)->0)->0.assumptions.len() > 0,
    ensures
        ({
            let after = w.field_chosen(candidate);
            &&& after.v == w.v
            &&& after.d.basis == w.d.basis
            &&& after.d.field_token == w.d.field_token
            &&& after.d.pending_field == Some(candidate)
            &&& after.d.focus == TimeControl::AcceptField
        }),
{
}

/// A reading that is blocked is never applied.
pub proof fn blocked_reading_is_refused(w: TimeWorld)
    requires
        w.d.pending() is Some,
        w.d.pending()->0.blocked is Some,
    ensures
        w.field_accepted().v == w.v,
        w.field_accepted().d.basis == w.d.basis,
        w.field_accepted().d.field_token == w.d.field_token,
        w.field_accepted().d.field_error == w.d.pending()->0.blocked,
{
}

/// The reading that a picked field lands on is never a blocked one.
pub proof fn picked_reading_is_usable(candidate: CandidateModel, from: int)
    requires
        from >= 0,
    ensures
        candidate.first_usable(from) matches Some(place) ==> {
            &&& from <= place <= candidate.alternatives.len()
            &&& candidate.reading_at(place) is Some
            &&& candidate.reading_at(place)->0.blocked is None
        },
    decreases candidate.alternatives.len() + 1 - from,
{
    if from <= candidate.alternatives.len() && candidate.reading_at(from)->0.blocked is Some {
        picked_reading_is_usable(candidate, from + 1);
    }
}

/// Leaving a field for a built-in basis gives up the accepted field and what
/// awaits confirmation, in the layer and in the view.
pub proof fn basis_drops_the_field(w: TimeWorld, basis: TimeBasis)
    ensures
        w.basis_set(basis).d.field_token is None,
        w.basis_set(basis).d.pending_field is None,
        w.basis_set(basis).v matches Some(view) ==> view.field is None && view.basis == basis,
{
}

/// What is applied to a view.
pub open spec fn applied_alike(a: Option<ViewModel>, b: Option<ViewModel>) -> bool {
    match (a, b) {
        (Some(a), Some(b)) => {
            &&& a.applied_basis == b.applied_basis
            &&& a.applied_field == b.applied_field
            &&& a.applied_policy == b.applied_policy
            &&& a.applied_range == b.applied_range
        },
        (None, None) => true,
        _ => false,
    }
}

/// Editing and choosing never change what is applied.
proof fn applied_kept_by_edits(
    w: TimeWorld,
    input: Option<char>,
    basis: TimeBasis,
    candidate: CandidateModel,
    window: TimeWindowChoice,
    zone: Seq<char>,
    row: int,
)
    ensures
        applied_alike(w.v, w.char_typed(input).v),
        applied_alike(w.v, w.basis_set(basis).v),
        applied_alike(w.v, w.field_accepted().v),
        applied_alike(w.v, w.field_chosen(candidate).v),
        applied_alike(w.v, w.window_set(window).v),
        applied_alike(w.v, w.zone_chosen(zone).v),
        applied_alike(w.v, w.zone_typed().v),
        applied_alike(w.v, w.reading_chosen(row).v),
{
}

proof fn applied_kept_by_submitting(w: TimeWorld, submit: bool)
    ensures
        applied_alike(w.v, w.around_asked(submit).0.v),
        applied_alike(w.v, w.cleared().0.v),
        applied_alike(w.v, w.submitted().0.v),
{
}

proof fn applied_kept_by_rows(w: TimeWorld, zones: Seq<Seq<char>>)
    ensures
        applied_alike(w.v, w.chosen(zones).0.v),
{
    let closed = TimeWorld { d: TimeModel { dropdown: None, ..w.d }, v: w.v };
    let row = w.d.highlighted;
    applied_kept_by_edits(
        closed,
        None,
        TimeBasis::Capture,
        w.d.candidates[row - 3],
        w.d.window_choices[row],
        zones[row],
        row,
    );
    applied_kept_by_edits(
        closed,
        None,
        TimeBasis::Event,
        w.d.candidates[row - 3],
        w.d.window_choices[row],
        zones[row],
        row,
    );
    applied_kept_by_edits(
        closed,
        None,
        TimeBasis::Extracted,
        w.d.candidates[row - 3],
        w.d.window_choices[row],
        zones[row],
        row,
    );
    applied_kept_by_submitting(closed, false);
}

proof fn applied_kept_by_enter(w: TimeWorld, zones: Seq<Seq<char>>)
    ensures
        applied_alike(w.v, w.entered(zones).0.v),
{
    let closed = TimeWorld { d: TimeModel { highlighted: 0, ..w.d }, v: w.v };
    applied_kept_by_rows(w, zones);
    applied_kept_by_submitting(closed, false);
}

/// No key changes what is applied to the view.
#[verifier::rlimit(40)]
#[verifier::spinoff_prover]
pub proof fn keys_keep_the_applied_window(w: TimeWorld, key: KeyEvent, zones: Seq<Seq<char>>)
    ensures
        applied_alike(w.v, w.after_key(key, zones).0.v),
{
    applied_kept_by_enter(w, zones);
    applied_kept_by_submitting(w, false);
}

/// Neither does the pointer, nor a command, nor a paste, nor a draft that does
/// not parse, nor the answer to a submission: what is applied changes only in
/// the view itself.
pub proof fn other_events_keep_the_applied_window(
    w: TimeWorld,
    hit: Option<TimeHit>,
    kind: MouseEventKind,
    id: CommandId,
    text: Seq<char>,
    zones: Seq<Seq<char>>,
    range: Option<CaptureTimeRange>,
    error: Seq<char>,
    answer: SubmitAnswer,
)
    ensures
        applied_alike(w.v, w.after_mouse(kind, hit, zones).0.v),
        applied_alike(w.v, w.after_command(id).0.v),
        applied_alike(w.v, w.pasted(text).0.v),
        applied_alike(w.v, w.parsed(range, error).0.v),
        applied_alike(w.v, w.answered(answer).0.v),
{
    applied_kept_by_submitting(w, false);
    if let Some(TimeHit::Choice(index)) = hit {
        applied_kept_by_rows(w.with(TimeModel { highlighted: index as int, ..w.d }), zones);
    }
    if let Some(TimeHit::Control(control)) = hit {
        applied_kept_by_enter(w.with(w.d.focused(control)), zones);
    }
}

/// A draft that does not parse is kept, with the reason beside it, and the layer
/// stays open.
pub proof fn invalid_draft_is_kept(w: TimeWorld, error: Seq<char>)
    requires
        w.v is Some,
    ensures
        ({
            let (after, step) = w.parsed(None, error);
            &&& after.d == w.d
            &&& after.v == Some(ViewModel { error: Some(error), ..w.v->0 })
            &&& step == TimeStep::Done(Outcome::Consumed)
        }),
{
}

/// A report that is not of the current generation, or comes after the layer was
/// closed, changes nothing; one that is current leaves what awaits confirmation.
pub proof fn reports_are_fenced(before: TimeModel, generation: int, report: TimeRecognition)
    ensures
        !before.open || before.recognition_generation != generation
            ==> before.recognition_completed(generation, report) == before,
        before.recognition_completed(generation, report).pending_field == before.pending_field,
        before.recognition_completed(generation, report).pending_reading == before.pending_reading,
{
}

/// The window that is set is always among those to choose from.
pub proof fn window_is_listed(window: TimeWindowChoice)
    ensures
        window_list(window).contains(window),
        window_list(window).contains(TimeWindowChoice::AroundSelected),
{
    let list = window_list(window);
    assert(list[0] == TimeWindowChoice::All);
    assert(list[1] == TimeWindowChoice::Absolute);
    assert(list[2] == TimeWindowChoice::Recent(300));
    assert(list[3] == TimeWindowChoice::Recent(900));
    assert(list[4] == TimeWindowChoice::Recent(3600));
    assert(list[list.len() - 1] == TimeWindowChoice::AroundSelected);
    if list.len() == 7 {
        assert(list[5] == window);
    }
}

/// Typing into a bound makes the window an absolute one, in the layer and in the
/// view.
pub proof fn typing_is_absolute(w: TimeWorld, input: Option<char>)
    ensures
        w.d.typed(input).1 ==> {
            let after = w.char_typed(input);
            &&& after.d.window == TimeWindowChoice::Absolute
            &&& after.v matches Some(view) ==> view.window == TimeWindowChoice::Absolute
                && view.touched && view.error is None && view.start == after.d.start && view.end
                == after.d.end
        },
        !w.d.typed(input).1 ==> w.char_typed(input) == w,
{
}

/// A typed character is deleted again by a backspace, which leaves the part and
/// the caret as they were.
pub proof fn backspace_undoes_typing(d: TimeModel, ch: char)
    requires
        d.typed(Some(ch)).1,
        0 <= d.segment_cursor <= d.segment(d.focus).len(),
    ensures
        ({
            let after = d.typed(Some(ch)).0.typed(None);
            &&& after.1
            &&& after.0.segment(d.focus) == d.segment(d.focus)
            &&& after.0.segment_cursor == d.segment_cursor
        }),
{
    let value = d.segment(d.focus);
    let at = d.caret();
    assert(value.insert(at, ch).remove(at) =~= value);
}

/// Dismissal closes an open list before it closes the layer.
pub proof fn lists_close_first(w: TimeWorld)
    requires
        w.d.open,
    ensures
        w.d.dropdown is Some ==> w.dismissed().0.d.open && w.dismissed().0.d.dropdown is None,
        w.d.dropdown is None ==> !w.dismissed().0.d.open,
{
}

/// The place of a control in a full round of the focus.
spec fn rank(control: TimeControl) -> int {
    match control {
        TimeControl::Basis => 0,
        TimeControl::Reading => 1,
        TimeControl::AcceptField => 2,
        TimeControl::Window => 3,
        TimeControl::StartDate => 4,
        TimeControl::StartClock => 5,
        TimeControl::StartZone => 6,
        TimeControl::StartZoneMenu => 7,
        TimeControl::EndDate => 8,
        TimeControl::EndClock => 9,
        TimeControl::EndZone => 10,
        TimeControl::EndZoneMenu => 11,
        TimeControl::Apply => 12,
        TimeControl::Clear => 13,
        TimeControl::Recognize => 14,
        TimeControl::ScrollUp => 15,
        TimeControl::ScrollDown => 16,
    }
}

/// Controls whose places ascend between two bounds.
spec fn ascends(list: Seq<TimeControl>, low: int, high: int) -> bool {
    &&& forall|i: int| 0 <= i < list.len() ==> low <= rank(#[trigger] list[i]) < high
    &&& forall|i: int, j: int| 0 <= i < j < list.len() ==> rank(list[i]) < rank(list[j])
}

proof fn ascends_on(a: Seq<TimeControl>, b: Seq<TimeControl>, low: int, middle: int, high: int)
    requires
        low <= middle <= high,
        ascends(a, low, middle),
        ascends(b, middle, high),
    ensures
        ascends(a + b, low, high),
{
    let list = a + b;
    assert forall|i: int, j: int| 0 <= i < j < list.len() implies rank(list[i]) < rank(
        list[j],
    ) by {
        if j < a.len() {
            assert(list[i] == a[i] && list[j] == a[j]);
        } else if i >= a.len() {
            assert(list[i] == b[i - a.len()] && list[j] == b[j - a.len()]);
        } else {
            assert(list[i] == a[i] && list[j] == b[j - a.len()]);
        }
    }
}

/// No control is focused twice in one round.
pub proof fn focus_order_is_distinct(
    has_overflow: bool,
    start_custom: bool,
    end_custom: bool,
    confirming: bool,
)
    ensures
        focus_order(has_overflow, start_custom, end_custom, confirming).no_duplicates(),
{
    let s0 = seq![TimeControl::Basis];
    let p1 = one_if(confirming, TimeControl::Reading);
    let p2 = one_if(confirming, TimeControl::AcceptField);
    let p3 = seq![TimeControl::Window, TimeControl::StartDate, TimeControl::StartClock];
    let p4 = one_if(start_custom, TimeControl::StartZone);
    let p5 = seq![TimeControl::StartZoneMenu, TimeControl::EndDate, TimeControl::EndClock];
    let p6 = one_if(end_custom, TimeControl::EndZone);
    let p7 = seq![
        TimeControl::EndZoneMenu,
        TimeControl::Apply,
        TimeControl::Clear,
        TimeControl::Recognize,
    ];
    let p8 = one_if(has_overflow, TimeControl::ScrollUp);
    let p9 = one_if(has_overflow, TimeControl::ScrollDown);
    ascends_on(s0, p1, 0, 1, 2);
    ascends_on(s0 + p1, p2, 0, 2, 3);
    ascends_on(s0 + p1 + p2, p3, 0, 3, 6);
    ascends_on(s0 + p1 + p2 + p3, p4, 0, 6, 7);
    ascends_on(s0 + p1 + p2 + p3 + p4, p5, 0, 7, 10);
    ascends_on(s0 + p1 + p2 + p3 + p4 + p5, p6, 0, 10, 11);
    ascends_on(s0 + p1 + p2 + p3 + p4 + p5 + p6, p7, 0, 11, 15);
    ascends_on(s0 + p1 + p2 + p3 + p4 + p5 + p6 + p7, p8, 0, 15, 16);
    ascends_on(s0 + p1 + p2 + p3 + p4 + p5 + p6 + p7 + p8, p9, 0, 16, 17);
    let list = focus_order(has_overflow, start_custom, end_custom, confirming);
    assert(list == s0 + p1 + p2 + p3 + p4 + p5 + p6 + p7 + p8 + p9);
    assert forall|i: int, j: int| 0 <= i < list.len() && 0 <= j < list.len() && i
        != j implies list[i] != list[j] by {
        if i < j {
            assert(rank(list[i]) < rank(list[j]));
        } else {
            assert(rank(list[j]) < rank(list[i]));
        }
    }
}

/// Going to the next control and back comes to the control one started from,
/// with any open list closed.
pub proof fn focus_steps_cancel(d: TimeModel, delta: int)
    requires
        d.focus_list().contains(d.focus),
    ensures
        d.focus_moved(delta).focus_moved(-delta).focus == d.focus,
{
    let list = d.focus_list();
    let n = list.len() as int;
    let start = choose|k: int| 0 <= k < n && list[k] == d.focus;
    place_is_first(list, d.focus, start, 0);
    let at = place_or_start(list, d.focus);
    let next = ring_step(at, n, delta);
    vstd::arithmetic::div_mod::lemma_mod_bound(at + delta, n);
    place_is_first(list, list[next], next, 0);
    let back = place_or_start(list, list[next]);
    assert(back == next) by {
        if back < next {
            focus_order_is_distinct(
                d.has_overflow,
                d.start_zone_custom,
                d.end_zone_custom,
                d.pending_field is Some,
            );
            assert(list[back] != list[next]);
        }
    }
    ring_steps_cancel(at, n, delta);
}

proof fn place_is_first<T>(list: Seq<T>, item: T, k: int, from: int)
    requires
        0 <= from <= k < list.len(),
        list[k] == item,
    ensures
        place_from(list, item, from) matches Some(place) && from <= place <= k && list[place]
            == item,
    decreases k - from,
{
    if list[from] != item {
        place_is_first(list, item, k, from + 1);
    }
}

/// Opening the layer again shows what was last typed. Where the drafts were
/// touched they are kept, whatever fresh drafts there are, with the window, the
/// basis and the field that were picked; and bounds that were typed part by part
/// are shown as they were.
pub proof fn reopening_shows_what_was_typed(
    w: TimeWorld,
    anchor: TimeAnchor,
    seed: Option<(Seq<char>, Seq<char>)>,
    start: BoundModel,
    end: BoundModel,
    field_label: Seq<char>,
    zones: Seq<Seq<char>>,
    geometry: TimeGeometry,
)
    requires
        w.v matches Some(view) && view.touched,
    ensures
        ({
            let view = w.v->0;
            let again = w.opened(anchor, seed, start, end, field_label, zones, geometry);
            &&& again.v matches Some(kept) && kept.start_draft == view.start_draft
                && kept.end_draft == view.end_draft
            &&& again.d.window == view.window
            &&& again.d.basis == view.basis
            &&& again.d.field_token == view.field
            &&& view.structured ==> again.v == w.v && again.d.start == view.start && again.d.end
                == view.end
        }),
{
}

/// A key goes down, first or by repetition.
pub open spec fn goes_down(key: KeyEvent) -> bool {
    key.kind == KeyEventKind::Press || key.kind == KeyEventKind::Repeat
}

/// Half a minute before an instant, or the first instant there is.
pub open spec fn half_before(center: int) -> int {
    if center - 30_000_000_000 < i64::MIN {
        i64::MIN as int
    } else {
        center - 30_000_000_000
    }
}

/// Half a minute behind an instant, or the last instant there is.
pub open spec fn half_behind(center: int) -> int {
    if center + 30_000_000_000 > i64::MAX {
        i64::MAX as int
    } else {
        center + 30_000_000_000
    }
}

/// The instant of the opening record in a basis.
pub open spec fn instant_in(d: TimeModel, basis: TimeBasis) -> Option<i64> {
    match basis {
        TimeBasis::Capture => d.anchored_capture,
        TimeBasis::Event => d.anchored_event,
        TimeBasis::Extracted => d.anchored_extracted,
        TimeBasis::Selected => d.anchored_selected,
    }
}

/// Enter on Apply submits the window that is set, whichever it is: the last
/// seconds are resolved for exactly as many seconds as are set, typed bounds are
/// parsed, a window round the opening record reaches half a minute to both sides
/// of it, and all times clear the window. The form stays as it is.
pub proof fn apply_submits_the_window(w: TimeWorld, key: KeyEvent, zones: Seq<Seq<char>>)
    requires
        goes_down(key),
        key.code == KeyCode::Enter,
        w.d.dropdown is None,
        w.d.focus == TimeControl::Apply,
        w.v is Some,
    ensures
        ({
            let (after, step) = w.after_key(key, zones);
            &&& w.d.window matches TimeWindowChoice::Recent(n) ==> step == TimeStep::Resolve(n)
                && after.d.start == w.d.start && after.d.end == w.d.end
            &&& w.d.window == TimeWindowChoice::Absolute ==> step == TimeStep::Parse
                && after.d.start == w.d.start && after.d.end == w.d.end
            &&& w.d.window == TimeWindowChoice::All ==> step == TimeStep::Submit {
                window: None,
                policy: None,
                basis: w.d.basis,
            }
            &&& w.d.window == TimeWindowChoice::AroundSelected ==> match instant_in(
                w.d,
                w.d.basis,
            ) {
                Some(center) => step == TimeStep::Around {
                    start: half_before(center as int) as i64,
                    end: half_behind(center as int) as i64,
                    submit: true,
                },
                None => step == TimeStep::Done(Outcome::Consumed) && after.v->0.error is Some,
            }
            &&& after.d.window == w.d.window
            &&& after.d.basis == w.d.basis
            &&& after.d.field_token == w.d.field_token
            &&& after.d.open == w.d.open
        }),
{
}

/// Choosing a row of the window list sets exactly the window of that row, in the
/// layer and in the view, and applying then submits it.
pub proof fn chosen_window_is_applied(
    w: TimeWorld,
    row: int,
    key: KeyEvent,
    zones: Seq<Seq<char>>,
)
    requires
        goes_down(key),
        key.code == KeyCode::Enter,
        w.d.dropdown == Some(TimeDropdown::Window),
        w.d.highlighted == row,
        0 <= row < w.d.window_choices.len(),
        w.d.window_choices[row] != TimeWindowChoice::AroundSelected,
        w.v is Some,
    ensures
        ({
            let choice = w.d.window_choices[row];
            let (after, step) = w.after_key(key, zones);
            let (_, then) = after.with(after.d.focused(TimeControl::Apply)).after_key(key, zones);
            &&& step == TimeStep::Done(Outcome::Consumed)
            &&& after.d.window == choice
            &&& after.v->0.window == choice
            &&& after.v->0.touched
            &&& after.d.dropdown is None
            &&& after.d.basis == w.d.basis
            &&& after.d.start == w.d.start && after.d.end == w.d.end
            &&& choice matches TimeWindowChoice::Recent(n) ==> then == TimeStep::Resolve(n)
            &&& choice == TimeWindowChoice::Absolute ==> then == TimeStep::Parse
            &&& choice == TimeWindowChoice::All ==> then == TimeStep::Submit {
                window: None,
                policy: None,
                basis: w.d.basis,
            }
            &&& w.after_mouse(
                MouseEventKind::LeftDown,
                Some(TimeHit::Choice(row as usize)),
                zones,
            ).0.d.window == choice || row > usize::MAX
        }),
{
}

/// Choosing the window round the opening record asks for its bounds without
/// submitting them; where the record has no instant, the window stays.
pub proof fn window_round_the_record_is_asked_for(w: TimeWorld, zones: Seq<Seq<char>>)
    requires
        w.d.dropdown == Some(TimeDropdown::Window),
        0 <= w.d.highlighted < w.d.window_choices.len(),
        w.d.window_choices[w.d.highlighted] == TimeWindowChoice::AroundSelected,
        w.v is Some,
    ensures
        ({
            let (after, step) = w.chosen(zones);
            &&& after.d.dropdown is None
            &&& match instant_in(w.d, w.d.basis) {
                Some(center) => step == TimeStep::Around {
                    start: half_before(center as int) as i64,
                    end: half_behind(center as int) as i64,
                    submit: false,
                } && after.d.window == TimeWindowChoice::AroundSelected && after.v->0.window
                    == TimeWindowChoice::AroundSelected,
                None => step == TimeStep::Done(Outcome::Consumed) && after.d.window == w.d.window
                    && after.v->0.window == w.v->0.window && after.v->0.error is Some,
            }
        }),
{
}

/// The letters with Alt, and the commands, resolve five minutes, a quarter of an
/// hour and an hour.
pub proof fn recent_windows_by_key(w: TimeWorld, key: KeyEvent, zones: Seq<Seq<char>>)
    requires
        goes_down(key),
        key.modifiers.alt && !key.modifiers.control,
    ensures
        key.code == KeyCode::Char('5') ==> w.after_key(key, zones) == (w, TimeStep::Resolve(300)),
        key.code == KeyCode::Char('m') ==> w.after_key(key, zones) == (w, TimeStep::Resolve(900)),
        key.code == KeyCode::Char('h') ==> w.after_key(key, zones) == (w, TimeStep::Resolve(3600)),
        w.after_command(CommandId::TimeRecentFive) == (w, TimeStep::Resolve(300)),
        w.after_command(CommandId::TimeRecentFifteen) == (w, TimeStep::Resolve(900)),
        w.after_command(CommandId::TimeRecentHour) == (w, TimeStep::Resolve(3600)),
{
}

/// The basis is the one of the letter, the command or the row that was used.
pub proof fn basis_is_the_chosen_one(w: TimeWorld, key: KeyEvent, zones: Seq<Seq<char>>)
    requires
        goes_down(key),
        key.modifiers.alt && !key.modifiers.control,
    ensures
        key.code == KeyCode::Char('p') ==> w.after_key(key, zones).0.d.basis == TimeBasis::Capture,
        key.code == KeyCode::Char('e') ==> w.after_key(key, zones).0.d.basis == TimeBasis::Event,
        key.code == KeyCode::Char('u') ==> w.after_key(key, zones).0.d.basis
            == TimeBasis::Extracted,
        w.after_command(CommandId::TimeBasisCapture).0.d.basis == TimeBasis::Capture,
        w.after_command(CommandId::TimeBasisEvent).0.d.basis == TimeBasis::Event,
        w.after_command(CommandId::TimeBasisExtracted).0.d.basis == TimeBasis::Extracted,
        w.d.dropdown == Some(TimeDropdown::Basis) ==> {
            let after = w.chosen(zones).0;
            &&& w.d.highlighted == 0 ==> after.d.basis == TimeBasis::Capture
            &&& w.d.highlighted == 1 ==> after.d.basis == TimeBasis::Event
            &&& w.d.highlighted == 2 ==> after.d.basis == TimeBasis::Extracted
            &&& 0 <= w.d.highlighted <= 2 ==> after.d.dropdown is None && after.d.field_token is None
                && (w.v is Some ==> after.v->0.basis == after.d.basis && after.v->0.touched)
        },
        forall|basis: TimeBasis|
            {
                let after = #[trigger] w.basis_set(basis);
                &&& after.d.basis == basis
                &&& after.d.window == w.d.window
                &&& after.d.start == w.d.start
                &&& after.d.end == w.d.end
                &&& w.v is Some ==> after.v->0.window == w.v->0.window && after.v->0.start
                    == w.v->0.start && after.v->0.end == w.v->0.end
            },
{
}

/// A row behind the built-in bases picks the field of that row: where its first
/// usable reading rests on no assumption, that reading becomes the basis, by its
/// token and its label.
pub proof fn picked_field_becomes_the_basis(w: TimeWorld, zones: Seq<Seq<char>>, usable: int)
    requires
        w.d.dropdown == Some(TimeDropdown::Basis),
        3 <= w.d.highlighted < w.d.candidates.len() + 3,
        ({
            let field = w.d.candidates[w.d.highlighted - 3];
            let all = seq![field.main] + field.alternatives;
            &&& 0 <= usable < all.len()
            &&& all[usable].blocked is None
            &&& forall|i: int| 0 <= i < usable ==> (#[trigger] all[i]).blocked is Some
        }),
    ensures
        ({
            let field = w.d.candidates[w.d.highlighted - 3];
            let reading = (seq![field.main] + field.alternatives)[usable];
            let after = w.chosen(zones).0;
            &&& after.d.dropdown is None
            &&& reading.assumptions.len() == 0 ==> after.d.basis == TimeBasis::Selected
                && after.d.field_token == Some(reading.token) && after.d.field_label
                == reading.label && after.d.pending_field is None && (w.v is Some
                ==> after.v->0.field == Some(reading.token) && after.v->0.basis
                == TimeBasis::Selected && after.v->0.touched)
            &&& reading.assumptions.len() > 0 ==> after.v == w.v && after.d.basis == w.d.basis
                && after.d.pending_field == Some(field) && after.d.pending_reading == usable
                && after.d.focus == TimeControl::AcceptField
        }),
{
    let field = w.d.candidates[w.d.highlighted - 3];
    first_usable_is(field, usable, 0);
}

proof fn first_usable_is(field: CandidateModel, usable: int, from: int)
    requires
        0 <= from <= usable <= field.alternatives.len(),
        (seq![field.main] + field.alternatives)[usable].blocked is None,
        forall|i: int|
            0 <= i < usable ==> (#[trigger] (seq![field.main] + field.alternatives)[i]).blocked
                is Some,
    ensures
        field.first_usable(from) == Some(usable),
        field.reading_at(usable) == Some((seq![field.main] + field.alternatives)[usable]),
    decreases usable - from,
{
    let all = seq![field.main] + field.alternatives;
    assert(field.reading_at(from) == Some(all[from]));
    if from < usable {
        assert(all[from].blocked is Some);
        first_usable_is(field, usable, from + 1);
    }
}

/// Enter on Accept takes the reading that is offered, unless it is blocked: its
/// token becomes the field of the layer and of the view.
pub proof fn offered_reading_is_accepted(w: TimeWorld, key: KeyEvent, zones: Seq<Seq<char>>)
    requires
        goes_down(key),
        key.code == KeyCode::Enter,
        w.d.dropdown is None,
        w.d.focus == TimeControl::AcceptField,
        w.d.pending_field is Some,
        0 <= w.d.pending_reading <= w.d.pending_field->0.alternatives.len(),
    ensures
        ({
            let field = w.d.pending_field->0;
            let reading = (seq![field.main] + field.alternatives)[w.d.pending_reading];
            let after = w.after_key(key, zones).0;
            &&& reading.blocked is None ==> after.d.basis == TimeBasis::Selected
                && after.d.field_token == Some(reading.token) && after.d.field_label
                == reading.label && after.d.pending_field is None && (w.v is Some
                ==> after.v->0.field == Some(reading.token) && after.v->0.basis
                == TimeBasis::Selected)
            &&& reading.blocked is Some ==> after.v == w.v && after.d.basis == w.d.basis
                && after.d.field_token == w.d.field_token && after.d.field_error == reading.blocked
        }),
{
}

/// A value stands in one part of the bounds, and every other part is as it was.
pub open spec fn only_part_changed(
    before: TimeModel,
    after: TimeModel,
    control: TimeControl,
    value: Seq<char>,
) -> bool {
    &&& after.start.date == if control == TimeControl::StartDate {
        value
    } else {
        before.start.date
    }
    &&& after.start.clock == if control == TimeControl::StartClock {
        value
    } else {
        before.start.clock
    }
    &&& after.start.zone == if control == TimeControl::StartZone {
        value
    } else {
        before.start.zone
    }
    &&& after.end.date == if control == TimeControl::EndDate {
        value
    } else {
        before.end.date
    }
    &&& after.end.clock == if control == TimeControl::EndClock {
        value
    } else {
        before.end.clock
    }
    &&& after.end.zone == if control == TimeControl::EndZone {
        value
    } else {
        before.end.zone
    }
}

/// Both bounds of a view are those of the form, each written in one text.
pub open spec fn bounds_are_written(view: ViewModel, d: TimeModel) -> bool {
    &&& view.start == d.start
    &&& view.end == d.end
    &&& view.start_draft == d.start.date + "T"@ + d.start.clock + d.start.zone
    &&& view.end_draft == d.end.date + "T"@ + d.end.clock + d.end.zone
    &&& view.structured
    &&& view.touched
    &&& view.window == TimeWindowChoice::Absolute
    &&& view.error is None
}

/// A part of a bound that can be typed into.
pub open spec fn is_typed_into(d: TimeModel, control: TimeControl) -> bool {
    match control {
        TimeControl::StartDate
        | TimeControl::StartClock
        | TimeControl::EndDate
        | TimeControl::EndClock => true,
        TimeControl::StartZone => d.start_zone_custom,
        TimeControl::EndZone => d.end_zone_custom,
        _ => false,
    }
}

/// The text of each part is shown in its own field.
pub proof fn part_shows_its_text(d: TimeModel)
    ensures
        d.segment(TimeControl::StartDate) == d.start.date,
        d.segment(TimeControl::StartClock) == d.start.clock,
        d.segment(TimeControl::StartZone) == d.start.zone,
        d.segment(TimeControl::EndDate) == d.end.date,
        d.segment(TimeControl::EndClock) == d.end.clock,
        d.segment(TimeControl::EndZone) == d.end.zone,
{
}

/// A typed character stands at the caret of the part that has the focus; a
/// backspace takes the one before it. No other part changes, the window becomes
/// an absolute one, and the view keeps both bounds.
pub proof fn typing_changes_its_part(w: TimeWorld, key: KeyEvent, zones: Seq<Seq<char>>, ch: char)
    requires
        goes_down(key),
        !key.modifiers.alt && !key.modifiers.control,
        is_typed_into(w.d, w.d.focus),
        0 <= w.d.segment_cursor <= w.d.segment(w.d.focus).len(),
        !is_control_char(ch),
        byte_count(w.d.segment(w.d.focus)) + char_bytes(ch) <= 32,
    ensures
        ({
            let value = w.d.segment(w.d.focus);
            let at = w.d.segment_cursor;
            let after = w.after_key(key, zones).0;
            &&& key.code == KeyCode::Char(ch) ==> {
                &&& only_part_changed(
                    w.d,
                    after.d,
                    w.d.focus,
                    value.subrange(0, at) + seq![ch] + value.subrange(at, value.len() as int),
                )
                &&& after.d.segment_cursor == at + 1
                &&& after.d.window == TimeWindowChoice::Absolute
                &&& after.d.basis == w.d.basis
                &&& w.v is Some ==> bounds_are_written(after.v->0, after.d)
            }
            &&& key.code == KeyCode::Backspace && at > 0 ==> {
                &&& only_part_changed(
                    w.d,
                    after.d,
                    w.d.focus,
                    value.subrange(0, at - 1) + value.subrange(at, value.len() as int),
                )
                &&& after.d.segment_cursor == at - 1
                &&& after.d.window == TimeWindowChoice::Absolute
                &&& w.v is Some ==> bounds_are_written(after.v->0, after.d)
            }
            &&& key.code == KeyCode::Backspace && at == 0 ==> after == w
        }),
{
    let value = w.d.segment(w.d.focus);
    let at = w.d.segment_cursor;
    assert(value.insert(at, ch) =~= value.subrange(0, at) + seq![ch] + value.subrange(
        at,
        value.len() as int,
    ));
    if at > 0 {
        assert(value.remove(at - 1) =~= value.subrange(0, at - 1) + value.subrange(
            at,
            value.len() as int,
        ));
    }
}

/// An edit by command lands in the part that has the focus and in no other.
pub proof fn edit_lands_in_its_part(w: TimeWorld, value: Seq<char>, cursor: int)
    requires
        w.d.dropdown is None,
        is_typed_into(w.d, w.d.focus),
    ensures
        ({
            let after = w.edited(value, cursor, true);
            &&& only_part_changed(w.d, after.d, w.d.focus, value)
            &&& after.d.segment_cursor == cursor
            &&& after.d.window == TimeWindowChoice::Absolute
            &&& after.d.basis == w.d.basis
            &&& w.v is Some ==> bounds_are_written(after.v->0, after.d)
            &&& w.edited(value, cursor, false).v == w.v
            &&& w.edited(value, cursor, false).d.window == w.d.window
        }),
{
}

/// A zone that is picked is that of its row, for the bound whose menu is open.
pub proof fn picked_zone_is_set(w: TimeWorld, row: int, zones: Seq<Seq<char>>)
    requires
        0 <= row < zones.len(),
        w.d.highlighted == row,
        w.d.dropdown == Some(TimeDropdown::StartZone) && w.d.focus == TimeControl::StartZoneMenu
            || w.d.dropdown == Some(TimeDropdown::EndZone) && w.d.focus == TimeControl::EndZoneMenu,
    ensures
        ({
            let start = w.d.focus == TimeControl::StartZoneMenu;
            let after = w.chosen(zones).0;
            &&& only_part_changed(
                w.d,
                after.d,
                if start {
                    TimeControl::StartZone
                } else {
                    TimeControl::EndZone
                },
                zones[row],
            )
            &&& start ==> !after.d.start_zone_custom && after.d.end_zone_custom
                == w.d.end_zone_custom
            &&& !start ==> !after.d.end_zone_custom && after.d.start_zone_custom
                == w.d.start_zone_custom
            &&& after.d.window == TimeWindowChoice::Absolute
            &&& after.d.dropdown is None
            &&& w.v is Some ==> bounds_are_written(after.v->0, after.d)
        }),
{
}

/// The row behind the zones lets the zone of that bound be typed.
pub proof fn custom_zone_is_typed(w: TimeWorld, zones: Seq<Seq<char>>)
    requires
        w.d.highlighted == zones.len(),
        w.d.dropdown == Some(TimeDropdown::StartZone) && w.d.focus == TimeControl::StartZoneMenu
            || w.d.dropdown == Some(TimeDropdown::EndZone) && w.d.focus == TimeControl::EndZoneMenu,
    ensures
        ({
            let start = w.d.focus == TimeControl::StartZoneMenu;
            let after = w.chosen(zones).0;
            &&& after.d.start == w.d.start && after.d.end == w.d.end
            &&& start ==> after.d.start_zone_custom && after.d.focus == TimeControl::StartZone
            &&& !start ==> after.d.end_zone_custom && after.d.focus == TimeControl::EndZone
            &&& after.v == w.v
        }),
{
}

/// Clearing empties both bounds and submits all times, in the basis that is set.
pub proof fn clearing_shows_all_times(w: TimeWorld, key: KeyEvent, zones: Seq<Seq<char>>)
    requires
        goes_down(key),
        w.v is Some,
    ensures
        ({
            let (after, step) = w.after_command(CommandId::TimeClear);
            &&& step == TimeStep::Submit { window: None, policy: None, basis: w.d.basis }
            &&& after.d.window == TimeWindowChoice::All
            &&& after.v->0.window == TimeWindowChoice::All
            &&& after.d.start.date.len() == 0 && after.d.start.clock.len() == 0
                && after.d.start.zone.len() == 0
            &&& after.d.end.date.len() == 0 && after.d.end.clock.len() == 0
                && after.d.end.zone.len() == 0
            &&& after.v->0.start == after.d.start && after.v->0.end == after.d.end
            &&& after.v->0.start_draft.len() == 0 && after.v->0.end_draft.len() == 0
            &&& after.d.basis == w.d.basis
            &&& key.code == KeyCode::Enter && w.d.dropdown is None && w.d.focus
                == TimeControl::Clear ==> w.after_key(key, zones).1 == step
            &&& key.code == KeyCode::Char('c') && key.modifiers.alt && !key.modifiers.control
                ==> w.after_key(key, zones) == (after, step)
        }),
{
}

/// Seconds that were resolved are submitted as the range that they are now and as
/// the policy that they stay; the view keeps how many they were.
pub proof fn resolved_seconds_are_submitted(
    w: TimeWorld,
    seconds: u64,
    range: CaptureTimeRange,
    duration: Seq<char>,
)
    requires
        w.v is Some,
    ensures
        ({
            let (after, step) = w.recent_resolved(seconds, Some(range), duration);
            &&& step == TimeStep::Submit {
                window: Some(range),
                policy: Some(CaptureTimePolicy::Recent { seconds }),
                basis: w.d.basis,
            }
            &&& after.v->0.window == TimeWindowChoice::Recent(seconds)
            &&& after.v->0.recent_draft == duration
            &&& after.v->0.touched
            &&& after.d == w.d
            &&& w.recent_resolved(seconds, None, duration) == (
                w,
                TimeStep::Done(Outcome::Consumed),
            )
        }),
{
}

/// Bounds that were parsed are submitted as exactly that range.
pub proof fn parsed_range_is_submitted(w: TimeWorld, range: CaptureTimeRange, error: Seq<char>)
    requires
        w.v is Some,
    ensures
        w.parsed(Some(range), error) == (
            w,
            TimeStep::Submit {
                window: Some(range),
                policy: Some(CaptureTimePolicy::Absolute(range)),
                basis: w.d.basis,
            },
        ),
        w.parsed(None, error).0.v->0.error == Some(error),
        w.parsed(None, error).1 == TimeStep::Done(Outcome::Consumed),
{
}

/// The bounds round the opening record are written into the form and the view;
/// a zone that is no preset is typed.
pub proof fn bounds_round_the_record_are_written(
    w: TimeWorld,
    start: BoundModel,
    end: BoundModel,
    zones: Seq<Seq<char>>,
)
    ensures
        ({
            let after = w.around_written(start, end, zones);
            &&& after.d.start == start
            &&& after.d.end == end
            &&& after.d.start_zone_custom == !zones.contains(start.zone)
            &&& after.d.end_zone_custom == !zones.contains(end.zone)
            &&& after.d.window == w.d.window
            &&& w.v is Some ==> after.v->0.start == start && after.v->0.end == end
                && after.v->0.start_draft == start.date + "T"@ + start.clock + start.zone
                && after.v->0.end_draft == end.date + "T"@ + end.clock + end.zone
                && after.v->0.touched && after.v->0.window == w.v->0.window
        }),
{
}

/// A submission that was taken closes the layer, one of a view with a fixed
/// definition forks it, and a full queue keeps the layer with an error.
pub proof fn answers_close_the_layer(w: TimeWorld)
    ensures
        !w.answered(SubmitAnswer::Accepted).0.d.open,
        w.answered(SubmitAnswer::Accepted).1 == Outcome::Close,
        !w.answered(SubmitAnswer::DefinitionFixed).0.d.open,
        w.answered(SubmitAnswer::DefinitionFixed).1 == Outcome::Legacy(
            Action::StageForkedTimeWindow,
        ),
        w.answered(SubmitAnswer::QueueFull).0.d == w.d,
        w.answered(SubmitAnswer::QueueFull).1 == Outcome::Consumed,
        w.v is Some ==> w.answered(SubmitAnswer::QueueFull).0.v->0.error is Some,
        w.answered(SubmitAnswer::Accepted).0.v == w.v,
{
}

/// Fresh drafts are written from the applied range, else from half a minute to
/// both sides of the record in the basis, else from the last half minute; where
/// the drafts were touched, none are.
pub proof fn fresh_drafts_have_a_range(view: Option<ViewModel>, anchor: TimeAnchor, now: i64)
    ensures
        ({
            let seed = seed_range(view, anchor, now);
            let basis = match view {
                Some(view) => view.applied_basis,
                None => TimeBasis::Capture,
            };
            let center = match basis {
                TimeBasis::Capture => anchor.capture_nanos,
                TimeBasis::Event => anchor.event_nanos,
                TimeBasis::Extracted => anchor.extracted_nanos,
                TimeBasis::Selected => None,
            };
            &&& view is Some && view->0.touched ==> seed is None
            &&& !(view is Some && view->0.touched) ==> {
                &&& seed is Some
                &&& view is Some && view->0.applied_range is Some ==> seed == view->0.applied_range
                &&& !(view is Some && view->0.applied_range is Some) ==> match center {
                    Some(center) => seed->0.start_unix_nanos == half_before(center as int)
                        && seed->0.end_unix_nanos == half_behind(center as int),
                    None => seed->0.start_unix_nanos == half_before(now as int)
                        && seed->0.end_unix_nanos == now,
                }
            }
        }),
{
}

/// The layer opens on what is applied to the view where nothing was typed: its
/// basis, its field and its window, with fresh drafts in their parts. It asks to
/// recognize that field for the record under a new generation, and submits
/// nothing.
pub proof fn opening_shows_what_is_applied(
    w: TimeWorld,
    anchor: TimeAnchor,
    seed: (Seq<char>, Seq<char>),
    start: BoundModel,
    end: BoundModel,
    label: Seq<char>,
    zones: Seq<Seq<char>>,
    geometry: TimeGeometry,
)
    requires
        w.v matches Some(view) && !view.touched,
        0 <= w.d.queue.generation < u64::MAX,
        w.d.queue.items.len() < w.d.queue.cap,
    ensures
        ({
            let view = w.v->0;
            let after = w.opened(anchor, Some(seed), start, end, label, zones, geometry);
            let asked = after.d.queue.items.last();
            &&& after.d.open
            &&& after.d.basis == view.applied_basis
            &&& after.d.field_token == view.applied_field
            &&& view.applied_field is Some ==> after.d.field_label == label
            &&& after.d.window == match view.applied_policy {
                None => TimeWindowChoice::All,
                Some(CaptureTimePolicy::Absolute(_)) => TimeWindowChoice::Absolute,
                Some(CaptureTimePolicy::Recent { seconds }) => TimeWindowChoice::Recent(seconds),
            }
            &&& after.d.window_choices.contains(after.d.window)
            &&& after.d.start == start && after.d.end == end
            &&& after.v->0.start == start && after.v->0.end == end
            &&& after.v->0.start_draft == seed.0 && after.v->0.end_draft == seed.1
            &&& after.d.start_zone_custom == !zones.contains(start.zone)
            &&& after.d.end_zone_custom == !zones.contains(end.zone)
            &&& after.d.anchored_capture == anchor.capture_nanos
            &&& after.d.anchored_event == anchor.event_nanos
            &&& after.d.anchored_extracted == anchor.extracted_nanos
            &&& after.d.queue.items.len() == w.d.queue.items.len() + 1
            &&& after.d.queue.items.drop_last() == w.d.queue.items
            &&& asked.generation == w.d.queue.generation + 1
            &&& after.d.recognition_generation == w.d.queue.generation + 1
            &&& asked.view_id == view.view_id
            &&& asked.token == view.applied_field
            &&& asked.anchored_row == after.d.anchored_row
            &&& after.d.pending_field is None && after.d.candidates.len() == 0
        }),
{
    let after = w.opened(anchor, Some(seed), start, end, label, zones, geometry);
    assert(after.d.queue.items.drop_last() =~= w.d.queue.items);
    window_is_listed(after.d.window);
}

/// The windows to choose from, in their order.
pub proof fn windows_are_listed_in_order(window: TimeWindowChoice)
    ensures
        ({
            let list = window_list(window);
            let other = window matches TimeWindowChoice::Recent(n) && n != 300 && n != 900 && n
                != 3600;
            &&& list.len() == if other {
                7int
            } else {
                6
            }
            &&& list[0] == TimeWindowChoice::All
            &&& list[1] == TimeWindowChoice::Absolute
            &&& list[2] == TimeWindowChoice::Recent(300)
            &&& list[3] == TimeWindowChoice::Recent(900)
            &&& list[4] == TimeWindowChoice::Recent(3600)
            &&& other ==> list[5] == window
            &&& list.last() == TimeWindowChoice::AroundSelected
        }),
{
}

/// A report of the current generation is shown: its fields are those to pick
/// from, and its instant that of the record in the chosen field.
pub proof fn current_report_is_shown(d: TimeModel, report: TimeRecognition)
    requires
        d.open,
    ensures
        ({
            let after = d.recognition_completed(d.recognition_generation, report);
            &&& after.candidates.len() == report.candidates@.len()
            &&& forall|i: int|
                0 <= i < after.candidates.len() ==> #[trigger] after.candidates[i]
                    == report.candidates@[i].model()
            &&& after.anchored_selected == report.anchored_selected_nanos
            &&& after.sampled_records == report.sampled_records
            &&& after.basis == d.basis && after.field_token == d.field_token && after.window
                == d.window && after.start == d.start && after.end == d.end
        }),
{
}

/// A list opens on the row of what is set, so that Enter on it changes no choice.
pub proof fn list_opens_on_what_is_set(w: TimeWorld, key: KeyEvent, zones: Seq<Seq<char>>)
    requires
        goes_down(key),
        key.code == KeyCode::Enter,
        w.d.dropdown is None,
    ensures
        ({
            let after = w.after_key(key, zones).0;
            let row = after.d.highlighted;
            &&& w.d.focus == TimeControl::Window && w.d.window_choices.contains(w.d.window)
                ==> after.d.dropdown == Some(TimeDropdown::Window) && 0 <= row
                < w.d.window_choices.len() && w.d.window_choices[row] == w.d.window
            &&& w.d.focus == TimeControl::Basis ==> after.d.dropdown == Some(TimeDropdown::Basis)
                && (w.d.basis == TimeBasis::Capture ==> row == 0) && (w.d.basis == TimeBasis::Event
                ==> row == 1) && (w.d.basis == TimeBasis::Extracted ==> row == 2)
            &&& w.d.focus == TimeControl::StartZoneMenu ==> after.d.dropdown == Some(
                TimeDropdown::StartZone,
            ) && (zones.contains(w.d.start.zone) ==> 0 <= row < zones.len() && zones[row]
                == w.d.start.zone)
            &&& w.d.focus == TimeControl::EndZoneMenu ==> after.d.dropdown == Some(
                TimeDropdown::EndZone,
            ) && (zones.contains(w.d.end.zone) ==> 0 <= row < zones.len() && zones[row]
                == w.d.end.zone)
            &&& w.d.focus == TimeControl::Reading ==> after.d.dropdown == Some(
                TimeDropdown::Reading,
            ) && row == w.d.pending_reading
        }),
{
    if w.d.window_choices.contains(w.d.window) {
        found_item_is_there(w.d.window_choices, w.d.window);
    }
    if zones.contains(w.d.start.zone) {
        let k = choose|k: int| 0 <= k < zones.len() && zones[k] == w.d.start.zone;
        zone_is_in_its_row(zones, w.d.start.zone, k, 0);
    }
    if zones.contains(w.d.end.zone) {
        let k = choose|k: int| 0 <= k < zones.len() && zones[k] == w.d.end.zone;
        zone_is_in_its_row(zones, w.d.end.zone, k, 0);
    }
}

/// A zone of the list is found in a row that holds it.
pub proof fn zone_is_in_its_row(zones: Seq<Seq<char>>, zone: Seq<char>, k: int, from: int)
    requires
        0 <= from <= k < zones.len(),
        zones[k] == zone,
    ensures
        from <= zone_row(zones, zone, from) <= k,
        zones[zone_row(zones, zone, from)] == zone,
    decreases k - from,
{
    if zones[from] != zone {
        zone_is_in_its_row(zones, zone, k, from + 1);
    }
}

/// Up and Down go from row to row of an open list, round its ends.
pub proof fn list_rows_are_walked(w: TimeWorld, key: KeyEvent, zones: Seq<Seq<char>>, rows: int)
    requires
        goes_down(key),
        w.d.dropdown is Some,
        rows == match w.d.dropdown->0 {
            TimeDropdown::Basis => w.d.candidates.len() as int + 3,
            TimeDropdown::Window => w.d.window_choices.len() as int,
            TimeDropdown::StartZone | TimeDropdown::EndZone => zones.len() as int + 1,
            TimeDropdown::Reading => match w.d.pending_field {
                Some(field) => field.alternatives.len() as int + 1,
                None => 1,
            },
        },
        0 <= w.d.highlighted < rows,
    ensures
        ({
            let at = w.d.highlighted;
            let after = w.after_key(key, zones).0;
            &&& key.code == KeyCode::Down ==> after.d.highlighted == if at + 1 < rows {
                at + 1
            } else {
                0
            }
            &&& key.code == KeyCode::Up ==> after.d.highlighted == if at > 0 {
                at - 1
            } else {
                rows - 1
            }
            &&& key.code == KeyCode::Down || key.code == KeyCode::Up ==> after.v == w.v
                && after.d.window == w.d.window && after.d.basis == w.d.basis
        }),
{
    ring_goes_round(w.d.highlighted, rows);
}

/// A pasted bound replaces the one that has the focus, whole, and no other.
pub proof fn pasted_bound_replaces_its_bound(
    w: TimeWorld,
    bound: BoundModel,
    zones: Seq<Seq<char>>,
)
    ensures
        ({
            let end = w.d.focus == TimeControl::EndDate || w.d.focus == TimeControl::EndClock
                || w.d.focus == TimeControl::EndZone || w.d.focus == TimeControl::EndZoneMenu;
            let after = w.paste_split(bound, zones);
            &&& end ==> after.d.end == bound && after.d.start == w.d.start
                && after.d.end_zone_custom == !zones.contains(bound.zone)
                && after.d.start_zone_custom == w.d.start_zone_custom
            &&& !end ==> after.d.start == bound && after.d.end == w.d.end
                && after.d.start_zone_custom == !zones.contains(bound.zone)
                && after.d.end_zone_custom == w.d.end_zone_custom
            &&& after.d.window == TimeWindowChoice::Absolute
            &&& w.v is Some ==> bounds_are_written(after.v->0, after.d)
        }),
{
}

/// A text with a T in it is divided into a bound; one that holds a control
/// character or is too long leaves what was typed and says so.
pub proof fn paste_is_bounded(w: TimeWorld, text: Seq<char>)
    ensures
        ({
            let (after, step) = w.pasted(text);
            let control = exists|i: int| 0 <= i < text.len() && is_control_char(#[trigger] text[i]);
            &&& control || byte_count(text) > 64 ==> after.d == w.d && step == TimeStep::Done(
                Outcome::Consumed,
            ) && (w.v is Some ==> after.v->0.error is Some && after.v->0.start == w.v->0.start
                && after.v->0.end == w.v->0.end)
            &&& !control && byte_count(text) <= 64 && text.contains('T') ==> after == w && step
                == TimeStep::SplitPaste
        }),
{
}

/// Alt and a, and the command, turn the window round the opening record without
/// submitting it; where that has no instant in the basis, the view says so.
pub proof fn around_is_asked_by_key(w: TimeWorld, key: KeyEvent, zones: Seq<Seq<char>>)
    requires
        goes_down(key),
        key.modifiers.alt && !key.modifiers.control,
        key.code == KeyCode::Char('a'),
        w.v is Some,
    ensures
        ({
            let (after, step) = w.after_key(key, zones);
            &&& w.after_command(CommandId::TimeAroundSelected) == (after, step)
            &&& after.d.window == TimeWindowChoice::AroundSelected
            &&& after.v->0.window == TimeWindowChoice::AroundSelected
            &&& after.v->0.touched
            &&& match instant_in(w.d, w.d.basis) {
                Some(center) => step == TimeStep::Around {
                    start: half_before(center as int) as i64,
                    end: half_behind(center as int) as i64,
                    submit: false,
                },
                None => step == TimeStep::Done(Outcome::Consumed) && after.v->0.error is Some,
            }
        }),
{
}

/// Alt and t, and Enter on Recognize, close the layer for the timestamp assistant.
pub proof fn recognizing_hands_over(w: TimeWorld, key: KeyEvent, zones: Seq<Seq<char>>)
    requires
        goes_down(key),
        key.code == KeyCode::Char('t') && key.modifiers.alt && !key.modifiers.control || key.code
            == KeyCode::Enter && w.d.dropdown is None && w.d.focus == TimeControl::Recognize,
    ensures
        ({
            let (after, step) = w.after_key(key, zones);
            &&& !after.d.open
            &&& after.v == w.v
            &&& step == TimeStep::Done(Outcome::Legacy(Action::OpenTimestampAssistant))
        }),
{
}

/// A reading that is picked is that of its row, and waits to be accepted.
pub proof fn picked_reading_is_offered(w: TimeWorld, zones: Seq<Seq<char>>)
    requires
        w.d.dropdown == Some(TimeDropdown::Reading),
        w.d.pending_field is Some,
        0 <= w.d.highlighted <= w.d.pending_field->0.alternatives.len(),
    ensures
        ({
            let after = w.chosen(zones).0;
            &&& after.d.pending_reading == w.d.highlighted
            &&& after.d.pending_field == w.d.pending_field
            &&& after.d.focus == TimeControl::AcceptField
            &&& after.d.field_error is None
            &&& after.d.dropdown is None
            &&& after.v == w.v
        }),
{
}

/// A field none of whose readings can be used changes neither the basis nor the
/// view, and says why.
pub proof fn blocked_field_says_why(w: TimeWorld, candidate: CandidateModel)
    requires
        candidate.main.blocked is Some,
        forall|i: int|
            0 <= i < candidate.alternatives.len() ==> (#[trigger] candidate.alternatives[i]).blocked
                is Some,
    ensures
        ({
            let after = w.field_chosen(candidate);
            &&& after.v == w.v
            &&& after.d.basis == w.d.basis
            &&& after.d.field_token == w.d.field_token
            &&& after.d.field_error == candidate.main.blocked
            &&& after.d.pending_field is None
        }),
{
    nothing_is_usable(candidate, 0);
}

proof fn nothing_is_usable(candidate: CandidateModel, from: int)
    requires
        from >= 0,
        candidate.main.blocked is Some,
        forall|i: int|
            0 <= i < candidate.alternatives.len() ==> (#[trigger] candidate.alternatives[i]).blocked
                is Some,
    ensures
        candidate.first_usable(from) is None,
    decreases candidate.alternatives.len() + 1 - from,
{
    if from <= candidate.alternatives.len() {
        nothing_is_usable(candidate, from + 1);
    }
}

/// A text that is pasted into a part stands at its caret, whole, and no other part
/// changes.
pub proof fn pasted_text_stands_at_the_caret(w: TimeWorld, text: Seq<char>)
    requires
        is_typed_into(w.d, w.d.focus),
        0 <= w.d.segment_cursor <= w.d.segment(w.d.focus).len(),
        !text.contains('T'),
        forall|i: int| 0 <= i < text.len() ==> !is_control_char(#[trigger] text[i]),
        byte_count(w.d.segment(w.d.focus)) + byte_count(text) <= 32,
        byte_count(text) <= 64,
    ensures
        ({
            let value = w.d.segment(w.d.focus);
            let at = w.d.segment_cursor;
            let (after, step) = w.pasted(text);
            &&& step == TimeStep::Done(Outcome::Consumed)
            &&& only_part_changed(
                w.d,
                after.d,
                w.d.focus,
                value.subrange(0, at) + text + value.subrange(at, value.len() as int),
            )
            &&& after.d.window == TimeWindowChoice::Absolute
            &&& w.v is Some ==> bounds_are_written(after.v->0, after.d)
        }),
{
    all_is_typed(w.d, text, text.len() as int);
    assert(text.take(text.len() as int) =~= text);
}

proof fn all_is_typed(d: TimeModel, text: Seq<char>, n: int)
    requires
        is_typed_into(d, d.focus),
        0 <= n <= text.len(),
        0 <= d.segment_cursor <= d.segment(d.focus).len(),
        forall|i: int| 0 <= i < text.len() ==> !is_control_char(#[trigger] text[i]),
        byte_count(d.segment(d.focus)) + byte_count(text) <= 32,
    ensures
        ({
            let value = d.segment(d.focus);
            let at = d.segment_cursor;
            let after = d.all_typed(text, n);
            let whole = value.subrange(0, at) + text.take(n) + value.subrange(
                at,
                value.len() as int,
            );
            &&& only_part_changed(d, after, d.focus, whole)
            &&& after.segment_cursor == at + n
            &&& after.focus == d.focus
            &&& after.start_zone_custom == d.start_zone_custom
            &&& after.end_zone_custom == d.end_zone_custom
            &&& byte_count(whole) == byte_count(value) + byte_count(text.take(n))
        }),
    decreases n,
{
    let value = d.segment(d.focus);
    let at = d.segment_cursor;
    let front = value.subrange(0, at);
    let back = value.subrange(at, value.len() as int);
    let whole = front + text.take(n) + back;
    bytes_add(front + text.take(n), back);
    bytes_add(front, text.take(n));
    bytes_add(front, back);
    assert(front + back =~= value);
    if n <= 0 {
        assert(text.take(n) =~= Seq::<char>::empty());
        assert(whole =~= value);
    } else {
        all_is_typed(d, text, n - 1);
        let before = d.all_typed(text, n - 1);
        let there = front + text.take(n - 1) + back;
        assert(before.segment(before.focus) == there);
        assert(there.insert(at + n - 1, text[n - 1]) =~= whole);
        byte_count_of_last(text.take(n));
        assert(text.take(n).drop_last() =~= text.take(n - 1));
        bytes_add(text.take(n), text.skip(n));
        assert(text.take(n) + text.skip(n) =~= text);
        byte_count_is_positive(text.skip(n));
    }
}

/// Switching goes from one bound to the other.
pub proof fn switching_goes_to_the_other_bound(d: TimeModel)
    ensures
        d.focus == TimeControl::StartDate || d.focus == TimeControl::StartClock || d.focus
            == TimeControl::StartZone ==> d.field_switched().focus == TimeControl::EndDate,
        d.focus == TimeControl::EndDate || d.focus == TimeControl::EndClock || d.focus
            == TimeControl::EndZone ==> d.field_switched().focus == TimeControl::StartDate,
        d.field_switched().start == d.start && d.field_switched().end == d.end,
{
}

/// A click on a control gives it the focus and does what Enter does on it.
pub proof fn click_does_what_enter_does(
    w: TimeWorld,
    control: TimeControl,
    key: KeyEvent,
    zones: Seq<Seq<char>>,
)
    requires
        goes_down(key),
        key.code == KeyCode::Enter,
    ensures
        w.after_mouse(MouseEventKind::LeftDown, Some(TimeHit::Control(control)), zones) == w.with(
            w.d.focused(control),
        ).after_key(key, zones),
        w.d.focused(control).focus == control,
        w.d.focused(control).dropdown is None,
        w.d.focused(control).window == w.d.window,
        w.d.focused(control).start == w.d.start && w.d.focused(control).end == w.d.end,
{
}

/// In a part that takes text the arrows and the caret keys are handed to its
/// editor.
pub proof fn keys_edit_the_part(w: TimeWorld, key: KeyEvent, zones: Seq<Seq<char>>)
    requires
        goes_down(key),
        w.d.dropdown is None,
        is_typed_into(w.d, w.d.focus),
    ensures
        ({
            let (after, step) = w.after_key(key, zones);
            let bare = !key.modifiers.shift && !key.modifiers.control && !key.modifiers.alt
                && !key.modifiers.other;
            &&& bare && key.code == KeyCode::Left ==> after == w && step == TimeStep::Edit(
                EditCommand::MoveLeft,
            )
            &&& bare && key.code == KeyCode::Right ==> after == w && step == TimeStep::Edit(
                EditCommand::MoveRight,
            )
            &&& key.modifiers.control && key.code == KeyCode::Char('k') ==> after == w && step
                == TimeStep::Edit(EditCommand::KillToEndOfLine)
        }),
{
}

/// The focus goes through the form from top to bottom: the basis, what awaits
/// confirmation, the window, the start, the end, and the buttons.
pub proof fn focus_goes_from_top_to_bottom(d: TimeModel)
    ensures
        ({
            let confirming = d.pending_field is Some;
            let list = d.focus_list();
            &&& list[0] == TimeControl::Basis
            &&& confirming ==> list[1] == TimeControl::Reading && list[2]
                == TimeControl::AcceptField
            &&& !confirming && !d.start_zone_custom && !d.end_zone_custom && !d.has_overflow
                ==> list == seq![
                TimeControl::Basis,
                TimeControl::Window,
                TimeControl::StartDate,
                TimeControl::StartClock,
                TimeControl::StartZoneMenu,
                TimeControl::EndDate,
                TimeControl::EndClock,
                TimeControl::EndZoneMenu,
                TimeControl::Apply,
                TimeControl::Clear,
                TimeControl::Recognize,
            ]
            &&& !confirming && d.start_zone_custom && d.end_zone_custom && !d.has_overflow
                ==> list == seq![
                TimeControl::Basis,
                TimeControl::Window,
                TimeControl::StartDate,
                TimeControl::StartClock,
                TimeControl::StartZone,
                TimeControl::StartZoneMenu,
                TimeControl::EndDate,
                TimeControl::EndClock,
                TimeControl::EndZone,
                TimeControl::EndZoneMenu,
                TimeControl::Apply,
                TimeControl::Clear,
                TimeControl::Recognize,
            ]
        }),
{
    let list = d.focus_list();
    if d.pending_field is None && !d.start_zone_custom && !d.end_zone_custom && !d.has_overflow {
        assert(list =~= seq![
            TimeControl::Basis,
            TimeControl::Window,
            TimeControl::StartDate,
            TimeControl::StartClock,
            TimeControl::StartZoneMenu,
            TimeControl::EndDate,
            TimeControl::EndClock,
            TimeControl::EndZoneMenu,
            TimeControl::Apply,
            TimeControl::Clear,
            TimeControl::Recognize,
        ]);
    }
    if d.pending_field is None && d.start_zone_custom && d.end_zone_custom && !d.has_overflow {
        assert(list =~= seq![
            TimeControl::Basis,
            TimeControl::Window,
            TimeControl::StartDate,
            TimeControl::StartClock,
            TimeControl::StartZone,
            TimeControl::StartZoneMenu,
            TimeControl::EndDate,
            TimeControl::EndClock,
            TimeControl::EndZone,
            TimeControl::EndZoneMenu,
            TimeControl::Apply,
            TimeControl::Clear,
            TimeControl::Recognize,
        ]);
    }
}

/// Tab goes to the next control of the order and its reverse to the one before,
/// round the ends; an open list is closed and nothing that was typed changes.
pub proof fn tab_follows_the_order(w: TimeWorld, key: KeyEvent, zones: Seq<Seq<char>>, k: int)
    requires
        goes_down(key),
        !key.modifiers.control,
        key.code == KeyCode::Tab || key.code == KeyCode::BackTab,
        0 <= k < w.d.focus_list().len(),
        w.d.focus == w.d.focus_list()[k],
    ensures
        ({
            let list = w.d.focus_list();
            let n = list.len() as int;
            let after = w.after_key(key, zones).0;
            let forward = key.code == KeyCode::Tab && !key.modifiers.shift;
            &&& forward ==> after.d.focus == list[if k + 1 < n {
                k + 1
            } else {
                0
            }]
            &&& !forward ==> after.d.focus == list[if k > 0 {
                k - 1
            } else {
                n - 1
            }]
            &&& after.d.dropdown is None
            &&& after.v == w.v
            &&& after.d.start == w.d.start && after.d.end == w.d.end && after.d.window
                == w.d.window && after.d.basis == w.d.basis
        }),
{
    let list = w.d.focus_list();
    focus_order_is_distinct(
        w.d.has_overflow,
        w.d.start_zone_custom,
        w.d.end_zone_custom,
        w.d.pending_field is Some,
    );
    distinct_item_is_found(list, k);
    ring_goes_round(k, list.len() as int);
}

/// What a view holds of its window is read as it is written, each under its own
/// name.
pub proof fn view_is_read_as_written(view: TimeView, bound: TimeBound)
    ensures
        view.model().view_id == view.view_id@,
        view.model().start_draft == view.time_start_draft@,
        view.model().end_draft == view.time_end_draft@,
        view.model().recent_draft == view.time_recent_draft@,
        view.model().start.date == view.time_start_date_draft@,
        view.model().start.clock == view.time_start_clock_draft@,
        view.model().start.zone == view.time_start_zone_draft@,
        view.model().end.date == view.time_end_date_draft@,
        view.model().end.clock == view.time_end_clock_draft@,
        view.model().end.zone == view.time_end_zone_draft@,
        view.model().structured == view.time_structured_draft_present,
        view.model().window == view.time_window_draft,
        view.model().basis == view.time_basis_draft,
        view.time_field_draft is Some ==> view.model().field == Some(view.time_field_draft->0@),
        view.time_field_draft is None ==> view.model().field is None,
        view.model().touched == view.time_draft_touched,
        view.time_error is Some ==> view.model().error == Some(view.time_error->0@),
        view.time_error is None ==> view.model().error is None,
        view.model().marked == view.time_edit_marked,
        view.model().applied_basis == view.applied_time_basis,
        view.applied_time_field is Some ==> view.model().applied_field == Some(
            view.applied_time_field->0@,
        ),
        view.applied_time_field is None ==> view.model().applied_field is None,
        view.model().applied_policy == view.applied_capture_time_policy,
        view.model().applied_range == view.applied_capture_time,
        view.model().update_pending == view.update_pending,
        bound.model().date == bound.date@,
        bound.model().clock == bound.clock@,
        bound.model().zone == bound.zone@,
{
}

/// So is what is asked of the recognizer.
pub proof fn request_is_read_as_written(request: TimeRecognitionRequest)
    ensures
        request.ask().generation == request.generation,
        request.ask().view_id == request.view_id@,
        request.token is Some ==> request.ask().token == Some(request.token->0@),
        request.token is None ==> request.ask().token is None,
        request.anchored_row is Some ==> request.ask().anchored_row == Some(
            request.anchored_row->0@,
        ),
        request.anchored_row is None ==> request.ask().anchored_row is None,
{
}

/// What is typed is what is parsed: applying after an edit of a bound has the
/// drafts of the view parsed, and these are the bounds of the form.
pub proof fn typed_bounds_are_parsed(
    w: TimeWorld,
    value: Seq<char>,
    cursor: int,
    key: KeyEvent,
    zones: Seq<Seq<char>>,
)
    requires
        goes_down(key),
        key.code == KeyCode::Enter,
        w.v is Some,
        w.d.dropdown is None,
        is_typed_into(w.d, w.d.focus),
    ensures
        ({
            let typed = w.edited(value, cursor, true);
            let (after, step) = typed.with(typed.d.focused(TimeControl::Apply)).after_key(
                key,
                zones,
            );
            &&& step == TimeStep::Parse
            &&& only_part_changed(w.d, after.d, w.d.focus, value)
            &&& bounds_are_written(after.v->0, after.d)
        }),
{
    edit_lands_in_its_part(w, value, cursor);
    let typed = w.edited(value, cursor, true);
    apply_submits_the_window(typed.with(typed.d.focused(TimeControl::Apply)), key, zones);
}

/// The basis that is chosen is the one that is submitted: clearing or applying after
/// a choice of the basis submits under it.
pub proof fn chosen_basis_is_submitted(
    w: TimeWorld,
    basis: TimeBasis,
    range: CaptureTimeRange,
    error: Seq<char>,
)
    requires
        w.v is Some,
    ensures
        (w.basis_set(basis).cleared().1 matches TimeStep::Submit { basis: sent, .. } && sent
            == basis),
        (w.basis_set(basis).parsed(Some(range), error).1 matches TimeStep::Submit {
            basis: sent,
            ..
        } && sent == basis),
{
}

} // verus!
