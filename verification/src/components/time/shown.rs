//! What the Time window layer shows.

use super::{
    ReadingModel, TimeBasis, TimeControl, TimeDropdown, TimeHit, TimeModel, TimeWindowChoice,
    ViewModel,
};
use super::frame::{
    action_hits, action_words, choice_rows, field_label, reading_label, reading_name, ChoiceBox,
};
use super::render::TimeSheet;
use crate::component::MessageState;
use crate::dialog_layout::region_at;
use crate::geometry::Rect;
use super::layout::{field_is_live, form_fields, reading_notes};
use crate::paint::is_text;
use vstd::prelude::*;

verus! {

/// The rows of an open list stand for what they say: row by row the windows, the
/// built-in bases and the fields, the readings, and the zones with one row behind
/// them.
pub proof fn rows_stand_for_what_they_say(
    d: TimeModel,
    builtin: Seq<Seq<char>>,
    durations: Seq<Seq<char>>,
    zones: Seq<Seq<char>>,
    i: int,
)
    requires
        i >= 0,
    ensures
        ({
            let rows = d.list_labels(builtin, durations, zones);
            &&& d.dropdown is None ==> rows.len() == 0
            &&& d.dropdown == Some(TimeDropdown::Window) && i < d.window_choices.len()
                ==> rows.len() == d.window_choices.len() && match d.window_choices[i] {
                TimeWindowChoice::All => rows[i] == "All time"@,
                TimeWindowChoice::Absolute => rows[i] == "Absolute"@,
                TimeWindowChoice::AroundSelected => rows[i] == "Around selected"@,
                TimeWindowChoice::Recent(_) => durations[i].is_suffix_of(rows[i]),
            }
            &&& d.dropdown == Some(TimeDropdown::Basis) && i < builtin.len() ==> rows[i]
                == builtin[i]
            &&& d.dropdown == Some(TimeDropdown::Basis) && i < d.candidates.len()
                ==> d.candidates[i].main.label.is_prefix_of(rows[builtin.len() + i])
            &&& (d.dropdown == Some(TimeDropdown::StartZone) || d.dropdown == Some(
                TimeDropdown::EndZone,
            )) ==> rows.len() == zones.len() + 1 && (i < zones.len() ==> rows[i] == zones[i])
            &&& d.dropdown == Some(TimeDropdown::Reading) && d.pending_field is Some ==> {
                let field = d.pending_field->0;
                &&& rows.len() == field.alternatives.len() + 1
                &&& reading_name(field.main).is_prefix_of(rows[0])
                &&& i < field.alternatives.len() ==> reading_name(
                    field.alternatives[i],
                ).is_prefix_of(rows[i + 1])
            }
        }),
{
    let rows = d.list_labels(builtin, durations, zones);
    if d.dropdown == Some(TimeDropdown::Window) && i < d.window_choices.len() {
        let text = rows[i];
        if d.window_choices[i] is Recent {
            assert(text.skip(text.len() - durations[i].len()) =~= durations[i]);
        }
    }
    if d.dropdown == Some(TimeDropdown::Basis) && i < d.candidates.len() {
        assert(rows[builtin.len() + i] == field_label(d.candidates[i]));
        let label = d.candidates[i].main.label;
        let text = rows[builtin.len() + i];
        assert(text.take(label.len() as int) =~= label);
    }
    if d.dropdown == Some(TimeDropdown::Reading) && d.pending_field is Some {
        let field = d.pending_field->0;
        assert(rows[0] == reading_label(field.main));
        assert(rows[0].take(reading_name(field.main).len() as int) =~= reading_name(field.main));
        if i < field.alternatives.len() {
            let reading = field.alternatives[i];
            assert(rows[i + 1] == reading_label(reading));
            assert(rows[i + 1].take(reading_name(reading).len() as int) =~= reading_name(reading));
        }
    }
}

/// What is said of the window: why a field was refused comes first, then that a
/// reading waits, then what is wrong with the window, then that it is on its way,
/// and else which window is applied.
pub proof fn message_says_what_matters_first(d: TimeModel, view: ViewModel, applied: Seq<char>)
    ensures
        ({
            let (state, text) = d.message(view, applied);
            &&& d.field_error is Some ==> state == MessageState::Error && text == d.field_error->0
            &&& d.field_error is None && d.pending_field is Some ==> state == MessageState::Pending
            &&& d.field_error is None && d.pending_field is None && view.error is Some ==> state
                == MessageState::Error && text == view.error->0
            &&& d.field_error is None && d.pending_field is None && view.error is None ==> if
                view.update_pending {
                state == MessageState::Updating
            } else {
                state == MessageState::Applied && text == applied
            }
        }),
{
}

/// The buttons below the form are Apply, Clear and Recognize, in this order, and a
/// click on each works that control.
pub proof fn buttons_work_their_controls(rect: Rect, other: Rect, third: Rect)
    ensures
        action_hits(seq![(0usize, rect), (1usize, other), (2usize, third)], 3) == seq![
            (rect, TimeControl::Apply),
            (other, TimeControl::Clear),
            (third, TimeControl::Recognize),
        ],
        action_words(true)[0]@ == "Apply"@,
        action_words(true)[1]@ == "Clear"@,
        action_words(false)[0]@ == "Apply"@,
        action_words(false)[1]@ == "Clear"@,
{
    reveal_with_fuel(action_hits, 4);
    assert(action_hits(seq![(0usize, rect), (1usize, other), (2usize, third)], 3) =~= seq![
        (rect, TimeControl::Apply),
        (other, TimeControl::Clear),
        (third, TimeControl::Recognize),
    ]);
}

/// Each field shows its own value: the parts of the bounds, the basis by its name,
/// and the window that is set.
pub proof fn field_shows_its_value(d: TimeModel, s: TimeSheet<'_>)
    ensures
        d.field_value(s, TimeControl::StartDate) == d.start.date,
        d.field_value(s, TimeControl::StartClock) == d.start.clock,
        d.field_value(s, TimeControl::StartZone) == d.start.zone,
        d.field_value(s, TimeControl::EndDate) == d.end.date,
        d.field_value(s, TimeControl::EndClock) == d.end.clock,
        d.field_value(s, TimeControl::EndZone) == d.end.zone,
        d.field_value(s, TimeControl::Window) == s.window@,
        d.basis == TimeBasis::Capture ==> d.field_value(s, TimeControl::Basis) == "Capture"@,
        d.basis == TimeBasis::Selected && d.field_label.len() > 0 ==> d.field_value(
            s,
            TimeControl::Basis,
        ) == "Field "@ + d.field_label,
{
}

/// A click falls on the open list before it falls on the form.
pub proof fn click_falls_on_the_list_first(d: TimeModel, column: int, row: int)
    ensures
        ({
            let choice = region_at(d.geometry.choices@, column, row);
            let control = region_at(d.geometry.controls@, column, row);
            &&& choice is Some ==> d.at(column, row) == Some(TimeHit::Choice(choice->0))
            &&& choice is None && control is Some ==> d.at(column, row) == Some(
                TimeHit::Control(control->0),
            )
            &&& choice is None && control is None ==> d.at(column, row) is None
        }),
{
}

/// The form has each of its fields once and in its place: the basis, the window,
/// and the parts of the start above those of the end.
pub proof fn form_has_its_fields(width: int)
    requires
        1 <= width,
    ensures
        ({
            let fields = form_fields(width, None);
            &&& fields.len() == 8
            &&& fields[0].control == TimeControl::Basis && fields[0].label_text == "Time basis"@
            &&& fields[1].control == TimeControl::Window && fields[1].label_text == "Window"@
            &&& fields[2].control == TimeControl::StartDate
            &&& fields[3].control == TimeControl::StartClock
            &&& fields[4].control == TimeControl::StartZone
            &&& fields[5].control == TimeControl::EndDate
            &&& fields[6].control == TimeControl::EndClock
            &&& fields[7].control == TimeControl::EndZone
            &&& width < 56 ==> fields[2].label_text == "Start date"@ && fields[3].label_text
                == "Start time"@ && fields[4].label_text == "Start zone"@ && fields[5].label_text
                == "End date"@ && fields[6].label_text == "End time"@ && fields[7].label_text
                == "End zone"@
            &&& width >= 56 ==> fields[2].label_text == "Start"@ && fields[5].label_text == "End"@
            &&& fields[0].dropdown && fields[1].dropdown
            &&& forall|i: int| 2 <= i < 8 ==> !(#[trigger] fields[i]).dropdown
        }),
{
}

/// A reading that awaits confirmation is shown with its field, how much of the
/// sample it covers, why it is blocked, and everything that it assumes.
pub proof fn reading_shows_what_it_assumes(reading: ReadingModel, sampled: int, i: int)
    requires
        0 <= i < reading.assumptions.len(),
    ensures
        ({
            let notes = reading_notes(reading, sampled);
            &&& notes[0].0 == "Field: "@ + reading.label
            &&& reading.blocked is None ==> notes.len() == 2 + reading.assumptions.len()
                && notes[2 + i] == ("Assumes: "@ + reading.assumptions[i], true)
            &&& reading.blocked is Some ==> notes[2] == ("Blocked: "@ + reading.blocked->0, true)
                && notes[3 + i] == ("Assumes: "@ + reading.assumptions[i], true)
        }),
{
}

/// A zone takes text only where it is typed.
pub proof fn zone_is_live_where_it_is_typed(start_custom: bool, end_custom: bool)
    ensures
        field_is_live(TimeControl::StartZone, start_custom, end_custom) == start_custom,
        field_is_live(TimeControl::EndZone, start_custom, end_custom) == end_custom,
        field_is_live(TimeControl::StartDate, start_custom, end_custom),
        field_is_live(TimeControl::EndDate, start_custom, end_custom),
{
}

/// Each row of an open list is drawn with the choice that a click on it takes.
pub proof fn row_draws_its_choice(d: TimeModel, s: TimeSheet<'_>, shown: ChoiceBox, n: int, k: int)
    requires
        0 <= k < n,
    ensures
        d.choices_part(s, shown, n).len() == n,
        is_text(
            d.choices_part(s, shown, n)[k],
            choice_rows(shown, s.choices@.len() as int)[k].0,
            s.choices@[choice_rows(
                shown,
                s.choices@.len() as int,
            )[k].1 as int]@,
        ),
    decreases n,
{
    if n - 1 > 0 {
        row_draws_its_choice(d, s, shown, n - 1, if k < n - 1 {
            k
        } else {
            0
        });
    } else {
        assert(d.choices_part(s, shown, 0).len() == 0);
    }
}

} // verus!
