//! What holds of the Union layer as a whole.

use super::{
    asks, chosen_count, id_place, ids, union_labels, SharedKeyUnionOrigin, UnionCandidate,
    UnionDialogRequest, UnionFocus, UnionGeometry, UnionHit, UnionModel, UnionOpen,
};
use crate::component::{ring_goes_round, Event, MessageState, Outcome};
use crate::components::union::UnionDraft;
use crate::components::union::laws::{
    added_view_comes_last, can_be_named, is_another, removed_view_leaves_the_others,
    sound_draft_has_no_fault,
};
use crate::input::{KeyCode, KeyEvent, KeyEventKind, MouseEventKind};
use crate::dialog_layout::region_at;
use crate::paint::is_text;
use super::render::UnionFrame;
use vstd::prelude::*;

verus! {

/// A key goes down, first or by repetition.
pub open spec fn goes_down(key: KeyEvent) -> bool {
    key.kind == KeyEventKind::Press || key.kind == KeyEventKind::Repeat
}

/// A union can be made of the inputs of a draft.
pub open spec fn is_sound(draft: UnionDraft) -> bool {
    2 <= draft.inputs.len() <= 8 && draft.inputs.no_duplicates() && !draft.inputs.contains(""@)
}

/// Enter in the list or on Create, and a click on Create, ask once for a union of
/// exactly the chosen views, in the order in which they were chosen, with the key
/// that they share. An unsound draft asks for nothing and says why.
pub proof fn create_asks_for_the_chosen_views(
    m: UnionModel,
    key: KeyEvent,
    list: Seq<Seq<char>>,
)
    requires
        goes_down(key),
        key.code == KeyCode::Enter,
        m.focus != UnionFocus::Cancel,
        !m.submitted,
    ensures
        ({
            let (after, outcome) = m.after_key(key, list);
            &&& outcome == Outcome::Consumed
            &&& is_sound(m.draft) ==> {
                &&& after.outbox.len() == m.outbox.len() + 1
                &&& after.outbox.drop_last() == m.outbox
                &&& after.outbox.last().inputs == m.draft.inputs
                &&& after.outbox.last().shared_key == m.shared_key
                &&& after.submitted
                &&& after.draft == m.draft
            }
            &&& !is_sound(m.draft) ==> after.outbox == m.outbox && after.draft.error is Some
                && !after.submitted && after.draft.inputs == m.draft.inputs
            &&& m.after_mouse(MouseEventKind::LeftDown, Some(UnionHit::Button(0)), list).0 == after
        }),
{
    sound_draft_has_no_fault(m.draft, ""@);
    let after = m.after_key(key, list).0;
    if is_sound(m.draft) {
        assert(after.outbox.drop_last() =~= m.outbox);
    }
}

/// Cancel, by Enter or a click, closes the layer and asks for nothing, and so does
/// a dismissal.
pub proof fn cancel_asks_for_nothing(m: UnionModel, key: KeyEvent, list: Seq<Seq<char>>)
    requires
        goes_down(key),
        key.code == KeyCode::Enter,
        m.focus == UnionFocus::Cancel,
    ensures
        m.after_key(key, list) == (m, Outcome::Close),
        m.after_mouse(MouseEventKind::LeftDown, Some(UnionHit::Button(1)), list) == (
            m,
            Outcome::Close,
        ),
        m.after_event(Event::Dismiss, list) == (m, Outcome::Close),
{
}

/// Space chooses the highlighted view, or takes the choice back, and a click does
/// so with the view under it: a view that is chosen comes last, one that is not
/// any longer leaves the others in their order.
pub proof fn space_chooses_the_highlighted_view(
    m: UnionModel,
    key: KeyEvent,
    list: Seq<Seq<char>>,
)
    requires
        goes_down(key),
        key.code == KeyCode::Char(' '),
        0 <= m.highlighted < list.len() <= usize::MAX,
    ensures
        ({
            let id = list[m.highlighted];
            let after = m.after_key(key, list).0;
            let clicked = m.after_mouse(
                MouseEventKind::LeftDown,
                Some(UnionHit::Input(m.highlighted as usize)),
                list,
            ).0;
            &&& m.draft.inputs.contains(id) ==> after.draft.inputs == m.draft.inputs.filter(
                is_another(id),
            )
            &&& !m.draft.inputs.contains(id) && can_be_named(id) && m.draft.inputs.len() < 8
                ==> after.draft.inputs == m.draft.inputs.push(id) && after.draft.error is None
            &&& !m.draft.inputs.contains(id) && !(can_be_named(id) && m.draft.inputs.len() < 8)
                ==> after.draft.inputs == m.draft.inputs && after.draft.error is Some
            &&& after.highlighted == m.highlighted
            &&& after.outbox == m.outbox
            &&& clicked.draft == after.draft
            &&& clicked.focus == UnionFocus::Inputs
        }),
{
    removed_view_leaves_the_others(m.draft, list[m.highlighted]);
    added_view_comes_last(m.draft, list[m.highlighted]);
}

/// A click highlights the view under it.
pub proof fn click_highlights_its_view(m: UnionModel, row: usize, list: Seq<Seq<char>>)
    ensures
        m.after_mouse(MouseEventKind::LeftDown, Some(UnionHit::Input(row)), list).0.highlighted
            == row,
{
}

/// Up and Down highlight the view before and after and stop at the ends; Tab and
/// its reverse go from the list to Create and to Cancel, and round.
pub proof fn views_are_walked(m: UnionModel, key: KeyEvent, list: Seq<Seq<char>>)
    requires
        goes_down(key),
        0 <= m.highlighted < list.len(),
    ensures
        ({
            let after = m.after_key(key, list).0;
            &&& key.code == KeyCode::Down ==> after.highlighted == if m.highlighted + 1
                < list.len() {
                m.highlighted + 1
            } else {
                m.highlighted
            }
            &&& key.code == KeyCode::Up ==> after.highlighted == if m.highlighted > 0 {
                m.highlighted - 1
            } else {
                0
            }
            &&& key.code == KeyCode::Tab ==> after.focus == match m.focus {
                UnionFocus::Inputs => UnionFocus::Create,
                UnionFocus::Create => UnionFocus::Cancel,
                UnionFocus::Cancel => UnionFocus::Inputs,
            }
            &&& key.code == KeyCode::BackTab ==> after.focus == match m.focus {
                UnionFocus::Inputs => UnionFocus::Cancel,
                UnionFocus::Create => UnionFocus::Inputs,
                UnionFocus::Cancel => UnionFocus::Create,
            }
            &&& key.code != KeyCode::Enter && key.code != KeyCode::Char(' ') ==> after.draft
                == m.draft && after.outbox == m.outbox
        }),
{
    ring_goes_round(
        match m.focus {
            UnionFocus::Inputs => 0int,
            UnionFocus::Create => 1,
            UnionFocus::Cancel => 2,
        },
        3,
    );
}

/// The layer opens with one view chosen and highlighted: the one that shares its
/// key, or the one that is shown.
pub proof fn opening_chooses_the_origin(
    params: UnionOpen,
    active: Option<Seq<char>>,
    list: Seq<Seq<char>>,
    geometry: UnionGeometry,
)
    ensures
        ({
            let after = UnionModel::opened(params, active, list, geometry);
            let origin = match params {
                UnionOpen::Plain => active,
                UnionOpen::SharedKey(key) => Some(key.origin_view_id@),
            };
            &&& origin is None ==> after.draft.inputs.len() == 0 && after.highlighted == 0
            &&& origin is Some && can_be_named(origin->0) ==> after.draft.inputs == seq![origin->0]
            &&& origin is Some && list.contains(origin->0) ==> 0 <= after.highlighted < list.len()
                && list[after.highlighted] == origin->0
            &&& params == UnionOpen::Plain ==> after.shared_key is None
            &&& params matches UnionOpen::SharedKey(key) ==> after.shared_key == Some(key)
            &&& after.focus == UnionFocus::Inputs
            &&& !after.submitted
            &&& after.outbox.len() == 0
        }),
{
    let origin = match params {
        UnionOpen::Plain => active,
        UnionOpen::SharedKey(key) => Some(key.origin_view_id@),
    };
    if let Some(id) = origin {
        let none = Seq::<Seq<char>>::empty();
        assert(none.push(id) =~= seq![id]);
        if list.contains(id) {
            let k = choose|k: int| 0 <= k < list.len() && list[k] == id;
            place_is_found(list, id, k, 0);
        }
    }
}

proof fn place_is_found(list: Seq<Seq<char>>, id: Seq<char>, k: int, from: int)
    requires
        0 <= from <= k < list.len(),
        list[k] == id,
    ensures
        id_place(list, id, from) matches Some(place) && from <= place <= k && list[place] == id,
    decreases k - from,
{
    if list[from] != id {
        place_is_found(list, id, k, from + 1);
    }
}

/// A union that could not be made leaves the draft to be tried again, with the
/// reason.
pub proof fn failed_union_can_be_tried_again(m: UnionModel, message: Seq<char>)
    ensures
        m.create_failed(message).draft.inputs == m.draft.inputs,
        m.create_failed(message).draft.error == Some(message),
        !m.create_failed(message).submitted,
        m.create_failed(message).outbox == m.outbox,
        m.create_failed(message).shared_key == m.shared_key,
{
}

/// A row ends with the name of its view and is ticked where that is chosen.
pub proof fn row_shows_its_view(m: UnionModel, candidate: UnionCandidate)
    ensures
        candidate.name@.is_suffix_of(m.row_text(candidate)),
        (m.row_text(candidate)[1] == 'x') == m.draft.inputs.contains(candidate.id@),
{
    let text = m.row_text(candidate);
    reveal_strlit("[x]");
    reveal_strlit("[ ]");
    assert(text.skip(text.len() - candidate.name@.len()) =~= candidate.name@);
}

/// What is wrong with the draft is said first; else whether enough views are
/// chosen.
pub proof fn message_says_what_is_wrong(m: UnionModel, list: Seq<Seq<char>>)
    ensures
        m.draft.error is Some ==> m.message(list) == (MessageState::Error, m.draft.error->0),
        m.draft.error is None ==> m.message(list).0 == if chosen_count(
            list,
            m.draft.inputs,
            list.len() as int,
        ) >= 2 {
            MessageState::Ready
        } else {
            MessageState::Disabled
        },
{
}

/// As many views are counted as are chosen.
pub proof fn chosen_views_are_counted(list: Seq<Seq<char>>, inputs: Seq<Seq<char>>, n: int)
    requires
        0 <= n <= list.len(),
    ensures
        chosen_count(list, inputs, n) == list.take(n).filter(
            |id: Seq<char>| inputs.contains(id),
        ).len(),
    decreases n,
{
    reveal(Seq::filter);
    if n > 0 {
        chosen_views_are_counted(list, inputs, n - 1);
        assert(list.take(n).drop_last() =~= list.take(n - 1));
    }
}

/// A click falls on the views first, then on the buttons.
pub proof fn click_falls_on_the_views_first(m: UnionModel, column: int, row: int)
    ensures
        ({
            let view = region_at(m.geometry.inputs@, column, row);
            let button = region_at(m.geometry.buttons@, column, row);
            &&& view is Some ==> m.at(column, row) == Some(UnionHit::Input(view->0))
            &&& view is None && button is Some ==> m.at(column, row) == Some(
                UnionHit::Button(button->0),
            )
        }),
{
}

/// The buttons are Create and Cancel, in this order, and each has the focus under
/// its own place.
pub proof fn buttons_stand_in_their_order(m: UnionModel)
    ensures
        union_labels()[0]@ == "&Create union"@,
        union_labels()[1]@ == "Cancel"@,
        m.focus == UnionFocus::Create ==> m.focused_button() == Some(0usize),
        m.focus == UnionFocus::Cancel ==> m.focused_button() == Some(1usize),
        m.focus == UnionFocus::Inputs ==> m.focused_button() is None,
{
}

/// A request is read as it is written: its views in their order, and its key.
pub proof fn request_is_read_as_written(
    inputs: Vec<String>,
    key: Option<SharedKeyUnionOrigin>,
    candidates: Seq<UnionCandidate>,
    i: int,
)
    ensures
        ({
            let asked = asks(seq![UnionDialogRequest::Create { inputs, shared_key: key }])[0];
            &&& asked.inputs.len() == inputs@.len()
            &&& 0 <= i < inputs@.len() ==> asked.inputs[i] == inputs@[i]@
            &&& asked.shared_key == key
        }),
        0 <= i < candidates.len() ==> ids(candidates)[i] == candidates[i].id@,
{
}

/// Views that are chosen are those that the union is asked for, the first first.
pub proof fn chosen_views_are_asked_for(
    m: UnionModel,
    space: KeyEvent,
    enter: KeyEvent,
    list: Seq<Seq<char>>,
)
    requires
        goes_down(space) && goes_down(enter),
        space.code == KeyCode::Char(' '),
        enter.code == KeyCode::Enter,
        m.focus != UnionFocus::Cancel,
        !m.submitted,
        0 <= m.highlighted < list.len() <= usize::MAX,
        m.draft.inputs.len() == 1,
        m.draft.inputs[0] != list[m.highlighted],
        m.draft.inputs[0].len() > 0,
        can_be_named(list[m.highlighted]),
    ensures
        m.after_key(space, list).0.after_key(enter, list).0.outbox.last().inputs == seq![
            m.draft.inputs[0],
            list[m.highlighted],
        ],
{
    let id = list[m.highlighted];
    let first = m.draft.inputs[0];
    assert(!m.draft.inputs.contains(id));
    space_chooses_the_highlighted_view(m, space, list);
    let chosen = m.after_key(space, list).0;
    assert(chosen.draft.inputs =~= seq![first, id]);
    reveal_strlit("");
    assert(!chosen.draft.inputs.contains(""@)) by {
        assert(first != ""@ && id != ""@);
    }
    assert(chosen.draft.inputs.no_duplicates());
    create_asks_for_the_chosen_views(chosen, enter, list);
}

/// Each row that shows is drawn with the text of the view that a click on it
/// chooses.
pub proof fn row_draws_its_view(m: UnionModel, f: UnionFrame<'_>, n: int, k: int)
    requires
        0 <= k < n,
    ensures
        m.rows_part(f, n).len() == n,
        is_text(
            m.rows_part(f, n)[k],
            m.shown_rows(f)[k].0,
            m.row_text(f.candidates@[m.shown_rows(f)[k].1 as int]),
        ),
    decreases n,
{
    if n - 1 > 0 {
        row_draws_its_view(m, f, n - 1, if k < n - 1 {
            k
        } else {
            0
        });
    } else {
        assert(m.rows_part(f, 0).len() == 0);
    }
}

} // verus!
