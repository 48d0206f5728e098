//! What holds of the View layer as a whole.

use super::{
    ask_of, body_control, exchanged, first_draft, mode_place, view_modes, VIEW_MAX_SOURCES,
    ViewContext, ViewDialogControl, ViewDialogMode, ViewGeometry, ViewHit, ViewModel,
    ViewMutationRequest, ViewRead,
};
use crate::component::{
    place_from, ring_goes_round, ring_step, CommandId, EditCommand, Event, Outcome, Step, ViewEvent,
};
use crate::text::{core_is_left, is_core, trimmed};
use crate::geometry::{greatest, least};
use crate::input::{KeyCode, KeyEvent, KeyEventKind, MouseEventKind};
use vstd::prelude::*;

verus! {

proof fn place_holds(list: Seq<Seq<char>>, id: Seq<char>, from: int)
    requires
        from >= 0,
    ensures
        place_from(list, id, from) matches Some(place) ==> from <= place < list.len()
            && list[place] == id,
        place_from(list, id, from) is None ==> forall|i: int|
            from <= i < list.len() ==> #[trigger] list[i] != id,
    decreases list.len() - from,
{
    if from < list.len() && list[from] != id {
        place_holds(list, id, from + 1);
    }
}

/// The source that owns the view is never taken out of it.
pub proof fn owner_stays(m: ViewModel, read: ViewRead)
    requires
        read.view is Some,
        0 <= m.selected < read.sources.len(),
        read.sources[m.selected] == read.view->0.source_id,
    ensures
        m.source_toggled(read).source_ids == m.source_ids,
{
}

/// A view never has more sources than it may, nor one of them twice.
pub proof fn membership_is_bounded(m: ViewModel, read: ViewRead)
    requires
        m.selected >= 0,
        m.source_ids.len() <= VIEW_MAX_SOURCES,
        m.source_ids.no_duplicates(),
    ensures
        m.source_toggled(read).source_ids.len() <= VIEW_MAX_SOURCES,
        m.source_toggled(read).source_ids.no_duplicates(),
{
    if m.selected < read.sources.len() {
        place_holds(m.source_ids, read.sources[m.selected], 0);
    }
}

/// Choosing a source and taking the choice back leaves the sources and their
/// order as they were.
pub proof fn toggling_twice_is_nothing(m: ViewModel, read: ViewRead)
    requires
        m.mode == ViewDialogMode::Sources,
        0 <= m.selected < read.sources.len(),
        read.view is Some ==> read.view->0.source_id != read.sources[m.selected],
        !m.source_ids.contains(read.sources[m.selected]),
        m.source_ids.len() < VIEW_MAX_SOURCES,
    ensures
        m.source_toggled(read).source_ids == m.source_ids.push(read.sources[m.selected]),
        m.source_toggled(read).source_toggled(read).source_ids == m.source_ids,
{
    let id = read.sources[m.selected];
    place_holds(m.source_ids, id, 0);
    let more = m.source_ids.push(id);
    place_holds(more, id, 0);
    assert(more.last() == id);
    assert(place_from(more, id, 0) == Some(m.source_ids.len() as int)) by {
        if place_from(more, id, 0) is None {
            assert(more[more.len() - 1] != id);
        } else {
            let place = place_from(more, id, 0)->0;
            if place < m.source_ids.len() {
                assert(m.source_ids[place] == id);
                assert(m.source_ids.contains(id));
            }
        }
    }
    assert(more.remove(m.source_ids.len() as int) =~= m.source_ids);
}

/// Moving a source in the order changes nothing but the order.
pub proof fn reordering_keeps_the_sources(m: ViewModel, delta: int, read: ViewRead)
    requires
        m.selected >= 0,
    ensures
        m.source_reordered(delta, read).source_ids.to_multiset() == m.source_ids.to_multiset(),
        m.source_reordered(delta, read).source_ids.len() == m.source_ids.len(),
{
    if m.mode == ViewDialogMode::Sources && m.selected < read.sources.len() {
        let id = read.sources[m.selected];
        place_holds(m.source_ids, id, 0);
        if let Some(place) = place_from(m.source_ids, id, 0) {
            let list = m.source_ids;
            let target = least(
                greatest(place + delta, 0),
                list.len() - 1,
            );
            exchange_keeps_members(list, place, target);
        }
    }
}

proof fn exchange_keeps_members(list: Seq<Seq<char>>, i: int, j: int)
    requires
        0 <= i < list.len(),
        0 <= j < list.len(),
    ensures
        exchanged(list, i, j).to_multiset() == list.to_multiset(),
{
    broadcast use vstd::seq_lib::group_to_multiset_ensures;

    let once = list.update(i, list[j]);
    assert(once.to_multiset() =~= list.to_multiset().insert(list[j]).remove(list[i]));
    assert(once.update(j, list[i]).to_multiset() =~= once.to_multiset().insert(list[i]).remove(
        once[j],
    ));
    assert(exchanged(list, i, j).to_multiset() =~= list.to_multiset());
}

/// A change leaves only under a name that is not blank, and the draft stays
/// until the change was made.
pub proof fn submitting_keeps_the_draft(m: ViewModel, read: ViewRead)
    ensures
        m.submitted(read).draft == m.draft,
        m.submitted(read).source_ids == m.source_ids,
        m.submitted(read).mode == m.mode,
        trimmed(m.draft).len() == 0 ==> m.submitted(read).queue == m.queue,
        m.queue.items.len() <= m.queue.cap ==> m.submitted(read).queue.items.len() <= m.queue.cap,
{
}

/// A change that was made closes the layer.
pub proof fn change_closes_the_layer(m: ViewModel, read: ViewRead)
    ensures
        m.after_event(Event::<ViewHit>::View(ViewEvent::SourcesChanged), read) == (
            ViewModel { open: false, ..m },
            Step::Done(Outcome::Close),
        ),
{
}

/// However a mode is chosen, the keys go to its body and the name starts from
/// the view's.
pub proof fn chosen_mode_has_the_keys(m: ViewModel, mode: ViewDialogMode, read: ViewRead)
    requires
        read.view is Some,
    ensures
        m.seeded(mode, read).control == body_control(mode),
        m.seeded(mode, read).draft == first_draft(mode, read.view->0.name),
        m.seeded(mode, read).error is None,
        m.seeded(mode, read).source_ids == m.source_ids,
{
}

/// Moving along the header keeps the keys there, and a step back undoes a step.
pub proof fn header_keeps_the_keys(m: ViewModel, read: ViewRead)
    requires
        read.view is Some,
    ensures
        m.tab_moved(1, read).control == ViewDialogControl::Tabs,
        m.tab_moved(1, read).tab_moved(-1, read).mode == m.mode,
        m.tab_moved(-1, read).tab_moved(1, read).mode == m.mode,
{
    assert(view_modes()[mode_place(m.mode)] == m.mode);
    let next = view_modes()[ring_step(mode_place(m.mode), 4, 1)];
    let back = view_modes()[ring_step(mode_place(m.mode), 4, -1)];
    assert(mode_place(next) == ring_step(mode_place(m.mode), 4, 1));
    assert(mode_place(back) == ring_step(mode_place(m.mode), 4, -1));
}

/// A step of the focus and one back end at the same control.
pub proof fn focus_steps_cancel(m: ViewModel)
    requires
        m.controls().contains(m.control),
    ensures
        m.focus_moved(1).focus_moved(-1) == m,
        m.focus_moved(-1).focus_moved(1) == m,
{
    reveal_with_fuel(place_from, 4);
    let list = m.controls();
    assert(list[0] == ViewDialogControl::Tabs);
    assert(list[1] == body_control(m.mode));
    assert(list[2] == ViewDialogControl::Apply);
}

/// A key goes down, first or by repetition, without Control.
pub open spec fn goes_down(key: KeyEvent) -> bool {
    &&& key.kind == KeyEventKind::Press || key.kind == KeyEventKind::Repeat
    &&& !key.modifiers.control
}

/// Enter asks for the change that the mode is for, of the view that is shown, with
/// the sources that are chosen and the name that was typed without the white space
/// round it. Nothing else of the layer changes.
pub proof fn enter_asks_for_the_change(
    m: ViewModel,
    key: KeyEvent,
    read: ViewRead,
    lead: Seq<char>,
    core: Seq<char>,
    tail: Seq<char>,
)
    requires
        goes_down(key),
        key.code == KeyCode::Enter,
        m.control != ViewDialogControl::Tabs,
        read.view is Some,
        is_core(m.draft, lead, core, tail),
        m.queue.items.len() < m.queue.cap,
    ensures
        ({
            let view = read.view->0;
            let (after, step) = m.after_key(key, read);
            let asked = after.queue.items.last();
            &&& step == Step::Done(Outcome::Consumed)
            &&& core.len() > 0 ==> {
                &&& after.queue.items.len() == m.queue.items.len() + 1
                &&& after.queue.items.drop_last() == m.queue.items
                &&& asked.mode == m.mode
                &&& asked.name == core
                &&& asked.view_id == view.id
                &&& asked.source_id == view.source_id
                &&& asked.source_ids == m.source_ids
            }
            &&& core.len() == 0 ==> after.queue == m.queue && after.error is Some
            &&& after.draft == m.draft
            &&& after.mode == m.mode
            &&& after.source_ids == m.source_ids
            &&& after.open == m.open
            &&& m.pressed(0, read).0 == after
        }),
{
    core_is_left(m.draft, lead, core, tail);
    let after = m.after_key(key, read).0;
    if core.len() > 0 {
        assert(after.queue.items.drop_last() =~= m.queue.items);
    }
}

/// Without a view, or with a full queue, nothing is asked for.
pub proof fn nothing_is_asked_without_a_view(m: ViewModel, read: ViewRead)
    ensures
        read.view is None ==> m.submitted(read) == m,
        m.queue.items.len() >= m.queue.cap ==> m.submitted(read).queue == m.queue,
{
}

/// The name that each mode starts from: a blank view's own, that of the copy, or
/// the view's.
pub proof fn mode_starts_from_its_name(m: ViewModel, mode: ViewDialogMode, read: ViewRead)
    requires
        read.view is Some,
    ensures
        ({
            let after = m.seeded(mode, read);
            let name = read.view->0.name;
            &&& after.mode == mode
            &&& mode == ViewDialogMode::Blank ==> after.draft == "New view"@
            &&& mode == ViewDialogMode::Clone ==> after.draft == "Copy of "@ + name
            &&& mode == ViewDialogMode::Rename || mode == ViewDialogMode::Sources ==> after.draft
                == name
            &&& after.cursor == after.draft.len()
            &&& after.control == if mode == ViewDialogMode::Sources {
                ViewDialogControl::Sources
            } else {
                ViewDialogControl::Input
            }
            &&& after.source_ids == m.source_ids
            &&& after.queue == m.queue
        }),
{
}

/// A mode is chosen by its tab, its command or its button, and the tabs stand in
/// their order.
pub proof fn mode_is_the_chosen_one(
    m: ViewModel,
    mode: ViewDialogMode,
    read: ViewRead,
    key: KeyEvent,
)
    requires
        read.view is Some,
        goes_down(key),
    ensures
        m.after_mouse(MouseEventKind::LeftDown, Some(ViewHit::Tab(mode)), read).0.mode == mode,
        m.after_event(Event::Command(CommandId::ViewBlank), read).0.mode == ViewDialogMode::Blank,
        m.after_event(Event::Command(CommandId::ViewClone), read).0.mode == ViewDialogMode::Clone,
        m.after_event(Event::Command(CommandId::ViewRename), read).0.mode == ViewDialogMode::Rename,
        m.after_event(Event::Command(CommandId::ViewSources), read).0.mode
            == ViewDialogMode::Sources,
        m.pressed(1, read).0.mode == ViewDialogMode::Blank,
        m.pressed(2, read).0.mode == ViewDialogMode::Clone,
        m.pressed(3, read).0.mode == ViewDialogMode::Rename,
        m.pressed(4, read).0.mode == ViewDialogMode::Sources,
        key.modifiers.alt && key.code == KeyCode::Char('m') ==> m.after_key(key, read).0.mode
            == ViewDialogMode::Sources,
        key.modifiers.alt && key.code == KeyCode::Char('d') ==> m.after_key(key, read).0.mode
            == ViewDialogMode::Clone,
        m.control == ViewDialogControl::Tabs && key.code == KeyCode::Right ==> m.after_key(
            key,
            read,
        ).0.mode == match m.mode {
            ViewDialogMode::Blank => ViewDialogMode::Clone,
            ViewDialogMode::Clone => ViewDialogMode::Rename,
            ViewDialogMode::Rename => ViewDialogMode::Sources,
            ViewDialogMode::Sources => ViewDialogMode::Blank,
        },
        m.control == ViewDialogControl::Tabs && key.code == KeyCode::Left ==> m.after_key(
            key,
            read,
        ).0.mode == match m.mode {
            ViewDialogMode::Blank => ViewDialogMode::Sources,
            ViewDialogMode::Clone => ViewDialogMode::Blank,
            ViewDialogMode::Rename => ViewDialogMode::Clone,
            ViewDialogMode::Sources => ViewDialogMode::Rename,
        },
{
    ring_goes_round(mode_place(m.mode), 4);
}

/// Space chooses the source that is selected, or takes the choice back: it comes
/// last among the chosen, or leaves them and the others stay in their order. The
/// source that owns the view stays, and no more than so many are chosen.
pub proof fn space_chooses_the_selected_source(
    m: ViewModel,
    key: KeyEvent,
    read: ViewRead,
    k: int,
)
    requires
        goes_down(key),
        key.code == KeyCode::Char(' '),
        !key.modifiers.alt,
        m.mode == ViewDialogMode::Sources,
        m.control != ViewDialogControl::Tabs,
        0 <= m.selected < read.sources.len(),
        read.view is Some,
    ensures
        ({
            let id = read.sources[m.selected];
            let owner = read.view->0.source_id == id;
            let after = m.after_key(key, read).0;
            &&& owner ==> after.source_ids == m.source_ids && after.error is Some
            &&& !owner && !m.source_ids.contains(id) && m.source_ids.len() < 32
                ==> after.source_ids == m.source_ids.push(id)
            &&& !owner && !m.source_ids.contains(id) && m.source_ids.len() >= 32
                ==> after.source_ids == m.source_ids
            &&& !owner && 0 <= k < m.source_ids.len() && m.source_ids[k] == id && (forall|i: int|
                0 <= i < k ==> #[trigger] m.source_ids[i] != id) ==> after.source_ids
                == m.source_ids.subrange(0, k) + m.source_ids.subrange(
                k + 1,
                m.source_ids.len() as int,
            )
            &&& after.selected == m.selected
            &&& after.queue == m.queue
            &&& after.draft == m.draft
        }),
{
    let id = read.sources[m.selected];
    place_holds(m.source_ids, id, 0);
    if 0 <= k < m.source_ids.len() && m.source_ids[k] == id && (forall|i: int|
        0 <= i < k ==> #[trigger] m.source_ids[i] != id) {
        let place = place_from(m.source_ids, id, 0)->0;
        first_place(m.source_ids, id, k, 0);
        assert(m.source_ids.remove(k) =~= m.source_ids.subrange(0, k) + m.source_ids.subrange(
            k + 1,
            m.source_ids.len() as int,
        ));
    }
}

proof fn first_place(list: Seq<Seq<char>>, id: Seq<char>, k: int, from: int)
    requires
        0 <= from <= k < list.len(),
        list[k] == id,
        forall|i: int| from <= i < k ==> #[trigger] list[i] != id,
    ensures
        place_from(list, id, from) == Some(k),
    decreases k - from,
{
    if from < k {
        first_place(list, id, k, from + 1);
    }
}

/// Up and Down select the source before and after and stop at the ends; with Alt
/// they move the selected source among the chosen ones, past its neighbour.
pub proof fn sources_are_walked_and_moved(m: ViewModel, key: KeyEvent, read: ViewRead, k: int)
    requires
        goes_down(key),
        m.mode == ViewDialogMode::Sources,
        0 <= m.selected < read.sources.len(),
        key.code == KeyCode::Down || key.code == KeyCode::Up,
    ensures
        ({
            let id = read.sources[m.selected];
            let after = m.after_key(key, read).0;
            let n = m.source_ids.len();
            let to = if key.code == KeyCode::Down {
                k + 1
            } else {
                k - 1
            };
            &&& !key.modifiers.alt && key.code == KeyCode::Down ==> after.selected == if m.selected
                + 1 < read.sources.len() {
                m.selected + 1
            } else {
                m.selected
            }
            &&& !key.modifiers.alt && key.code == KeyCode::Up ==> after.selected == if m.selected
                > 0 {
                m.selected - 1
            } else {
                0
            }
            &&& !key.modifiers.alt ==> after.source_ids == m.source_ids
            &&& key.modifiers.alt && 0 <= k < n && m.source_ids[k] == id && (forall|i: int|
                0 <= i < k ==> #[trigger] m.source_ids[i] != id) && 0 <= to < n ==> {
                &&& after.source_ids.len() == n
                &&& after.source_ids[to] == id
                &&& after.source_ids[k] == m.source_ids[to]
                &&& forall|i: int|
                    0 <= i < n && i != k && i != to ==> #[trigger] after.source_ids[i]
                        == m.source_ids[i]
            }
            &&& key.modifiers.alt && !m.source_ids.contains(id) ==> after.source_ids
                == m.source_ids
            &&& after.queue == m.queue
        }),
{
    let id = read.sources[m.selected];
    place_holds(m.source_ids, id, 0);
    if 0 <= k < m.source_ids.len() && m.source_ids[k] == id && (forall|i: int|
        0 <= i < k ==> #[trigger] m.source_ids[i] != id) {
        first_place(m.source_ids, id, k, 0);
    }
}

/// What is typed becomes the name.
pub proof fn typing_changes_the_name(
    m: ViewModel,
    value: Seq<char>,
    cursor: int,
    key: KeyEvent,
    read: ViewRead,
)
    requires
        goes_down(key),
        m.mode != ViewDialogMode::Sources,
        m.control == ViewDialogControl::Input,
    ensures
        ({
            let after = m.edited(value, cursor, true);
            let (same, step) = m.after_key(key, read);
            let plain = !key.modifiers.alt && !key.modifiers.other;
            &&& after.draft == value
            &&& after.cursor == cursor
            &&& after.error is None
            &&& after == (ViewModel { draft: value, cursor, error: None, ..m })
            &&& key.code matches KeyCode::Char(ch) ==> (plain ==> same == m && step == Step::Edit(
                EditCommand::Insert(ch),
            ))
            &&& key.code == KeyCode::Backspace ==> same == m && step == Step::Edit(
                EditCommand::Backspace,
            )
        }),
{
}

/// The layer opens over the view that is shown, with its sources chosen.
pub proof fn opening_shows_the_view(
    m: ViewModel,
    mode: ViewDialogMode,
    read: ViewRead,
    geometry: ViewGeometry,
)
    ensures
        read.view is None ==> m.opened(mode, read, geometry) == m,
        read.view is Some ==> {
            let after = m.opened(mode, read, geometry);
            &&& after.open
            &&& after.mode == mode
            &&& after.source_ids == read.view->0.source_ids
            &&& after.selected == 0
            &&& after.queue == m.queue
            &&& after.error is None
        },
{
}

/// A click selects the source of its row, and Apply submits.
pub proof fn click_does_what_is_under_it(m: ViewModel, row: usize, read: ViewRead)
    ensures
        m.after_mouse(MouseEventKind::LeftDown, Some(ViewHit::Source(row)), read).0 == (ViewModel {
            selected: row as int,
            ..m
        }),
        m.after_mouse(
            MouseEventKind::LeftDown,
            Some(ViewHit::Control(ViewDialogControl::Apply)),
            read,
        ).0 == (ViewModel { control: ViewDialogControl::Apply, ..m }).submitted(read),
{
    assert(m.controls()[2] == ViewDialogControl::Apply);
}

/// A request and what the layer reads are read as they are written, each part
/// under its own name.
pub proof fn request_is_read_as_written(
    request: ViewMutationRequest,
    ctx: ViewContext<'_>,
    i: int,
)
    ensures
        ask_of(request).mode == request.mode,
        ask_of(request).source_id == request.source_id@,
        ask_of(request).view_id == request.view_id@,
        ask_of(request).name == request.name@,
        ask_of(request).source_ids.len() == request.source_ids@.len(),
        0 <= i < request.source_ids@.len() ==> ask_of(request).source_ids[i]
            == request.source_ids@[i]@,
        ctx.read().sources.len() == ctx.sources@.len(),
        0 <= i < ctx.sources@.len() ==> ctx.read().sources[i] == ctx.sources@[i].id@,
        ctx.view is None <==> ctx.read().view is None,
        ctx.view is Some ==> ctx.read().view->0.id == ctx.view->0.id@ && ctx.read().view->0.name
            == ctx.view->0.name@ && ctx.read().view->0.source_id == ctx.view->0.source_id@,
{
}

/// What was typed is the name that is asked for: Enter after an edit asks for the
/// change under exactly the typed name, without the white space round it.
pub proof fn typed_name_is_asked_for(
    m: ViewModel,
    value: Seq<char>,
    cursor: int,
    key: KeyEvent,
    read: ViewRead,
    lead: Seq<char>,
    core: Seq<char>,
    tail: Seq<char>,
)
    requires
        goes_down(key),
        key.code == KeyCode::Enter,
        m.control == ViewDialogControl::Input,
        read.view is Some,
        is_core(value, lead, core, tail),
        core.len() > 0,
        m.queue.items.len() < m.queue.cap,
    ensures
        ({
            let sent = m.edited(value, cursor, true).after_key(key, read).0.queue.items;
            &&& sent.len() == m.queue.items.len() + 1
            &&& sent.last().name == core
            &&& sent.last().mode == m.mode
        }),
{
    enter_asks_for_the_change(m.edited(value, cursor, true), key, read, lead, core, tail);
}

/// Sources that are chosen are those that the view is asked to have.
pub proof fn chosen_source_is_asked_for(
    m: ViewModel,
    space: KeyEvent,
    enter: KeyEvent,
    read: ViewRead,
    lead: Seq<char>,
    core: Seq<char>,
    tail: Seq<char>,
)
    requires
        goes_down(space) && goes_down(enter),
        space.code == KeyCode::Char(' ') && !space.modifiers.alt,
        enter.code == KeyCode::Enter,
        m.mode == ViewDialogMode::Sources,
        m.control == ViewDialogControl::Sources,
        0 <= m.selected < read.sources.len(),
        read.view is Some,
        read.view->0.source_id != read.sources[m.selected],
        !m.source_ids.contains(read.sources[m.selected]),
        m.source_ids.len() < 32,
        is_core(m.draft, lead, core, tail),
        core.len() > 0,
        m.queue.items.len() < m.queue.cap,
    ensures
        m.after_key(space, read).0.after_key(enter, read).0.queue.items.last().source_ids
            == m.source_ids.push(read.sources[m.selected]),
{
    space_chooses_the_selected_source(m, space, read, 0);
    enter_asks_for_the_change(m.after_key(space, read).0, enter, read, lead, core, tail);
}

} // verus!
