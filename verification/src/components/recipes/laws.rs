//! What holds of the Recipes layer as a whole.

use super::{
    ask_of, one_if, standing_controls, suggestion_for, without_recipe, ConfigModel, MAX_RECIPES,
    MAX_SUGGESTIONS, RECIPE_QUEUE_LIMIT, RecipeAsk, RecipeConfig, RecipeDialogControl,
    RecipeGeometry, RecipeHit, RecipeItem, RecipeRequest, RecipeRequestMeta, RecipeStep,
    RecipeSuggestion, RecipesContext, RecipesModel, RecipesRead,
};
use crate::component::{
    distinct_item_is_found, place_from, place_or_start, ring_goes_round, ring_step,
    ring_steps_cancel, Action, CommandId, EditCommand, Open, Outcome, RecipeDialogMode,
};
use crate::input::{KeyCode, KeyEvent, KeyEventKind, Modifiers, MouseEventKind};
use crate::text::{all_white, byte_count, core_is_left, is_control_char, is_core};
use vstd::prelude::*;

verus! {

/// The dialog takes the answer to the list that it asked for.
pub proof fn awaited_answer_is_taken(m: RecipesModel)
    requires
        m.open,
        0 <= m.id <= u64::MAX,
        0 <= m.revision <= u64::MAX,
    ensures
        m.listing().fences(m.meta()),
{
}

/// An answer that the dialog does not wait for changes nothing.
pub proof fn stale_answer_changes_nothing(
    m: RecipesModel,
    meta: RecipeRequestMeta,
    items: Seq<RecipeItem>,
    suggestions: Seq<RecipeSuggestion>,
    error: Option<Seq<char>>,
    message: Seq<char>,
)
    requires
        !m.fences(meta),
    ensures
        m.listed(meta, items, suggestions, error) == (m, false),
        m.settled(meta, message) == (m, false),
        m.save_done(meta, message) == (m, false),
{
}

/// Whatever the user does to the list or the name makes the answers to earlier
/// requests stale.
pub proof fn interaction_makes_answers_stale(m: RecipesModel, meta: RecipeRequestMeta)
    requires
        m.fences(meta),
        m.revision < u64::MAX,
    ensures
        !m.touched().fences(meta),
        !m.menu_open ==> forall|delta: int, overflow: Seq<usize>|
            !(#[trigger] m.moved(delta, overflow)).fences(meta),
        m.edits() ==> forall|value: Seq<char>, cursor: int|
            !(#[trigger] m.edited(value, cursor, true)).fences(meta),
        forall|index: int|
            0 <= index < m.items.len() ==> !(#[trigger] m.row_selected(index)).fences(meta),
{
}

/// A newer request makes the answer to the older one stale.
pub proof fn newer_request_wins(m: RecipesModel)
    requires
        0 <= m.next_id < u64::MAX,
    ensures
        !m.listing().listing().fences(m.meta()),
{
}

/// A new dialog takes no answer meant for the one before it.
pub proof fn new_dialog_is_fenced(m: RecipesModel, meta: RecipeRequestMeta)
    requires
        m.fences(meta),
        m.id < m.next_id,
    ensures
        !m.browsed(m.geometry).fences(meta),
{
}

/// However many recipes come, so many are shown, and the selection is one of
/// them.
pub proof fn lists_are_bounded(
    m: RecipesModel,
    meta: RecipeRequestMeta,
    items: Seq<RecipeItem>,
    suggestions: Seq<RecipeSuggestion>,
    error: Option<Seq<char>>,
)
    requires
        m.fences(meta),
        m.selected >= 0,
    ensures
        ({
            let after = m.listed(meta, items, suggestions, error).0;
            &&& after.items.len() <= MAX_RECIPES
            &&& after.suggestions.len() <= MAX_SUGGESTIONS
            &&& after.items.len() > 0 ==> after.selected_item() is Some
            &&& after.pending is None && !after.loading
        }),
{
}

/// A failed request leaves the dialog as it was, but for what it says.
pub proof fn failure_keeps_the_draft(m: RecipesModel, meta: RecipeRequestMeta, message: Seq<char>)
    requires
        m.fences(meta),
    ensures
        m.settled(meta, message).0 == (RecipesModel {
            loading: false,
            pending: None,
            status: message,
            ..m
        }),
        m.apply_answered(false).0 == m.said("query queue is full; recipe draft was preserved"@),
{
}

proof fn none_left(suggestions: Seq<RecipeSuggestion>, id: Seq<char>)
    ensures
        forall|i: int|
            0 <= i < without_recipe(suggestions, id).len() ==> (#[trigger] without_recipe(
                suggestions,
                id,
            )[i]).recipe_id@ != id,
    decreases suggestions.len(),
{
    if suggestions.len() > 0 {
        none_left(suggestions.drop_last(), id);
        let rest = without_recipe(suggestions.drop_last(), id);
        let list = without_recipe(suggestions, id);
        assert forall|i: int| 0 <= i < list.len() implies (#[trigger] list[i]).recipe_id@ != id by {
            if i < rest.len() {
                assert(list[i] == rest[i]);
            }
        }
    }
}

proof fn none_found(suggestions: Seq<RecipeSuggestion>, id: Seq<char>, from: int)
    requires
        0 <= from,
        forall|i: int| 0 <= i < suggestions.len() ==> (#[trigger] suggestions[i]).recipe_id@ != id,
    ensures
        suggestion_for(suggestions, id, from) is None,
    decreases suggestions.len() - from,
{
    if from < suggestions.len() {
        none_found(suggestions, id, from + 1);
    }
}

/// Turning a suggestion down removes it and keeps every recipe; doing it again
/// changes nothing.
pub proof fn rejection_keeps_the_recipe(m: RecipesModel, source_id: Seq<char>)
    ensures
        m.suggestion_rejected(Some(source_id)).items == m.items,
        m.suggestion_rejected(Some(source_id)).suggestion() is None,
        m.suggestion_rejected(Some(source_id)).suggestion_rejected(Some(source_id))
            == m.suggestion_rejected(Some(source_id)),
{
    if m.suggestion() is Some {
        let id = m.items[m.selected].id@;
        none_left(m.suggestions, id);
        none_found(without_recipe(m.suggestions, id), id, 0);
    }
}

/// The revisions are a layer of their own: it is entered and left by replacing
/// the layer, never by changing the mode in place.
pub proof fn history_is_its_own_layer(m: RecipesModel, mode: RecipeDialogMode)
    requires
        m.mode == RecipeDialogMode::History || mode == RecipeDialogMode::History,
    ensures
        m.switched(mode).0.mode == m.mode,
        m.switched(mode).0 == m || m.switched(mode).1 == RecipeStep::Done(Outcome::Consumed),
        !m.queue_full() && m.has_loaded_selection() ==> (m.switched(
            mode,
        ).1 matches RecipeStep::Done(Outcome::Replace(_))),
{
}

/// Replacing the layer keeps the dialog: its identity, its name field and what
/// it waits to send stay.
pub proof fn replacing_keeps_the_dialog(m: RecipesModel, id: Seq<char>, name: Seq<char>)
    ensures
        m.history_shown(id, name).id == m.id,
        m.history_shown(id, name).name == m.name,
        m.history_shown(id, name).recipe_id == id,
        m.history_shown(id, name).recipe_name == name,
        m.mode_selected(RecipeDialogMode::Save).items == m.items,
        m.mode_selected(RecipeDialogMode::Save).selected == m.selected,
        m.mode_selected(RecipeDialogMode::Save).id == m.id,
        m.mode_selected(RecipeDialogMode::Save).name == m.name,
{
}

/// Submitting never fills the queue beyond its limit.
pub proof fn submitting_respects_the_limit(
    m: RecipesModel,
    view_id: Option<Seq<char>>,
    config: ConfigModel,
)
    requires
        m.queue.items.len() <= RECIPE_QUEUE_LIMIT,
    ensures
        m.submitted(view_id, config).queue.items.len() <= RECIPE_QUEUE_LIMIT,
{
}

/// A recipe that does not fit is not applied: its reason is said.
pub proof fn incompatible_recipe_is_refused(m: RecipesModel, read: RecipesRead)
    requires
        m.mode.lists(),
        m.selected_item() is Some,
        m.selected_item()->0.incompatibility is Some,
    ensures
        m.after_submit(read) == (
            m.said(m.selected_item()->0.incompatibility->0@),
            RecipeStep::Done(Outcome::Consumed),
        ),
{
}

/// Listing modes take no text.
pub proof fn lists_take_no_text(m: RecipesModel, value: Seq<char>, cursor: int, changed: bool)
    requires
        m.mode.lists(),
    ensures
        m.edited(value, cursor, changed) == m,
{
}

/// An open menu is closed before the dialog is.
pub proof fn menu_closes_first(m: RecipesModel)
    requires
        m.menu_open,
        m.open,
    ensures
        m.dismissed().0.open,
        !m.dismissed().0.menu_open,
        !m.dismissed().0.dismissed().0.open,
{
}

/// Every verb the frame has no room for is in the menu, and so are the standing
/// ones.
pub proof fn hidden_verbs_are_in_the_menu(m: RecipesModel, overflow: Seq<usize>, i: int)
    requires
        0 <= i < overflow.len(),
        overflow[i] < m.actions().len(),
        m.actions()[overflow[i] as int] != RecipeDialogControl::More,
    ensures
        m.menu(overflow).contains(m.actions()[overflow[i] as int]),
        m.menu(overflow).skip(m.menu(overflow).len() - 3) == standing_controls(),
{
    let hidden = super::hidden_controls(m.actions(), overflow, overflow.len() as int);
    hidden_holds(m.actions(), overflow, overflow.len() as int, i);
    let place = choose|k: int|
        0 <= k < hidden.len() && hidden[k] == m.actions()[overflow[i] as int];
    assert(m.menu(overflow)[place] == hidden[place]);
    assert(m.menu(overflow).skip(m.menu(overflow).len() - 3) =~= standing_controls());
}

proof fn hidden_holds(
    actions: Seq<RecipeDialogControl>,
    overflow: Seq<usize>,
    n: int,
    i: int,
)
    requires
        0 <= i < n <= overflow.len(),
        overflow[i] < actions.len(),
        actions[overflow[i] as int] != RecipeDialogControl::More,
    ensures
        super::hidden_controls(actions, overflow, n).contains(actions[overflow[i] as int]),
    decreases n,
{
    let list = super::hidden_controls(actions, overflow, n);
    let before = super::hidden_controls(actions, overflow, n - 1);
    if i == n - 1 {
        assert(list.last() == actions[overflow[i] as int]);
    } else {
        hidden_holds(actions, overflow, n - 1, i);
        let k = choose|k: int|
            0 <= k < before.len() && before[k] == actions[overflow[i] as int];
        assert(list[k] == before[k]);
    }
}

proof fn place_is_found<T>(list: Seq<T>, item: T, from: int)
    requires
        0 <= from,
    ensures
        place_from(list, item, from) matches Some(place) ==> from <= place < list.len()
            && list[place] == item,
        (exists|i: int| from <= i < list.len() && list[i] == item) ==> place_from(
            list,
            item,
            from,
        ) is Some,
    decreases list.len() - from,
{
    if from < list.len() {
        place_is_found(list, item, from + 1);
    }
}

/// A step of the focus and one back end at the same control.
pub proof fn focus_steps_cancel(m: RecipesModel)
    requires
        m.controls().contains(m.control),
        m.controls().no_duplicates(),
    ensures
        m.focus_moved(1).focus_moved(-1) == m,
        m.focus_moved(-1).focus_moved(1) == m,
{
    let list = m.controls();
    let place = place_or_start(list, m.control);
    place_is_found(list, m.control, 0);
    ring_steps_cancel(place, list.len() as int, 1);
    ring_steps_cancel(place, list.len() as int, -1);
    let ahead = ring_step(place, list.len() as int, 1);
    let behind = ring_step(place, list.len() as int, -1);
    place_is_found(list, list[ahead], 0);
    place_is_found(list, list[behind], 0);
    assert(m.focus_moved(1).controls() == list);
    assert(m.focus_moved(-1).controls() == list);
}

/// No control has the focus twice in a round.
pub proof fn focus_order_is_distinct(m: RecipesModel)
    ensures
        m.controls().no_duplicates(),
{
    let suggested = m.suggestion() is Some;
    let list = m.controls();
    if m.mode.lists() {
        if m.mode == RecipeDialogMode::Browse {
            if suggested {
                assert(list =~= seq![
                    RecipeDialogControl::List,
                    RecipeDialogControl::Input,
                    RecipeDialogControl::Apply,
                    RecipeDialogControl::Adapt,
                    RecipeDialogControl::Reject,
                    RecipeDialogControl::Save,
                    RecipeDialogControl::Update,
                    RecipeDialogControl::History,
                    RecipeDialogControl::More,
                ]);
            } else {
                assert(list =~= seq![
                    RecipeDialogControl::List,
                    RecipeDialogControl::Input,
                    RecipeDialogControl::Apply,
                    RecipeDialogControl::Save,
                    RecipeDialogControl::Update,
                    RecipeDialogControl::History,
                    RecipeDialogControl::More,
                ]);
            }
        } else if suggested {
            assert(list =~= seq![
                RecipeDialogControl::List,
                RecipeDialogControl::Input,
                RecipeDialogControl::Apply,
                RecipeDialogControl::Adapt,
                RecipeDialogControl::Reject,
            ]);
        } else {
            assert(list =~= seq![
                RecipeDialogControl::List,
                RecipeDialogControl::Input,
                RecipeDialogControl::Apply,
            ]);
        }
    } else {
        assert(list =~= one_if(m.mode == RecipeDialogMode::Export, RecipeDialogControl::List)
            + seq![
            RecipeDialogControl::Input,
            RecipeDialogControl::Apply,
            RecipeDialogControl::Cancel,
        ]);
    }
}

/// A dialog that can make one more request.
pub open spec fn can_ask(m: RecipesModel) -> bool {
    &&& m.queue.items.len() < 8 <= m.queue.cap
    &&& 0 <= m.next_id < u64::MAX
    &&& 0 <= m.id <= u64::MAX
    &&& 0 <= m.revision < u64::MAX
}

/// A request is told apart by a number of its own, and bears the dialog and the
/// state of it that it was made in.
pub open spec fn is_of(meta: RecipeRequestMeta, id: int, dialog: int, revision: int) -> bool {
    meta.request_id == id && meta.dialog_id == dialog && meta.dialog_revision == revision
}

/// One request was made, and the dialog waits for its answer.
pub open spec fn asked_once(before: RecipesModel, after: RecipesModel) -> bool {
    &&& after.queue.items.len() == before.queue.items.len() + 1
    &&& after.queue.items.drop_last() == before.queue.items
    &&& after.pending == Some(before.next_id as u64)
    &&& after.loading
    &&& after.next_id == before.next_id + 1
}

/// A key goes down, first or by repetition.
pub open spec fn goes_down(key: KeyEvent) -> bool {
    key.kind == KeyEventKind::Press || key.kind == KeyEventKind::Repeat
}

/// Enter on the name, the list or the first button asks for what the mode is for,
/// with exactly the name or path that was typed, without the white space round
/// it: to import the path, to export the selected revision to the path, to save
/// the applied settings of the view under the name, or to save them as the next
/// revision of the selected recipe.
pub proof fn submitting_asks_with_the_typed_name(
    m: RecipesModel,
    key: KeyEvent,
    read: RecipesRead,
    lead: Seq<char>,
    core: Seq<char>,
    tail: Seq<char>,
)
    requires
        can_ask(m),
        goes_down(key),
        key.code == KeyCode::Enter,
        !m.menu_open,
        m.control == RecipeDialogControl::Input || m.control == RecipeDialogControl::Apply
            || m.control == RecipeDialogControl::List,
        m.mode != RecipeDialogMode::Browse && m.mode != RecipeDialogMode::History,
        read.view_id is Some,
        is_core(m.name, lead, core, tail),
        core.len() > 0,
        m.mode == RecipeDialogMode::Export ==> 0 <= m.selected < m.items.len(),
    ensures
        ({
            let (after, step) = m.after_key(key, read);
            let item = m.items[m.selected];
            &&& step == RecipeStep::Done(Outcome::Consumed)
            &&& asked_once(m, after)
            &&& after.name == m.name
            &&& after.mode == m.mode
            &&& after.items == m.items
            &&& after.selected == m.selected
            &&& match after.queue.items.last() {
                RecipeAsk::Import { meta, path } => m.mode == RecipeDialogMode::Import && path
                    == core && is_of(meta, m.next_id, m.id, m.revision),
                RecipeAsk::Export { meta, path, recipe_id, revision } => m.mode
                    == RecipeDialogMode::Export && path == core && recipe_id == item.id@
                    && revision == item.revision@ && is_of(meta, m.next_id, m.id, m.revision),
                RecipeAsk::Save { update, meta, name, view_id, config } => {
                    &&& m.mode == RecipeDialogMode::Save || m.mode == RecipeDialogMode::Update
                    &&& name == core
                    &&& view_id == read.view_id->0
                    &&& config == read.applied
                    &&& is_of(meta, m.next_id, m.id, m.revision)
                    &&& m.mode == RecipeDialogMode::Save ==> update is None
                    &&& m.mode == RecipeDialogMode::Update && 0 <= m.selected < m.items.len()
                        ==> update == Some((item.id@, item.revision@))
                },
                _ => false,
            }
        }),
{
    core_is_left(m.name, lead, core, tail);
    let after = m.after_key(key, read).0;
    assert(after.queue.items.drop_last() =~= m.queue.items);
}

/// A name of white space alone, and a full queue, make no request, and neither
/// does a dialog without a view.
pub proof fn submitting_needs_a_name(m: RecipesModel, read: RecipesRead)
    requires
        m.mode != RecipeDialogMode::Browse && m.mode != RecipeDialogMode::History,
        all_white(m.name) || m.queue.items.len() >= 8 || read.view_id is None,
    ensures
        ({
            let (after, step) = m.after_submit(read);
            &&& step == RecipeStep::Done(Outcome::Consumed)
            &&& after.queue == m.queue
            &&& after.pending == m.pending
            &&& after.name == m.name
            &&& after.mode == m.mode
            &&& read.view_id is None ==> after == m
        }),
{
    if all_white(m.name) {
        assert(m.name =~= m.name + seq![] + seq![]);
        core_is_left(m.name, m.name, seq![], seq![]);
    }
}

/// A recipe is suggested for the source.
pub open spec fn is_suggested(m: RecipesModel, id: Seq<char>) -> bool {
    exists|i: int| 0 <= i < m.suggestions.len() && (#[trigger] m.suggestions[i]).recipe_id@ == id
}

proof fn suggestion_is_found(suggestions: Seq<RecipeSuggestion>, id: Seq<char>, from: int)
    requires
        from >= 0,
    ensures
        suggestion_for(suggestions, id, from) matches Some(k) ==> from <= k < suggestions.len()
            && suggestions[k].recipe_id@ == id && forall|i: int|
            from <= i < k ==> (#[trigger] suggestions[i]).recipe_id@ != id,
        suggestion_for(suggestions, id, from) is None ==> forall|i: int|
            from <= i < suggestions.len() ==> (#[trigger] suggestions[i]).recipe_id@ != id,
    decreases suggestions.len() - from,
{
    if from < suggestions.len() && suggestions[from].recipe_id@ != id {
        suggestion_is_found(suggestions, id, from + 1);
    }
}

/// Enter in a list applies the selected recipe where it fits and a view is shown.
/// Where it was suggested for the source, its acceptance is told with it: for
/// that source, that recipe and that revision.
pub proof fn selected_recipe_is_applied(m: RecipesModel, key: KeyEvent, read: RecipesRead)
    requires
        goes_down(key),
        key.code == KeyCode::Enter,
        !m.menu_open,
        m.control == RecipeDialogControl::Input || m.control == RecipeDialogControl::Apply
            || m.control == RecipeDialogControl::List,
        m.mode == RecipeDialogMode::Browse || m.mode == RecipeDialogMode::History,
        0 <= m.selected < m.items.len() <= usize::MAX,
        m.items[m.selected].incompatibility is None,
        read.view_id is Some,
    ensures
        ({
            let (after, step) = m.after_key(key, read);
            let item = m.items[m.selected];
            &&& after == m
            &&& step matches RecipeStep::Apply { item: place, accepted } && {
                &&& place == m.selected
                &&& accepted is Some <==> read.source is Some && is_suggested(m, item.id@)
                &&& accepted matches Some(outcome) ==> outcome.accepted && outcome.source_id
                    == read.source->0 && outcome.recipe_id == item.id && outcome.revision
                    == item.revision
            }
        }),
{
    suggestion_is_found(m.suggestions, m.items[m.selected].id@, 0);
}

/// A suggestion is for another recipe.
pub open spec fn is_for_another(id: Seq<char>) -> spec_fn(RecipeSuggestion) -> bool {
    |suggestion: RecipeSuggestion| suggestion.recipe_id@ != id
}

/// Turning down the suggestion for the selected recipe is told for its source,
/// recipe and revision, and takes exactly the suggestions of that recipe off the
/// list; where nothing is suggested nothing changes.
pub proof fn rejection_is_told(m: RecipesModel, source: Seq<char>)
    requires
        can_ask(m),
        0 <= m.selected < m.items.len(),
    ensures
        ({
            let item = m.items[m.selected];
            let after = m.suggestion_rejected(Some(source));
            &&& !is_suggested(m, item.id@) ==> after == m
            &&& is_suggested(m, item.id@) ==> {
                &&& after.queue.items == m.queue.items.push(
                    RecipeAsk::Outcome {
                        source_id: source,
                        recipe_id: item.id@,
                        revision: item.revision@,
                        accepted: false,
                    },
                )
                &&& after.suggestions == m.suggestions.filter(is_for_another(item.id@))
                &&& after.items == m.items
                &&& after.selected == m.selected
                &&& after.pending == m.pending
            }
            &&& m.suggestion_rejected(None) == m
        }),
{
    let id = m.items[m.selected].id@;
    suggestion_is_found(m.suggestions, id, 0);
    removal_is_a_filter(m.suggestions, id);
}

proof fn removal_is_a_filter(suggestions: Seq<RecipeSuggestion>, id: Seq<char>)
    ensures
        without_recipe(suggestions, id) == suggestions.filter(is_for_another(id)),
    decreases suggestions.len(),
{
    reveal(Seq::filter);
    if suggestions.len() > 0 {
        removal_is_a_filter(suggestions.drop_last(), id);
    }
}

/// The agent is handed the selected recipe with the first suggestion for it.
pub proof fn adapting_hands_over_the_suggestion(m: RecipesModel, view: Option<Seq<char>>)
    requires
        0 <= m.selected < m.items.len() <= usize::MAX,
        m.suggestions.len() <= usize::MAX,
    ensures
        ({
            let item = m.items[m.selected];
            let step = m.adapting(view);
            if view is Some && item.incompatibility is None && is_suggested(m, item.id@) {
                step matches RecipeStep::Done(
                    Outcome::Legacy(Action::AdaptRecipe { item: place, suggestion }),
                ) && place == m.selected && suggestion < m.suggestions.len()
                    && m.suggestions[suggestion as int].recipe_id@ == item.id@ && forall|i: int|
                    0 <= i < suggestion ==> (#[trigger] m.suggestions[i]).recipe_id@ != item.id@
            } else {
                step == RecipeStep::Done(Outcome::Consumed)
            }
        }),
{
    suggestion_is_found(m.suggestions, m.items[m.selected].id@, 0);
}

/// The mode that a letter with Alt turns to.
pub open spec fn letter_of(mode: RecipeDialogMode) -> char {
    match mode {
        RecipeDialogMode::Browse => 'b',
        RecipeDialogMode::Save => 's',
        RecipeDialogMode::Import => 'i',
        RecipeDialogMode::Export => 'e',
        RecipeDialogMode::Update => 'u',
        RecipeDialogMode::History => 'h',
    }
}

/// The command that turns to a mode.
pub open spec fn command_of(mode: RecipeDialogMode) -> CommandId {
    match mode {
        RecipeDialogMode::Browse => CommandId::RecipeBrowse,
        RecipeDialogMode::Save => CommandId::RecipeSave,
        RecipeDialogMode::Import => CommandId::RecipeImport,
        RecipeDialogMode::Export => CommandId::RecipeExport,
        RecipeDialogMode::Update => CommandId::RecipeUpdate,
        RecipeDialogMode::History => CommandId::RecipeHistory,
    }
}

/// Each mode is turned to by its letter with Alt and by its command, which do the
/// same. Updating starts from the name of the selected recipe, exporting from a
/// blank path, and any other mode keeps the name; the list is asked for where it
/// is shown, and no other request is made.
pub proof fn mode_is_turned_to(
    m: RecipesModel,
    mode: RecipeDialogMode,
    key: KeyEvent,
    read: RecipesRead,
)
    requires
        can_ask(m),
        goes_down(key),
        key.modifiers.alt && !key.modifiers.control,
        key.code == KeyCode::Char(letter_of(mode)),
        mode != RecipeDialogMode::History,
        m.mode != RecipeDialogMode::History,
        mode == RecipeDialogMode::Update ==> !m.loading && 0 <= m.selected < m.items.len(),
    ensures
        ({
            let (after, step) = m.after_key(key, read);
            &&& m.after_command(command_of(mode), read) == (after, step)
            &&& step == RecipeStep::Done(Outcome::Consumed)
            &&& after.mode == mode
            &&& after.revision == m.revision + 1
            &&& after.control == if mode == RecipeDialogMode::Browse {
                RecipeDialogControl::List
            } else {
                RecipeDialogControl::Input
            }
            &&& mode == RecipeDialogMode::Update ==> after.name == m.items[m.selected].name@
                && after.cursor == after.name.len()
            &&& mode == RecipeDialogMode::Export && m.mode != mode ==> after.name.len() == 0
                && after.cursor == 0
            &&& mode != RecipeDialogMode::Update && (mode != RecipeDialogMode::Export || m.mode
                == mode) ==> after.name == m.name && after.cursor == m.cursor
            &&& mode == RecipeDialogMode::Browse ==> asked_once(m, after) && (
            after.queue.items.last() matches RecipeAsk::List { meta } && is_of(
                meta,
                m.next_id,
                m.id,
                m.revision + 1,
            ))
            &&& mode != RecipeDialogMode::Browse ==> after.queue == m.queue && after.pending is None
                && !after.loading
            &&& after.items == m.items
            &&& after.selected == m.selected
        }),
{
    let after = m.after_key(key, read).0;
    if mode == RecipeDialogMode::Browse {
        assert(after.queue.items.drop_last() =~= m.queue.items);
    }
}

/// The history of the selected recipe replaces the layer, with the identity and
/// the name of that recipe; from there the other modes replace it in turn.
pub proof fn history_is_of_the_selected_recipe(
    m: RecipesModel,
    mode: RecipeDialogMode,
    key: KeyEvent,
    read: RecipesRead,
)
    requires
        can_ask(m),
        goes_down(key),
        key.modifiers.alt && !key.modifiers.control,
        key.code == KeyCode::Char(letter_of(mode)),
        !m.loading && 0 <= m.selected < m.items.len(),
        mode == RecipeDialogMode::History || m.mode == RecipeDialogMode::History,
    ensures
        ({
            let (after, step) = m.after_key(key, read);
            &&& after == m
            &&& m.after_command(command_of(mode), read) == (after, step)
            &&& mode == RecipeDialogMode::History ==> step == RecipeStep::Done(
                Outcome::Replace(
                    Open::RecipeHistory {
                        recipe_id: m.items[m.selected].id,
                        recipe_name: m.items[m.selected].name,
                    },
                ),
            )
            &&& mode != RecipeDialogMode::History ==> step == RecipeStep::Done(
                Outcome::Replace(Open::Recipes { mode }),
            )
        }),
{
}

/// Showing the history of a recipe empties the list and asks for the revisions of
/// exactly that recipe.
pub proof fn history_asks_for_its_recipe(m: RecipesModel, id: Seq<char>, name: Seq<char>)
    requires
        can_ask(m),
    ensures
        ({
            let after = m.history_shown(id, name);
            &&& asked_once(m, after)
            &&& after.queue.items.last() matches RecipeAsk::History { meta, recipe_id }
                && recipe_id == id && is_of(meta, m.next_id, m.id, m.revision + 1)
            &&& after.mode == RecipeDialogMode::History
            &&& after.open
            &&& after.items.len() == 0
            &&& after.suggestions.len() == 0
            &&& after.revision == m.revision + 1
        }),
{
    assert(m.history_shown(id, name).queue.items.drop_last() =~= m.queue.items);
}

/// A new dialog is blank, has an identity of its own and asks for the list.
pub proof fn browsing_starts_afresh(m: RecipesModel, geometry: RecipeGeometry)
    requires
        can_ask(m),
        m.next_id + 1 < u64::MAX,
    ensures
        ({
            let after = m.browsed(geometry);
            &&& after.open
            &&& after.id == m.next_id
            &&& after.mode == RecipeDialogMode::Browse
            &&& after.control == RecipeDialogControl::List
            &&& after.name.len() == 0
            &&& after.items.len() == 0
            &&& after.suggestions.len() == 0
            &&& !after.menu_open
            &&& after.loading
            &&& after.pending == Some((m.next_id + 1) as u64)
            &&& after.next_id == m.next_id + 2
            &&& after.queue.items.len() == m.queue.items.len() + 1
            &&& after.queue.items.drop_last() == m.queue.items
            &&& after.queue.items.last() matches RecipeAsk::List { meta } && is_of(
                meta,
                m.next_id + 1,
                m.next_id,
                0,
            )
        }),
{
    assert(m.browsed(geometry).queue.items.drop_last() =~= m.queue.items);
}

/// The recipes that are shown are those that came, from the first on and up to
/// a limit, and so are the suggestions. The selection stays where it was, or goes
/// to the last recipe; an error is said.
pub proof fn list_that_came_is_shown(
    m: RecipesModel,
    meta: RecipeRequestMeta,
    items: Seq<RecipeItem>,
    suggestions: Seq<RecipeSuggestion>,
    error: Option<Seq<char>>,
)
    requires
        m.open,
        m.id == meta.dialog_id,
        m.revision == meta.dialog_revision,
        m.pending == Some(meta.request_id),
        m.selected >= 0,
    ensures
        ({
            let (after, taken) = m.listed(meta, items, suggestions, error);
            &&& taken
            &&& items.len() <= 128 ==> after.items == items
            &&& items.len() > 128 ==> after.items.len() == 128
            &&& after.items.is_prefix_of(items)
            &&& suggestions.len() <= 16 ==> after.suggestions == suggestions
            &&& suggestions.len() > 16 ==> after.suggestions.len() == 16
            &&& after.suggestions.is_prefix_of(suggestions)
            &&& m.selected < after.items.len() ==> after.selected == m.selected
            &&& m.selected >= after.items.len() && after.items.len() > 0 ==> after.selected
                == after.items.len() - 1
            &&& error is Some ==> after.status == error->0
            &&& !after.loading
            &&& after.pending is None
            &&& after.name == m.name
            &&& after.mode == m.mode
            &&& after.queue == m.queue
        }),
{
}

/// A recipe that was saved turns back to the list, which is asked for again.
pub proof fn saving_asks_for_the_list(
    m: RecipesModel,
    meta: RecipeRequestMeta,
    message: Seq<char>,
)
    requires
        can_ask(m),
        m.open,
        m.id == meta.dialog_id,
        m.revision == meta.dialog_revision,
        m.pending == Some(meta.request_id),
    ensures
        ({
            let (after, taken) = m.save_done(meta, message);
            &&& taken
            &&& after.mode == RecipeDialogMode::Browse
            &&& after.status == message
            &&& asked_once(m, after)
            &&& after.queue.items.last() matches RecipeAsk::List { meta: next } && is_of(
                next,
                m.next_id,
                m.id,
                m.revision,
            )
        }),
{
    assert(m.save_done(meta, message).0.queue.items.drop_last() =~= m.queue.items);
}

/// Only an answer for this dialog, in this state and to the request it waits for
/// is taken.
pub proof fn answers_are_matched(m: RecipesModel, meta: RecipeRequestMeta, message: Seq<char>)
    ensures
        m.settled(meta, message).1 <==> m.open && m.id == meta.dialog_id && m.revision
            == meta.dialog_revision && m.pending == Some(meta.request_id),
        m.settled(meta, message).1 ==> m.settled(meta, message).0.status == message,
{
}

/// Up and Down, and the wheel, select the recipe before and after, round the ends
/// of the list.
pub proof fn selection_goes_round(m: RecipesModel, key: KeyEvent, read: RecipesRead)
    requires
        !m.menu_open,
        goes_down(key),
        0 <= m.selected < m.items.len(),
    ensures
        ({
            let n = m.items.len() as int;
            let next = if m.selected + 1 < n {
                m.selected + 1
            } else {
                0
            };
            let back = if m.selected > 0 {
                m.selected - 1
            } else {
                n - 1
            };
            &&& key.code == KeyCode::Down ==> m.after_key(key, read).0.selected == next
            &&& key.code == KeyCode::Up ==> m.after_key(key, read).0.selected == back
            &&& m.after_mouse(MouseEventKind::ScrollDown, None, read).0.selected == next
            &&& m.after_mouse(MouseEventKind::ScrollUp, None, read).0.selected == back
            &&& key.code == KeyCode::Down || key.code == KeyCode::Up ==> {
                let after = m.after_key(key, read).0;
                after.items == m.items && after.name == m.name && after.mode == m.mode
                    && after.queue == m.queue
            }
        }),
{
    ring_goes_round(m.selected, m.items.len() as int);
}

/// A click on a row selects that recipe, and no other row of the list changes.
pub proof fn click_selects_its_row(m: RecipesModel, row: usize, read: RecipesRead)
    requires
        row < m.items.len(),
    ensures
        ({
            let (after, step) = m.after_mouse(
                MouseEventKind::LeftDown,
                Some(RecipeHit::Row(row)),
                read,
            );
            &&& after.selected == row
            &&& after.items == m.items
            &&& after.queue == m.queue
            &&& after.name == m.name
            &&& step == RecipeStep::Done(Outcome::Consumed)
            &&& m.mode == RecipeDialogMode::Browse || m.mode == RecipeDialogMode::History || m.mode
                == RecipeDialogMode::Export ==> after.control == RecipeDialogControl::List
        }),
{
    if m.mode == RecipeDialogMode::Browse || m.mode == RecipeDialogMode::History || m.mode
        == RecipeDialogMode::Export {
        assert(m.controls()[0] == RecipeDialogControl::List);
    }
}

/// What is typed becomes the name, with the caret where the edit left it, and
/// makes earlier answers stale; keys of the name field are handed to its editor.
pub proof fn typing_changes_the_name(
    m: RecipesModel,
    value: Seq<char>,
    cursor: int,
    key: KeyEvent,
    read: RecipesRead,
)
    requires
        can_ask(m),
        m.mode != RecipeDialogMode::Browse && m.mode != RecipeDialogMode::History,
        m.control == RecipeDialogControl::Input,
        goes_down(key),
    ensures
        ({
            let plain = !key.modifiers.control && !key.modifiers.alt && !key.modifiers.other;
            let after = m.edited(value, cursor, true);
            let (same, step) = m.after_key(key, read);
            &&& after.name == value
            &&& after.cursor == cursor
            &&& after.revision == m.revision + 1
            &&& after == (RecipesModel {
                name: value,
                cursor,
                revision: after.revision,
                ..m
            })
            &&& m.edited(value, cursor, false).revision == m.revision
            &&& key.code matches KeyCode::Char(ch) ==> (plain && ch != 'x' ==> same == m && step
                == RecipeStep::Edit(EditCommand::Insert(ch)))
            &&& key.code == KeyCode::Backspace ==> same == m && step == RecipeStep::Edit(
                EditCommand::Backspace,
            )
        }),
{
}

/// The rows of the menu are the hidden verbs and then Import, Export and Refresh;
/// a row that is taken closes the menu and does what it says.
pub proof fn menu_rows_do_what_they_say(m: RecipesModel, read: RecipesRead)
    requires
        can_ask(m),
        m.menu_open,
        m.mode == RecipeDialogMode::Browse,
    ensures
        ({
            let n = m.menu(read.overflow).len();
            let import = m.menu_chosen(n - 3, read).0;
            let export = m.menu_chosen(n - 2, read).0;
            let refresh = m.menu_chosen(n - 1, read).0;
            &&& n >= 3
            &&& import.mode == RecipeDialogMode::Import && !import.menu_open
            &&& export.mode == RecipeDialogMode::Export && !export.menu_open
            &&& refresh.mode == RecipeDialogMode::Browse && !refresh.menu_open && asked_once(
                m,
                refresh,
            ) && refresh.queue.items.last() is List
            &&& m.after_key(
                KeyEvent {
                    code: KeyCode::Enter,
                    modifiers: Modifiers { shift: false, control: false, alt: false, other: false },
                    kind: KeyEventKind::Press,
                },
                read,
            ) == m.menu_chosen(m.menu_selected, read)
        }),
{
    let rows = m.menu(read.overflow);
    let n = rows.len();
    assert(rows[n - 3] == RecipeDialogControl::Mode(RecipeDialogMode::Import));
    assert(rows[n - 2] == RecipeDialogControl::Mode(RecipeDialogMode::Export));
    assert(rows[n - 1] == RecipeDialogControl::Refresh);
    assert(m.menu_chosen(n - 1, read).0.queue.items.drop_last() =~= m.queue.items);
}

/// A button does what it is named for: Save, Update and History turn to their
/// modes, Cancel to the list, More opens the menu, Reject turns the suggestion
/// down and Adapt hands it over.
pub proof fn buttons_do_what_they_say(m: RecipesModel, read: RecipesRead)
    ensures
        m.run(RecipeDialogControl::Save, read) == m.after_command(CommandId::RecipeSave, read),
        m.run(RecipeDialogControl::Update, read) == m.after_command(CommandId::RecipeUpdate, read),
        m.run(RecipeDialogControl::History, read) == m.after_command(
            CommandId::RecipeHistory,
            read,
        ),
        m.run(RecipeDialogControl::Cancel, read) == m.after_command(CommandId::RecipeBrowse, read),
        m.run(RecipeDialogControl::Apply, read) == m.after_command(CommandId::RecipeApply, read),
        m.run(RecipeDialogControl::Reject, read).0 == m.suggestion_rejected(read.source_id),
        m.run(RecipeDialogControl::Adapt, read) == (m, m.adapting(read.view_id)),
        m.run(RecipeDialogControl::More, read).0.menu_open == !m.menu_open,
        m.after_command(CommandId::RecipeApply, read) == m.after_submit(read),
        m.after_command(CommandId::RecipeRejectSuggestion, read).0 == m.suggestion_rejected(
            read.source_id,
        ),
        m.after_command(CommandId::RecipeAdaptSuggestion, read) == (m, m.adapting(read.view_id)),
{
}

/// A pasted text is put into the name unless it holds a control character or
/// would make the name too long; then the name is kept.
pub proof fn paste_is_bounded(m: RecipesModel, text: Seq<char>, max_bytes: int)
    requires
        m.mode != RecipeDialogMode::Browse && m.mode != RecipeDialogMode::History,
        m.control == RecipeDialogControl::Input,
    ensures
        ({
            let (after, step) = m.pasted(text, max_bytes);
            let unfit = (exists|i: int| 0 <= i < text.len() && is_control_char(#[trigger] text[i]))
                || byte_count(m.name) + byte_count(text) > max_bytes;
            &&& after.name == m.name
            &&& after.queue == m.queue
            &&& unfit ==> step == RecipeStep::Done(Outcome::Consumed)
            &&& !unfit ==> after == m && step == RecipeStep::Edit(EditCommand::InsertPasted)
        }),
{
}

/// A recipe that was applied closes the layer; one that could not be leaves it
/// open with everything in it.
pub proof fn applied_recipe_closes_the_layer(m: RecipesModel)
    ensures
        m.apply_answered(true).0 == (RecipesModel { open: false, ..m }),
        m.apply_answered(true).1 == Outcome::Close,
        m.apply_answered(false).1 == Outcome::Consumed,
        m.apply_answered(false).0 == (RecipesModel { status: m.apply_answered(false).0.status, ..m }),
{
}

/// Suggestions are asked for anew by Alt and g and by their command, while the
/// list is shown.
pub proof fn suggestions_are_asked_for_anew(m: RecipesModel, key: KeyEvent, read: RecipesRead)
    requires
        can_ask(m),
        goes_down(key),
        key.modifiers.alt && !key.modifiers.control,
        key.code == KeyCode::Char('g'),
    ensures
        ({
            let after = m.after_key(key, read).0;
            &&& m.after_command(CommandId::RecipeRefreshSuggestions, read).0 == after
            &&& m.mode == RecipeDialogMode::Browse ==> asked_once(m, after) && (
            after.queue.items.last() matches RecipeAsk::List { meta } && is_of(
                meta,
                m.next_id,
                m.id,
                m.revision + 1,
            ))
            &&& m.mode != RecipeDialogMode::Browse ==> after == m
            &&& after.items == m.items && after.selected == m.selected && after.name == m.name
        }),
{
    let after = m.after_key(key, read).0;
    if m.mode == RecipeDialogMode::Browse {
        assert(after.queue.items.drop_last() =~= m.queue.items);
    }
}

/// The buttons of each mode, in their order.
pub proof fn buttons_stand_in_their_order(m: RecipesModel)
    ensures
        ({
            let suggested = 0 <= m.selected < m.items.len() && is_suggested(
                m,
                m.items[m.selected].id@,
            );
            &&& m.mode == RecipeDialogMode::Browse && !suggested ==> m.actions() == seq![
                RecipeDialogControl::Apply,
                RecipeDialogControl::Save,
                RecipeDialogControl::Update,
                RecipeDialogControl::History,
                RecipeDialogControl::More,
            ]
            &&& m.mode == RecipeDialogMode::Browse && suggested ==> m.actions() == seq![
                RecipeDialogControl::Apply,
                RecipeDialogControl::Adapt,
                RecipeDialogControl::Reject,
                RecipeDialogControl::Save,
                RecipeDialogControl::Update,
                RecipeDialogControl::History,
                RecipeDialogControl::More,
            ]
            &&& m.mode == RecipeDialogMode::History && !suggested ==> m.actions() == seq![
                RecipeDialogControl::Apply,
            ]
            &&& m.mode != RecipeDialogMode::Browse && m.mode != RecipeDialogMode::History
                ==> m.actions() == seq![RecipeDialogControl::Apply, RecipeDialogControl::Cancel]
            &&& m.mode == RecipeDialogMode::Browse || m.mode == RecipeDialogMode::History || m.mode
                == RecipeDialogMode::Export ==> m.controls() == seq![
                RecipeDialogControl::List,
                RecipeDialogControl::Input,
            ] + m.actions()
            &&& m.mode == RecipeDialogMode::Save || m.mode == RecipeDialogMode::Update || m.mode
                == RecipeDialogMode::Import ==> m.controls() == seq![RecipeDialogControl::Input]
                + m.actions()
        }),
{
    if 0 <= m.selected < m.items.len() {
        suggestion_is_found(m.suggestions, m.items[m.selected].id@, 0);
    }
    let actions = m.actions();
    if m.mode == RecipeDialogMode::Browse {
        assert(actions =~= seq![
            RecipeDialogControl::Apply,
            RecipeDialogControl::Save,
            RecipeDialogControl::Update,
            RecipeDialogControl::History,
            RecipeDialogControl::More,
        ] || actions =~= seq![
            RecipeDialogControl::Apply,
            RecipeDialogControl::Adapt,
            RecipeDialogControl::Reject,
            RecipeDialogControl::Save,
            RecipeDialogControl::Update,
            RecipeDialogControl::History,
            RecipeDialogControl::More,
        ]);
    }
    if m.mode == RecipeDialogMode::History && m.suggestion() is None {
        assert(actions =~= seq![RecipeDialogControl::Apply]);
    }
    if m.mode.lists() || m.mode == RecipeDialogMode::Export {
        assert(m.controls() =~= seq![RecipeDialogControl::List, RecipeDialogControl::Input]
            + actions);
    } else {
        assert(m.controls() =~= seq![RecipeDialogControl::Input] + actions);
    }
}

/// Tab goes to the next control of the order and its reverse to the one before.
pub proof fn tab_follows_the_order(m: RecipesModel, key: KeyEvent, read: RecipesRead, k: int)
    requires
        goes_down(key),
        !key.modifiers.control,
        key.code == KeyCode::Tab || key.code == KeyCode::BackTab,
        0 <= k < m.controls().len(),
        m.control == m.controls()[k],
    ensures
        ({
            let n = m.controls().len() as int;
            let after = m.after_key(key, read).0;
            let forward = key.code == KeyCode::Tab && !key.modifiers.shift;
            &&& forward ==> after.control == m.controls()[if k + 1 < n {
                k + 1
            } else {
                0
            }]
            &&& !forward ==> after.control == m.controls()[if k > 0 {
                k - 1
            } else {
                n - 1
            }]
            &&& after == (RecipesModel { control: after.control, ..m })
        }),
{
    focus_order_is_distinct(m);
    distinct_item_is_found(m.controls(), k);
    ring_goes_round(k, m.controls().len() as int);
}

/// In an open menu Up and Down go from row to row, round its ends.
pub proof fn menu_is_walked(m: RecipesModel, key: KeyEvent, read: RecipesRead)
    requires
        goes_down(key),
        m.menu_open,
        0 <= m.menu_selected < m.menu(read.overflow).len(),
    ensures
        ({
            let n = m.menu(read.overflow).len() as int;
            let after = m.after_key(key, read).0;
            &&& key.code == KeyCode::Down ==> after.menu_selected == if m.menu_selected + 1 < n {
                m.menu_selected + 1
            } else {
                0
            }
            &&& key.code == KeyCode::Up ==> after.menu_selected == if m.menu_selected > 0 {
                m.menu_selected - 1
            } else {
                n - 1
            }
            &&& key.code == KeyCode::Down || key.code == KeyCode::Up ==> after.selected == m.selected
        }),
{
    ring_goes_round(m.menu_selected, m.menu(read.overflow).len() as int);
}

/// A click on a button gives it the focus and does its work; one on the name or
/// the list only gives it the focus.
pub proof fn click_does_what_the_button_says(
    m: RecipesModel,
    control: RecipeDialogControl,
    read: RecipesRead,
)
    requires
        !m.menu_open,
        m.controls().contains(control),
    ensures
        ({
            let clicked = m.after_mouse(
                MouseEventKind::LeftDown,
                Some(RecipeHit::Control(control)),
                read,
            );
            let there = RecipesModel { control, ..m };
            &&& control == RecipeDialogControl::Input || control == RecipeDialogControl::List
                ==> clicked.0 == there
            &&& control == RecipeDialogControl::Apply ==> clicked == there.after_submit(read)
            &&& control == RecipeDialogControl::Save ==> clicked == there.after_command(
                CommandId::RecipeSave,
                read,
            )
            &&& control == RecipeDialogControl::Update ==> clicked == there.after_command(
                CommandId::RecipeUpdate,
                read,
            )
            &&& control == RecipeDialogControl::History ==> clicked == there.after_command(
                CommandId::RecipeHistory,
                read,
            )
            &&& control == RecipeDialogControl::Cancel ==> clicked == there.after_command(
                CommandId::RecipeBrowse,
                read,
            )
        }),
{
}

/// A request is read as it is written, each part under its own name.
pub proof fn request_is_read_as_written(request: RecipeRequest)
    ensures
        match request {
            RecipeRequest::List { meta } => ask_of(request) == (RecipeAsk::List { meta }),
            RecipeRequest::History { meta, recipe_id } => ask_of(request) == (RecipeAsk::History {
                meta,
                recipe_id: recipe_id@,
            }),
            RecipeRequest::Import { meta, path } => ask_of(request) == (RecipeAsk::Import {
                meta,
                path: path@,
            }),
            RecipeRequest::Export { meta, path, recipe_id, revision } => ask_of(request) == (
            RecipeAsk::Export { meta, path: path@, recipe_id: recipe_id@, revision: revision@ }),
            RecipeRequest::Save { update, meta, name, view_id, config } => (ask_of(
                request,
            ) matches RecipeAsk::Save {
                update: next,
                meta: same,
                name: named,
                view_id: view,
                config: restored,
            } && same == meta && named == name@ && view == view_id@ && restored == config.model()
                && (update is None <==> next is None)),
            RecipeRequest::Outcome(outcome) => ask_of(request) == (RecipeAsk::Outcome {
                source_id: outcome.source_id@,
                recipe_id: outcome.recipe_id@,
                revision: outcome.revision@,
                accepted: outcome.accepted,
            }),
        },
{
}

/// So is what a recipe restores, and what the layer reads of the world around it.
pub proof fn config_is_read_as_written(config: RecipeConfig, ctx: RecipesContext<'_>, i: int)
    ensures
        config.model().search == config.search@,
        config.model().advanced == config.advanced@,
        config.model().enrichment == config.enrichment@,
        config.model().grouping == config.grouping@,
        config.model().enrichments.len() == config.enrichments@.len(),
        0 <= i < config.enrichments@.len() ==> config.model().enrichments[i]
            == config.enrichments@[i]@,
        config.model().pinned_columns.len() == config.pinned_columns@.len(),
        0 <= i < config.pinned_columns@.len() ==> config.model().pinned_columns[i]
            == config.pinned_columns@[i]@,
        config.model().capture_time_policy == config.capture_time_policy,
        ctx.read().applied == ctx.applied.model(),
        ctx.read().overflow == ctx.overflow@,
        ctx.read().max_bytes == ctx.max_bytes,
        ctx.read().source == *ctx.source_id,
        ctx.view_id is Some ==> ctx.read().view_id == Some(ctx.view_id->0@),
        ctx.view_id is None ==> ctx.read().view_id is None,
        ctx.source_id is Some ==> ctx.read().source_id == Some(ctx.source_id->0@),
        ctx.source_id is None ==> ctx.read().source_id is None,
{
}

/// What was typed is what is imported: Enter after an edit asks for exactly the
/// typed path, without the white space round it.
pub proof fn typed_path_is_imported(
    m: RecipesModel,
    value: Seq<char>,
    cursor: int,
    key: KeyEvent,
    read: RecipesRead,
    lead: Seq<char>,
    core: Seq<char>,
    tail: Seq<char>,
)
    requires
        can_ask(m),
        m.revision + 1 < u64::MAX,
        goes_down(key),
        key.code == KeyCode::Enter,
        !m.menu_open,
        m.control == RecipeDialogControl::Input,
        m.mode == RecipeDialogMode::Import,
        read.view_id is Some,
        is_core(value, lead, core, tail),
        core.len() > 0,
    ensures
        ({
            let sent = m.edited(value, cursor, true).after_key(key, read).0.queue.items;
            &&& sent.len() == m.queue.items.len() + 1
            &&& sent.last() matches RecipeAsk::Import { path, .. } && path == core
        }),
{
    submitting_asks_with_the_typed_name(
        m.edited(value, cursor, true),
        key,
        read,
        lead,
        core,
        tail,
    );
}

} // verus!
