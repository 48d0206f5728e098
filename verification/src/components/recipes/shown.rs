//! What the Recipes layer shows.

use super::{
    action_text, hidden_controls, suggestion_for, ConfigModel, RecipeDialogControl, RecipeHit,
    RecipesModel,
};
use super::frame::{button_regions, hidden_labels, row_columns};
use super::laws::is_suggested;
use crate::component::{MessageState, RecipeDialogMode};
use crate::dialog_controls::label_text;
use crate::dialog_layout::region_at;
use crate::geometry::Rect;
use crate::text::{debug_form, holds};
use super::render::RecipesSheet;
use crate::paint::is_text;
use vstd::prelude::*;

verus! {

/// A row ends with the name of its recipe; the selected one alone is marked, and a
/// recipe that is suggested for the source has a star.
pub proof fn row_names_its_recipe(m: RecipesModel, i: int, ascii: bool)
    requires
        0 <= i < m.items.len(),
    ensures
        m.items[i].name@.is_suffix_of(m.row_name(i, ascii)),
        (m.row_name(i, ascii)[0] == ' ') == (i != m.selected),
        m.row_name(i, ascii).len() == m.items[i].name@.len() + if is_suggested(m, m.items[i].id@) {
            4
        } else {
            2int
        },
{
    let name = m.items[i].name@;
    let text = m.row_name(i, ascii);
    suggested_is_found(m, m.items[i].id@, 0);
    reveal_strlit("  ");
    reveal_strlit("> ");
    reveal_strlit("\u{203a} ");
    reveal_strlit("\u{2605} ");
    reveal_strlit("");
    assert(text.skip(text.len() - name.len()) =~= name);
}

proof fn suggested_is_found(m: RecipesModel, id: Seq<char>, from: int)
    requires
        from >= 0,
    ensures
        suggestion_for(m.suggestions, id, from) is Some <==> exists|i: int|
            from <= i < m.suggestions.len() && (#[trigger] m.suggestions[i]).recipe_id@ == id,
    decreases m.suggestions.len() - from,
{
    if from < m.suggestions.len() && m.suggestions[from].recipe_id@ != id {
        suggested_is_found(m, id, from + 1);
    }
}

/// A recipe that cannot be applied says why, in a note that warns.
pub proof fn note_says_why_not(m: RecipesModel)
    requires
        0 <= m.selected < m.items.len(),
        m.mode == RecipeDialogMode::Browse || m.mode == RecipeDialogMode::History,
    ensures
        ({
            let item = m.items[m.selected];
            &&& item.incompatibility is Some ==> m.notes().last() == (
                "Cannot apply: "@ + item.incompatibility->0@,
                true,
            )
            &&& item.incompatibility is None && !is_suggested(m, item.id@) ==> m.notes().len() == 0
        }),
{
    suggested_is_found(m, m.items[m.selected].id@, 0);
}

/// While a recipe is exported or updated, it is named with its revision.
pub proof fn note_names_the_recipe(m: RecipesModel)
    requires
        0 <= m.selected < m.items.len(),
        m.mode == RecipeDialogMode::Export || m.mode == RecipeDialogMode::Update,
    ensures
        m.notes() == seq![
            (
                "Selected: "@ + m.items[m.selected].name@ + " \u{b7} "@
                    + m.items[m.selected].revision@,
                false,
            ),
        ],
{
    let item = m.items[m.selected];
    assert(m.notes() =~= seq![
        ("Selected: "@ + item.name@ + " \u{b7} "@ + item.revision@, false),
    ]);
}

/// What a recipe restores is summed up by a part for each setting that it has, and
/// by none for any other.
pub proof fn summary_has_a_part_for_each_setting(config: ConfigModel)
    ensures
        config.parts().len() == (if config.search.len() > 0 {
            1int
        } else {
            0
        }) + (if config.advanced.len() > 0 {
            1int
        } else {
            0
        }) + (if config.enrichment.len() > 0 || config.enrichments.len() > 0 {
            1int
        } else {
            0
        }) + (if config.grouping.len() > 0 {
            1int
        } else {
            0
        }) + (if config.pinned_columns.len() > 0 {
            1int
        } else {
            0
        }) + (if config.capture_time_policy is Some {
            1int
        } else {
            0
        }),
        config.search.len() > 0 ==> config.parts()[0] == "search="@ + debug_form(config.search),
        config.parts().len() == 0 ==> config.summary() == "no filters"@,
        config.stages() == config.enrichments.len() + if config.enrichment.len() > 0 {
            1int
        } else {
            0
        },
{
}

/// The labels of the menu stand for its rows, in the same order.
pub proof fn menu_labels_stand_for_its_rows(
    m: RecipesModel,
    overflow: Seq<usize>,
    standing: Seq<Seq<char>>,
    ascii: bool,
    i: int,
)
    requires
        standing.len() == 3,
        0 <= i < m.menu(overflow).len() - 3,
    ensures
        m.menu_labels(overflow, standing, ascii).len() == m.menu(overflow).len(),
        m.menu_labels(overflow, standing, ascii)[i] == label_text(
            action_text(m.mode, m.menu(overflow)[i], ascii),
        ),
{
    hidden_alike(m, overflow, ascii, overflow.len() as int);
    let controls = hidden_controls(m.actions(), overflow, overflow.len() as int);
    let labels = hidden_labels(m, overflow, ascii, overflow.len() as int);
    assert(m.menu(overflow)[i] == controls[i]);
    assert(m.menu_labels(overflow, standing, ascii)[i] == labels[i]);
}

proof fn hidden_alike(m: RecipesModel, overflow: Seq<usize>, ascii: bool, n: int)
    requires
        n <= overflow.len(),
    ensures
        hidden_labels(m, overflow, ascii, n).len() == hidden_controls(m.actions(), overflow, n).len(),
        forall|i: int|
            0 <= i < hidden_labels(m, overflow, ascii, n).len() ==> #[trigger] hidden_labels(
                m,
                overflow,
                ascii,
                n,
            )[i] == label_text(
                action_text(m.mode, hidden_controls(m.actions(), overflow, n)[i], ascii),
            ),
    decreases n,
{
    if n > 0 {
        hidden_alike(m, overflow, ascii, n - 1);
    }
}

/// What is said: while the list loads it is updating, and what failed or found a
/// full queue is an error.
pub proof fn failures_are_errors(m: RecipesModel)
    ensures
        m.loading ==> m.message().0 == MessageState::Updating,
        !m.loading && m.status.len() > 0 && (holds(m.status, "fail"@) || holds(m.status, "full"@))
            ==> m.message().0 == MessageState::Error,
        m.message().1 == m.status || m.status.len() == 0,
{
}

/// A click falls on the menu before the rows, and on those before the controls.
pub proof fn click_falls_on_the_menu_first(m: RecipesModel, column: int, row: int)
    ensures
        ({
            let menu = region_at(m.geometry.menu@, column, row);
            let item = region_at(m.geometry.rows@, column, row);
            let control = region_at(m.geometry.controls@, column, row);
            m.at(column, row) == if menu is Some {
                Some(RecipeHit::Menu(menu->0))
            } else if item is Some {
                Some(RecipeHit::Row(item->0))
            } else if control is Some {
                Some(RecipeHit::Control(control->0))
            } else {
                None
            }
        }),
{
}

/// A button that is drawn works the action of its place.
pub proof fn button_works_its_action(
    actions: Seq<RecipeDialogControl>,
    index: usize,
    rect: Rect,
    hides: bool,
)
    requires
        index < actions.len(),
    ensures
        button_regions(actions, seq![(index, rect)], hides, 1) == if hides && actions[index as int]
            == RecipeDialogControl::More {
            Seq::empty()
        } else {
            seq![(rect, actions[index as int])]
        },
{
    reveal_with_fuel(button_regions, 2);
    assert(Seq::<(Rect, RecipeDialogControl)>::empty().push((rect, actions[index as int])) =~= seq![
        (rect, actions[index as int]),
    ]);
}

/// A row is drawn with the name of its recipe, and where there is room with what
/// that restores and when it was saved.
pub proof fn row_draws_its_recipe(m: RecipesModel, s: RecipesSheet<'_>, row: Rect, i: int)
    requires
        0 <= i < m.items.len(),
    ensures
        ({
            let things = m.row_part(s, row, i);
            let cells = row_columns(row);
            &&& is_text(things[0], cells.name, m.row_name(i, s.ascii))
            &&& cells.summary matches Some(area) ==> is_text(
                things[1],
                area,
                m.items[i].config.model().summary(),
            )
            &&& cells.summary is Some && m.items[i].saved_at_unix_nanos is Some ==> (
            cells.date matches Some(area) ==> is_text(things[2], area, s.dates@[i]@))
        }),
{
}

} // verus!
