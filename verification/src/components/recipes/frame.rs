//! How a frame of the Recipes layer is laid out and what it says.

use super::{
    action_text, RecipeConfig, RecipeDialogControl, RecipeGeometry, RecipeHit, RecipeSuggestion,
    RecipesDialog, RecipesModel, ConfigModel,
};
use crate::component::{
    CommandEntry, CommandId, CommandSpec, MessageState, RecipeDialogMode, Surface,
};
use crate::components::time::CaptureTimePolicy;
use crate::dialog_controls::{label_text, mnemonic};
use crate::dialog_layout::{
    action_rows, budget_actions, content_estimate, find_region, region_at, DialogSpec, FIELD_GUTTER,
    PANE_INDENT,
};
use crate::geometry::{greatest, least, max16, min16, minus, sat16, Rect};
use crate::text::{
    contains_text, debug_form, debug_of, decimal, decimal_text, holds, join, joined, some_str, strs,
    text_lists, texts,
};
use crate::width::{widest, widest_of};
use vstd::prelude::*;

verus! {

/// The columns of a recipe's name.
pub const RECIPE_NAME_WIDTH: u16 = 22;

/// The columns of the day on which a revision was saved.
pub const RECIPE_DATE_WIDTH: u16 = 10;

/// What stands for the day of a revision that bears none.
pub const RECIPE_NO_DATE: &'static str = "\u{2014}";

/// The columns of the labels.
pub const RECIPE_LABEL_WIDTH: u16 = 11;

/// The buttons of the fullest row, by which rows are set aside.
pub open spec fn fullest_labels(ascii: bool) -> Seq<&'static str> {
    seq![
        "Apply",
        "&Adapt",
        "&Reject",
        "&Save",
        "&Update",
        "&History",
        if ascii {
            "More v"
        } else {
            "More \u{25be}"
        },
    ]
}

/// The rows set aside for each part: the same whatever the dialog shows. On the
/// lowest screen the list and the buttons take the rows of the message and the
/// help.
pub fn recipes_spec_for(height: u16, policy_width: u16, ascii: bool) -> (r: DialogSpec)
    ensures
        r == (if height == 6 {
            DialogSpec {
                header: 0,
                body: 2,
                message: 0,
                help: 0,
                actions: action_rows(policy_width, fullest_labels(ascii)) as u16,
            }
        } else {
            DialogSpec {
                header: 0,
                body: 3,
                message: 2,
                help: 2,
                actions: action_rows(policy_width, fullest_labels(ascii)) as u16,
            }
        }),
        1 <= r.actions <= 2,
{
    let labels: Vec<&'static str> = vec![
        "Apply",
        "&Adapt",
        "&Reject",
        "&Save",
        "&Update",
        "&History",
        if ascii {
            "More v"
        } else {
            "More \u{25be}"
        },
    ];
    assert(labels@ =~= fullest_labels(ascii));
    let actions: u16 = budget_actions(policy_width, labels.as_slice());
    if height == 6 {
        DialogSpec { header: 0, body: 2, message: 0, help: 0, actions }
    } else {
        DialogSpec { header: 0, body: 3, message: 2, help: 2, actions }
    }
}

/// The standing consequence of a mode.
pub open spec fn mode_help(mode: RecipeDialogMode) -> Seq<char> {
    match mode {
        RecipeDialogMode::Save =>
            "Only accepted settings are saved; unfinished drafts are excluded."@,
        RecipeDialogMode::Update =>
            "Saving creates a NEW revision from the active view's accepted settings. Old revisions remain; a concurrent update is rejected, so reload and retry."@,
        RecipeDialogMode::Import =>
            "Import installs a canonical copy for preview; Apply is a separate action."@,
        RecipeDialogMode::Export =>
            "Exports the selected revision, including source paths and environment. It never overwrites an existing file."@,
        RecipeDialogMode::History =>
            "Applying a revision leaves the recipe's own pointer unchanged."@,
        RecipeDialogMode::Browse => "Apply restores a recipe's filters and enrichments."@,
    }
}

/// The help of a mode.
pub fn help_text(mode: RecipeDialogMode) -> (r: &'static str)
    ensures
        r@ == mode_help(mode),
{
    match mode {
        RecipeDialogMode::Save =>
            "Only accepted settings are saved; unfinished drafts are excluded.",
        RecipeDialogMode::Update =>
            "Saving creates a NEW revision from the active view's accepted settings. Old revisions remain; a concurrent update is rejected, so reload and retry.",
        RecipeDialogMode::Import =>
            "Import installs a canonical copy for preview; Apply is a separate action.",
        RecipeDialogMode::Export =>
            "Exports the selected revision, including source paths and environment. It never overwrites an existing file.",
        RecipeDialogMode::History =>
            "Applying a revision leaves the recipe's own pointer unchanged.",
        RecipeDialogMode::Browse => "Apply restores a recipe's filters and enrichments.",
    }
}

/// A note under the list, and whether it warns.
pub open spec fn note_if(there: bool, text: Seq<char>, warns: bool) -> Seq<(Seq<char>, bool)> {
    if there {
        seq![(text, warns)]
    } else {
        seq![]
    }
}

/// The notes of a frame by what they say.
pub open spec fn notes_view(notes: Seq<(String, bool)>) -> Seq<(Seq<char>, bool)> {
    notes.map_values(|note: (String, bool)| (note.0@, note.1))
}

impl RecipesModel {
    pub open spec fn title(self) -> Seq<char> {
        if self.mode == RecipeDialogMode::History {
            "Recipes \u{203a} "@ + self.recipe_name + " history"@
        } else {
            "Recipes"@
        }
    }

    /// What just happened.
    pub open spec fn message(self) -> (MessageState, Seq<char>) {
        if self.loading {
            (MessageState::Updating, self.status)
        } else if self.status.len() == 0 {
            (MessageState::Ready, Seq::empty())
        } else if holds(self.status, "fail"@) || holds(self.status, "full"@) {
            (MessageState::Error, self.status)
        } else {
            (MessageState::Applied, self.status)
        }
    }

    /// What qualifies the selected recipe: which it is, why it was suggested,
    /// what the suggestion could not confirm, and why it cannot be applied.
    pub open spec fn notes(self) -> Seq<(Seq<char>, bool)> {
        match self.selected_item() {
            None => seq![],
            Some(item) => {
                let names = self.mode == RecipeDialogMode::Export || self.mode
                    == RecipeDialogMode::Update;
                let hint = self.suggestion();
                note_if(
                    names,
                    "Selected: "@ + item.name@ + " \u{b7} "@ + item.revision@,
                    false,
                ) + note_if(
                    self.mode.lists() && hint is Some,
                    "Suggested because: "@ + joined(
                        texts(self.suggestions[hint->0].evidence@),
                        "; "@,
                    ),
                    false,
                ) + note_if(
                    self.mode.lists() && hint is Some
                        && self.suggestions[hint->0].missing_fields@.len() > 0,
                    "Not observed in the sampled rows: "@ + joined(
                        texts(self.suggestions[hint->0].missing_fields@),
                        ", "@,
                    ),
                    true,
                ) + note_if(
                    self.mode.lists() && item.incompatibility is Some,
                    "Cannot apply: "@ + item.incompatibility->0@,
                    true,
                )
            },
        }
    }

    /// Which of how many rows is selected.
    pub open spec fn count(self) -> Seq<char> {
        decimal(least(self.selected + 1, self.items.len() as int) as nat) + " of "@ + decimal(
            self.items.len(),
        )
    }

    /// What stands in an empty list.
    pub open spec fn nothing_listed(self) -> Seq<char> {
        if self.mode == RecipeDialogMode::History {
            "No revisions"@
        } else {
            "No saved recipes yet \u{b7} Save stores the current filters"@
        }
    }

    /// The name cell of a row.
    pub open spec fn row_name(self, index: int, ascii: bool) -> Seq<char> {
        let item = self.items[index];
        (if index != self.selected {
            "  "@
        } else if ascii {
            "> "@
        } else {
            "\u{203a} "@
        }) + (if super::suggestion_for(self.suggestions, item.id@, 0) is Some {
            "\u{2605} "@
        } else {
            ""@
        }) + item.name@
    }

    /// The labels of the menu's rows.
    pub open spec fn menu_labels(self, overflow: Seq<usize>, standing: Seq<Seq<char>>, ascii: bool) -> Seq<
        Seq<char>,
    > {
        hidden_labels(self, overflow, ascii, overflow.len() as int) + standing
    }

    /// What a point of the last frame stands for: the open menu first.
    pub open spec fn at(self, column: int, row: int) -> Option<RecipeHit> {
        match region_at(self.geometry.menu@, column, row) {
            Some(index) => Some(RecipeHit::Menu(index)),
            None => match region_at(self.geometry.rows@, column, row) {
                Some(index) => Some(RecipeHit::Row(index)),
                None => match region_at(self.geometry.controls@, column, row) {
                    Some(control) => Some(RecipeHit::Control(control)),
                    None => None,
                },
            },
        }
    }
}

/// The labels of the buttons among the first `n` hidden ones.
pub open spec fn hidden_labels(model: RecipesModel, overflow: Seq<usize>, ascii: bool, n: int) -> Seq<
    Seq<char>,
>
    decreases n,
{
    if n <= 0 {
        seq![]
    } else {
        let before = hidden_labels(model, overflow, ascii, n - 1);
        let index = overflow[n - 1] as int;
        if index < model.actions().len() && model.actions()[index] != RecipeDialogControl::More {
            before.push(label_text(action_text(model.mode, model.actions()[index], ascii)))
        } else {
            before
        }
    }
}

fn note(notes: &mut Vec<(String, bool)>, lead: &str, text: &str, warns: bool)
    ensures
        notes_view(final(notes)@) == notes_view(old(notes)@).push((lead@ + text@, warns)),
{
    let ghost before = notes@;
    let mut line = lead.to_owned();
    line.append(text);
    notes.push((line, warns));
    assert(notes_view(notes@) =~= notes_view(before).push((lead@ + text@, warns)));
}

fn note_suggestion(notes: &mut Vec<(String, bool)>, suggestion: &RecipeSuggestion)
    ensures
        notes_view(final(notes)@) == notes_view(old(notes)@) + note_if(
            true,
            "Suggested because: "@ + joined(texts(suggestion.evidence@), "; "@),
            false,
        ) + note_if(
            suggestion.missing_fields@.len() > 0,
            "Not observed in the sampled rows: "@ + joined(
                texts(suggestion.missing_fields@),
                ", "@,
            ),
            true,
        ),
{
    let ghost before = notes_view(notes@);
    let evidence = join(&suggestion.evidence, "; ");
    note(notes, "Suggested because: ", evidence.as_str(), false);
    if suggestion.missing_fields.len() > 0 {
        let missing = join(&suggestion.missing_fields, ", ");
        note(notes, "Not observed in the sampled rows: ", missing.as_str(), true);
    }
    assert(notes_view(notes@) =~= before + note_if(
        true,
        "Suggested because: "@ + joined(texts(suggestion.evidence@), "; "@),
        false,
    ) + note_if(
        suggestion.missing_fields@.len() > 0,
        "Not observed in the sampled rows: "@ + joined(texts(suggestion.missing_fields@), ", "@),
        true,
    ));
}

impl RecipesDialog {
    pub fn title(&self) -> (r: String)
        ensures
            r@ == self.model().title(),
    {
        if self.state.mode == RecipeDialogMode::History {
            let mut text = "Recipes \u{203a} ".to_owned();
            text.append(self.recipe_name.as_str());
            text.append(" history");
            text
        } else {
            "Recipes".to_owned()
        }
    }

    /// The heading of the list.
    pub fn heading(&self) -> (r: &'static str)
        ensures
            r@ == if self.model().mode == RecipeDialogMode::History {
                "Revisions"@
            } else {
                "Saved recipes"@
            },
    {
        if self.state.mode == RecipeDialogMode::History {
            "Revisions"
        } else {
            "Saved recipes"
        }
    }

    /// The label of the name field, and what stands in it while it is empty.
    pub fn field_words(&self) -> (r: (&'static str, &'static str))
        ensures
            (r.0@, r.1@) == if self.model().mode == RecipeDialogMode::Import || self.model().mode
                == RecipeDialogMode::Export {
                ("TOML path"@, "path to a recipe TOML"@)
            } else {
                ("Name"@, "a name for this recipe"@)
            },
    {
        match self.state.mode {
            RecipeDialogMode::Import | RecipeDialogMode::Export => (
                "TOML path",
                "path to a recipe TOML",
            ),
            _ => ("Name", "a name for this recipe"),
        }
    }

    pub fn message(&self) -> (r: (MessageState, String))
        ensures
            (r.0, r.1@) == self.model().message(),
    {
        let status = self.state.status.as_str();
        if self.state.loading {
            (MessageState::Updating, status.to_owned())
        } else if status.is_empty() {
            (MessageState::Ready, String::new())
        } else if contains_text(status, "fail") || contains_text(status, "full") {
            (MessageState::Error, status.to_owned())
        } else {
            (MessageState::Applied, status.to_owned())
        }
    }

    /// The notes under the list.
    pub fn notes(&self) -> (r: Vec<(String, bool)>)
        ensures
            notes_view(r@) == self.model().notes(),
    {
        let mut notes: Vec<(String, bool)> = Vec::new();
        assert(notes_view(notes@) =~= seq![]);
        if self.state.selected >= self.state.items.len() {
            return notes;
        }
        let item = &self.state.items[self.state.selected];
        if self.state.mode == RecipeDialogMode::Export || self.state.mode
            == RecipeDialogMode::Update {
            let mut text = item.name.clone();
            text.append(" \u{b7} ");
            text.append(item.revision.as_str());
            note(&mut notes, "Selected: ", text.as_str(), false);
            assert("Selected: "@ + (item.name@ + " \u{b7} "@ + item.revision@) =~= "Selected: "@
                + item.name@ + " \u{b7} "@ + item.revision@);
        }
        if self.state.mode.is_list() {
            if let Some(place) = self.suggestion() {
                note_suggestion(&mut notes, &self.state.suggestions[place]);
            }
            if let Some(error) = &item.incompatibility {
                note(&mut notes, "Cannot apply: ", error.as_str(), true);
            }
        }
        assert(notes_view(notes@) =~= self.model().notes());
        notes
    }

    /// The count beside the heading.
    pub fn count(&self) -> (r: String)
        ensures
            r@ == self.model().count(),
    {
        let total: usize = self.state.items.len();
        let place: usize = if self.state.selected < total {
            self.state.selected + 1
        } else {
            total
        };
        let mut text = decimal_text(place as u64);
        text.append(" of ");
        text.append(decimal_text(total as u64).as_str());
        text
    }

    pub fn nothing_listed(&self) -> (r: &'static str)
        ensures
            r@ == self.model().nothing_listed(),
    {
        if self.state.mode == RecipeDialogMode::History {
            "No revisions"
        } else {
            "No saved recipes yet \u{b7} Save stores the current filters"
        }
    }

    /// The name cell of a row.
    pub fn row_name(&self, index: usize, ascii: bool) -> (r: String)
        requires
            index < self.model().items.len(),
        ensures
            r@ == self.model().row_name(index as int, ascii),
    {
        let item = &self.state.items[index];
        let suggested = super::find_suggestion(
            &self.state.suggestions,
            item.id.as_str(),
        ).is_some();
        let mut text = (if index != self.state.selected {
            "  "
        } else if ascii {
            "> "
        } else {
            "\u{203a} "
        }).to_owned();
        text.append(
            if suggested {
                "\u{2605} "
            } else {
                ""
            },
        );
        text.append(item.name.as_str());
        text
    }

    /// The labels of the menu's rows: the hidden buttons', then the standing
    /// ones'.
    pub fn more_menu_labels(&self, overflow: &Vec<usize>, standing: Vec<String>, ascii: bool) -> (r: Vec<
        String,
    >)
        ensures
            texts(r@) == self.model().menu_labels(overflow@, texts(standing@), ascii),
    {
        let actions = self.actions(ascii);
        let mut list: Vec<String> = Vec::new();
        let mut i: usize = 0;
        assert(texts(list@) =~= seq![]);
        while i < overflow.len()
            invariant
                i <= overflow@.len(),
                actions@.len() == self.model().actions().len(),
                forall|j: int|
                    0 <= j < actions@.len() ==> (#[trigger] actions@[j]).1 == self.model().actions()[j]
                        && actions@[j].0@ == action_text(
                        self.model().mode,
                        self.model().actions()[j],
                        ascii,
                    ),
                texts(list@) == hidden_labels(self.model(), overflow@, ascii, i as int),
            decreases overflow.len() - i,
        {
            let index: usize = overflow[i];
            let ghost before = list@;
            if index < actions.len() {
                let action = &actions[index];
                if action.1 != RecipeDialogControl::More {
                    list.push(mnemonic(action.0).text);
                    assert(texts(list@) =~= texts(before).push(list@.last()@));
                }
            }
            i += 1;
        }
        let ghost hidden = list@;
        let ghost last = standing@;
        let mut standing = standing;
        list.append(&mut standing);
        assert(texts(list@) =~= texts(hidden) + texts(last));
        list
    }

    /// The labels of the buttons, while no menu has the keyboard.
    pub fn action_labels(&self, ascii: bool) -> (r: Vec<&'static str>)
        ensures
            strs(r@) == if self.model().menu_open {
                seq![]
            } else {
                self.model().actions().map_values(
                    |control: RecipeDialogControl| action_text(self.model().mode, control, ascii),
                )
            },
    {
        let mut labels: Vec<&'static str> = Vec::new();
        if self.state.menu_open {
            assert(strs(labels@) =~= seq![]);
            return labels;
        }
        let actions = self.actions(ascii);
        let mut i: usize = 0;
        while i < actions.len()
            invariant
                i <= actions@.len(),
                labels@.len() == i,
                forall|j: int| 0 <= j < i ==> #[trigger] labels@[j] == actions@[j].0,
            decreases actions.len() - i,
        {
            labels.push(actions[i].0);
            i += 1;
        }
        assert(strs(labels@) =~= self.model().actions().map_values(
            |control: RecipeDialogControl| action_text(self.model().mode, control, ascii),
        ));
        labels
    }

    pub fn surface(&self) -> (r: Surface)
        ensures
            r == self.model().surface,
    {
        self.surface
    }

    pub fn hit(&self, column: u16, row: u16) -> (r: Option<RecipeHit>)
        ensures
            r == self.model().at(column as int, row as int),
    {
        if let Some(index) = find_region(&self.geometry.menu, column, row) {
            return Some(RecipeHit::Menu(index));
        }
        if let Some(index) = find_region(&self.geometry.rows, column, row) {
            return Some(RecipeHit::Row(index));
        }
        match find_region(&self.geometry.controls, column, row) {
            Some(control) => Some(RecipeHit::Control(control)),
            None => None,
        }
    }

    /// Remembers a frame.
    pub fn record(
        &mut self,
        geometry: RecipeGeometry,
        caret: Option<(u16, u16)>,
        surface: Surface,
    ) -> (r: Surface)
        ensures
            r == (Surface { caret, ..surface }),
            final(self).model() == (RecipesModel { geometry, surface: r, ..old(self).model() }),
    {
        self.geometry = geometry;
        self.surface = Surface { caret, ..surface };
        self.surface
    }
}

impl RecipesDialog {
    /// Whether typed characters belong to the dialog: unless its menu is open.
    pub fn editing(&self) -> (r: bool)
        ensures
            r == !self.model().menu_open,
    {
        !self.state.menu_open
    }
}

/// The notes, broken into lines, with their warning.
pub open spec fn note_lines(
    notes: Seq<(Seq<char>, bool)>,
    wrapped: Seq<Seq<Seq<char>>>,
    n: int,
) -> Seq<(Seq<char>, bool)>
    decreases n,
{
    if n <= 0 {
        seq![]
    } else {
        note_lines(notes, wrapped, n - 1) + wrapped[n - 1].map_values(
            |line: Seq<char>| (line, notes[n - 1].1),
        )
    }
}

/// Puts the lines of the notes together.
pub fn assemble_notes(notes: &Vec<(String, bool)>, wrapped: &Vec<Vec<String>>) -> (r: Vec<
    (String, bool),
>)
    requires
        notes@.len() == wrapped@.len(),
    ensures
        notes_view(r@) == note_lines(
            notes_view(notes@),
            text_lists(wrapped@),
            notes@.len() as int,
        ),
{
    let ghost all = text_lists(wrapped@);
    let mut out: Vec<(String, bool)> = Vec::new();
    let mut i: usize = 0;
    assert(notes_view(out@) =~= seq![]);
    while i < notes.len()
        invariant
            i <= notes@.len(),
            notes@.len() == wrapped@.len(),
            all == text_lists(wrapped@),
            notes_view(out@) == note_lines(notes_view(notes@), all, i as int),
        decreases notes.len() - i,
    {
        let lines = &wrapped[i];
        let warns = notes[i].1;
        let ghost before = notes_view(out@);
        let ghost part = all[i as int].map_values(|line: Seq<char>| (line, warns));
        let mut j: usize = 0;
        assert(before + part.take(0) =~= before);
        while j < lines.len()
            invariant
                j <= lines@.len(),
                part.len() == lines@.len(),
                forall|k: int| 0 <= k < part.len() ==> #[trigger] part[k] == (lines@[k]@, warns),
                notes_view(out@) == before + part.take(j as int),
            decreases lines.len() - j,
        {
            let ghost now = out@;
            out.push((lines[j].clone(), warns));
            proof {
                assert(notes_view(out@) =~= notes_view(now).push(part[j as int]));
                assert(part.take(j + 1) =~= part.take(j as int).push(part[j as int]));
                assert(before + part.take(j + 1) =~= (before + part.take(j as int)).push(
                    part[j as int],
                ));
            }
            j += 1;
        }
        proof {
            assert(part.take(j as int) =~= part);
            assert(part =~= all[i as int].map_values(
                |line: Seq<char>| (line, notes_view(notes@)[i as int].1),
            ));
        }
        i += 1;
    }
    out
}

/// How the body is divided: the list, the notes under it and the name field.
#[derive(Clone, Copy, Debug, PartialEq, Eq, Structural)]
pub struct RecipeSections {
    pub list: Rect,
    pub notes: u16,
    pub notes_y: u16,
    pub field_rows: u16,
    pub field_y: u16,
}

/// The notes that leave the list and the field a row each.
pub open spec fn kept_notes(height: int, gap: int, note_rows: int) -> int {
    least(note_rows, minus(minus(height, 2), 2 * gap))
}

/// How a body is divided. Where a row of the list, the field and the gaps fit,
/// the notes take what they need of the rest and the list the remainder. Else
/// the field or the list alone is shown, whichever has the focus.
pub open spec fn sections(body: Rect, gap: int, note_rows: int, on_field: bool) -> RecipeSections {
    let height = body.height as int;
    let bottom = body.spec_bottom();
    let kept = kept_notes(height, gap, note_rows);
    if height == 0 {
        RecipeSections {
            list: Rect::spec_new(body.x, body.y, body.width, 0),
            notes: 0,
            notes_y: body.y,
            field_rows: 0,
            field_y: body.y,
        }
    } else if 2 + kept + 2 * gap <= height {
        let field_y = minus(bottom, 1);
        RecipeSections {
            list: Rect::spec_new(
                body.x,
                body.y,
                body.width,
                (height - kept - 1 - (if kept > 0 {
                    2 * gap
                } else {
                    gap
                })) as u16,
            ),
            notes: kept as u16,
            notes_y: minus(minus(field_y, kept), gap) as u16,
            field_rows: 1,
            field_y: field_y as u16,
        }
    } else if on_field {
        let field_y = minus(bottom, 1);
        RecipeSections {
            list: Rect::spec_new(body.x, body.y, body.width, 0),
            notes: 0,
            notes_y: field_y as u16,
            field_rows: 1,
            field_y: field_y as u16,
        }
    } else {
        RecipeSections {
            list: Rect::spec_new(body.x, body.y, body.width, body.height),
            notes: 0,
            notes_y: bottom as u16,
            field_rows: 0,
            field_y: bottom as u16,
        }
    }
}

/// Divides the body.
pub fn split_sections(body: Rect, roomy: bool, note_rows: usize, on_field: bool) -> (r: RecipeSections)
    ensures
        r == sections(
            body,
            if roomy {
                1
            } else {
                0
            },
            if note_rows <= 65535 {
                note_rows as int
            } else {
                0
            },
            on_field,
        ),
{
    let gap: u16 = if roomy {
        1
    } else {
        0
    };
    let rows: u16 = if note_rows <= 65535 {
        note_rows as u16
    } else {
        0
    };
    let height: u16 = body.height;
    let bottom: u16 = body.bottom();
    let kept: u16 = min16(rows, height.saturating_sub(2).saturating_sub(2 * gap));
    let above: u16 = bottom.saturating_sub(1);
    if height == 0 {
        RecipeSections {
            list: Rect::new(body.x, body.y, body.width, 0),
            notes: 0,
            notes_y: body.y,
            field_rows: 0,
            field_y: body.y,
        }
    } else if height >= 2 * gap + 2 && kept <= height - 2 - 2 * gap {
        let gaps: u16 = if kept > 0 {
            2 * gap
        } else {
            gap
        };
        RecipeSections {
            list: Rect::new(body.x, body.y, body.width, height - kept - 1 - gaps),
            notes: kept,
            notes_y: above.saturating_sub(kept).saturating_sub(gap),
            field_rows: 1,
            field_y: above,
        }
    } else if on_field {
        RecipeSections {
            list: Rect::new(body.x, body.y, body.width, 0),
            notes: 0,
            notes_y: above,
            field_rows: 1,
            field_y: above,
        }
    } else {
        RecipeSections {
            list: Rect::new(body.x, body.y, body.width, height),
            notes: 0,
            notes_y: bottom,
            field_rows: 0,
            field_y: bottom,
        }
    }
}

/// The list, the notes and the field never share a row, and where room is short
/// what has the focus is shown.
pub proof fn sections_are_apart(body: Rect, gap: int, note_rows: int, on_field: bool)
    requires
        body.valid(),
        body.height > 0,
        gap == 0 || gap == 1,
        note_rows >= 0,
    ensures
        ({
            let s = sections(body, gap, note_rows, on_field);
            &&& s.list.y == body.y
            &&& s.notes > 0 ==> s.list.spec_bottom() + gap <= s.notes_y && s.notes_y + s.notes + gap
                <= s.field_y
            &&& s.field_rows > 0 ==> s.list.spec_bottom() <= s.field_y && s.field_y + 1
                == body.spec_bottom()
            &&& on_field ==> s.field_rows == 1
            &&& !on_field ==> s.list.height > 0
        }),
{
}

/// The cells of a row: its name, what it restores, and its day.
#[derive(Clone, Copy, Debug, PartialEq, Eq, Structural)]
pub struct RecipeColumns {
    pub name: Rect,
    pub summary: Option<Rect>,
    pub date: Option<Rect>,
}

/// The cells of a row. The day has a column only where eight columns are left
/// for what the recipe restores.
pub open spec fn row_columns(row: Rect) -> RecipeColumns {
    let right = row.spec_right();
    let name = least(RECIPE_NAME_WIDTH as int, row.width as int);
    let x = sat16(sat16(row.x + name) + FIELD_GUTTER);
    let dated = sat16(x + RECIPE_DATE_WIDTH + FIELD_GUTTER + 8) <= right;
    let width = minus(
        if dated {
            minus(minus(right, RECIPE_DATE_WIDTH as int), FIELD_GUTTER as int)
        } else {
            right
        },
        x,
    );
    RecipeColumns {
        name: Rect::spec_new(row.x, row.y, name as u16, 1),
        summary: if width > 0 {
            Some(Rect::spec_new(x as u16, row.y, width as u16, 1))
        } else {
            None
        },
        date: if dated {
            Some(
                Rect::spec_new(
                    minus(right, RECIPE_DATE_WIDTH as int) as u16,
                    row.y,
                    RECIPE_DATE_WIDTH,
                    1,
                ),
            )
        } else {
            None
        },
    }
}

/// Divides a row into its cells.
pub fn place_columns(row: Rect) -> (r: RecipeColumns)
    ensures
        r == row_columns(row),
{
    let right: u16 = row.right();
    let name: u16 = min16(RECIPE_NAME_WIDTH, row.width);
    let x: u16 = row.x.saturating_add(name).saturating_add(FIELD_GUTTER);
    let dated = x.saturating_add(RECIPE_DATE_WIDTH + FIELD_GUTTER + 8) <= right;
    let day: u16 = right.saturating_sub(RECIPE_DATE_WIDTH);
    let end: u16 = if dated {
        day.saturating_sub(FIELD_GUTTER)
    } else {
        right
    };
    let width: u16 = end.saturating_sub(x);
    RecipeColumns {
        name: Rect::new(row.x, row.y, name, 1),
        summary: if width > 0 {
            Some(Rect::new(x, row.y, width, 1))
        } else {
            None
        },
        date: if dated {
            Some(Rect::new(day, row.y, RECIPE_DATE_WIDTH, 1))
        } else {
            None
        },
    }
}

/// The cells of a row stand apart by the gutter and end with the row.
pub proof fn columns_are_apart(row: Rect)
    requires
        row.valid(),
        row.spec_right() < 65535,
    ensures
        row_columns(row).name.spec_right() <= row.spec_right(),
        row_columns(row).summary matches Some(summary) ==> row_columns(row).name.spec_right()
            + FIELD_GUTTER <= summary.x && summary.spec_right() <= row.spec_right(),
        row_columns(row).date matches Some(date) ==> row_columns(row).summary matches Some(summary)
            && summary.width >= 8 && summary.spec_right() + FIELD_GUTTER == date.x
            && date.spec_right() == row.spec_right(),
{
}

/// Where a line of the notes stands.
pub fn note_row(body: Rect, sections: RecipeSections, offset: u16) -> (r: Option<Rect>)
    ensures
        r == if offset < sections.notes && body.y <= sat16(sections.notes_y + offset)
            < body.spec_bottom() {
            Some(
                Rect::spec_new(
                    sat16(body.x + PANE_INDENT) as u16,
                    sat16(sections.notes_y + offset) as u16,
                    minus(body.width as int, PANE_INDENT as int) as u16,
                    1,
                ),
            )
        } else {
            None
        },
{
    let y: u16 = sections.notes_y.saturating_add(offset);
    if offset < sections.notes && body.y <= y && y < body.bottom() {
        Some(
            Rect::new(
                body.x.saturating_add(PANE_INDENT),
                y,
                body.width.saturating_sub(PANE_INDENT),
                1,
            ),
        )
    } else {
        None
    }
}

/// The day of a revision as it is written, or the mark for none.
pub fn recipe_date(saved_at_unix_nanos: Option<i64>, written: &str) -> (r: String)
    ensures
        r@ == if saved_at_unix_nanos is Some {
            written@
        } else {
            RECIPE_NO_DATE@
        },
{
    match saved_at_unix_nanos {
        Some(_) => written.to_owned(),
        None => RECIPE_NO_DATE.to_owned(),
    }
}

/// A part of a summary, where it is there.
pub open spec fn part_if(there: bool, text: Seq<char>) -> Seq<Seq<char>> {
    if there {
        seq![text]
    } else {
        seq![]
    }
}

impl ConfigModel {
    /// How many stages of enrichment there are.
    pub open spec fn stages(self) -> int {
        self.enrichments.len() + (if self.enrichment.len() > 0 {
            1int
        } else {
            0int
        })
    }

    /// What a recipe restores, part by part.
    pub open spec fn parts(self) -> Seq<Seq<char>> {
        part_if(self.search.len() > 0, "search="@ + debug_form(self.search)) + part_if(
            self.advanced.len() > 0,
            "advanced filter"@,
        ) + part_if(
            self.stages() > 0,
            decimal(self.stages() as nat) + " enrichment"@ + (if self.stages() == 1 {
                ""@
            } else {
                "s"@
            }),
        ) + part_if(self.grouping.len() > 0, "grouping"@) + part_if(
            self.pinned_columns.len() > 0,
            decimal(self.pinned_columns.len()) + " pinned"@,
        ) + part_if(
            self.capture_time_policy is Some,
            if self.capture_time_policy->0 is Recent {
                "rolling window"@
            } else {
                "fixed window"@
            },
        )
    }

    /// What a recipe restores, in one line.
    pub open spec fn summary(self) -> Seq<char> {
        if self.parts().len() == 0 {
            "no filters"@
        } else {
            joined(self.parts(), " \u{b7} "@)
        }
    }
}

fn part(parts: &mut Vec<String>, there: bool, text: String)
    ensures
        texts(final(parts)@) == texts(old(parts)@) + part_if(there, text@),
{
    let ghost before = parts@;
    let ghost added = text@;
    if there {
        parts.push(text);
    }
    assert(texts(parts@) =~= texts(before) + part_if(there, added));
}

fn search_part(search: &str) -> (r: String)
    ensures
        r@ == "search="@ + debug_form(search@),
{
    let mut text = "search=".to_owned();
    text.append(debug_of(search).as_str());
    text
}

fn stages_part(stages: usize) -> (r: String)
    ensures
        r@ == decimal(stages as nat) + " enrichment"@ + (if stages == 1 {
            ""@
        } else {
            "s"@
        }),
{
    let mut text = decimal_text(stages as u64);
    text.append(" enrichment");
    text.append(
        if stages == 1 {
            ""
        } else {
            "s"
        },
    );
    text
}

/// Writes what a recipe restores.
pub fn recipe_summary(config: &RecipeConfig) -> (r: String)
    requires
        config.enrichments@.len() < usize::MAX,
    ensures
        r@ == config.model().summary(),
{
    let ghost model = config.model();
    let mut parts: Vec<String> = Vec::new();
    let search = config.search.as_str();
    part(&mut parts, !search.is_empty(), search_part(search));
    assert(texts(parts@) =~= part_if(
        model.search.len() > 0,
        "search="@ + debug_form(model.search),
    ));
    part(&mut parts, !config.advanced.as_str().is_empty(), "advanced filter".to_owned());
    let stages: usize = config.enrichments.len() + (if config.enrichment.as_str().is_empty() {
        0
    } else {
        1
    });
    part(&mut parts, stages > 0, stages_part(stages));
    part(&mut parts, !config.grouping.as_str().is_empty(), "grouping".to_owned());
    let mut pinned = decimal_text(config.pinned_columns.len() as u64);
    pinned.append(" pinned");
    part(&mut parts, config.pinned_columns.len() > 0, pinned);
    let window = match config.capture_time_policy {
        Some(CaptureTimePolicy::Recent { .. }) => "rolling window",
        _ => "fixed window",
    };
    part(&mut parts, config.capture_time_policy.is_some(), window.to_owned());
    assert(texts(parts@) == model.parts());
    if parts.len() == 0 {
        "no filters".to_owned()
    } else {
        join(&parts, " \u{b7} ")
    }
}

/// The regions of the buttons among the first `n`: the menu's own gives way to
/// the one that stands for what is hidden.
pub open spec fn button_regions(
    actions: Seq<RecipeDialogControl>,
    buttons: Seq<(usize, Rect)>,
    hides: bool,
    n: int,
) -> Seq<(Rect, RecipeDialogControl)>
    decreases n,
{
    if n <= 0 {
        seq![]
    } else {
        let before = button_regions(actions, buttons, hides, n - 1);
        let control = actions[buttons[n - 1].0 as int];
        if hides && control == RecipeDialogControl::More {
            before
        } else {
            before.push((buttons[n - 1].1, control))
        }
    }
}

/// Every region of the controls: the name field, the buttons, and the button
/// that stands for the hidden ones.
pub open spec fn control_regions(
    field: Option<Rect>,
    actions: Seq<RecipeDialogControl>,
    buttons: Seq<(usize, Rect)>,
    hides: bool,
    more: Option<Rect>,
) -> Seq<(Rect, RecipeDialogControl)> {
    let typed = match field {
        Some(rect) => seq![(rect, RecipeDialogControl::Input)],
        None => seq![],
    };
    let last = match more {
        Some(rect) => if hides {
            seq![(rect, RecipeDialogControl::More)]
        } else {
            seq![]
        },
        None => seq![],
    };
    typed + button_regions(actions, buttons, hides, buttons.len() as int) + last
}

/// The place the menu is anchored at: the last region of its button.
pub open spec fn menu_anchor(regions: Seq<(Rect, RecipeDialogControl)>) -> Option<Rect>
    decreases regions.len(),
{
    if regions.len() == 0 {
        None
    } else if regions.last().1 == RecipeDialogControl::More {
        Some(regions.last().0)
    } else {
        menu_anchor(regions.drop_last())
    }
}

/// Finds where the menu is anchored.
pub fn find_menu_anchor(regions: &Vec<(Rect, RecipeDialogControl)>) -> (r: Option<Rect>)
    ensures
        r == menu_anchor(regions@),
{
    let mut n: usize = regions.len();
    assert(regions@.take(n as int) =~= regions@);
    while n > 0
        invariant
            n <= regions@.len(),
            menu_anchor(regions@) == menu_anchor(regions@.take(n as int)),
        decreases n,
    {
        let region = &regions[n - 1];
        assert(regions@.take(n as int).last() == regions@[n - 1]);
        assert(regions@.take(n as int).drop_last() =~= regions@.take(n - 1));
        if region.1 == RecipeDialogControl::More {
            return Some(region.0);
        }
        n -= 1;
    }
    None
}

impl RecipesDialog {
    /// The regions of the controls of a frame.
    pub fn control_regions(
        &self,
        field: Option<Rect>,
        buttons: &Vec<(usize, Rect)>,
        hides: bool,
        more: Option<Rect>,
    ) -> (r: Vec<(Rect, RecipeDialogControl)>)
        requires
            forall|i: int|
                0 <= i < buttons@.len() ==> (#[trigger] buttons@[i]).0 < self.model().actions().len(),
        ensures
            r@ == control_regions(field, self.model().actions(), buttons@, hides, more),
    {
        let actions = self.action_controls();
        let mut out: Vec<(Rect, RecipeDialogControl)> = Vec::new();
        if let Some(rect) = field {
            out.push((rect, RecipeDialogControl::Input));
        }
        let ghost typed = out@;
        let mut i: usize = 0;
        assert(typed + button_regions(actions@, buttons@, hides, 0) =~= typed);
        while i < buttons.len()
            invariant
                i <= buttons@.len(),
                actions@ == self.model().actions(),
                forall|j: int| 0 <= j < buttons@.len() ==> (#[trigger] buttons@[j]).0 < actions@.len(),
                out@ == typed + button_regions(actions@, buttons@, hides, i as int),
            decreases buttons.len() - i,
        {
            let button = buttons[i];
            let control = actions[button.0];
            let ghost before = button_regions(actions@, buttons@, hides, i as int);
            if !hides || control != RecipeDialogControl::More {
                out.push((button.1, control));
                assert(out@ =~= typed + before.push((button.1, control)));
            }
            i += 1;
        }
        if hides {
            if let Some(rect) = more {
                out.push((rect, RecipeDialogControl::More));
            }
        }
        assert(out@ =~= control_regions(field, actions@, buttons@, hides, more));
        out
    }
}

/// The columns that an open menu asks for.
pub fn menu_width(labels: &Vec<String>) -> (r: u16)
    ensures
        r == {
            let widest = widest_of(texts(labels@), labels@.len() as int);
            if widest + 4 <= 65535 {
                greatest(widest + 4, 12)
            } else {
                12
            }
        },
{
    let longest: u16 = widest(labels);
    if longest <= 65531 {
        max16(longest + 4, 12)
    } else {
        12
    }
}

/// The shortcut of a command while the layer is open.
pub open spec fn shortcut_of(id: CommandId) -> Option<Seq<char>> {
    match id {
        CommandId::RecipeBrowse => Some("Alt-B"@),
        CommandId::RecipeSave => Some("Alt-S"@),
        CommandId::RecipeImport => Some("Alt-I"@),
        CommandId::RecipeExport => Some("Alt-E"@),
        CommandId::RecipeHistory => Some("Alt-H"@),
        CommandId::RecipeUpdate => Some("Alt-U"@),
        CommandId::RecipeApply => Some("Enter"@),
        CommandId::RecipeRefreshSuggestions => Some("Alt-G"@),
        CommandId::RecipeAdaptSuggestion => Some("Alt-A"@),
        CommandId::RecipeRejectSuggestion => Some("x"@),
        _ => None,
    }
}

pub fn recipe_command_shortcut(id: CommandId) -> (r: Option<&'static str>)
    ensures
        some_str(r) == shortcut_of(id),
{
    match id {
        CommandId::RecipeBrowse => Some("Alt-B"),
        CommandId::RecipeSave => Some("Alt-S"),
        CommandId::RecipeImport => Some("Alt-I"),
        CommandId::RecipeExport => Some("Alt-E"),
        CommandId::RecipeHistory => Some("Alt-H"),
        CommandId::RecipeUpdate => Some("Alt-U"),
        CommandId::RecipeApply => Some("Enter"),
        CommandId::RecipeRefreshSuggestions => Some("Alt-G"),
        CommandId::RecipeAdaptSuggestion => Some("Alt-A"),
        CommandId::RecipeRejectSuggestion => Some("x"),
        _ => None,
    }
}

/// The palette entries in order.
pub open spec fn recipe_commands() -> Seq<CommandId> {
    seq![
        CommandId::RecipeBrowse,
        CommandId::RecipeSave,
        CommandId::RecipeImport,
        CommandId::RecipeExport,
        CommandId::RecipeHistory,
        CommandId::RecipeUpdate,
        CommandId::RecipeApply,
        CommandId::RecipeRefreshSuggestions,
        CommandId::RecipeAdaptSuggestion,
        CommandId::RecipeRejectSuggestion,
    ]
}

/// The words of a palette entry: its name, what it does, and what else it is
/// found by.
pub open spec fn command_words(id: CommandId) -> (Seq<char>, Seq<char>, Seq<Seq<char>>) {
    match id {
        CommandId::RecipeBrowse => (
            "Browse recipes"@,
            "List saved recipes for this workspace"@,
            seq!["list recipes"@],
        ),
        CommandId::RecipeSave => (
            "Save recipe"@,
            "Save the active view's accepted settings as a recipe"@,
            seq!["store view"@],
        ),
        CommandId::RecipeImport => (
            "Import recipe"@,
            "Install a recipe TOML for review"@,
            seq!["load toml"@],
        ),
        CommandId::RecipeExport => (
            "Export recipe TOML"@,
            "Export the selected immutable recipe to a new file"@,
            seq!["write toml"@],
        ),
        CommandId::RecipeHistory => (
            "Recipe revision history"@,
            "Show earlier revisions of the selected recipe"@,
            seq!["revisions"@],
        ),
        CommandId::RecipeUpdate => (
            "Update selected recipe"@,
            "Save a new revision of the selected recipe"@,
            seq!["new revision"@],
        ),
        CommandId::RecipeApply => (
            "Apply selected recipe"@,
            "Apply the selected compatible recipe"@,
            seq!["load recipe"@, "use saved view"@],
        ),
        CommandId::RecipeRefreshSuggestions => (
            "Refresh recipe suggestions"@,
            "Rank similar-source recipes from bounded evidence"@,
            seq!["similar source"@, "recommend recipe"@],
        ),
        CommandId::RecipeAdaptSuggestion => (
            "Adapt suggested recipe with agent"@,
            "Open the agent with the suggestion's evidence"@,
            seq!["fix recipe"@],
        ),
        _ => (
            "Reject selected recipe suggestion"@,
            "Record rejection without deleting the saved recipe"@,
            seq!["dismiss suggestion"@],
        ),
    }
}

/// A palette entry of the layer.
pub open spec fn is_recipe_entry(entry: CommandEntry, id: CommandId, model: RecipesModel) -> bool {
    let (name, description, aliases) = command_words(id);
    &&& entry.spec.id == id
    &&& entry.spec.name@ == name
    &&& entry.spec.description@ == description
    &&& entry.spec.category@ == "Recipes"@
    &&& strs(entry.spec.aliases@) == aliases
    &&& some_str(entry.spec.shortcut) == if model.open {
        shortcut_of(id)
    } else {
        None
    }
    &&& some_str(entry.unavailable_reason) == if !model.open {
        Some("open Recipes first"@)
    } else if id == CommandId::RecipeApply && !model.mode.lists() {
        Some("open Recipes in browse mode first"@)
    } else {
        None
    }
}

/// The name, the description and the other names of a command.
fn command_text(id: CommandId) -> (r: (&'static str, &'static str, Vec<&'static str>))
    ensures
        command_words(id) == (r.0@, r.1@, strs(r.2@)),
{
    let r: (&'static str, &'static str, Vec<&'static str>) = match id {
        CommandId::RecipeBrowse => (
            "Browse recipes",
            "List saved recipes for this workspace",
            vec!["list recipes"],
        ),
        CommandId::RecipeSave => (
            "Save recipe",
            "Save the active view's accepted settings as a recipe",
            vec!["store view"],
        ),
        CommandId::RecipeImport => (
            "Import recipe",
            "Install a recipe TOML for review",
            vec!["load toml"],
        ),
        CommandId::RecipeExport => (
            "Export recipe TOML",
            "Export the selected immutable recipe to a new file",
            vec!["write toml"],
        ),
        CommandId::RecipeHistory => (
            "Recipe revision history",
            "Show earlier revisions of the selected recipe",
            vec!["revisions"],
        ),
        CommandId::RecipeUpdate => (
            "Update selected recipe",
            "Save a new revision of the selected recipe",
            vec!["new revision"],
        ),
        CommandId::RecipeApply => (
            "Apply selected recipe",
            "Apply the selected compatible recipe",
            vec!["load recipe", "use saved view"],
        ),
        CommandId::RecipeRefreshSuggestions => (
            "Refresh recipe suggestions",
            "Rank similar-source recipes from bounded evidence",
            vec!["similar source", "recommend recipe"],
        ),
        CommandId::RecipeAdaptSuggestion => (
            "Adapt suggested recipe with agent",
            "Open the agent with the suggestion's evidence",
            vec!["fix recipe"],
        ),
        _ => (
            "Reject selected recipe suggestion",
            "Record rejection without deleting the saved recipe",
            vec!["dismiss suggestion"],
        ),
    };
    assert(strs(r.2@) =~= command_words(id).2);
    r
}

impl RecipesDialog {
    fn entry(&self, id: CommandId) -> (r: CommandEntry)
        ensures
            is_recipe_entry(r, id, self.model()),
    {
        let (name, description, aliases) = command_text(id);
        CommandEntry {
            spec: CommandSpec {
                id,
                name,
                description,
                category: "Recipes",
                aliases,
                shortcut: if self.open {
                    recipe_command_shortcut(id)
                } else {
                    None
                },
            },
            unavailable_reason: if !self.open {
                Some("open Recipes first")
            } else if id == CommandId::RecipeApply && !self.state.mode.is_list() {
                Some("open Recipes in browse mode first")
            } else {
                None
            },
        }
    }

    /// The palette entries of the layer.
    pub fn commands(&self) -> (r: Vec<CommandEntry>)
        ensures
            r@.len() == recipe_commands().len(),
            forall|i: int|
                0 <= i < r@.len() ==> is_recipe_entry(
                    #[trigger] r@[i],
                    recipe_commands()[i],
                    self.model(),
                ),
    {
        let ids: Vec<CommandId> = vec![
            CommandId::RecipeBrowse,
            CommandId::RecipeSave,
            CommandId::RecipeImport,
            CommandId::RecipeExport,
            CommandId::RecipeHistory,
            CommandId::RecipeUpdate,
            CommandId::RecipeApply,
            CommandId::RecipeRefreshSuggestions,
            CommandId::RecipeAdaptSuggestion,
            CommandId::RecipeRejectSuggestion,
        ];
        assert(ids@ =~= recipe_commands());
        let mut entries: Vec<CommandEntry> = Vec::new();
        let mut i: usize = 0;
        while i < ids.len()
            invariant
                i <= ids@.len(),
                ids@ == recipe_commands(),
                entries@.len() == i,
                forall|j: int|
                    0 <= j < i ==> is_recipe_entry(#[trigger] entries@[j], ids@[j], self.model()),
            decreases ids.len() - i,
        {
            entries.push(self.entry(ids[i]));
            i += 1;
        }
        entries
    }
}

/// The columns that the notes are broken at.
pub fn note_width(policy_width: u16) -> (r: usize)
    ensures
        r == greatest(
            minus(greatest(minus(policy_width as int, 4), 1), PANE_INDENT as int),
            1,
        ),
{
    max16(content_estimate(policy_width).saturating_sub(PANE_INDENT), 1) as usize
}

} // verus!
