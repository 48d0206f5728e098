//! The Recipes layer and its History: whole definitions of a view, saved,
//! listed, applied, imported and exported.
//!
//! Every request carries the dialog's identity and its interaction revision, and
//! an answer is taken only by the dialog that still waits for it.

use crate::component::{
    control_edit, control_edit_for, move_index, place_from, place_or_start, ring_step, Action,
    CommandId, EditCommand, Edited, Event, LayerId, Open, Outbox, Outcome, Queue, RecipeDialogMode,
    Surface,
};
use crate::components::time::CaptureTimePolicy;
use crate::geometry::Rect;
use crate::input::{is_typed_char, KeyCode, KeyEvent, MouseEventKind};
use crate::text::{
    byte_count, byte_len, chars_of, copy_texts, decimal, decimal_text, has_control, is_control_char,
    same, some_text, texts, trim, trimmed,
};
use vstd::prelude::*;

pub mod frame;
pub mod laws;
pub mod render;
pub mod shown;

verus! {

/// The depth at which requests are refused.
pub const RECIPE_QUEUE_LIMIT: usize = 8;

/// The most requests that wait to be taken.
pub const RECIPE_OUTBOX_CAP: usize = 32;

/// The most recipes and suggestions that are shown.
pub const MAX_RECIPES: usize = 128;

pub const MAX_SUGGESTIONS: usize = 16;

impl RecipeDialogMode {
    /// The mode shows a list to pick from.
    pub open spec fn lists(self) -> bool {
        self == RecipeDialogMode::Browse || self == RecipeDialogMode::History
    }

    pub fn is_list(self) -> (r: bool)
        ensures
            r == self.lists(),
    {
        match self {
            RecipeDialogMode::Browse | RecipeDialogMode::History => true,
            _ => false,
        }
    }

    pub fn is_editable(self) -> (r: bool)
        ensures
            r == !self.lists(),
    {
        !self.is_list()
    }
}

#[derive(Clone, Copy, Debug, PartialEq, Eq, Structural)]
pub enum RecipeDialogControl {
    List,
    Input,
    Apply,
    Cancel,
    Adapt,
    Reject,
    Save,
    Update,
    History,
    More,
    Refresh,
    Mode(RecipeDialogMode),
}

/// What a recipe restores.
#[derive(Debug)]
pub struct RecipeConfig {
    pub search: String,
    pub advanced: String,
    pub enrichment: String,
    pub enrichments: Vec<String>,
    pub grouping: String,
    pub pinned_columns: Vec<String>,
    pub capture_time_policy: Option<CaptureTimePolicy>,
}

/// What a recipe restores, by what it says.
#[verifier::ext_equal]
pub struct ConfigModel {
    pub search: Seq<char>,
    pub advanced: Seq<char>,
    pub enrichment: Seq<char>,
    pub enrichments: Seq<Seq<char>>,
    pub grouping: Seq<char>,
    pub pinned_columns: Seq<Seq<char>>,
    pub capture_time_policy: Option<CaptureTimePolicy>,
}

impl RecipeConfig {
    pub open spec fn model(self) -> ConfigModel {
        ConfigModel {
            search: self.search@,
            advanced: self.advanced@,
            enrichment: self.enrichment@,
            enrichments: texts(self.enrichments@),
            grouping: self.grouping@,
            pinned_columns: texts(self.pinned_columns@),
            capture_time_policy: self.capture_time_policy,
        }
    }

    fn copy(&self) -> (r: RecipeConfig)
        ensures
            r.model() == self.model(),
    {
        RecipeConfig {
            search: self.search.clone(),
            advanced: self.advanced.clone(),
            enrichment: self.enrichment.clone(),
            enrichments: copy_texts(&self.enrichments),
            grouping: self.grouping.clone(),
            pinned_columns: copy_texts(&self.pinned_columns),
            capture_time_policy: self.capture_time_policy,
        }
    }
}

/// A saved recipe in one of its revisions.
#[derive(Debug)]
pub struct RecipeItem {
    pub id: String,
    pub name: String,
    pub revision: String,
    pub config: RecipeConfig,
    /// Why it cannot be applied here.
    pub incompatibility: Option<String>,
    pub saved_at_unix_nanos: Option<i64>,
}

/// A recipe that fits a similar source, with the evidence for it.
#[derive(Debug)]
pub struct RecipeSuggestion {
    pub recipe_id: String,
    pub evidence: Vec<String>,
    pub missing_fields: Vec<String>,
}

/// Which dialog asked, in which state of it, and for what.
#[derive(Clone, Copy, Debug, PartialEq, Eq, Structural)]
pub struct RecipeRequestMeta {
    pub request_id: u64,
    pub dialog_id: u64,
    pub dialog_revision: u64,
}

/// What became of a suggestion.
#[derive(Debug, PartialEq, Eq)]
pub struct RecipeOutcome {
    pub source_id: String,
    pub recipe_id: String,
    pub revision: String,
    pub accepted: bool,
}

#[derive(Debug)]
pub enum RecipeRequest {
    List { meta: RecipeRequestMeta },
    History { meta: RecipeRequestMeta, recipe_id: String },
    Import { meta: RecipeRequestMeta, path: String },
    Export { meta: RecipeRequestMeta, path: String, recipe_id: String, revision: String },
    Save {
        /// The recipe and the revision that a new revision follows.
        update: Option<(String, String)>,
        meta: RecipeRequestMeta,
        name: String,
        view_id: String,
        config: RecipeConfig,
    },
    Outcome(RecipeOutcome),
}

/// A request by what it says.
pub enum RecipeAsk {
    List { meta: RecipeRequestMeta },
    History { meta: RecipeRequestMeta, recipe_id: Seq<char> },
    Import { meta: RecipeRequestMeta, path: Seq<char> },
    Export {
        meta: RecipeRequestMeta,
        path: Seq<char>,
        recipe_id: Seq<char>,
        revision: Seq<char>,
    },
    Save {
        update: Option<(Seq<char>, Seq<char>)>,
        meta: RecipeRequestMeta,
        name: Seq<char>,
        view_id: Seq<char>,
        config: ConfigModel,
    },
    Outcome {
        source_id: Seq<char>,
        recipe_id: Seq<char>,
        revision: Seq<char>,
        accepted: bool,
    },
}

/// What a request says.
pub open spec fn ask_of(request: RecipeRequest) -> RecipeAsk {
    match request {
        RecipeRequest::List { meta } => RecipeAsk::List { meta },
        RecipeRequest::History { meta, recipe_id } => RecipeAsk::History {
            meta,
            recipe_id: recipe_id@,
        },
        RecipeRequest::Import { meta, path } => RecipeAsk::Import { meta, path: path@ },
        RecipeRequest::Export { meta, path, recipe_id, revision } => RecipeAsk::Export {
            meta,
            path: path@,
            recipe_id: recipe_id@,
            revision: revision@,
        },
        RecipeRequest::Save { update, meta, name, view_id, config } => RecipeAsk::Save {
            update: match update {
                Some((id, revision)) => Some((id@, revision@)),
                None => None,
            },
            meta,
            name: name@,
            view_id: view_id@,
            config: config.model(),
        },
        RecipeRequest::Outcome(outcome) => RecipeAsk::Outcome {
            source_id: outcome.source_id@,
            recipe_id: outcome.recipe_id@,
            revision: outcome.revision@,
            accepted: outcome.accepted,
        },
    }
}

/// How the layer is opened. Browsing starts a new dialog; the others go on with
/// the one that is there.
#[derive(Debug)]
pub enum RecipesOpen {
    Browse,
    Mode(RecipeDialogMode),
    History { recipe_id: String, recipe_name: String },
}

/// Everything the layer draws that can be clicked.
#[derive(Clone, Copy, Debug, PartialEq, Eq, Structural)]
pub enum RecipeHit {
    /// A row of the open menu, which is on top.
    Menu(usize),
    Row(usize),
    Control(RecipeDialogControl),
}

/// Where the last frame drew what can be clicked.
#[derive(Debug)]
pub struct RecipeGeometry {
    pub controls: Vec<(Rect, RecipeDialogControl)>,
    pub rows: Vec<(Rect, usize)>,
    pub menu: Vec<(Rect, usize)>,
}

impl RecipeGeometry {
    /// Nothing was drawn.
    pub open spec fn blank(self) -> bool {
        self.controls@.len() == 0 && self.rows@.len() == 0 && self.menu@.len() == 0
    }
}

impl Default for RecipeGeometry {
    fn default() -> (r: RecipeGeometry)
        ensures
            r.blank(),
    {
        RecipeGeometry { controls: Vec::new(), rows: Vec::new(), menu: Vec::new() }
    }
}

/// The dialog's own data.
#[derive(Debug)]
pub struct RecipeDialogState {
    pub id: u64,
    pub interaction_revision: u64,
    pub pending_request_id: Option<u64>,
    pub mode: RecipeDialogMode,
    pub control: RecipeDialogControl,
    pub name: String,
    pub items: Vec<RecipeItem>,
    pub suggestions: Vec<RecipeSuggestion>,
    pub selected: usize,
    pub status: String,
    pub loading: bool,
    pub menu_open: bool,
    pub menu_selected: usize,
}

#[derive(Debug)]
pub struct RecipesDialog {
    open: bool,
    state: RecipeDialogState,
    next_id: u64,
    recipe_id: String,
    recipe_name: String,
    cursor: usize,
    geometry: RecipeGeometry,
    surface: Surface,
    pub outbox: Outbox<RecipeRequest>,
}

/// What the layer asks the shell to do, or how it answers.
#[derive(Debug, PartialEq, Eq)]
pub enum RecipeStep {
    Done(Outcome),
    /// Apply a command to the name field.
    Edit(EditCommand),
    /// Apply the recipe at a place of the list; where it was suggested, that it
    /// was accepted is told once it is applied.
    Apply { item: usize, accepted: Option<RecipeOutcome> },
}

/// What the layer reads of the world around it: the view and the source that
/// are shown, the settings applied to the view, and which of its actions the
/// frame has no room for.
#[derive(Clone, Copy, Debug)]
pub struct RecipesContext<'a> {
    pub view_id: &'a Option<String>,
    pub source_id: &'a Option<String>,
    pub applied: &'a RecipeConfig,
    pub overflow: &'a Vec<usize>,
    pub max_bytes: usize,
}

/// The state of the layer.
#[verifier::ext_equal]
pub struct RecipesModel {
    pub open: bool,
    pub id: int,
    pub revision: int,
    pub pending: Option<u64>,
    pub mode: RecipeDialogMode,
    pub control: RecipeDialogControl,
    pub name: Seq<char>,
    pub items: Seq<RecipeItem>,
    pub suggestions: Seq<RecipeSuggestion>,
    pub selected: int,
    pub status: Seq<char>,
    pub loading: bool,
    pub menu_open: bool,
    pub menu_selected: int,
    pub next_id: int,
    pub recipe_id: Seq<char>,
    pub recipe_name: Seq<char>,
    pub cursor: int,
    pub geometry: RecipeGeometry,
    pub surface: Surface,
    pub queue: Queue<RecipeAsk>,
}

/// The first suggestion for a recipe.
pub open spec fn suggestion_for(suggestions: Seq<RecipeSuggestion>, id: Seq<char>, from: int) -> Option<
    int,
>
    decreases suggestions.len() - from,
{
    if from < 0 || from >= suggestions.len() {
        None
    } else if suggestions[from].recipe_id@ == id {
        Some(from)
    } else {
        suggestion_for(suggestions, id, from + 1)
    }
}

/// The suggestions but for those for a recipe.
pub open spec fn without_recipe(suggestions: Seq<RecipeSuggestion>, id: Seq<char>) -> Seq<
    RecipeSuggestion,
>
    decreases suggestions.len(),
{
    if suggestions.len() == 0 {
        seq![]
    } else {
        let rest = without_recipe(suggestions.drop_last(), id);
        if suggestions.last().recipe_id@ != id {
            rest.push(suggestions.last())
        } else {
            rest
        }
    }
}

/// A control, where it is there.
pub open spec fn one_if(there: bool, control: RecipeDialogControl) -> Seq<RecipeDialogControl> {
    if there {
        seq![control]
    } else {
        seq![]
    }
}

/// A number that is one more, as far as there is one.
pub open spec fn one_more(n: int) -> int {
    if n < u64::MAX {
        n + 1
    } else {
        n
    }
}

impl RecipesModel {
    pub open spec fn said(self, status: Seq<char>) -> RecipesModel {
        RecipesModel { status, ..self }
    }

    pub open spec fn asked(self, ask: RecipeAsk) -> RecipesModel {
        RecipesModel { queue: self.queue.put(ask), ..self }
    }

    pub open spec fn touched(self) -> RecipesModel {
        RecipesModel { revision: one_more(self.revision), ..self }
    }

    pub open spec fn queue_full(self) -> bool {
        self.queue.items.len() >= RECIPE_QUEUE_LIMIT
    }

    /// The identity of the next request.
    pub open spec fn meta(self) -> RecipeRequestMeta {
        RecipeRequestMeta {
            request_id: self.next_id as u64,
            dialog_id: self.id as u64,
            dialog_revision: self.revision as u64,
        }
    }

    /// The dialog waits for the request that comes next.
    pub open spec fn waiting(self) -> RecipesModel {
        RecipesModel {
            next_id: one_more(self.next_id),
            pending: Some(self.next_id as u64),
            loading: true,
            ..self
        }
    }

    /// The list is asked for.
    pub open spec fn listing(self) -> RecipesModel {
        self.waiting().asked(RecipeAsk::List { meta: self.meta() })
    }

    /// An answer is for the dialog as it is.
    pub open spec fn fences(self, meta: RecipeRequestMeta) -> bool {
        self.open && self.id == meta.dialog_id && self.revision == meta.dialog_revision
            && self.pending == Some(meta.request_id)
    }

    pub open spec fn selected_item(self) -> Option<RecipeItem> {
        if 0 <= self.selected < self.items.len() {
            Some(self.items[self.selected])
        } else {
            None
        }
    }

    /// The suggestion for the selected recipe.
    pub open spec fn suggestion(self) -> Option<int> {
        match self.selected_item() {
            Some(item) => suggestion_for(self.suggestions, item.id@, 0),
            None => None,
        }
    }

    /// A recipe can be acted on: one is selected in a list that is loaded.
    pub open spec fn has_loaded_selection(self) -> bool {
        !self.loading && self.selected_item() is Some
    }

    /// Another mode of the dialog, unless too many requests wait or there is no
    /// recipe to update.
    pub open spec fn mode_selected(self, mode: RecipeDialogMode) -> RecipesModel {
        if self.queue_full() {
            self.said("recipe request queue is full"@)
        } else if mode == RecipeDialogMode::Update && !self.has_loaded_selection() {
            self.said("select a loaded recipe first"@)
        } else {
            let named = if mode == RecipeDialogMode::Update {
                let name = self.items[self.selected].name@;
                RecipesModel { name, cursor: name.len() as int, ..self }
            } else if mode == RecipeDialogMode::Export && self.mode != mode {
                RecipesModel { name: Seq::empty(), cursor: 0, ..self }
            } else {
                self
            };
            let turned = RecipesModel {
                mode,
                control: if mode.lists() {
                    RecipeDialogControl::List
                } else {
                    RecipeDialogControl::Input
                },
                loading: false,
                pending: None,
                status: Seq::empty(),
                ..named
            }.touched();
            if mode == RecipeDialogMode::Browse {
                turned.listing()
            } else {
                turned
            }
        }
    }

    /// The revisions of the selected recipe are shown in their own layer; from
    /// there, the other modes are shown in theirs.
    pub open spec fn switched(self, mode: RecipeDialogMode) -> (RecipesModel, RecipeStep) {
        let stays = RecipeStep::Done(Outcome::Consumed);
        if mode == RecipeDialogMode::History {
            if self.queue_full() {
                (self.said("recipe request queue is full"@), stays)
            } else if !self.has_loaded_selection() {
                (self.said("select a loaded recipe first"@), stays)
            } else {
                let item = self.items[self.selected];
                (
                    self,
                    RecipeStep::Done(
                        Outcome::Replace(
                            Open::RecipeHistory { recipe_id: item.id, recipe_name: item.name },
                        ),
                    ),
                )
            }
        } else if self.mode == RecipeDialogMode::History {
            if self.queue_full() {
                (self.said("recipe request queue is full"@), stays)
            } else if mode == RecipeDialogMode::Update && !self.has_loaded_selection() {
                (self.said("select a loaded recipe first"@), stays)
            } else {
                (self, RecipeStep::Done(Outcome::Replace(Open::Recipes { mode })))
            }
        } else {
            (self.mode_selected(mode), stays)
        }
    }

    pub open spec fn suggestions_refreshed(self) -> RecipesModel {
        if self.mode != RecipeDialogMode::Browse || self.queue_full() {
            self
        } else {
            self.touched().said("refreshing similar-source suggestions\u{2026}"@).listing()
        }
    }

    /// The suggestion for the selected recipe is turned down; the recipe stays.
    pub open spec fn suggestion_rejected(self, source_id: Option<Seq<char>>) -> RecipesModel {
        if source_id is None || self.suggestion() is None {
            self
        } else {
            let item = self.items[self.selected];
            RecipesModel {
                suggestions: without_recipe(self.suggestions, item.id@),
                ..self.asked(
                    RecipeAsk::Outcome {
                        source_id: source_id->0,
                        recipe_id: item.id@,
                        revision: item.revision@,
                        accepted: false,
                    },
                ).said("suggestion rejected; recipe remains available"@)
            }
        }
    }

    /// A suggestion that can be applied is handed to the agent.
    pub open spec fn adapting(self, view_id: Option<Seq<char>>) -> RecipeStep {
        if self.suggestion() is None || self.items[self.selected].incompatibility is Some
            || view_id is None {
            RecipeStep::Done(Outcome::Consumed)
        } else {
            RecipeStep::Done(
                Outcome::Legacy(
                    Action::AdaptRecipe {
                        item: self.selected as usize,
                        suggestion: self.suggestion()->0 as usize,
                    },
                ),
            )
        }
    }

    /// In a list the selected recipe is applied; in another mode its request is
    /// made with the name that was typed.
    pub open spec fn submitted(
        self,
        view_id: Option<Seq<char>>,
        config: ConfigModel,
    ) -> RecipesModel {
        let name = trimmed(self.name);
        let ready = name.len() > 0 && !self.queue_full();
        if self.mode.lists() {
            match self.selected_item() {
                Some(item) => match item.incompatibility {
                    Some(why) => self.said(why@),
                    None => self,
                },
                None => self,
            }
        } else if view_id is None {
            self
        } else if !ready {
            self.said("enter a recipe name or select a recipe"@)
        } else {
            match self.mode {
                RecipeDialogMode::Import => self.waiting().asked(
                    RecipeAsk::Import { meta: self.meta(), path: name },
                ).said("importing for review\u{2026}"@),
                RecipeDialogMode::Export => match self.selected_item() {
                    Some(item) => self.waiting().asked(
                        RecipeAsk::Export {
                            meta: self.meta(),
                            path: name,
                            recipe_id: item.id@,
                            revision: item.revision@,
                        },
                    ).said("exporting reviewed revision\u{2026}"@),
                    None => self.said("select a saved recipe before exporting"@),
                },
                _ => self.waiting().asked(
                    RecipeAsk::Save {
                        update: if self.mode == RecipeDialogMode::Update {
                            match self.selected_item() {
                                Some(item) => Some((item.id@, item.revision@)),
                                None => None,
                            }
                        } else {
                            None
                        },
                        meta: self.meta(),
                        name,
                        view_id: view_id->0,
                        config,
                    },
                ).said("saving recipe\u{2026}"@),
            }
        }
    }

    /// Whether submitting applies the selected recipe.
    pub open spec fn applies(self, view_id: Option<Seq<char>>) -> bool {
        &&& self.mode.lists()
        &&& self.selected_item() is Some
        &&& self.selected_item()->0.incompatibility is None
        &&& view_id is Some
    }

    /// A recipe was applied, or could not be: then it stays as it is.
    pub open spec fn apply_answered(self, applied: bool) -> (RecipesModel, Outcome) {
        if applied {
            (RecipesModel { open: false, ..self }, Outcome::Close)
        } else {
            (
                self.said("query queue is full; recipe draft was preserved"@),
                Outcome::Consumed,
            )
        }
    }

    pub open spec fn menu_toggled(self) -> RecipesModel {
        RecipesModel {
            menu_open: !self.menu_open,
            menu_selected: 0,
            control: RecipeDialogControl::More,
            ..self
        }
    }

    pub open spec fn menu_closed(self) -> RecipesModel {
        RecipesModel { menu_open: false, menu_selected: 0, ..self }
    }

    /// The buttons in drawn order.
    pub open spec fn actions(self) -> Seq<RecipeDialogControl> {
        let browse = self.mode == RecipeDialogMode::Browse;
        let suggested = self.suggestion() is Some;
        if self.mode.lists() {
            seq![RecipeDialogControl::Apply] + one_if(suggested, RecipeDialogControl::Adapt)
                + one_if(suggested, RecipeDialogControl::Reject) + one_if(
                browse,
                RecipeDialogControl::Save,
            ) + one_if(browse, RecipeDialogControl::Update) + one_if(
                browse,
                RecipeDialogControl::History,
            ) + one_if(browse, RecipeDialogControl::More)
        } else {
            seq![RecipeDialogControl::Apply, RecipeDialogControl::Cancel]
        }
    }

    /// The controls in the order of the focus: the list, the name it feeds, and
    /// the buttons.
    pub open spec fn controls(self) -> Seq<RecipeDialogControl> {
        one_if(
            self.mode.lists() || self.mode == RecipeDialogMode::Export,
            RecipeDialogControl::List,
        ) + seq![RecipeDialogControl::Input] + self.actions()
    }

    /// The rows of the menu: the buttons the frame has no room for, in their
    /// order, and then the standing ones.
    pub open spec fn menu(self, overflow: Seq<usize>) -> Seq<RecipeDialogControl> {
        hidden_controls(self.actions(), overflow, overflow.len() as int) + standing_controls()
    }

    pub open spec fn moved(self, delta: int, overflow: Seq<usize>) -> RecipesModel {
        if self.menu_open {
            RecipesModel {
                menu_selected: ring_step(
                    self.menu_selected,
                    self.menu(overflow).len() as int,
                    delta,
                ),
                ..self
            }
        } else {
            RecipesModel {
                selected: ring_step(self.selected, self.items.len() as int, delta),
                ..self
            }.touched()
        }
    }

    pub open spec fn row_selected(self, index: int) -> RecipesModel {
        if index < self.items.len() {
            RecipesModel { selected: index, ..self }.touched()
        } else {
            self
        }
    }

    pub open spec fn focused(self, control: RecipeDialogControl) -> RecipesModel {
        if self.controls().contains(control) {
            RecipesModel { control, ..self }
        } else {
            self
        }
    }

    pub open spec fn focus_moved(self, delta: int) -> RecipesModel {
        let list = self.controls();
        RecipesModel {
            control: list[ring_step(
                place_or_start(list, self.control),
                list.len() as int,
                delta,
            )],
            ..self
        }
    }

    /// The name field takes text.
    pub open spec fn edits(self) -> bool {
        !self.mode.lists() && self.control == RecipeDialogControl::Input
    }

    pub open spec fn edited(self, value: Seq<char>, cursor: int, changed: bool) -> RecipesModel {
        if !self.edits() {
            self
        } else {
            let typed = RecipesModel { name: value, cursor, ..self };
            if changed {
                typed.touched()
            } else {
                typed
            }
        }
    }
}

/// The standing rows of the menu.
pub open spec fn standing_controls() -> Seq<RecipeDialogControl> {
    seq![
        RecipeDialogControl::Mode(RecipeDialogMode::Import),
        RecipeDialogControl::Mode(RecipeDialogMode::Export),
        RecipeDialogControl::Refresh,
    ]
}

/// The buttons among the first `n` hidden ones, but for the menu's own.
pub open spec fn hidden_controls(
    actions: Seq<RecipeDialogControl>,
    overflow: Seq<usize>,
    n: int,
) -> Seq<RecipeDialogControl>
    decreases n,
{
    if n <= 0 {
        seq![]
    } else {
        let before = hidden_controls(actions, overflow, n - 1);
        let index = overflow[n - 1] as int;
        if index < actions.len() && actions[index] != RecipeDialogControl::More {
            before.push(actions[index])
        } else {
            before
        }
    }
}

/// What the layer reads of the world around it.
pub struct RecipesRead {
    pub view_id: Option<Seq<char>>,
    pub source_id: Option<Seq<char>>,
    pub source: Option<String>,
    pub applied: ConfigModel,
    pub overflow: Seq<usize>,
    pub max_bytes: int,
}

impl RecipesContext<'_> {
    pub open spec fn read(self) -> RecipesRead {
        RecipesRead {
            view_id: some_text(*self.view_id),
            source_id: some_text(*self.source_id),
            source: *self.source_id,
            applied: self.applied.model(),
            overflow: self.overflow@,
            max_bytes: self.max_bytes as int,
        }
    }
}

impl RecipesModel {
    /// What is told of a suggestion once its recipe is applied.
    pub open spec fn acceptance(self, source: Option<String>) -> Option<RecipeOutcome> {
        if source is Some && self.suggestion() is Some {
            let item = self.items[self.selected];
            Some(
                RecipeOutcome {
                    source_id: source->0,
                    recipe_id: item.id,
                    revision: item.revision,
                    accepted: true,
                },
            )
        } else {
            None
        }
    }

    pub open spec fn after_submit(self, read: RecipesRead) -> (RecipesModel, RecipeStep) {
        (
            self.submitted(read.view_id, read.applied),
            if self.applies(read.view_id) {
                RecipeStep::Apply {
                    item: self.selected as usize,
                    accepted: self.acceptance(read.source),
                }
            } else {
                RecipeStep::Done(Outcome::Consumed)
            },
        )
    }

    /// A button is pressed.
    pub open spec fn run(self, control: RecipeDialogControl, read: RecipesRead) -> (
        RecipesModel,
        RecipeStep,
    ) {
        let done = RecipeStep::Done(Outcome::Consumed);
        match control {
            RecipeDialogControl::Adapt => (self, self.adapting(read.view_id)),
            RecipeDialogControl::Reject => (self.suggestion_rejected(read.source_id), done),
            RecipeDialogControl::Save => self.switched(RecipeDialogMode::Save),
            RecipeDialogControl::Update => self.switched(RecipeDialogMode::Update),
            RecipeDialogControl::History => self.switched(RecipeDialogMode::History),
            RecipeDialogControl::Cancel => self.switched(RecipeDialogMode::Browse),
            RecipeDialogControl::More => (self.menu_toggled(), done),
            _ => self.after_submit(read),
        }
    }

    /// A row of the menu is taken.
    pub open spec fn menu_chosen(self, index: int, read: RecipesRead) -> (RecipesModel, RecipeStep) {
        let rows = self.menu(read.overflow);
        let closed = self.menu_closed();
        let done = RecipeStep::Done(Outcome::Consumed);
        if index < 0 || index >= rows.len() {
            (closed, done)
        } else {
            match rows[index] {
                RecipeDialogControl::Mode(mode) => closed.switched(mode),
                RecipeDialogControl::Refresh => (closed.suggestions_refreshed(), done),
                control => closed.run(control, read),
            }
        }
    }

    /// Enter: an open menu takes its row; else the control that has the focus
    /// does its work.
    pub open spec fn activated(self, read: RecipesRead) -> (RecipesModel, RecipeStep) {
        if self.menu_open {
            self.menu_chosen(self.menu_selected, read)
        } else {
            match self.control {
                RecipeDialogControl::Mode(mode) => self.switched(mode),
                RecipeDialogControl::Refresh => (
                    self.suggestions_refreshed(),
                    RecipeStep::Done(Outcome::Consumed),
                ),
                control => self.run(control, read),
            }
        }
    }

    pub open spec fn edit_step(self, command: EditCommand) -> (RecipesModel, RecipeStep) {
        if self.edits() {
            (self, RecipeStep::Edit(command))
        } else {
            (self, RecipeStep::Done(Outcome::Consumed))
        }
    }

    /// The keys with Alt.
    pub open spec fn after_alt(self, ch: char, read: RecipesRead) -> Option<(RecipesModel, RecipeStep)> {
        if ch == 'a' {
            Some((self, self.adapting(read.view_id)))
        } else if ch == 'g' {
            Some((self.suggestions_refreshed(), RecipeStep::Done(Outcome::Consumed)))
        } else if ch == 'h' {
            Some(self.switched(RecipeDialogMode::History))
        } else if ch == 'u' {
            Some(self.switched(RecipeDialogMode::Update))
        } else if ch == 's' {
            Some(self.switched(RecipeDialogMode::Save))
        } else if ch == 'b' {
            Some(self.switched(RecipeDialogMode::Browse))
        } else if ch == 'i' {
            Some(self.switched(RecipeDialogMode::Import))
        } else if ch == 'e' {
            Some(self.switched(RecipeDialogMode::Export))
        } else {
            None
        }
    }

    pub open spec fn after_key(self, key: KeyEvent, read: RecipesRead) -> (RecipesModel, RecipeStep) {
        let done = RecipeStep::Done(Outcome::Consumed);
        let ignored = RecipeStep::Done(Outcome::Ignored);
        if !key.spec_is_active() {
            (self, ignored)
        } else if key.modifiers.control && control_edit(key.code) is Some {
            self.edit_step(control_edit(key.code)->0)
        } else {
            match key.code {
                KeyCode::Tab => (
                    self.focus_moved(
                        if key.modifiers.shift {
                            -1
                        } else {
                            1
                        },
                    ),
                    done,
                ),
                KeyCode::BackTab => (self.focus_moved(-1), done),
                KeyCode::Up => (self.moved(-1, read.overflow), done),
                KeyCode::Down => (self.moved(1, read.overflow), done),
                KeyCode::Enter => self.activated(read),
                KeyCode::Backspace => self.edit_step(EditCommand::Backspace),
                KeyCode::Char(ch) => if key.modifiers.alt && self.after_alt(ch, read) is Some {
                    self.after_alt(ch, read)->0
                } else if ch == 'x' {
                    (self.suggestion_rejected(read.source_id), done)
                } else if key.modifiers.plain() {
                    self.edit_step(EditCommand::Insert(ch))
                } else {
                    (self, ignored)
                },
                _ => (self, ignored),
            }
        }
    }

    pub open spec fn after_mouse(
        self,
        kind: MouseEventKind,
        hit: Option<RecipeHit>,
        read: RecipesRead,
    ) -> (RecipesModel, RecipeStep) {
        let done = RecipeStep::Done(Outcome::Consumed);
        match kind {
            MouseEventKind::LeftDown => match hit {
                Some(RecipeHit::Menu(index)) => self.menu_chosen(index as int, read),
                Some(RecipeHit::Row(index)) => (
                    self.focused(RecipeDialogControl::List).row_selected(index as int),
                    done,
                ),
                Some(RecipeHit::Control(control)) => if control == RecipeDialogControl::Input
                    || control == RecipeDialogControl::List {
                    (self.focused(control), done)
                } else {
                    self.focused(control).activated(read)
                },
                None => (self, done),
            },
            MouseEventKind::ScrollUp => (self.moved(-1, read.overflow), done),
            MouseEventKind::ScrollDown => (self.moved(1, read.overflow), done),
            MouseEventKind::Other => (self, done),
        }
    }

    /// A pasted text that the name field cannot take.
    pub open spec fn paste_refused(self, text: Seq<char>, max_bytes: int) -> bool {
        (exists|i: int| 0 <= i < text.len() && is_control_char(#[trigger] text[i])) || byte_count(
            self.name,
        ) + byte_count(text) > max_bytes
    }

    pub open spec fn pasted(self, text: Seq<char>, max_bytes: int) -> (RecipesModel, RecipeStep) {
        let done = RecipeStep::Done(Outcome::Consumed);
        if !self.edits() {
            (self, done)
        } else if self.paste_refused(text, max_bytes) {
            (self.said("recipe name/path must be a bounded single line"@), done)
        } else {
            (self, RecipeStep::Edit(EditCommand::InsertPasted))
        }
    }

    pub open spec fn after_command(self, id: CommandId, read: RecipesRead) -> (RecipesModel, RecipeStep) {
        let done = RecipeStep::Done(Outcome::Consumed);
        match id {
            CommandId::RecipeBrowse => self.switched(RecipeDialogMode::Browse),
            CommandId::RecipeSave => self.switched(RecipeDialogMode::Save),
            CommandId::RecipeImport => self.switched(RecipeDialogMode::Import),
            CommandId::RecipeExport => self.switched(RecipeDialogMode::Export),
            CommandId::RecipeUpdate => self.switched(RecipeDialogMode::Update),
            CommandId::RecipeHistory => self.switched(RecipeDialogMode::History),
            CommandId::RecipeApply => self.after_submit(read),
            CommandId::RecipeRefreshSuggestions => (self.suggestions_refreshed(), done),
            CommandId::RecipeAdaptSuggestion => (self, self.adapting(read.view_id)),
            CommandId::RecipeRejectSuggestion => (self.suggestion_rejected(read.source_id), done),
            _ => (self, RecipeStep::Done(Outcome::Ignored)),
        }
    }

    pub open spec fn dismissed(self) -> (RecipesModel, RecipeStep) {
        if self.menu_open {
            (self.menu_closed(), RecipeStep::Done(Outcome::Consumed))
        } else {
            (RecipesModel { open: false, ..self }, RecipeStep::Done(Outcome::Close))
        }
    }

    pub open spec fn after_event(self, event: Event<RecipeHit>, read: RecipesRead) -> (
        RecipesModel,
        RecipeStep,
    ) {
        match event {
            Event::Key(key) => self.after_key(key, read),
            Event::Paste(text) => self.pasted(text@, read.max_bytes),
            Event::Mouse { kind, hit } => self.after_mouse(kind, hit, read),
            Event::Dismiss => self.dismissed(),
            Event::Command(id) => self.after_command(id, read),
            _ => (self, RecipeStep::Done(Outcome::Ignored)),
        }
    }

    /// A new dialog asks for the list, unless too many requests wait.
    pub open spec fn browsed(self, geometry: RecipeGeometry) -> RecipesModel {
        let fresh = RecipesModel {
            open: true,
            id: self.next_id,
            revision: 0,
            pending: None,
            mode: RecipeDialogMode::Browse,
            control: RecipeDialogControl::List,
            name: Seq::empty(),
            items: Seq::empty(),
            suggestions: Seq::empty(),
            selected: 0,
            status: "loading recipes\u{2026}"@,
            loading: true,
            menu_open: false,
            menu_selected: 0,
            next_id: one_more(self.next_id),
            recipe_id: Seq::empty(),
            recipe_name: Seq::empty(),
            cursor: 0,
            geometry,
            ..self
        };
        if self.queue_full() {
            fresh
        } else {
            fresh.listing()
        }
    }

    /// The same dialog shows the revisions of a recipe.
    pub open spec fn history_shown(self, recipe_id: Seq<char>, recipe_name: Seq<char>) -> RecipesModel {
        let turned = RecipesModel {
            open: true,
            recipe_id,
            recipe_name,
            mode: RecipeDialogMode::History,
            control: RecipeDialogControl::List,
            loading: false,
            pending: None,
            status: Seq::empty(),
            ..self
        }.touched();
        if self.queue_full() {
            turned
        } else {
            RecipesModel {
                selected: 0,
                items: Seq::empty(),
                suggestions: Seq::empty(),
                ..turned.waiting()
            }.asked(RecipeAsk::History { meta: turned.meta(), recipe_id })
        }
    }

    /// The list came: at most so many recipes and suggestions of it are shown.
    pub open spec fn listed(
        self,
        meta: RecipeRequestMeta,
        items: Seq<RecipeItem>,
        suggestions: Seq<RecipeSuggestion>,
        error: Option<Seq<char>>,
    ) -> (RecipesModel, bool) {
        if !self.fences(meta) {
            (self, false)
        } else {
            let kept = if items.len() <= MAX_RECIPES {
                items
            } else {
                items.take(MAX_RECIPES as int)
            };
            let last = if kept.len() == 0 {
                0
            } else {
                kept.len() - 1
            };
            (
                RecipesModel {
                    items: kept,
                    suggestions: if suggestions.len() <= MAX_SUGGESTIONS {
                        suggestions
                    } else {
                        suggestions.take(MAX_SUGGESTIONS as int)
                    },
                    selected: if self.selected <= last {
                        self.selected
                    } else {
                        last
                    },
                    loading: false,
                    pending: None,
                    status: match error {
                        Some(error) => error,
                        None => if self.mode == RecipeDialogMode::History {
                            decimal(kept.len()) + " revisions (newest first; at most 100)"@
                        } else {
                            decimal(kept.len()) + " saved recipes"@
                        },
                    },
                    ..self
                },
                true,
            )
        }
    }

    /// A request was done or failed: the dialog that waited for it says so.
    pub open spec fn settled(self, meta: RecipeRequestMeta, message: Seq<char>) -> (RecipesModel, bool) {
        if self.fences(meta) {
            (RecipesModel { loading: false, pending: None, status: message, ..self }, true)
        } else {
            (self, false)
        }
    }

    /// A recipe was saved: the list is shown and asked for again.
    pub open spec fn save_done(self, meta: RecipeRequestMeta, message: Seq<char>) -> (RecipesModel, bool) {
        if self.fences(meta) {
            (
                RecipesModel { mode: RecipeDialogMode::Browse, status: message, ..self }.listing(),
                true,
            )
        } else {
            (self, false)
        }
    }
}

/// The label of a button.
pub open spec fn action_text(mode: RecipeDialogMode, control: RecipeDialogControl, ascii: bool) -> Seq<
    char,
> {
    match control {
        RecipeDialogControl::Apply => match mode {
            RecipeDialogMode::Save | RecipeDialogMode::Update => "Save revision"@,
            RecipeDialogMode::Import => "Review import"@,
            RecipeDialogMode::Export => "Export revision"@,
            RecipeDialogMode::History => "Apply revision"@,
            RecipeDialogMode::Browse => "Apply"@,
        },
        RecipeDialogControl::Cancel => "Cancel"@,
        RecipeDialogControl::Adapt => "&Adapt"@,
        RecipeDialogControl::Reject => "&Reject"@,
        RecipeDialogControl::Save => "&Save"@,
        RecipeDialogControl::Update => "&Update"@,
        RecipeDialogControl::History => "&History"@,
        _ => if ascii {
            "More v"@
        } else {
            "More \u{25be}"@
        },
    }
}

fn action_word(mode: RecipeDialogMode, control: RecipeDialogControl, ascii: bool) -> (r: &'static str)
    ensures
        r@ == action_text(mode, control, ascii),
{
    match control {
        RecipeDialogControl::Apply => match mode {
            RecipeDialogMode::Save | RecipeDialogMode::Update => "Save revision",
            RecipeDialogMode::Import => "Review import",
            RecipeDialogMode::Export => "Export revision",
            RecipeDialogMode::History => "Apply revision",
            RecipeDialogMode::Browse => "Apply",
        },
        RecipeDialogControl::Cancel => "Cancel",
        RecipeDialogControl::Adapt => "&Adapt",
        RecipeDialogControl::Reject => "&Reject",
        RecipeDialogControl::Save => "&Save",
        RecipeDialogControl::Update => "&Update",
        RecipeDialogControl::History => "&History",
        _ => if ascii {
            "More v"
        } else {
            "More \u{25be}"
        },
    }
}

/// The place of a control in a list, or the start.
fn control_place(list: &Vec<RecipeDialogControl>, control: RecipeDialogControl) -> (r: usize)
    ensures
        r == place_or_start(list@, control),
        r < list@.len() || r == 0,
{
    let mut i: usize = 0;
    while i < list.len()
        invariant
            i <= list@.len(),
            place_from(list@, control, 0) == place_from(list@, control, i as int),
        decreases list.len() - i,
    {
        if list[i] == control {
            return i;
        }
        i += 1;
    }
    0
}

fn has_control_in(list: &Vec<RecipeDialogControl>, control: RecipeDialogControl) -> (r: bool)
    ensures
        r == list@.contains(control),
{
    let mut i: usize = 0;
    while i < list.len()
        invariant
            i <= list@.len(),
            forall|j: int| 0 <= j < i ==> list@[j] != control,
        decreases list.len() - i,
    {
        if list[i] == control {
            return true;
        }
        i += 1;
    }
    false
}

/// The first suggestion for a recipe.
fn find_suggestion(suggestions: &Vec<RecipeSuggestion>, id: &str) -> (r: Option<usize>)
    ensures
        r matches Some(place) ==> suggestion_for(suggestions@, id@, 0) == Some(place as int) && place
            < suggestions@.len(),
        r is None ==> suggestion_for(suggestions@, id@, 0) is None,
{
    let mut i: usize = 0;
    while i < suggestions.len()
        invariant
            i <= suggestions@.len(),
            suggestion_for(suggestions@, id@, 0) == suggestion_for(suggestions@, id@, i as int),
        decreases suggestions.len() - i,
    {
        if same(suggestions[i].recipe_id.as_str(), id) {
            return Some(i);
        }
        i += 1;
    }
    None
}

/// Takes the suggestions for a recipe out.
fn drop_suggestions(suggestions: &mut Vec<RecipeSuggestion>, id: &str)
    ensures
        final(suggestions)@ == without_recipe(old(suggestions)@, id@),
{
    let ghost all = suggestions@;
    let mut i: usize = 0;
    let ghost mut seen: int = 0;
    assert(all.take(0) =~= seq![]);
    while i < suggestions.len()
        invariant
            i <= suggestions@.len(),
            0 <= seen <= all.len(),
            suggestions@.len() - i == all.len() - seen,
            suggestions@.take(i as int) == without_recipe(all.take(seen), id@),
            suggestions@.skip(i as int) == all.skip(seen),
        decreases suggestions.len() - i,
    {
        let ghost now = suggestions@;
        proof {
            assert(now[i as int] == now.skip(i as int)[0]);
            assert(all[seen] == all.skip(seen)[0]);
            assert(all.take(seen + 1).drop_last() =~= all.take(seen));
            assert(all.take(seen + 1).last() == all[seen]);
            assert(all.skip(seen + 1) =~= all.skip(seen).skip(1));
        }
        if same(suggestions[i].recipe_id.as_str(), id) {
            suggestions.remove(i);
            proof {
                assert(suggestions@.take(i as int) =~= now.take(i as int));
                assert(suggestions@.skip(i as int) =~= now.skip(i as int).skip(1));
            }
        } else {
            proof {
                assert(now.take(i + 1) =~= now.take(i as int).push(now[i as int]));
                assert(now.skip(i + 1) =~= now.skip(i as int).skip(1));
            }
            i += 1;
        }
        proof {
            seen = seen + 1;
        }
    }
    proof {
        assert(suggestions@.take(i as int) =~= suggestions@);
        assert(all.take(seen) =~= all);
    }
}

/// What the requests say, in order.
pub open spec fn asks(items: Seq<RecipeRequest>) -> Seq<RecipeAsk> {
    items.map_values(|request: RecipeRequest| ask_of(request))
}

impl RecipeDialogState {
    /// A dialog with nothing in it.
    fn blank(id: u64) -> (r: RecipeDialogState)
        ensures
            r.id == id,
            r.interaction_revision == 0,
            r.pending_request_id is None,
            r.mode == RecipeDialogMode::Browse,
            r.control == RecipeDialogControl::List,
            r.name@ == Seq::<char>::empty(),
            r.items@ == Seq::<RecipeItem>::empty(),
            r.suggestions@ == Seq::<RecipeSuggestion>::empty(),
            r.selected == 0,
            r.status@ == Seq::<char>::empty(),
            !r.loading,
            !r.menu_open,
            r.menu_selected == 0,
    {
        RecipeDialogState {
            id,
            interaction_revision: 0,
            pending_request_id: None,
            mode: RecipeDialogMode::Browse,
            control: RecipeDialogControl::List,
            name: String::new(),
            items: Vec::new(),
            suggestions: Vec::new(),
            selected: 0,
            status: String::new(),
            loading: false,
            menu_open: false,
            menu_selected: 0,
        }
    }
}

impl Default for RecipesDialog {
    fn default() -> (r: RecipesDialog)
        ensures
            r.model().geometry.blank(),
            r.model() == RecipesModel::initial(r.model().geometry),
    {
        let r = RecipesDialog {
            open: false,
            state: RecipeDialogState::blank(0),
            next_id: 1,
            recipe_id: String::new(),
            recipe_name: String::new(),
            cursor: 0,
            geometry: RecipeGeometry::default(),
            surface: Surface::default(),
            outbox: Outbox::new(RECIPE_OUTBOX_CAP),
        };
        assert(r.model() =~= RecipesModel::initial(r.model().geometry)) by {
            assert(asks(r.outbox@.items) =~= seq![]);
            assert(r.model().queue =~= Queue::<RecipeAsk>::empty(RECIPE_OUTBOX_CAP as int));
        }
        r
    }
}

impl RecipesModel {
    /// A closed layer that was never opened.
    pub open spec fn initial(geometry: RecipeGeometry) -> RecipesModel {
        RecipesModel {
            open: false,
            id: 0,
            revision: 0,
            pending: None,
            mode: RecipeDialogMode::Browse,
            control: RecipeDialogControl::List,
            name: Seq::empty(),
            items: Seq::empty(),
            suggestions: Seq::empty(),
            selected: 0,
            status: Seq::empty(),
            loading: false,
            menu_open: false,
            menu_selected: 0,
            next_id: 1,
            recipe_id: Seq::empty(),
            recipe_name: Seq::empty(),
            cursor: 0,
            geometry,
            surface: Surface::nothing(),
            queue: Queue::empty(RECIPE_OUTBOX_CAP as int),
        }
    }
}

impl RecipesDialog {
    pub closed spec fn model(&self) -> RecipesModel {
        RecipesModel {
            open: self.open,
            id: self.state.id as int,
            revision: self.state.interaction_revision as int,
            pending: self.state.pending_request_id,
            mode: self.state.mode,
            control: self.state.control,
            name: self.state.name@,
            items: self.state.items@,
            suggestions: self.state.suggestions@,
            selected: self.state.selected as int,
            status: self.state.status@,
            loading: self.state.loading,
            menu_open: self.state.menu_open,
            menu_selected: self.state.menu_selected as int,
            next_id: self.next_id as int,
            recipe_id: self.recipe_id@,
            recipe_name: self.recipe_name@,
            cursor: self.cursor as int,
            geometry: self.geometry,
            surface: self.surface,
            queue: Queue {
                items: asks(self.outbox@.items),
                cap: self.outbox@.cap,
                generation: self.outbox@.generation,
            },
        }
    }

    fn offer(&mut self, request: RecipeRequest)
        ensures
            final(self).model() == old(self).model().asked(ask_of(request)),
    {
        let ghost before = self.outbox@.items;
        let ghost ask = ask_of(request);
        let _ = self.outbox.push(request);
        proof {
            assert(asks(before.push(request)) =~= asks(before).push(ask));
            assert(self.model().queue =~= old(self).model().queue.put(ask));
        }
    }

    /// Draws the identity of the next request and waits for it.
    fn wait(&mut self) -> (r: RecipeRequestMeta)
        ensures
            r == old(self).model().meta(),
            final(self).model() == old(self).model().waiting(),
    {
        let request_id: u64 = self.next_id;
        self.next_id = self.next_id.saturating_add(1);
        self.state.pending_request_id = Some(request_id);
        self.state.loading = true;
        RecipeRequestMeta {
            request_id,
            dialog_id: self.state.id,
            dialog_revision: self.state.interaction_revision,
        }
    }

    fn ask_list(&mut self)
        ensures
            final(self).model() == old(self).model().listing(),
    {
        let meta = self.wait();
        self.offer(RecipeRequest::List { meta });
    }

    fn say(&mut self, status: &str)
        ensures
            final(self).model() == old(self).model().said(status@),
    {
        self.state.status = status.to_owned();
    }

    fn touch(&mut self)
        ensures
            final(self).model() == old(self).model().touched(),
    {
        self.state.interaction_revision = self.state.interaction_revision.saturating_add(1);
    }

    pub fn is_open(&self) -> (r: bool)
        ensures
            r == self.model().open,
    {
        self.open
    }

    /// Marks the layer open without asking for anything.
    pub fn open_for_test(&mut self)
        ensures
            final(self).model() == (RecipesModel { open: true, ..old(self).model() }),
    {
        self.open = true;
    }

    pub fn state(&self) -> (r: &RecipeDialogState)
        ensures
            r.id == self.model().id,
            r.interaction_revision == self.model().revision,
            r.pending_request_id == self.model().pending,
            r.mode == self.model().mode,
            r.control == self.model().control,
            r.name@ == self.model().name,
            r.items@ == self.model().items,
            r.suggestions@ == self.model().suggestions,
            r.selected == self.model().selected,
            r.status@ == self.model().status,
            r.loading == self.model().loading,
            r.menu_open == self.model().menu_open,
            r.menu_selected == self.model().menu_selected,
    {
        &self.state
    }

    pub fn control_rects(&self) -> (r: &Vec<(Rect, RecipeDialogControl)>)
        ensures
            *r == self.model().geometry.controls,
    {
        &self.geometry.controls
    }

    pub fn row_rects(&self) -> (r: &Vec<(Rect, usize)>)
        ensures
            *r == self.model().geometry.rows,
    {
        &self.geometry.rows
    }

    pub fn menu_rects(&self) -> (r: &Vec<(Rect, usize)>)
        ensures
            *r == self.model().geometry.menu,
    {
        &self.geometry.menu
    }

    /// The recipe whose revisions are shown, and its name.
    pub fn recipe(&self) -> (r: (&String, &String))
        ensures
            r.0@ == self.model().recipe_id,
            r.1@ == self.model().recipe_name,
    {
        (&self.recipe_id, &self.recipe_name)
    }

    pub fn cursor(&self) -> (r: usize)
        ensures
            r == self.model().cursor,
    {
        self.cursor
    }

    /// Hands out the requests that wait.
    pub fn take_requests(&mut self) -> (r: Vec<RecipeRequest>)
        ensures
            asks(r@) == old(self).model().queue.items,
            final(self).model() == (RecipesModel {
                queue: Queue { items: Seq::empty(), ..old(self).model().queue },
                ..old(self).model()
            }),
    {
        let r = self.outbox.drain();
        assert(asks(self.outbox@.items) =~= seq![]);
        assert(self.model().queue =~= (Queue { items: Seq::empty(), ..old(self).model().queue }));
        r
    }

    /// The layer that is shown.
    pub fn layer(&self) -> (r: LayerId)
        ensures
            r == if self.model().mode == RecipeDialogMode::History {
                LayerId::RecipeHistory
            } else {
                LayerId::Recipes
            },
    {
        if self.state.mode == RecipeDialogMode::History {
            LayerId::RecipeHistory
        } else {
            LayerId::Recipes
        }
    }

    fn fences(&self, meta: RecipeRequestMeta) -> (r: bool)
        ensures
            r == self.model().fences(meta),
    {
        let waits = match self.state.pending_request_id {
            Some(id) => id == meta.request_id,
            None => false,
        };
        self.open && self.state.id == meta.dialog_id && self.state.interaction_revision
            == meta.dialog_revision && waits
    }

    /// The answer to a list or a history.
    pub fn set_recipes(
        &mut self,
        meta: RecipeRequestMeta,
        items: Vec<RecipeItem>,
        suggestions: Vec<RecipeSuggestion>,
        error: Option<String>,
    ) -> (r: bool)
        ensures
            (final(self).model(), r) == old(self).model().listed(
                meta,
                items@,
                suggestions@,
                some_text(error),
            ),
    {
        if !self.fences(meta) {
            return false;
        }
        let ghost all_items = items@;
        let ghost all_suggestions = suggestions@;
        let mut items = items;
        let mut suggestions = suggestions;
        items.truncate(MAX_RECIPES);
        suggestions.truncate(MAX_SUGGESTIONS);
        let count: usize = items.len();
        let last: usize = count.saturating_sub(1);
        if self.state.selected > last {
            self.state.selected = last;
        }
        self.state.items = items;
        self.state.suggestions = suggestions;
        self.state.loading = false;
        self.state.pending_request_id = None;
        self.state.status = match error {
            Some(error) => error,
            None => {
                let mut text = decimal_text(count as u64);
                text.append(
                    if self.state.mode == RecipeDialogMode::History {
                        " revisions (newest first; at most 100)"
                    } else {
                        " saved recipes"
                    },
                );
                text
            },
        };
        assert(self.model() =~= old(self).model().listed(
            meta,
            all_items,
            all_suggestions,
            some_text(error),
        ).0);
        true
    }

    fn settle(&mut self, meta: RecipeRequestMeta, message: &str) -> (r: bool)
        ensures
            (final(self).model(), r) == old(self).model().settled(meta, message@),
    {
        if !self.fences(meta) {
            return false;
        }
        self.state.loading = false;
        self.state.pending_request_id = None;
        self.say(message);
        true
    }

    /// A recipe was saved.
    pub fn saved(&mut self, meta: RecipeRequestMeta, message: String) -> (r: bool)
        ensures
            (final(self).model(), r) == old(self).model().save_done(meta, message@),
    {
        if !self.fences(meta) {
            return false;
        }
        self.state.mode = RecipeDialogMode::Browse;
        self.state.status = message;
        self.ask_list();
        true
    }

    /// A recipe was exported.
    pub fn exported(&mut self, meta: RecipeRequestMeta, message: String) -> (r: bool)
        ensures
            (final(self).model(), r) == old(self).model().settled(meta, message@),
    {
        self.settle(meta, message.as_str())
    }

    /// A request failed.
    pub fn failed(&mut self, meta: RecipeRequestMeta, message: &str) -> (r: bool)
        ensures
            (final(self).model(), r) == old(self).model().settled(meta, message@),
    {
        self.settle(meta, message)
    }

    /// What became of a suggestion is passed on.
    pub fn record_outcome(&mut self, outcome: RecipeOutcome)
        ensures
            final(self).model() == old(self).model().asked(
                ask_of(RecipeRequest::Outcome(outcome)),
            ),
    {
        self.offer(RecipeRequest::Outcome(outcome));
    }

    fn queue_full(&self) -> (r: bool)
        ensures
            r == self.model().queue_full(),
    {
        self.outbox.len() >= RECIPE_QUEUE_LIMIT
    }

    fn has_loaded_selection(&self) -> (r: bool)
        ensures
            r == self.model().has_loaded_selection(),
    {
        !self.state.loading && self.state.selected < self.state.items.len()
    }

    fn suggestion(&self) -> (r: Option<usize>)
        ensures
            r matches Some(place) ==> self.model().suggestion() == Some(place as int) && place
                < self.model().suggestions.len(),
            r is None ==> self.model().suggestion() is None,
    {
        if self.state.selected < self.state.items.len() {
            find_suggestion(
                &self.state.suggestions,
                self.state.items[self.state.selected].id.as_str(),
            )
        } else {
            None
        }
    }

    fn select_mode(&mut self, mode: RecipeDialogMode)
        ensures
            final(self).model() == old(self).model().mode_selected(mode),
    {
        if self.queue_full() {
            self.say("recipe request queue is full");
            return;
        }
        if mode == RecipeDialogMode::Update && !self.has_loaded_selection() {
            self.say("select a loaded recipe first");
            return;
        }
        if mode == RecipeDialogMode::Update {
            self.state.name = self.state.items[self.state.selected].name.clone();
            self.cursor = self.state.name.as_str().unicode_len();
        } else if mode == RecipeDialogMode::Export && self.state.mode != mode {
            self.state.name = String::new();
            self.cursor = 0;
        }
        self.state.mode = mode;
        self.state.control = if mode.is_editable() {
            RecipeDialogControl::Input
        } else {
            RecipeDialogControl::List
        };
        self.state.loading = false;
        self.state.pending_request_id = None;
        self.state.status = String::new();
        self.touch();
        if mode == RecipeDialogMode::Browse {
            self.ask_list();
        }
    }

    fn history_open(&mut self) -> (r: RecipeStep)
        ensures
            (final(self).model(), r) == old(self).model().switched(RecipeDialogMode::History),
    {
        if self.queue_full() {
            self.say("recipe request queue is full");
            return RecipeStep::Done(Outcome::Consumed);
        }
        if !self.has_loaded_selection() {
            self.say("select a loaded recipe first");
            return RecipeStep::Done(Outcome::Consumed);
        }
        let item = &self.state.items[self.state.selected];
        RecipeStep::Done(
            Outcome::Replace(
                Open::RecipeHistory { recipe_id: item.id.clone(), recipe_name: item.name.clone() },
            ),
        )
    }

    fn switch(&mut self, mode: RecipeDialogMode) -> (r: RecipeStep)
        ensures
            (final(self).model(), r) == old(self).model().switched(mode),
    {
        if mode == RecipeDialogMode::History {
            return self.history_open();
        }
        if self.state.mode == RecipeDialogMode::History {
            if self.queue_full() {
                self.say("recipe request queue is full");
                return RecipeStep::Done(Outcome::Consumed);
            }
            if mode == RecipeDialogMode::Update && !self.has_loaded_selection() {
                self.say("select a loaded recipe first");
                return RecipeStep::Done(Outcome::Consumed);
            }
            return RecipeStep::Done(Outcome::Replace(Open::Recipes { mode }));
        }
        self.select_mode(mode);
        RecipeStep::Done(Outcome::Consumed)
    }

    fn refresh_suggestions(&mut self)
        ensures
            final(self).model() == old(self).model().suggestions_refreshed(),
    {
        if self.state.mode != RecipeDialogMode::Browse || self.queue_full() {
            return;
        }
        self.touch();
        self.say("refreshing similar-source suggestions\u{2026}");
        self.ask_list();
    }

    fn reject_suggestion(&mut self, source_id: &Option<String>)
        ensures
            final(self).model() == old(self).model().suggestion_rejected(some_text(*source_id)),
    {
        let source = match source_id {
            Some(source) => source,
            None => {
                return;
            },
        };
        if self.suggestion().is_none() {
            return;
        }
        let id = self.state.items[self.state.selected].id.clone();
        let revision = self.state.items[self.state.selected].revision.clone();
        self.offer(
            RecipeRequest::Outcome(
                RecipeOutcome {
                    source_id: source.clone(),
                    recipe_id: id.clone(),
                    revision,
                    accepted: false,
                },
            ),
        );
        drop_suggestions(&mut self.state.suggestions, id.as_str());
        self.say("suggestion rejected; recipe remains available");
    }

    fn adapt_suggestion(&self, view_id: &Option<String>) -> (r: RecipeStep)
        ensures
            r == self.model().adapting(some_text(*view_id)),
    {
        match self.suggestion() {
            Some(suggestion) => {
                if self.state.items[self.state.selected].incompatibility.is_some()
                    || view_id.is_none() {
                    RecipeStep::Done(Outcome::Consumed)
                } else {
                    RecipeStep::Done(
                        Outcome::Legacy(
                            Action::AdaptRecipe { item: self.state.selected, suggestion },
                        ),
                    )
                }
            },
            None => RecipeStep::Done(Outcome::Consumed),
        }
    }

    fn submit_list(&mut self, ctx: RecipesContext<'_>) -> (r: RecipeStep)
        requires
            old(self).model().mode.lists(),
        ensures
            (final(self).model(), r) == old(self).model().after_submit(ctx.read()),
    {
        if self.state.selected >= self.state.items.len() {
            return RecipeStep::Done(Outcome::Consumed);
        }
        let item = &self.state.items[self.state.selected];
        if let Some(error) = &item.incompatibility {
            self.state.status = error.clone();
            return RecipeStep::Done(Outcome::Consumed);
        }
        let accepted = match ctx.source_id {
            Some(source) => {
                if self.suggestion().is_some() {
                    Some(
                        RecipeOutcome {
                            source_id: source.clone(),
                            recipe_id: item.id.clone(),
                            revision: item.revision.clone(),
                            accepted: true,
                        },
                    )
                } else {
                    None
                }
            },
            None => None,
        };
        if ctx.view_id.is_none() {
            return RecipeStep::Done(Outcome::Consumed);
        }
        RecipeStep::Apply { item: self.state.selected, accepted }
    }

    fn submit_named(&mut self, name: String, view_id: &String, applied: &RecipeConfig)
        requires
            !old(self).model().mode.lists(),
            name@ == trimmed(old(self).model().name),
            name@.len() > 0,
            !old(self).model().queue_full(),
        ensures
            final(self).model() == old(self).model().submitted(Some(view_id@), applied.model()),
    {
        let chosen: Option<(String, String)> = if self.state.selected < self.state.items.len() {
            let item = &self.state.items[self.state.selected];
            Some((item.id.clone(), item.revision.clone()))
        } else {
            None
        };
        match self.state.mode {
            RecipeDialogMode::Import => {
                let meta = self.wait();
                self.offer(RecipeRequest::Import { meta, path: name });
                self.say("importing for review\u{2026}");
            },
            RecipeDialogMode::Export => match chosen {
                Some((recipe_id, revision)) => {
                    let meta = self.wait();
                    self.offer(RecipeRequest::Export { meta, path: name, recipe_id, revision });
                    self.say("exporting reviewed revision\u{2026}");
                },
                None => {
                    self.say("select a saved recipe before exporting");
                },
            },
            _ => {
                let update = if self.state.mode == RecipeDialogMode::Update {
                    chosen
                } else {
                    None
                };
                let meta = self.wait();
                self.offer(
                    RecipeRequest::Save {
                        update,
                        meta,
                        name,
                        view_id: view_id.clone(),
                        config: applied.copy(),
                    },
                );
                self.say("saving recipe\u{2026}");
            },
        }
    }

    fn submit(&mut self, ctx: RecipesContext<'_>) -> (r: RecipeStep)
        ensures
            (final(self).model(), r) == old(self).model().after_submit(ctx.read()),
    {
        if self.state.mode.is_list() {
            return self.submit_list(ctx);
        }
        if let Some(view_id) = ctx.view_id {
            let name = trim(self.state.name.as_str());
            if name.as_str().is_empty() || self.queue_full() {
                self.say("enter a recipe name or select a recipe");
            } else {
                self.submit_named(name, view_id, ctx.applied);
            }
        }
        RecipeStep::Done(Outcome::Consumed)
    }

    /// The recipe was applied, or could not be.
    pub fn apply_answered(&mut self, applied: bool) -> (r: Outcome)
        ensures
            (final(self).model(), r) == old(self).model().apply_answered(applied),
    {
        if applied {
            self.open = false;
            Outcome::Close
        } else {
            self.say("query queue is full; recipe draft was preserved");
            Outcome::Consumed
        }
    }

    fn toggle_menu(&mut self)
        ensures
            final(self).model() == old(self).model().menu_toggled(),
    {
        self.state.menu_open = !self.state.menu_open;
        self.state.menu_selected = 0;
        self.state.control = RecipeDialogControl::More;
    }

    fn action_controls(&self) -> (r: Vec<RecipeDialogControl>)
        ensures
            r@ == self.model().actions(),
    {
        let mut list: Vec<RecipeDialogControl> = Vec::new();
        list.push(RecipeDialogControl::Apply);
        if self.state.mode.is_editable() {
            list.push(RecipeDialogControl::Cancel);
            assert(list@ =~= self.model().actions());
            return list;
        }
        if self.suggestion().is_some() {
            list.push(RecipeDialogControl::Adapt);
            list.push(RecipeDialogControl::Reject);
        }
        if self.state.mode == RecipeDialogMode::Browse {
            list.push(RecipeDialogControl::Save);
            list.push(RecipeDialogControl::Update);
            list.push(RecipeDialogControl::History);
            list.push(RecipeDialogControl::More);
        }
        assert(list@ =~= self.model().actions());
        list
    }

    /// The buttons in drawn order, with their labels.
    pub fn actions(&self, ascii: bool) -> (r: Vec<(&'static str, RecipeDialogControl)>)
        ensures
            r@.len() == self.model().actions().len(),
            forall|i: int|
                0 <= i < r@.len() ==> (#[trigger] r@[i]).1 == self.model().actions()[i] && r@[i].0@
                    == action_text(self.model().mode, self.model().actions()[i], ascii),
    {
        let controls = self.action_controls();
        let mut out: Vec<(&'static str, RecipeDialogControl)> = Vec::new();
        let mut i: usize = 0;
        while i < controls.len()
            invariant
                i <= controls@.len(),
                out@.len() == i,
                forall|j: int|
                    0 <= j < i ==> (#[trigger] out@[j]).1 == controls@[j] && out@[j].0@
                        == action_text(self.state.mode, controls@[j], ascii),
            decreases controls.len() - i,
        {
            out.push((action_word(self.state.mode, controls[i], ascii), controls[i]));
            i += 1;
        }
        out
    }

    fn controls(&self) -> (r: Vec<RecipeDialogControl>)
        ensures
            r@ == self.model().controls(),
            r@.len() > 0,
    {
        let mut list: Vec<RecipeDialogControl> = Vec::new();
        if self.state.mode.is_list() || self.state.mode == RecipeDialogMode::Export {
            list.push(RecipeDialogControl::List);
        }
        list.push(RecipeDialogControl::Input);
        let mut actions = self.action_controls();
        list.append(&mut actions);
        assert(list@ =~= self.model().controls());
        list
    }

    /// The controls of the menu's rows.
    pub fn more_menu_controls(&self, overflow: &Vec<usize>) -> (r: Vec<RecipeDialogControl>)
        ensures
            r@ == self.model().menu(overflow@),
    {
        let actions = self.action_controls();
        let mut list: Vec<RecipeDialogControl> = Vec::new();
        let mut i: usize = 0;
        while i < overflow.len()
            invariant
                i <= overflow@.len(),
                actions@ == self.model().actions(),
                list@ == hidden_controls(actions@, overflow@, i as int),
            decreases overflow.len() - i,
        {
            let index: usize = overflow[i];
            if index < actions.len() && actions[index] != RecipeDialogControl::More {
                list.push(actions[index]);
            }
            i += 1;
        }
        list.push(RecipeDialogControl::Mode(RecipeDialogMode::Import));
        list.push(RecipeDialogControl::Mode(RecipeDialogMode::Export));
        list.push(RecipeDialogControl::Refresh);
        assert(list@ =~= self.model().menu(overflow@));
        list
    }

    fn run(&mut self, control: RecipeDialogControl, ctx: RecipesContext<'_>) -> (r: RecipeStep)
        ensures
            (final(self).model(), r) == old(self).model().run(control, ctx.read()),
    {
        match control {
            RecipeDialogControl::Adapt => self.adapt_suggestion(ctx.view_id),
            RecipeDialogControl::Reject => {
                self.reject_suggestion(ctx.source_id);
                RecipeStep::Done(Outcome::Consumed)
            },
            RecipeDialogControl::Save => self.switch(RecipeDialogMode::Save),
            RecipeDialogControl::Update => self.switch(RecipeDialogMode::Update),
            RecipeDialogControl::History => self.switch(RecipeDialogMode::History),
            RecipeDialogControl::Cancel => self.switch(RecipeDialogMode::Browse),
            RecipeDialogControl::More => {
                self.toggle_menu();
                RecipeStep::Done(Outcome::Consumed)
            },
            _ => self.submit(ctx),
        }
    }

    fn choose_menu(&mut self, index: usize, ctx: RecipesContext<'_>) -> (r: RecipeStep)
        ensures
            (final(self).model(), r) == old(self).model().menu_chosen(index as int, ctx.read()),
    {
        let rows = self.more_menu_controls(ctx.overflow);
        self.state.menu_open = false;
        self.state.menu_selected = 0;
        if index >= rows.len() {
            return RecipeStep::Done(Outcome::Consumed);
        }
        match rows[index] {
            RecipeDialogControl::Mode(mode) => self.switch(mode),
            RecipeDialogControl::Refresh => {
                self.refresh_suggestions();
                RecipeStep::Done(Outcome::Consumed)
            },
            control => self.run(control, ctx),
        }
    }

    fn move_selection(&mut self, delta: i32, overflow: &Vec<usize>)
        ensures
            final(self).model() == old(self).model().moved(delta as int, overflow@),
    {
        if self.state.menu_open {
            let rows = self.more_menu_controls(overflow);
            self.state.menu_selected = move_index(self.state.menu_selected, rows.len(), delta);
            return;
        }
        self.state.selected = move_index(self.state.selected, self.state.items.len(), delta);
        self.touch();
    }

    fn focus_control(&mut self, control: RecipeDialogControl)
        ensures
            final(self).model() == old(self).model().focused(control),
    {
        let list = self.controls();
        if has_control_in(&list, control) {
            self.state.control = control;
        }
    }

    fn move_focus(&mut self, delta: i32)
        ensures
            final(self).model() == old(self).model().focus_moved(delta as int),
    {
        let list = self.controls();
        let place: usize = control_place(&list, self.state.control);
        let next: usize = move_index(place, list.len(), delta);
        self.state.control = list[next];
    }

    fn activate(&mut self, ctx: RecipesContext<'_>) -> (r: RecipeStep)
        ensures
            (final(self).model(), r) == old(self).model().activated(ctx.read()),
    {
        if self.state.menu_open {
            let index: usize = self.state.menu_selected;
            return self.choose_menu(index, ctx);
        }
        match self.state.control {
            RecipeDialogControl::Mode(mode) => self.switch(mode),
            RecipeDialogControl::Refresh => {
                self.refresh_suggestions();
                RecipeStep::Done(Outcome::Consumed)
            },
            control => self.run(control, ctx),
        }
    }

    fn edit(&self, command: EditCommand) -> (r: RecipeStep)
        ensures
            (self.model(), r) == self.model().edit_step(command),
    {
        if self.state.mode.is_editable() && self.state.control == RecipeDialogControl::Input {
            RecipeStep::Edit(command)
        } else {
            RecipeStep::Done(Outcome::Consumed)
        }
    }

    /// The name field was edited.
    pub fn edited(&mut self, edited: Edited)
        ensures
            final(self).model() == old(self).model().edited(
                edited.value@,
                edited.cursor as int,
                edited.changed,
            ),
    {
        if !self.state.mode.is_editable() || self.state.control != RecipeDialogControl::Input {
            return;
        }
        self.state.name = edited.value;
        self.cursor = edited.cursor;
        if edited.changed {
            self.touch();
        }
    }

    fn paste(&mut self, text: &str, max_bytes: usize) -> (r: RecipeStep)
        ensures
            (final(self).model(), r) == old(self).model().pasted(text@, max_bytes as int),
    {
        if !self.state.mode.is_editable() || self.state.control != RecipeDialogControl::Input {
            return RecipeStep::Done(Outcome::Consumed);
        }
        let chars = chars_of(text);
        let held: usize = byte_len(self.state.name.as_str());
        let bytes: usize = byte_len(text);
        if has_control(&chars) || held > max_bytes || bytes > max_bytes - held {
            self.say("recipe name/path must be a bounded single line");
            return RecipeStep::Done(Outcome::Consumed);
        }
        RecipeStep::Edit(EditCommand::InsertPasted)
    }

    fn alt_key(&mut self, ch: char, ctx: RecipesContext<'_>) -> (r: Option<RecipeStep>)
        ensures
            match r {
                Some(step) => old(self).model().after_alt(ch, ctx.read()) == Some(
                    (final(self).model(), step),
                ),
                None => old(self).model().after_alt(ch, ctx.read()) is None && final(self).model()
                    == old(self).model(),
            },
    {
        match ch {
            'a' => Some(self.adapt_suggestion(ctx.view_id)),
            'g' => {
                self.refresh_suggestions();
                Some(RecipeStep::Done(Outcome::Consumed))
            },
            'h' => Some(self.switch(RecipeDialogMode::History)),
            'u' => Some(self.switch(RecipeDialogMode::Update)),
            's' => Some(self.switch(RecipeDialogMode::Save)),
            'b' => Some(self.switch(RecipeDialogMode::Browse)),
            'i' => Some(self.switch(RecipeDialogMode::Import)),
            'e' => Some(self.switch(RecipeDialogMode::Export)),
            _ => None,
        }
    }

    pub fn key(&mut self, key: KeyEvent, ctx: RecipesContext<'_>) -> (r: RecipeStep)
        ensures
            (final(self).model(), r) == old(self).model().after_key(key, ctx.read()),
    {
        if !key.is_active() {
            return RecipeStep::Done(Outcome::Ignored);
        }
        if key.modifiers.control {
            if let Some(command) = control_edit_for(key.code) {
                return self.edit(command);
            }
        }
        match key.code {
            KeyCode::Tab => {
                self.move_focus(
                    if key.modifiers.shift {
                        -1
                    } else {
                        1
                    },
                );
            },
            KeyCode::BackTab => self.move_focus(-1),
            KeyCode::Up => self.move_selection(-1, ctx.overflow),
            KeyCode::Down => self.move_selection(1, ctx.overflow),
            KeyCode::Enter => {
                return self.activate(ctx);
            },
            KeyCode::Backspace => {
                return self.edit(EditCommand::Backspace);
            },
            KeyCode::Char(ch) => {
                if key.modifiers.alt {
                    if let Some(step) = self.alt_key(ch, ctx) {
                        return step;
                    }
                }
                if ch == 'x' {
                    self.reject_suggestion(ctx.source_id);
                } else if is_typed_char(&key) {
                    return self.edit(EditCommand::Insert(ch));
                } else {
                    return RecipeStep::Done(Outcome::Ignored);
                }
            },
            _ => {
                return RecipeStep::Done(Outcome::Ignored);
            },
        }
        RecipeStep::Done(Outcome::Consumed)
    }

    fn select_row(&mut self, index: usize)
        ensures
            final(self).model() == old(self).model().row_selected(index as int),
    {
        if index < self.state.items.len() {
            self.state.selected = index;
            self.touch();
        }
    }

    pub fn mouse(
        &mut self,
        kind: MouseEventKind,
        hit: Option<RecipeHit>,
        ctx: RecipesContext<'_>,
    ) -> (r: RecipeStep)
        ensures
            (final(self).model(), r) == old(self).model().after_mouse(kind, hit, ctx.read()),
    {
        match kind {
            MouseEventKind::LeftDown => match hit {
                Some(RecipeHit::Menu(index)) => {
                    return self.choose_menu(index, ctx);
                },
                Some(RecipeHit::Row(index)) => {
                    self.focus_control(RecipeDialogControl::List);
                    self.select_row(index);
                },
                Some(RecipeHit::Control(control)) => {
                    self.focus_control(control);
                    if control != RecipeDialogControl::Input && control
                        != RecipeDialogControl::List {
                        return self.activate(ctx);
                    }
                },
                None => {},
            },
            MouseEventKind::ScrollUp => self.move_selection(-1, ctx.overflow),
            MouseEventKind::ScrollDown => self.move_selection(1, ctx.overflow),
            MouseEventKind::Other => {},
        }
        RecipeStep::Done(Outcome::Consumed)
    }

    pub fn command(&mut self, id: CommandId, ctx: RecipesContext<'_>) -> (r: RecipeStep)
        ensures
            (final(self).model(), r) == old(self).model().after_command(id, ctx.read()),
    {
        match id {
            CommandId::RecipeBrowse => self.switch(RecipeDialogMode::Browse),
            CommandId::RecipeSave => self.switch(RecipeDialogMode::Save),
            CommandId::RecipeImport => self.switch(RecipeDialogMode::Import),
            CommandId::RecipeExport => self.switch(RecipeDialogMode::Export),
            CommandId::RecipeUpdate => self.switch(RecipeDialogMode::Update),
            CommandId::RecipeHistory => self.switch(RecipeDialogMode::History),
            CommandId::RecipeApply => self.submit(ctx),
            CommandId::RecipeRefreshSuggestions => {
                self.refresh_suggestions();
                RecipeStep::Done(Outcome::Consumed)
            },
            CommandId::RecipeAdaptSuggestion => self.adapt_suggestion(ctx.view_id),
            CommandId::RecipeRejectSuggestion => {
                self.reject_suggestion(ctx.source_id);
                RecipeStep::Done(Outcome::Consumed)
            },
            _ => RecipeStep::Done(Outcome::Ignored),
        }
    }

    fn dismiss(&mut self) -> (r: RecipeStep)
        ensures
            (final(self).model(), r) == old(self).model().dismissed(),
    {
        if self.state.menu_open {
            self.state.menu_open = false;
            self.state.menu_selected = 0;
            return RecipeStep::Done(Outcome::Consumed);
        }
        self.open = false;
        RecipeStep::Done(Outcome::Close)
    }

    pub fn handle(&mut self, event: Event<RecipeHit>, ctx: RecipesContext<'_>) -> (r: RecipeStep)
        ensures
            (final(self).model(), r) == old(self).model().after_event(event, ctx.read()),
    {
        match event {
            Event::Key(key) => self.key(key, ctx),
            Event::Paste(text) => self.paste(text.as_str(), ctx.max_bytes),
            Event::Mouse { kind, hit } => self.mouse(kind, hit, ctx),
            Event::Dismiss => self.dismiss(),
            Event::Command(id) => self.command(id, ctx),
            _ => RecipeStep::Done(Outcome::Ignored),
        }
    }

    fn open_browse(&mut self)
        ensures
            final(self).model().geometry.blank(),
            final(self).model() == old(self).model().browsed(final(self).model().geometry),
    {
        let id: u64 = self.next_id;
        self.next_id = self.next_id.saturating_add(1);
        self.state = RecipeDialogState::blank(id);
        self.state.loading = true;
        self.say("loading recipes\u{2026}");
        self.cursor = 0;
        self.geometry = RecipeGeometry::default();
        self.recipe_id = String::new();
        self.recipe_name = String::new();
        self.open = true;
        if !self.queue_full() {
            self.ask_list();
        }
    }

    fn open_history(&mut self, recipe_id: String, recipe_name: String)
        ensures
            final(self).model() == old(self).model().history_shown(recipe_id@, recipe_name@),
    {
        self.open = true;
        self.recipe_id = recipe_id.clone();
        self.recipe_name = recipe_name;
        self.state.mode = RecipeDialogMode::History;
        self.state.control = RecipeDialogControl::List;
        self.state.loading = false;
        self.state.pending_request_id = None;
        self.state.status = String::new();
        self.touch();
        if !self.queue_full() {
            let meta = self.wait();
            self.state.selected = 0;
            self.state.items = Vec::new();
            self.state.suggestions = Vec::new();
            self.offer(RecipeRequest::History { meta, recipe_id });
        }
    }

    /// Opens the layer.
    pub fn open(&mut self, params: RecipesOpen)
        ensures
            match params {
                RecipesOpen::Browse => final(self).model().geometry.blank() && final(self).model()
                    == old(self).model().browsed(final(self).model().geometry),
                RecipesOpen::Mode(mode) => final(self).model() == (RecipesModel {
                    open: true,
                    ..old(self).model()
                }).mode_selected(mode),
                RecipesOpen::History { recipe_id, recipe_name } => final(self).model()
                    == old(self).model().history_shown(recipe_id@, recipe_name@),
            },
    {
        match params {
            RecipesOpen::Browse => self.open_browse(),
            RecipesOpen::Mode(mode) => {
                self.open = true;
                self.select_mode(mode);
            },
            RecipesOpen::History { recipe_id, recipe_name } => self.open_history(
                recipe_id,
                recipe_name,
            ),
        }
    }

    /// Presses the button at a place of the row.
    pub fn press_action(&mut self, index: usize, ctx: RecipesContext<'_>) -> (r: RecipeStep)
        ensures
            (final(self).model(), r) == if index < old(self).model().actions().len() {
                old(self).model().run(old(self).model().actions()[index as int], ctx.read())
            } else {
                (old(self).model(), RecipeStep::Done(Outcome::Ignored))
            },
    {
        let controls = self.action_controls();
        if index < controls.len() {
            self.run(controls[index], ctx)
        } else {
            RecipeStep::Done(Outcome::Ignored)
        }
    }
}

} // verus!
