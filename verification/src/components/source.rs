//! The Source layer: the sources of a workspace, and three ways to add one - a
//! path or a command by hand, a bounded discovery scan, and a proposal that is
//! reviewed before anything starts.
//!
//! Its four kinds of background work share one queue, from which each kind is
//! taken separately and refuses at its own depth.

use crate::component::{
    arrow_edit, arrow_edit_for, control_edit, control_edit_for, move_index, place_from,
    place_or_start, ring_step, scroll_by, scroll_step, CommandId, EditCommand, Edited, Event,
    Outbox, Outcome, Queue, Step, Surface, ViewEvent,
};
use crate::components::discovery::{
    filtered_at, filtered_is_unique, is_filtered, DiscoveryDialogState, DiscoveryItem,
};
use crate::geometry::Rect;
use crate::input::{is_typed_char, KeyCode, KeyEvent, MouseEventKind};
use crate::text::{
    append_clipped, byte_clipped, byte_count, decimal, decimal_text, ends_with, some_number,
    some_text, texts, trim, trimmed,
};
use vstd::prelude::*;

pub mod frame;
pub mod laws;
pub mod render;
pub mod shown;
pub mod requests;

verus! {

/// Typing pauses this many milliseconds before a path scan is handed over.
pub const SOURCE_PATH_COMPLETION_DEBOUNCE: u64 = 35;

/// The depths at which each kind of request is refused.
pub const MAX_SOURCE_REQUESTS: usize = 8;

pub const MAX_DISCOVERY_REQUESTS: usize = 4;

pub const MAX_SOURCE_AI_REQUESTS: usize = 8;

/// The depth of the shared queue.
pub const SOURCE_OUTBOX_CAP: usize = 64;

#[derive(Clone, Copy, Debug, PartialEq, Eq, Structural)]
pub enum SourceKind {
    File,
    Command,
}

/// How far a proposal has come.
#[derive(Clone, Copy, Debug, PartialEq, Eq, Structural)]
pub enum SourceAiStage {
    Input,
    Preparing,
    Starting,
    Proposing,
    Proposal,
    Applying,
    Error,
}

#[derive(Debug)]
pub struct SourceLaunchRequest {
    pub kind: SourceKind,
    pub text: String,
}

#[derive(Debug)]
pub enum DiscoveryUiRequest {
    Scan { generation: u64 },
    Cancel { generation: u64 },
    Select { generation: u64, key: String },
}

#[derive(Debug)]
pub struct PathCompletionRequest {
    pub generation: u64,
    pub draft: String,
}

#[derive(Debug)]
pub enum SourceAiRequest {
    Start {
        generation: u64,
        instruction: String,
        provider: String,
        mode: String,
        thinking: String,
    },
    Apply { generation: u64 },
    Cancel { generation: u64 },
}

/// What is asked of a source that exists, whether or not it is being captured.
#[derive(Debug)]
pub enum SourceManagementRequest {
    Restart { source_id: String },
    Remove { source_id: String },
}

#[derive(Debug)]
pub enum SourceRequest {
    Launch(SourceLaunchRequest),
    Discovery(DiscoveryUiRequest),
    PathCompletion(PathCompletionRequest),
    Ai(SourceAiRequest),
    Manage(SourceManagementRequest),
}

/// The kinds of requests.
#[derive(Clone, Copy, Debug, PartialEq, Eq, Structural)]
pub enum RequestKind {
    Launch,
    Discovery,
    PathCompletion,
    Ai,
    Manage,
}

/// A request by what it says.
pub enum SourceAsk {
    Launch { kind: SourceKind, text: Seq<char> },
    Scan { generation: u64 },
    CancelScan { generation: u64 },
    Select { generation: u64, key: Seq<char> },
    Complete { generation: u64, draft: Seq<char> },
    AiStart {
        generation: u64,
        instruction: Seq<char>,
        provider: Seq<char>,
        mode: Seq<char>,
        thinking: Seq<char>,
    },
    AiApply { generation: u64 },
    AiCancel { generation: u64 },
    Restart { source_id: Seq<char> },
    Remove { source_id: Seq<char> },
}

/// What a request says.
pub open spec fn ask_of(request: SourceRequest) -> SourceAsk {
    match request {
        SourceRequest::Launch(request) => SourceAsk::Launch {
            kind: request.kind,
            text: request.text@,
        },
        SourceRequest::Discovery(DiscoveryUiRequest::Scan { generation }) => SourceAsk::Scan {
            generation,
        },
        SourceRequest::Discovery(
            DiscoveryUiRequest::Cancel { generation },
        ) => SourceAsk::CancelScan { generation },
        SourceRequest::Discovery(
            DiscoveryUiRequest::Select { generation, key },
        ) => SourceAsk::Select { generation, key: key@ },
        SourceRequest::PathCompletion(request) => SourceAsk::Complete {
            generation: request.generation,
            draft: request.draft@,
        },
        SourceRequest::Ai(
            SourceAiRequest::Start { generation, instruction, provider, mode, thinking },
        ) => SourceAsk::AiStart {
            generation,
            instruction: instruction@,
            provider: provider@,
            mode: mode@,
            thinking: thinking@,
        },
        SourceRequest::Ai(SourceAiRequest::Apply { generation }) => SourceAsk::AiApply {
            generation,
        },
        SourceRequest::Ai(SourceAiRequest::Cancel { generation }) => SourceAsk::AiCancel {
            generation,
        },
        SourceRequest::Manage(
            SourceManagementRequest::Restart { source_id },
        ) => SourceAsk::Restart { source_id: source_id@ },
        SourceRequest::Manage(SourceManagementRequest::Remove { source_id }) => SourceAsk::Remove {
            source_id: source_id@,
        },
    }
}

impl SourceAsk {
    pub open spec fn kind(self) -> RequestKind {
        match self {
            SourceAsk::Launch { .. } => RequestKind::Launch,
            SourceAsk::Scan { .. } => RequestKind::Discovery,
            SourceAsk::CancelScan { .. } => RequestKind::Discovery,
            SourceAsk::Select { .. } => RequestKind::Discovery,
            SourceAsk::Complete { .. } => RequestKind::PathCompletion,
            SourceAsk::AiStart { .. } => RequestKind::Ai,
            SourceAsk::AiApply { .. } => RequestKind::Ai,
            SourceAsk::AiCancel { .. } => RequestKind::Ai,
            SourceAsk::Restart { .. } => RequestKind::Manage,
            SourceAsk::Remove { .. } => RequestKind::Manage,
        }
    }
}

/// What the requests of a queue say.
pub open spec fn asks(items: Seq<SourceRequest>) -> Seq<SourceAsk> {
    items.map_values(|request: SourceRequest| ask_of(request))
}

/// The requests of a kind, in order.
pub open spec fn of_kind(items: Seq<SourceAsk>, kind: RequestKind) -> Seq<SourceAsk>
    decreases items.len(),
{
    if items.len() == 0 {
        seq![]
    } else if items.last().kind() == kind {
        of_kind(items.drop_last(), kind).push(items.last())
    } else {
        of_kind(items.drop_last(), kind)
    }
}

/// The requests of the other kinds, in order.
pub open spec fn but_kind(items: Seq<SourceAsk>, kind: RequestKind) -> Seq<SourceAsk>
    decreases items.len(),
{
    if items.len() == 0 {
        seq![]
    } else if items.last().kind() != kind {
        but_kind(items.drop_last(), kind).push(items.last())
    } else {
        but_kind(items.drop_last(), kind)
    }
}

fn kind_of(request: &SourceRequest) -> (r: RequestKind)
    ensures
        r == ask_of(*request).kind(),
{
    match request {
        SourceRequest::Launch(_) => RequestKind::Launch,
        SourceRequest::Discovery(request) => match request {
            DiscoveryUiRequest::Scan { .. } => RequestKind::Discovery,
            DiscoveryUiRequest::Cancel { .. } => RequestKind::Discovery,
            DiscoveryUiRequest::Select { .. } => RequestKind::Discovery,
        },
        SourceRequest::PathCompletion(_) => RequestKind::PathCompletion,
        SourceRequest::Ai(request) => match request {
            SourceAiRequest::Start { .. } => RequestKind::Ai,
            SourceAiRequest::Apply { .. } => RequestKind::Ai,
            SourceAiRequest::Cancel { .. } => RequestKind::Ai,
        },
        SourceRequest::Manage(request) => match request {
            SourceManagementRequest::Restart { .. } => RequestKind::Manage,
            SourceManagementRequest::Remove { .. } => RequestKind::Manage,
        },
    }
}

#[derive(Clone, Copy, Debug, PartialEq, Eq, Structural)]
pub enum SourceOpen {
    Add,
    Existing,
}

#[derive(Clone, Copy, Debug, PartialEq, Eq, Structural)]
pub enum SourceDialogMode {
    Existing,
    Manual,
    Discovery,
    Ai,
}

#[derive(Clone, Copy, Debug, PartialEq, Eq, Structural)]
pub enum SourceControl {
    Input,
    Add,
    Manual,
    Discovery,
    Agent,
    File,
    Command,
    Refresh,
    Restart,
    Remove,
}

/// The controls of a mode, in the order of the focus.
pub open spec fn visible_controls(mode: SourceDialogMode) -> Seq<SourceControl> {
    match mode {
        SourceDialogMode::Existing => seq![
            SourceControl::Input,
            SourceControl::Add,
            SourceControl::Restart,
            SourceControl::Remove,
        ],
        SourceDialogMode::Manual => seq![
            SourceControl::Input,
            SourceControl::Manual,
            SourceControl::Discovery,
            SourceControl::Agent,
            SourceControl::File,
            SourceControl::Command,
        ],
        SourceDialogMode::Discovery => seq![
            SourceControl::Input,
            SourceControl::Manual,
            SourceControl::Discovery,
            SourceControl::Agent,
            SourceControl::Refresh,
        ],
        SourceDialogMode::Ai => seq![
            SourceControl::Input,
            SourceControl::Manual,
            SourceControl::Discovery,
            SourceControl::Agent,
        ],
    }
}

impl SourceControl {
    /// The controls that a mode shows; both kinds of a manual source show the
    /// same.
    pub fn visible(mode: SourceDialogMode, _kind: SourceKind) -> (r: Vec<SourceControl>)
        ensures
            r@ == visible_controls(mode),
    {
        let mut list: Vec<SourceControl> = Vec::new();
        list.push(SourceControl::Input);
        match mode {
            SourceDialogMode::Existing => {
                list.push(SourceControl::Add);
                list.push(SourceControl::Restart);
                list.push(SourceControl::Remove);
            },
            SourceDialogMode::Manual => {
                list.push(SourceControl::Manual);
                list.push(SourceControl::Discovery);
                list.push(SourceControl::Agent);
                list.push(SourceControl::File);
                list.push(SourceControl::Command);
            },
            SourceDialogMode::Discovery => {
                list.push(SourceControl::Manual);
                list.push(SourceControl::Discovery);
                list.push(SourceControl::Agent);
                list.push(SourceControl::Refresh);
            },
            SourceDialogMode::Ai => {
                list.push(SourceControl::Manual);
                list.push(SourceControl::Discovery);
                list.push(SourceControl::Agent);
            },
        }
        assert(list@ =~= visible_controls(mode));
        list
    }
}

fn find_control(list: &Vec<SourceControl>, control: SourceControl) -> (r: Option<usize>)
    ensures
        match r {
            Some(place) => place < list@.len() && place_from(list@, control, 0) == Some(place as int),
            None => place_from(list@, control, 0) is None && !list@.contains(control),
        },
        r is Some <==> list@.contains(control),
{
    let mut i: usize = 0;
    while i < list.len()
        invariant
            i <= list@.len(),
            place_from(list@, control, 0) == place_from(list@, control, i as int),
            forall|j: int| 0 <= j < i ==> list@[j] != control,
        decreases list.len() - i,
    {
        if list[i] == control {
            return Some(i);
        }
        i += 1;
    }
    None
}

#[derive(Debug)]
pub struct PathCompletionState {
    pub generation: u64,
    pub scanning: bool,
    pub candidates: Vec<String>,
    pub selected: usize,
}

/// One source of a proposal.
#[derive(Debug)]
pub struct SourceProposal {
    pub name: String,
    pub kind: String,
    pub launch: String,
    pub effective_path_or_cwd: String,
    pub restart: String,
    pub environment: Vec<String>,
}

/// A proposal to review.
#[derive(Debug)]
pub struct SourceAiPreview {
    pub sources: Vec<SourceProposal>,
    pub explanation: String,
}

#[derive(Debug)]
pub struct SourceAiDialogState {
    pub generation: u64,
    pub instruction: String,
    pub stage: SourceAiStage,
    pub progress: String,
    pub session_id: Option<String>,
    pub preview: Option<SourceAiPreview>,
    pub preview_scroll: usize,
    pub preview_scroll_limit: usize,
}

/// The dialog's own data.
#[derive(Debug)]
pub struct SourceDialogState {
    pub kind: SourceKind,
    pub draft: String,
    pub error: Option<String>,
    pub mode: SourceDialogMode,
    pub controls_focused: bool,
    pub control: SourceControl,
    pub discovery: DiscoveryDialogState,
    pub path_completion: PathCompletionState,
    pub ai: SourceAiDialogState,
    pub existing_selected: usize,
    pub existing_scroll: usize,
    pub existing_scroll_limit: usize,
    pub confirm_remove: bool,
    /// The layer was opened from the list of sources, so Escape returns there.
    pub return_to_existing: bool,
}

/// Everything the layer draws that can be clicked.
#[derive(Clone, Copy, Debug, PartialEq, Eq, Structural)]
pub enum SourceHit {
    Control(SourceControl),
    PathCompletion(usize),
    Discovery(usize),
    OlderUnavailable,
    Existing(usize),
    /// The scrollable status or proposal pane.
    Scroll,
}

/// Where the last frame drew what can be clicked.
#[derive(Debug)]
pub struct SourceGeometry {
    pub controls: Vec<(Rect, SourceControl)>,
    pub path_completion_rows: Vec<(Rect, usize)>,
    pub discovery_rows: Vec<(Rect, usize)>,
    pub older_unavailable: Option<Rect>,
    pub existing_rows: Vec<(Rect, usize)>,
    pub scroll: Option<Rect>,
}

impl SourceGeometry {
    /// Nothing was drawn.
    pub open spec fn blank(self) -> bool {
        &&& self.controls@.len() == 0
        &&& self.path_completion_rows@.len() == 0
        &&& self.discovery_rows@.len() == 0
        &&& self.older_unavailable is None
        &&& self.existing_rows@.len() == 0
        &&& self.scroll is None
    }
}

impl Default for SourceGeometry {
    fn default() -> (r: SourceGeometry)
        ensures
            r.blank(),
    {
        SourceGeometry {
            controls: Vec::new(),
            path_completion_rows: Vec::new(),
            discovery_rows: Vec::new(),
            older_unavailable: None,
            existing_rows: Vec::new(),
            scroll: None,
        }
    }
}

/// The text fields of the dialog.
#[derive(Clone, Copy, Debug, PartialEq, Eq, Structural)]
pub enum SourceField {
    Manual,
    Discovery,
    Ai,
}

/// A source of the workspace.
#[derive(Debug)]
pub struct SourceItem {
    pub id: String,
    pub name: String,
    pub health: String,
}

/// The agent that proposals are asked of.
#[derive(Debug)]
pub struct AgentChoice {
    pub provider: String,
    pub mode: String,
    pub thinking: String,
}

/// What the layer reads of the world around it: the workspace's sources, the
/// agent, the longest texts its fields take in bytes, a clock that only moves
/// forward in milliseconds, and the time in seconds since the epoch.
#[derive(Clone, Copy, Debug)]
pub struct SourceContext<'a> {
    pub sources: &'a Vec<SourceItem>,
    pub agent: &'a AgentChoice,
    pub editor_bytes: usize,
    pub prompt_bytes: usize,
    pub clock: u64,
    pub now: i64,
}

#[derive(Debug)]
pub struct SourceDialog {
    open: bool,
    state: SourceDialogState,
    scroll_focused: bool,
    manual_cursor: Option<usize>,
    discovery_cursor: Option<usize>,
    ai_cursor: Option<usize>,
    next_path_completion_generation: u64,
    next_ai_generation: u64,
    path_completion_ready_at: Option<u64>,
    geometry: SourceGeometry,
    surface: Surface,
    pub outbox: Outbox<SourceRequest>,
}

/// The state of a discovery scan.
#[verifier::ext_equal]
pub struct DiscoveryModel {
    pub generation: int,
    pub query: Seq<char>,
    pub items: Seq<DiscoveryItem>,
    pub selected: int,
    pub scanning: bool,
    pub status: Seq<char>,
    pub status_scroll: int,
    pub status_scroll_limit: int,
    pub show_older: bool,
}

/// The state of a path completion.
#[verifier::ext_equal]
pub struct PathModel {
    pub generation: int,
    pub scanning: bool,
    pub candidates: Seq<Seq<char>>,
    pub selected: int,
}

/// The state of a proposal.
#[verifier::ext_equal]
pub struct AiModel {
    pub generation: int,
    pub instruction: Seq<char>,
    pub stage: SourceAiStage,
    pub progress: Seq<char>,
    pub session_id: Option<Seq<char>>,
    pub preview: Option<SourceAiPreview>,
    pub preview_scroll: int,
    pub preview_scroll_limit: int,
}

/// The state of the layer.
#[verifier::ext_equal]
pub struct SourceModel {
    pub open: bool,
    pub kind: SourceKind,
    pub draft: Seq<char>,
    pub error: Option<Seq<char>>,
    pub mode: SourceDialogMode,
    pub controls_focused: bool,
    pub control: SourceControl,
    pub discovery: DiscoveryModel,
    pub path: PathModel,
    pub ai: AiModel,
    pub existing_selected: int,
    pub existing_scroll: int,
    pub existing_scroll_limit: int,
    pub confirm_remove: bool,
    pub return_to_existing: bool,
    pub scroll_focused: bool,
    pub manual_cursor: Option<int>,
    pub discovery_cursor: Option<int>,
    pub ai_cursor: Option<int>,
    pub next_path: int,
    pub next_ai: int,
    pub ready_at: Option<int>,
    pub geometry: SourceGeometry,
    pub surface: Surface,
    pub queue: Queue<SourceAsk>,
}

impl SourceDialogState {
    pub open spec fn discovery_model(self) -> DiscoveryModel {
        DiscoveryModel {
            generation: self.discovery.generation as int,
            query: self.discovery.query@,
            items: self.discovery.items@,
            selected: self.discovery.selected as int,
            scanning: self.discovery.scanning,
            status: self.discovery.status@,
            status_scroll: self.discovery.status_scroll as int,
            status_scroll_limit: self.discovery.status_scroll_limit as int,
            show_older: self.discovery.show_older_unavailable,
        }
    }

    pub open spec fn path_model(self) -> PathModel {
        PathModel {
            generation: self.path_completion.generation as int,
            scanning: self.path_completion.scanning,
            candidates: texts(self.path_completion.candidates@),
            selected: self.path_completion.selected as int,
        }
    }

    pub open spec fn ai_model(self) -> AiModel {
        AiModel {
            generation: self.ai.generation as int,
            instruction: self.ai.instruction@,
            stage: self.ai.stage,
            progress: self.ai.progress@,
            session_id: some_text(self.ai.session_id),
            preview: self.ai.preview,
            preview_scroll: self.ai.preview_scroll as int,
            preview_scroll_limit: self.ai.preview_scroll_limit as int,
        }
    }
}

/// The items of a list that a discovery state shows at a point in time.
pub open spec fn shown_items(discovery: DiscoveryModel, now: i64) -> Seq<usize> {
    choose|r: Seq<usize>|
        is_filtered(discovery.items, discovery.query, discovery.show_older, now, r)
}

/// A discovery state before any scan.
pub open spec fn no_discovery() -> DiscoveryModel {
    DiscoveryModel {
        generation: 0,
        query: Seq::empty(),
        items: Seq::empty(),
        selected: 0,
        scanning: false,
        status: Seq::empty(),
        status_scroll: 0,
        status_scroll_limit: 0,
        show_older: false,
    }
}

/// A path completion that is not running and has no candidates.
pub open spec fn no_completion() -> PathModel {
    PathModel { generation: 0, scanning: false, candidates: Seq::empty(), selected: 0 }
}

/// A proposal that was not asked for yet.
pub open spec fn no_proposal() -> AiModel {
    AiModel {
        generation: 0,
        instruction: Seq::empty(),
        stage: SourceAiStage::Input,
        progress: "Describe the source to follow"@,
        session_id: None,
        preview: None,
        preview_scroll: 0,
        preview_scroll_limit: 0,
    }
}

/// A text with the bytes of another appended as far as they fit.
pub open spec fn appended(value: Seq<char>, text: Seq<char>, max_bytes: int) -> Seq<char> {
    value + byte_clipped(
        text,
        if byte_count(value) <= max_bytes {
            max_bytes - byte_count(value)
        } else {
            0
        },
    )
}

/// An offset moved by a signed step and never below zero.
pub open spec fn stepped(offset: int, delta: int) -> int {
    if offset + delta < 0 {
        0
    } else {
        offset + delta
    }
}

/// The modes of adding a source, in the order of their selector.
pub open spec fn adding_modes() -> Seq<SourceDialogMode> {
    seq![SourceDialogMode::Manual, SourceDialogMode::Discovery, SourceDialogMode::Ai]
}

impl SourceModel {
    /// The dialog's data as before the layer was ever opened.
    pub open spec fn reset(self) -> SourceModel {
        SourceModel {
            kind: SourceKind::File,
            draft: Seq::empty(),
            error: None,
            mode: SourceDialogMode::Manual,
            controls_focused: false,
            control: SourceControl::Input,
            discovery: no_discovery(),
            path: no_completion(),
            ai: no_proposal(),
            existing_selected: 0,
            existing_scroll: 0,
            existing_scroll_limit: 0,
            confirm_remove: false,
            return_to_existing: false,
            manual_cursor: None,
            discovery_cursor: None,
            ai_cursor: None,
            ..self
        }
    }

    pub open spec fn failed(self, why: Seq<char>) -> SourceModel {
        SourceModel { error: Some(why), ..self }
    }

    pub open spec fn asked(self, ask: SourceAsk) -> SourceModel {
        SourceModel { queue: self.queue.put(ask), ..self }
    }

    pub open spec fn queued(self, kind: RequestKind) -> int {
        of_kind(self.queue.items, kind).len() as int
    }

    /// The requests of a kind were taken out.
    pub open spec fn without(self, kind: RequestKind) -> SourceModel {
        SourceModel {
            queue: Queue { items: but_kind(self.queue.items, kind), ..self.queue },
            ..self
        }
    }

    /// The text field that has the focus: none while the scrolled pane or
    /// another control has it, none in the list of sources, and none while a
    /// proposal is under way.
    pub open spec fn field(self) -> Option<SourceField> {
        if self.scroll_focused || self.control != SourceControl::Input {
            None
        } else {
            match self.mode {
                SourceDialogMode::Existing => None,
                SourceDialogMode::Manual => Some(SourceField::Manual),
                SourceDialogMode::Discovery => Some(SourceField::Discovery),
                SourceDialogMode::Ai => if self.ai_is_editable() {
                    Some(SourceField::Ai)
                } else {
                    None
                },
            }
        }
    }

    pub open spec fn ai_is_editable(self) -> bool {
        self.ai.stage == SourceAiStage::Input || self.ai.stage == SourceAiStage::Error
    }

    pub open spec fn value_of(self, field: SourceField) -> Seq<char> {
        match field {
            SourceField::Manual => self.draft,
            SourceField::Discovery => self.discovery.query,
            SourceField::Ai => self.ai.instruction,
        }
    }

    pub open spec fn cursor_of(self, field: SourceField) -> Option<int> {
        match field {
            SourceField::Manual => self.manual_cursor,
            SourceField::Discovery => self.discovery_cursor,
            SourceField::Ai => self.ai_cursor,
        }
    }

    pub open spec fn with_cursor(self, field: SourceField, place: int) -> SourceModel {
        match field {
            SourceField::Manual => SourceModel { manual_cursor: Some(place), ..self },
            SourceField::Discovery => SourceModel { discovery_cursor: Some(place), ..self },
            SourceField::Ai => SourceModel { ai_cursor: Some(place), ..self },
        }
    }

    /// The caret at the end of a field.
    pub open spec fn cursor_at_end(self, field: SourceField) -> SourceModel {
        self.with_cursor(field, self.value_of(field).len() as int)
    }

    /// Where the caret of a field stands: at its place while that is in the
    /// text, and at the end of the text where it has none yet.
    pub open spec fn caret(self, field: SourceField) -> int {
        let end = self.value_of(field).len() as int;
        match self.cursor_of(field) {
            Some(place) => if place <= end {
                place
            } else {
                end
            },
            None => end,
        }
    }

    pub open spec fn completion_cleared(self) -> SourceModel {
        SourceModel { path: no_completion(), ..self }
    }

    pub open spec fn completions_dropped(self) -> SourceModel {
        SourceModel { ready_at: None, ..self.without(RequestKind::PathCompletion) }
    }

    /// A path scan of a new generation is asked for in place of any other, to
    /// be handed over once typing has paused.
    pub open spec fn completion_asked(self, clock: int) -> SourceModel {
        let generation = self.next_path;
        let fresh = SourceModel {
            next_path: if generation == u64::MAX {
                0
            } else {
                generation + 1
            },
            path: PathModel { generation, scanning: true, ..self.path },
            error: None,
            ..self
        }.completions_dropped().asked(
            SourceAsk::Complete { generation: generation as u64, draft: self.draft },
        );
        SourceModel {
            ready_at: Some(
                if clock + SOURCE_PATH_COMPLETION_DEBOUNCE <= u64::MAX {
                    clock + SOURCE_PATH_COMPLETION_DEBOUNCE
                } else {
                    u64::MAX as int
                },
            ),
            ..fresh
        }
    }

    /// A path scan follows what was typed; an empty path has nothing to scan.
    pub open spec fn completion_scheduled(self, clock: int) -> SourceModel {
        if self.mode != SourceDialogMode::Manual || self.kind != SourceKind::File {
            self
        } else if self.draft.len() == 0 {
            self.completion_cleared().completions_dropped()
        } else {
            SourceModel {
                path: PathModel { candidates: Seq::empty(), selected: 0, ..self.path },
                ..self
            }.completion_asked(clock)
        }
    }

    pub open spec fn source_appended(self, text: Seq<char>, max_bytes: int, clock: int) -> SourceModel {
        let typed = SourceModel {
            draft: appended(self.draft, text, max_bytes),
            error: None,
            ..self
        }.completion_cleared().cursor_at_end(SourceField::Manual);
        if self.mode == SourceDialogMode::Manual && self.kind == SourceKind::File {
            typed.completion_scheduled(clock)
        } else {
            typed
        }
    }

    pub open spec fn query_appended(self, text: Seq<char>, max_bytes: int) -> SourceModel {
        SourceModel {
            discovery: DiscoveryModel {
                query: appended(self.discovery.query, text, max_bytes),
                selected: 0,
                ..self.discovery
            },
            ..self
        }.cursor_at_end(SourceField::Discovery)
    }

    pub open spec fn instruction_appended(self, text: Seq<char>, max_bytes: int) -> SourceModel {
        if self.ai_is_editable() {
            SourceModel {
                ai: AiModel {
                    instruction: appended(self.ai.instruction, text, max_bytes),
                    stage: SourceAiStage::Input,
                    ..self.ai
                },
                ..self
            }.cursor_at_end(SourceField::Ai)
        } else {
            self
        }
    }

    /// A discovery scan of a new generation starts; one that runs is called
    /// off first, and a full queue keeps the new one from starting.
    #[verifier::opaque]
    pub open spec fn scan_started(self) -> SourceModel {
        let last = self.discovery.generation;
        let generation = if last < u64::MAX {
            last + 1
        } else {
            last
        };
        let fresh = SourceModel {
            discovery: DiscoveryModel {
                generation,
                scanning: true,
                items: Seq::empty(),
                selected: 0,
                show_older: false,
                status: "scanning bounded local providers\u{2026}"@,
                ..self.discovery
            },
            ..self
        };
        let quiet = if last > 0 && self.discovery.scanning {
            fresh.asked(SourceAsk::CancelScan { generation: last as u64 })
        } else {
            fresh
        };
        if quiet.queued(RequestKind::Discovery) < MAX_DISCOVERY_REQUESTS {
            quiet.asked(SourceAsk::Scan { generation: generation as u64 })
        } else {
            SourceModel {
                discovery: DiscoveryModel {
                    scanning: false,
                    status: "discovery request queue is full"@,
                    ..quiet.discovery
                },
                ..quiet
            }
        }
    }

    pub open spec fn discovery_moved(self, delta: int, now: i64) -> SourceModel {
        let count = shown_items(self.discovery, now).len() as int;
        SourceModel {
            discovery: DiscoveryModel {
                selected: if count == 0 {
                    0
                } else {
                    scroll_step(self.discovery.selected, count - 1, delta)
                },
                ..self.discovery
            },
            ..self
        }
    }

    pub open spec fn older_toggled(self, now: i64) -> SourceModel {
        let turned = DiscoveryModel {
            show_older: !self.discovery.show_older,
            ..self.discovery
        };
        let count = shown_items(turned, now).len() as int;
        let last = if count == 0 {
            0
        } else {
            count - 1
        };
        SourceModel {
            discovery: DiscoveryModel {
                selected: if turned.selected <= last {
                    turned.selected
                } else {
                    last
                },
                ..turned
            },
            ..self
        }
    }

    /// Up and down outside the list of sources: through the discovered items,
    /// the lines of a proposal, or the completed paths.
    pub open spec fn completion_moved(self, delta: int, now: i64) -> SourceModel {
        if self.mode == SourceDialogMode::Discovery {
            self.discovery_moved(delta, now)
        } else if self.mode == SourceDialogMode::Ai && self.ai.stage == SourceAiStage::Proposal {
            SourceModel {
                ai: AiModel {
                    preview_scroll: scroll_step(
                        self.ai.preview_scroll,
                        usize::MAX as int,
                        delta,
                    ),
                    ..self.ai
                },
                ..self
            }
        } else if self.mode == SourceDialogMode::Manual && self.kind == SourceKind::File
            && self.path.candidates.len() > 0 {
            SourceModel {
                path: PathModel {
                    selected: ring_step(
                        self.path.selected,
                        self.path.candidates.len() as int,
                        delta,
                    ),
                    ..self.path
                },
                ..self
            }
        } else {
            self
        }
    }

    pub open spec fn status_scrolled(self, delta: int) -> SourceModel {
        SourceModel {
            discovery: DiscoveryModel {
                status_scroll: scroll_step(
                    self.discovery.status_scroll,
                    self.discovery.status_scroll_limit,
                    delta,
                ),
                ..self.discovery
            },
            ..self
        }
    }

    pub open spec fn existing_scrolled(self, delta: int) -> SourceModel {
        SourceModel {
            existing_scroll: scroll_step(self.existing_scroll, self.existing_scroll_limit, delta),
            ..self
        }
    }

    /// The selection among the sources moves; leaving a source takes back the
    /// confirmation to remove it.
    pub open spec fn existing_moved(self, delta: int, count: int) -> SourceModel {
        if count == 0 {
            SourceModel { existing_selected: 0, confirm_remove: false, ..self }
        } else {
            let next = scroll_step(self.existing_selected, count - 1, delta);
            if next != self.existing_selected {
                SourceModel {
                    existing_selected: next,
                    confirm_remove: false,
                    existing_scroll: 0,
                    ..self
                }
            } else {
                self
            }
        }
    }

    /// Restart and remove: removing asks first and does so when asked again.
    #[verifier::opaque]
    pub open spec fn management_submitted(self, remove: bool, sources: Seq<SourceItem>) -> SourceModel {
        if self.existing_selected >= sources.len() {
            self.failed("no existing source selected"@)
        } else if remove && !self.confirm_remove {
            SourceModel { confirm_remove: true, error: None, ..self }
        } else {
            let source_id = sources[self.existing_selected].id@;
            let ask = if remove {
                SourceAsk::Remove { source_id }
            } else {
                SourceAsk::Restart { source_id }
            };
            let settled = SourceModel { confirm_remove: false, ..self };
            if self.queue.items.len() < self.queue.cap {
                settled.asked(ask)
            } else {
                settled.failed("source action queue is full"@)
            }
        }
    }

    /// The selected discovered source is asked for by its key.
    pub open spec fn discovered_submitted(self, now: i64) -> SourceModel {
        let shown = shown_items(self.discovery, now);
        if self.discovery.selected >= shown.len() {
            self.failed("no matching discovered source to start"@)
        } else if self.queued(RequestKind::Discovery) >= MAX_DISCOVERY_REQUESTS {
            self.failed("discovery action queue is full"@)
        } else {
            self.asked(
                SourceAsk::Select {
                    generation: self.discovery.generation as u64,
                    key: self.discovery.items[shown[self.discovery.selected] as int].key@,
                },
            ).failed("starting selected source\u{2026}"@)
        }
    }

    pub open spec fn is_manual_file(self) -> bool {
        self.mode == SourceDialogMode::Manual && self.kind == SourceKind::File
    }

    /// A draft that is complete is launched.
    pub open spec fn launched(self) -> SourceModel {
        if self.draft.len() == 0 {
            self.failed("enter a file path or shell command"@)
        } else if self.queued(RequestKind::Launch) >= MAX_SOURCE_REQUESTS {
            self.failed("source launch queue is full"@)
        } else {
            self.asked(SourceAsk::Launch { kind: self.kind, text: self.draft }).failed(
                "starting source\u{2026}"@,
            )
        }
    }

    /// A path that ends in a slash is a directory: it is completed further
    /// instead of launched.
    pub open spec fn source_submitted(self, clock: int) -> SourceModel {
        if self.is_manual_file() && self.draft.len() > 0 && self.draft.last() == '/'
            && self.path.candidates.len() == 0 {
            if self.path.scanning {
                self
            } else {
                self.completion_scheduled(clock)
            }
        } else if self.is_manual_file() && self.path.selected < self.path.candidates.len() {
            let path = self.path.candidates[self.path.selected];
            let taken = SourceModel {
                draft: path,
                ..self
            }.completion_cleared().cursor_at_end(SourceField::Manual);
            if path.len() > 0 && path.last() == '/' {
                taken.completion_scheduled(clock)
            } else {
                taken.launched()
            }
        } else {
            self.launched()
        }
    }

    pub open spec fn ai_noted(self, stage: SourceAiStage, progress: Seq<char>) -> SourceModel {
        SourceModel { ai: AiModel { stage, progress, ..self.ai }, ..self }
    }

    /// How many sources a proposal holds.
    pub open spec fn proposed(self) -> int {
        match self.ai.preview {
            Some(preview) => preview.sources@.len() as int,
            None => 0,
        }
    }

    /// What is said while a proposal starts.
    pub open spec fn starting_text(count: int) -> Seq<char> {
        if count > 1 {
            "starting "@ + decimal(count as nat) + " reviewed sources\u{2026}"@
        } else {
            "starting reviewed source\u{2026}"@
        }
    }

    /// A proposal under review is applied, once: it leaves the review before
    /// the request is queued. A description is sent off under a new generation.
    pub open spec fn ai_submitted(self, agent: AgentChoice) -> SourceModel {
        let full = self.queued(RequestKind::Ai) >= MAX_SOURCE_AI_REQUESTS;
        if self.ai.stage == SourceAiStage::Proposal {
            if full {
                self.ai_noted(self.ai.stage, "source agent request queue is full"@)
            } else {
                self.ai_noted(
                    SourceAiStage::Applying,
                    SourceModel::starting_text(self.proposed()),
                ).asked(SourceAsk::AiApply { generation: self.ai.generation as u64 })
            }
        } else if !self.ai_is_editable() {
            self
        } else if trimmed(self.ai.instruction).len() == 0 {
            self.ai_noted(SourceAiStage::Error, "describe the source to follow"@)
        } else if full {
            self.ai_noted(SourceAiStage::Error, "source agent request queue is full"@)
        } else {
            let generation = if self.next_ai < u64::MAX {
                self.next_ai + 1
            } else {
                self.next_ai
            };
            SourceModel {
                next_ai: generation,
                ai: AiModel {
                    generation,
                    stage: SourceAiStage::Preparing,
                    progress: "collecting bounded read-only discovery context"@,
                    preview: None,
                    preview_scroll: 0,
                    preview_scroll_limit: 0,
                    ..self.ai
                },
                ..self
            }.asked(
                SourceAsk::AiStart {
                    generation: generation as u64,
                    instruction: self.ai.instruction,
                    provider: agent.provider@,
                    mode: agent.mode@,
                    thinking: agent.thinking@,
                },
            )
        }
    }

    pub open spec fn submitted(self, ctx: SourceContext) -> SourceModel {
        match self.mode {
            SourceDialogMode::Existing => self.management_submitted(false, ctx.sources@),
            SourceDialogMode::Discovery => self.discovered_submitted(ctx.now),
            SourceDialogMode::Ai => self.ai_submitted(*ctx.agent),
            SourceDialogMode::Manual => self.source_submitted(ctx.clock as int),
        }
    }

    /// Another mode is shown, its input focused; the first visit to discovery
    /// starts a scan.
    #[verifier::opaque]
    pub open spec fn mode_set(self, mode: SourceDialogMode) -> SourceModel {
        let shown = SourceModel {
            mode,
            control: SourceControl::Input,
            controls_focused: false,
            confirm_remove: false,
            return_to_existing: self.return_to_existing && mode != SourceDialogMode::Existing,
            ..self
        }.completion_cleared().completions_dropped();
        if mode == SourceDialogMode::Discovery && self.discovery.generation == 0 {
            shown.scan_started()
        } else {
            shown
        }
    }

    pub open spec fn leaving_list(self) -> SourceModel {
        SourceModel {
            return_to_existing: self.return_to_existing || self.mode == SourceDialogMode::Existing,
            ..self
        }
    }

    pub open spec fn discovery_toggled(self) -> SourceModel {
        if self.mode == SourceDialogMode::Discovery {
            self.mode_set(SourceDialogMode::Manual)
        } else {
            self.leaving_list().mode_set(SourceDialogMode::Discovery)
        }
    }

    pub open spec fn ai_toggled(self) -> SourceModel {
        if self.mode == SourceDialogMode::Ai {
            self.mode_set(SourceDialogMode::Manual)
        } else {
            self.leaving_list().mode_set(SourceDialogMode::Ai)
        }
    }

    pub open spec fn focused(self, control: SourceControl) -> SourceModel {
        SourceModel { control, controls_focused: control != SourceControl::Input, ..self }
    }

    /// The focus goes to the next control of the mode.
    pub open spec fn focus_moved(self) -> SourceModel {
        let controls = visible_controls(self.mode);
        self.focused(
            controls[ring_step(
                place_or_start(controls, self.control),
                controls.len() as int,
                1,
            )],
        )
    }

    /// The mode selector moves while a control has the focus.
    pub open spec fn mode_moved(self, delta: int) -> SourceModel {
        if !self.controls_focused || self.mode == SourceDialogMode::Existing {
            self
        } else {
            let mode = adding_modes()[ring_step(
                place_or_start(adding_modes(), self.mode),
                3,
                delta,
            )];
            let shown = SourceModel {
                mode,
                control: match mode {
                    SourceDialogMode::Existing => SourceControl::Input,
                    SourceDialogMode::Manual => SourceControl::Manual,
                    SourceDialogMode::Discovery => SourceControl::Discovery,
                    SourceDialogMode::Ai => SourceControl::Agent,
                },
                ..self
            }.completion_cleared();
            if mode == SourceDialogMode::Discovery && self.discovery.generation == 0 {
                shown.scan_started()
            } else {
                shown
            }
        }
    }

    /// A manual source becomes a file or a command; a command has no path to
    /// complete.
    pub open spec fn kind_selected(self, kind: SourceKind) -> SourceModel {
        let chosen = if self.mode == SourceDialogMode::Manual {
            let keeps = visible_controls(self.mode).contains(self.control);
            SourceModel {
                kind,
                control: if keeps {
                    self.control
                } else {
                    SourceControl::Input
                },
                controls_focused: self.controls_focused && keeps,
                error: None,
                ..self
            }.completion_cleared()
        } else {
            self
        };
        if kind == SourceKind::Command {
            chosen.completions_dropped()
        } else {
            chosen
        }
    }

    /// Adding a source from the list comes back to it.
    #[verifier::opaque]
    pub open spec fn adding(self, sources: Seq<SourceItem>) -> SourceModel {
        SourceModel { return_to_existing: sources.len() > 0, ..self }.mode_set(
            SourceDialogMode::Manual,
        )
    }

    /// The control that has the focus does its work.
    #[verifier::opaque]
    pub open spec fn activated(self, ctx: SourceContext) -> SourceModel {
        match self.control {
            SourceControl::Input => self.submitted(ctx),
            SourceControl::Add => self.adding(ctx.sources@),
            SourceControl::Manual => self.mode_set(SourceDialogMode::Manual),
            SourceControl::Discovery => self.mode_set(SourceDialogMode::Discovery),
            SourceControl::Agent => self.mode_set(SourceDialogMode::Ai),
            SourceControl::File => self.kind_selected(SourceKind::File),
            SourceControl::Command => self.kind_selected(SourceKind::Command),
            SourceControl::Refresh => self.scan_started(),
            SourceControl::Restart => self.management_submitted(false, ctx.sources@),
            SourceControl::Remove => self.management_submitted(true, ctx.sources@),
        }
    }

    pub open spec fn vertical(self, delta: int, ctx: SourceContext) -> SourceModel {
        match self.mode {
            SourceDialogMode::Existing => if self.scroll_focused {
                self.existing_scrolled(delta)
            } else {
                self.existing_moved(delta, ctx.sources@.len() as int)
            },
            SourceDialogMode::Discovery => if self.scroll_focused {
                self.status_scrolled(delta)
            } else {
                self.discovery_moved(delta, ctx.now)
            },
            _ => self.completion_moved(delta, ctx.now),
        }
    }

    /// The field that has the focus was edited.
    pub open spec fn edited(self, value: Seq<char>, cursor: int, changed: bool, clock: int) -> SourceModel {
        match self.field() {
            None => self,
            Some(field) => {
                let placed = self.with_cursor(field, cursor);
                if !changed {
                    placed
                } else {
                    match field {
                        SourceField::Manual => {
                            let typed = SourceModel {
                                draft: value,
                                error: None,
                                ..placed
                            }.completion_cleared();
                            if self.kind == SourceKind::File {
                                typed.completion_scheduled(clock)
                            } else {
                                typed
                            }
                        },
                        SourceField::Discovery => SourceModel {
                            discovery: DiscoveryModel {
                                query: value,
                                selected: 0,
                                ..placed.discovery
                            },
                            error: None,
                            ..placed
                        },
                        SourceField::Ai => SourceModel {
                            ai: AiModel {
                                instruction: value,
                                stage: SourceAiStage::Input,
                                ..placed.ai
                            },
                            error: None,
                            ..placed
                        },
                    }
                }
            },
        }
    }
}

/// A key that edits: a command to the field that has the focus, and nothing
/// where none has it.
pub open spec fn edit_step(model: SourceModel, command: EditCommand) -> (SourceModel, Step) {
    if model.field() is Some {
        (model, Step::Edit(command))
    } else {
        (model, Step::Done(Outcome::Consumed))
    }
}

impl SourceModel {
    /// The keys that are left when the caret keys and the lists had theirs.
    pub open spec fn after_table_key(self, key: KeyEvent, ctx: SourceContext) -> (SourceModel, Step) {
        let control = key.modifiers.control;
        let alt = key.modifiers.alt;
        let existing = self.mode == SourceDialogMode::Existing;
        let done = Step::Done(Outcome::Consumed);
        match key.code {
            KeyCode::Down => (self.vertical(1, ctx), done),
            KeyCode::Up => (self.vertical(-1, ctx), done),
            KeyCode::Left => (self.mode_moved(-1), done),
            KeyCode::Right => (self.mode_moved(1), done),
            KeyCode::Tab => (self.focus_moved(), done),
            KeyCode::BackTab => (self.focus_moved(), done),
            KeyCode::Enter => (self.activated(ctx), done),
            KeyCode::Backspace => edit_step(self, EditCommand::Backspace),
            KeyCode::Delete => if existing {
                (self.management_submitted(true, ctx.sources@), done)
            } else {
                (self, Step::Done(Outcome::Ignored))
            },
            KeyCode::Char(ch) => if ch == 'd' && control {
                (self.discovery_toggled(), done)
            } else if ch == 'r' && control {
                (self.scan_started(), done)
            } else if ch == 'u' && alt && self.mode == SourceDialogMode::Discovery {
                (self.older_toggled(ctx.now), done)
            } else if ch == 'f' && alt {
                (self.kind_selected(SourceKind::File), done)
            } else if ch == 'c' && alt {
                (self.kind_selected(SourceKind::Command), done)
            } else if ch == 'R' && existing {
                (self.management_submitted(false, ctx.sources@), done)
            } else if key.modifiers.plain() {
                edit_step(self, EditCommand::Insert(ch))
            } else {
                (self, Step::Done(Outcome::Ignored))
            },
            _ => (self, Step::Done(Outcome::Ignored)),
        }
    }

    /// A key: first the caret keys of Control, then up and down through what
    /// the input offers, then the arrows of the field, then the rest.
    pub open spec fn after_key(self, key: KeyEvent, ctx: SourceContext) -> (SourceModel, Step) {
        let empty = key.modifiers.spec_is_empty();
        let delta: int = if key.code == KeyCode::Up {
            -1
        } else {
            1
        };
        let offers = empty && self.control == SourceControl::Input && !self.scroll_focused && (
        key.code == KeyCode::Up || key.code == KeyCode::Down);
        if !key.spec_is_active() {
            (self, Step::Done(Outcome::Ignored))
        } else if key.modifiers.control && control_edit(key.code) is Some {
            edit_step(self, control_edit(key.code)->0)
        } else if offers && self.mode == SourceDialogMode::Discovery {
            (self.discovery_moved(delta, ctx.now), Step::Done(Outcome::Consumed))
        } else if offers && self.is_manual_file() && self.path.candidates.len() > 0 {
            (self.completion_moved(delta, ctx.now), Step::Done(Outcome::Consumed))
        } else if empty && self.field() is Some && arrow_edit(key.code) is Some {
            edit_step(self, arrow_edit(key.code)->0)
        } else {
            self.after_table_key(key, ctx)
        }
    }

    /// The wheel over the scrolled pane.
    pub open spec fn pane_scrolled(self, delta: int, now: i64) -> SourceModel {
        match self.mode {
            SourceDialogMode::Existing => self.existing_scrolled(delta),
            SourceDialogMode::Ai => self.completion_moved(delta, now),
            _ => self.status_scrolled(delta),
        }
    }

    pub open spec fn input_focused(self) -> SourceModel {
        SourceModel { control: SourceControl::Input, controls_focused: false, ..self }
    }

    pub open spec fn existing_clicked(self, index: int) -> SourceModel {
        let left = index != self.existing_selected;
        SourceModel {
            existing_selected: index,
            confirm_remove: self.confirm_remove && !left,
            existing_scroll: if left {
                0
            } else {
                self.existing_scroll
            },
            ..self
        }.input_focused()
    }

    /// The pointer: the scrolled pane takes it first; any other press takes the
    /// focus from that pane and goes to completed paths, controls and rows; the
    /// wheel elsewhere moves in the list.
    pub open spec fn after_mouse(
        self,
        kind: MouseEventKind,
        hit: Option<SourceHit>,
        ctx: SourceContext,
    ) -> SourceModel {
        let pressed = kind == MouseEventKind::LeftDown;
        let base = if pressed {
            SourceModel { scroll_focused: false, ..self }
        } else {
            self
        };
        if hit == Some(SourceHit::Scroll) {
            match kind {
                MouseEventKind::LeftDown => SourceModel { scroll_focused: true, ..self },
                MouseEventKind::ScrollUp => self.pane_scrolled(-1, ctx.now),
                MouseEventKind::ScrollDown => self.pane_scrolled(1, ctx.now),
                MouseEventKind::Other => self,
            }
        } else if pressed && hit is Some && hit->0 is PathCompletion {
            SourceModel {
                path: PathModel { selected: hit->0->PathCompletion_0 as int, ..base.path },
                ..base
            }.input_focused()
        } else if pressed && hit is Some && hit->0 is Control {
            base.focused(hit->0->Control_0).activated(ctx)
        } else if self.mode == SourceDialogMode::Existing {
            base.existing_pointed(kind, hit, ctx.sources@.len() as int)
        } else if self.mode == SourceDialogMode::Discovery {
            base.discovery_pointed(kind, hit, ctx.now)
        } else {
            base
        }
    }

    /// The pointer in the list of sources.
    #[verifier::opaque]
    pub open spec fn existing_pointed(
        self,
        kind: MouseEventKind,
        hit: Option<SourceHit>,
        count: int,
    ) -> SourceModel {
        match kind {
            MouseEventKind::LeftDown => if hit is Some && hit->0 is Existing {
                self.existing_clicked(hit->0->Existing_0 as int)
            } else {
                self
            },
            MouseEventKind::ScrollUp => self.existing_moved(-1, count),
            MouseEventKind::ScrollDown => self.existing_moved(1, count),
            MouseEventKind::Other => self,
        }
    }

    /// The pointer in the list of discovered sources.
    #[verifier::opaque]
    pub open spec fn discovery_pointed(
        self,
        kind: MouseEventKind,
        hit: Option<SourceHit>,
        now: i64,
    ) -> SourceModel {
        match kind {
            MouseEventKind::LeftDown => match hit {
                Some(SourceHit::OlderUnavailable) => self.older_toggled(now),
                Some(SourceHit::Discovery(index)) => SourceModel {
                    discovery: DiscoveryModel { selected: index as int, ..self.discovery },
                    ..self
                }.input_focused(),
                _ => self,
            },
            MouseEventKind::ScrollUp => self.discovery_moved(-1, now),
            MouseEventKind::ScrollDown => self.discovery_moved(1, now),
            MouseEventKind::Other => self,
        }
    }

    pub open spec fn after_command(self, id: CommandId) -> (SourceModel, Outcome) {
        match id {
            CommandId::DiscoverSources => (self.discovery_toggled(), Outcome::Consumed),
            CommandId::AskAiSource => (self.ai_toggled(), Outcome::Consumed),
            CommandId::SourceFileMode => (self.kind_selected(SourceKind::File), Outcome::Consumed),
            CommandId::SourceCommandMode => (
                self.kind_selected(SourceKind::Command),
                Outcome::Consumed,
            ),
            _ => (self, Outcome::Ignored),
        }
    }

    /// The scan and the proposal that still run are called off, as far as
    /// their queues take the request.
    pub open spec fn work_cancelled(self) -> SourceModel {
        let quiet = if self.discovery.scanning && self.queued(RequestKind::Discovery)
            < MAX_DISCOVERY_REQUESTS {
            self.asked(SourceAsk::CancelScan { generation: self.discovery.generation as u64 })
        } else {
            self
        };
        if !self.ai_is_editable() && quiet.queued(RequestKind::Ai) < MAX_SOURCE_AI_REQUESTS {
            quiet.asked(SourceAsk::AiCancel { generation: self.ai.generation as u64 })
        } else {
            quiet
        }
    }

    /// Dismissal closes the innermost thing: the completed paths, then the way
    /// back to the list of sources, then the layer.
    pub open spec fn dismissed(self, sources: Seq<SourceItem>) -> (SourceModel, Outcome) {
        if self.path.scanning || self.path.candidates.len() > 0 {
            (
                SourceModel { control: SourceControl::Input, ..self.completion_cleared() },
                Outcome::Consumed,
            )
        } else if self.mode != SourceDialogMode::Existing && self.return_to_existing
            && sources.len() > 0 {
            (
                SourceModel {
                    scroll_focused: false,
                    ..self.work_cancelled().mode_set(SourceDialogMode::Existing)
                },
                Outcome::Consumed,
            )
        } else {
            (SourceModel { open: false, ..self.work_cancelled().reset() }, Outcome::Close)
        }
    }

    /// The selection brought back among the sources.
    pub open spec fn selection_kept(self, count: int) -> SourceModel {
        let last = if count == 0 {
            0
        } else {
            count - 1
        };
        SourceModel {
            existing_selected: if self.existing_selected <= last {
                self.existing_selected
            } else {
                last
            },
            ..self
        }
    }

    /// A source was removed: where none is left, the layer adds one.
    pub open spec fn source_removed(self, count: int) -> SourceModel {
        let settled = SourceModel { confirm_remove: false, ..self };
        let shown = if count == 0 {
            SourceModel {
                mode: SourceDialogMode::Manual,
                return_to_existing: false,
                ..settled
            }.input_focused()
        } else {
            settled
        };
        shown.selection_kept(count)
    }

    pub open spec fn pasted(self, text: Seq<char>, ctx: SourceContext) -> SourceModel {
        match self.mode {
            SourceDialogMode::Existing => self,
            SourceDialogMode::Discovery => self.query_appended(text, ctx.editor_bytes as int),
            SourceDialogMode::Ai => self.instruction_appended(text, ctx.prompt_bytes as int),
            SourceDialogMode::Manual => self.source_appended(
                text,
                ctx.editor_bytes as int,
                ctx.clock as int,
            ),
        }
    }

    pub open spec fn after_event(self, event: Event<SourceHit>, ctx: SourceContext) -> (
        SourceModel,
        Step,
    ) {
        match event {
            Event::Key(key) => self.after_key(key, ctx),
            Event::Paste(text) => (self.pasted(text@, ctx), Step::Done(Outcome::Consumed)),
            Event::Mouse { kind, hit } => (
                self.after_mouse(kind, hit, ctx),
                Step::Done(Outcome::Consumed),
            ),
            Event::Dismiss => {
                let (after, outcome) = self.dismissed(ctx.sources@);
                (after, Step::Done(outcome))
            },
            Event::Command(id) => {
                let (after, outcome) = self.after_command(id);
                (after, Step::Done(outcome))
            },
            Event::View(ViewEvent::SourceRemoved) => (
                self.source_removed(ctx.sources@.len() as int),
                Step::Done(Outcome::Consumed),
            ),
            _ => (self, Step::Done(Outcome::Ignored)),
        }
    }

    /// What the layer covers before it is drawn: nothing, but whether a text
    /// field has the focus is known.
    pub open spec fn surface_seeded(self) -> SourceModel {
        SourceModel {
            surface: Surface { text_focus: self.field() is Some, ..Surface::nothing() },
            ..self
        }
    }

    /// The layer opens; what was typed, found or proposed before is kept.
    pub open spec fn opened(
        self,
        params: SourceOpen,
        count: int,
        geometry: SourceGeometry,
    ) -> SourceModel {
        SourceModel {
            open: true,
            mode: if params == SourceOpen::Existing && count > 0 {
                SourceDialogMode::Existing
            } else {
                SourceDialogMode::Manual
            },
            confirm_remove: false,
            return_to_existing: false,
            scroll_focused: false,
            geometry,
            ..self.selection_kept(count).input_focused()
        }.surface_seeded()
    }

    /// The button of the action row.
    pub open spec fn action_control(self, index: int) -> Option<SourceControl> {
        match self.mode {
            SourceDialogMode::Existing => if index == 0 {
                Some(SourceControl::Add)
            } else if index == 1 {
                Some(SourceControl::Restart)
            } else if index == 2 {
                Some(SourceControl::Remove)
            } else {
                None
            },
            SourceDialogMode::Discovery => if index == 0 {
                Some(SourceControl::Input)
            } else if index == 1 {
                Some(SourceControl::Refresh)
            } else {
                None
            },
            _ => if index == 0 {
                Some(SourceControl::Input)
            } else {
                None
            },
        }
    }

    pub open spec fn action_pressed(self, index: int, ctx: SourceContext) -> (SourceModel, Outcome) {
        match self.action_control(index) {
            None => (self, Outcome::Ignored),
            Some(SourceControl::Add) => (self.adding(ctx.sources@), Outcome::Consumed),
            Some(SourceControl::Restart) => (
                self.management_submitted(false, ctx.sources@),
                Outcome::Consumed,
            ),
            Some(SourceControl::Remove) => (
                self.management_submitted(true, ctx.sources@),
                Outcome::Consumed,
            ),
            Some(control) => (self.focused(control).activated(ctx), Outcome::Consumed),
        }
    }

    pub open spec fn path_completed(
        self,
        generation: int,
        draft: Seq<char>,
        candidates: Seq<Seq<char>>,
        error: Option<Seq<char>>,
    ) -> (SourceModel, bool) {
        if self.open && self.is_manual_file() && self.draft == draft && self.path.generation
            == generation {
            (
                SourceModel {
                    path: PathModel { scanning: false, candidates, selected: 0, ..self.path },
                    error,
                    ..self
                },
                true,
            )
        } else {
            (self, false)
        }
    }

    pub open spec fn discovery_completed(
        self,
        generation: int,
        items: Seq<DiscoveryItem>,
        status: Seq<char>,
    ) -> (SourceModel, bool) {
        if self.open && self.discovery.generation == generation {
            (
                SourceModel {
                    discovery: DiscoveryModel {
                        items,
                        selected: 0,
                        scanning: false,
                        status,
                        status_scroll: 0,
                        show_older: false,
                        ..self.discovery
                    },
                    error: None,
                    ..self
                },
                true,
            )
        } else {
            (self, false)
        }
    }

    /// The proposal of a generation is the one the layer shows.
    pub open spec fn ai_matches(self, generation: int) -> bool {
        self.open && self.ai.generation == generation
    }

    pub open spec fn ai_progressed(
        self,
        generation: int,
        stage: SourceAiStage,
        progress: Seq<char>,
        session_id: Option<Seq<char>>,
    ) -> (SourceModel, bool) {
        if self.ai_matches(generation) {
            (
                SourceModel {
                    ai: AiModel {
                        stage,
                        progress,
                        session_id: if session_id is Some {
                            session_id
                        } else {
                            self.ai.session_id
                        },
                        ..self.ai
                    },
                    ..self
                },
                true,
            )
        } else {
            (self, false)
        }
    }

    pub open spec fn ai_finished(
        self,
        generation: int,
        preview: Option<SourceAiPreview>,
        error: Seq<char>,
    ) -> (SourceModel, bool) {
        if self.ai_matches(generation) {
            (
                SourceModel {
                    ai: AiModel {
                        preview,
                        preview_scroll: 0,
                        preview_scroll_limit: 0,
                        stage: if preview is Some {
                            SourceAiStage::Proposal
                        } else {
                            SourceAiStage::Error
                        },
                        progress: if preview is Some {
                            "Review only \u{2014} explicit confirmation starts this source"@
                        } else {
                            error
                        },
                        ..self.ai
                    },
                    ..self
                },
                true,
            )
        } else {
            (self, false)
        }
    }

    /// A launch is the draft that the layer shows.
    pub open spec fn shows_launch(self, kind: SourceKind, text: Seq<char>) -> bool {
        self.open && self.kind == kind && self.draft == text
    }

    pub open spec fn shows_discovery(self, generation: int) -> bool {
        self.open && self.mode == SourceDialogMode::Discovery && self.discovery.generation
            == generation
    }

    /// Path scans are handed over once typing has paused.
    pub open spec fn completions_ready(self, clock: int) -> bool {
        self.ready_at is None || self.ready_at->0 <= clock
    }

    pub open spec fn completions_taken(self, clock: int) -> SourceModel {
        if self.completions_ready(clock) {
            self.completions_dropped()
        } else {
            self
        }
    }
}

impl SourceDialog {
    pub closed spec fn model(&self) -> SourceModel {
        SourceModel {
            open: self.open,
            kind: self.state.kind,
            draft: self.state.draft@,
            error: some_text(self.state.error),
            mode: self.state.mode,
            controls_focused: self.state.controls_focused,
            control: self.state.control,
            discovery: self.state.discovery_model(),
            path: self.state.path_model(),
            ai: self.state.ai_model(),
            existing_selected: self.state.existing_selected as int,
            existing_scroll: self.state.existing_scroll as int,
            existing_scroll_limit: self.state.existing_scroll_limit as int,
            confirm_remove: self.state.confirm_remove,
            return_to_existing: self.state.return_to_existing,
            scroll_focused: self.scroll_focused,
            manual_cursor: some_number(self.manual_cursor),
            discovery_cursor: some_number(self.discovery_cursor),
            ai_cursor: some_number(self.ai_cursor),
            next_path: self.next_path_completion_generation as int,
            next_ai: self.next_ai_generation as int,
            ready_at: match self.path_completion_ready_at {
                Some(at) => Some(at as int),
                None => None,
            },
            geometry: self.geometry,
            surface: self.surface,
            queue: Queue {
                items: asks(self.outbox@.items),
                cap: self.outbox@.cap,
                generation: self.outbox@.generation,
            },
        }
    }

    fn push(&mut self, request: SourceRequest) -> (r: bool)
        ensures
            final(self).model() == old(self).model().asked(ask_of(request)),
            r == (old(self).model().queue.items.len() < old(self).model().queue.cap),
    {
        let ghost before = self.outbox@.items;
        let ghost ask = ask_of(request);
        let taken = self.outbox.push(request).is_ok();
        proof {
            assert(asks(before.push(request)) =~= asks(before).push(ask));
            assert(self.model().queue =~= old(self).model().queue.put(ask));
        }
        taken
    }

    fn queued(&self, kind: RequestKind) -> (r: usize)
        ensures
            r == self.model().queued(kind),
    {
        let mut count: usize = 0;
        let mut i: usize = 0;
        let ghost all = asks(self.outbox@.items);
        assert(of_kind(all.take(0), kind).len() == 0);
        while i < self.outbox.len()
            invariant
                i <= self.outbox@.items.len(),
                all == asks(self.outbox@.items),
                count <= i,
                count == of_kind(all.take(i as int), kind).len(),
            decreases self.outbox@.items.len() - i,
        {
            proof {
                assert(all.take(i + 1).drop_last() =~= all.take(i as int));
                assert(all.take(i + 1).last() == ask_of(self.outbox@.items[i as int]));
            }
            if let Some(request) = self.outbox.get(i) {
                if kind_of(request) == kind {
                    count += 1;
                }
            }
            i += 1;
        }
        assert(all.take(i as int) =~= all);
        count
    }

    /// Takes the requests of a kind out of the queue.
    fn take_kind(&mut self, kind: RequestKind) -> (r: Vec<SourceRequest>)
        ensures
            asks(r@) == of_kind(old(self).model().queue.items, kind),
            final(self).model() == old(self).model().without(kind),
    {
        let mut all = self.outbox.drain();
        let mut taken: Vec<SourceRequest> = Vec::new();
        let mut kept: Vec<SourceRequest> = Vec::new();
        let ghost whole = asks(all@);
        let mut n: Ghost<int> = Ghost(0);
        assert(whole.take(0) =~= Seq::<SourceAsk>::empty());
        assert(whole.skip(0) =~= whole);
        assert(asks(taken@) =~= of_kind(whole.take(0), kind));
        assert(asks(kept@) =~= but_kind(whole.take(0), kind));
        while all.len() > 0
            invariant
                0 <= n@ <= whole.len(),
                asks(all@) == whole.skip(n@),
                asks(taken@) == of_kind(whole.take(n@), kind),
                asks(kept@) == but_kind(whole.take(n@), kind),
            decreases all@.len(),
        {
            let ghost before = all@;
            let request = all.remove(0);
            proof {
                let ask = ask_of(request);
                assert(asks(before)[0] == ask);
                assert(asks(before).len() == before.len());
                assert(whole.skip(n@)[0] == whole[n@]);
                assert(whole.take(n@ + 1).drop_last() =~= whole.take(n@));
                assert(asks(all@) =~= whole.skip(n@ + 1)) by {
                    assert forall|i: int| 0 <= i < all@.len() implies asks(all@)[i] == whole.skip(
                        n@ + 1,
                    )[i] by {
                        assert(all@[i] == before[i + 1]);
                        assert(asks(before)[i + 1] == ask_of(before[i + 1]));
                    }
                }
            }
            if kind_of(&request) == kind {
                proof {
                    assert(asks(taken@.push(request)) =~= asks(taken@).push(ask_of(request)));
                }
                taken.push(request);
            } else {
                proof {
                    assert(asks(kept@.push(request)) =~= asks(kept@).push(ask_of(request)));
                }
                kept.push(request);
            }
            n = Ghost(n@ + 1);
        }
        assert(n@ == whole.len()) by {
            assert(asks(all@).len() == 0);
        }
        assert(whole.take(n@) =~= whole);
        self.outbox.replace(kept);
        taken
    }

    fn field(&self) -> (r: Option<SourceField>)
        ensures
            r == self.model().field(),
    {
        if self.scroll_focused || self.state.control != SourceControl::Input {
            return None;
        }
        match self.state.mode {
            SourceDialogMode::Existing => None,
            SourceDialogMode::Manual => Some(SourceField::Manual),
            SourceDialogMode::Discovery => Some(SourceField::Discovery),
            SourceDialogMode::Ai => match self.state.ai.stage {
                SourceAiStage::Input | SourceAiStage::Error => Some(SourceField::Ai),
                _ => None,
            },
        }
    }

    /// Whether a text field has the focus.
    pub fn text_focus(&self) -> (r: bool)
        ensures
            r == (self.model().field() is Some),
    {
        self.field().is_some()
    }

    fn value_of(&self, field: SourceField) -> (r: &str)
        ensures
            r@ == self.model().value_of(field),
    {
        match field {
            SourceField::Manual => self.state.draft.as_str(),
            SourceField::Discovery => self.state.discovery.query.as_str(),
            SourceField::Ai => self.state.ai.instruction.as_str(),
        }
    }

    /// Where the caret stands in the field that has the focus.
    pub fn active_cursor(&self) -> (r: Option<usize>)
        ensures
            some_number(r) == match self.model().field() {
                Some(field) => Some(self.model().caret(field)),
                None => None,
            },
    {
        let field = match self.field() {
            Some(field) => field,
            None => return None,
        };
        let end: usize = self.value_of(field).unicode_len();
        let cursor = match field {
            SourceField::Manual => self.manual_cursor,
            SourceField::Discovery => self.discovery_cursor,
            SourceField::Ai => self.ai_cursor,
        };
        match cursor {
            Some(place) => if place <= end {
                Some(place)
            } else {
                Some(end)
            },
            None => Some(end),
        }
    }

    fn set_cursor(&mut self, field: SourceField, place: usize)
        ensures
            final(self).model() == old(self).model().with_cursor(field, place as int),
    {
        match field {
            SourceField::Manual => {
                self.manual_cursor = Some(place);
            },
            SourceField::Discovery => {
                self.discovery_cursor = Some(place);
            },
            SourceField::Ai => {
                self.ai_cursor = Some(place);
            },
        }
    }

    fn reset_cursor(&mut self, field: SourceField)
        ensures
            final(self).model() == old(self).model().cursor_at_end(field),
    {
        let end: usize = self.value_of(field).unicode_len();
        self.set_cursor(field, end);
    }

    fn fail(&mut self, why: &str)
        ensures
            final(self).model() == old(self).model().failed(why@),
    {
        self.state.error = Some(why.to_owned());
    }

    fn clear_path_completion(&mut self)
        ensures
            final(self).model() == old(self).model().completion_cleared(),
    {
        self.state.path_completion.generation = 0;
        self.state.path_completion.scanning = false;
        self.state.path_completion.candidates = Vec::new();
        self.state.path_completion.selected = 0;
        assert(self.model().path.candidates =~= Seq::<Seq<char>>::empty());
    }

    fn drop_path_completions(&mut self)
        ensures
            final(self).model() == old(self).model().completions_dropped(),
    {
        let _ = self.take_kind(RequestKind::PathCompletion);
        self.path_completion_ready_at = None;
    }

    fn complete_path_request(&mut self, clock: u64)
        ensures
            final(self).model() == old(self).model().completion_asked(clock as int),
    {
        let generation: u64 = self.next_path_completion_generation;
        self.next_path_completion_generation = if generation == u64::MAX {
            0
        } else {
            generation + 1
        };
        self.state.path_completion.generation = generation;
        self.state.path_completion.scanning = true;
        self.state.error = None;
        let draft = self.state.draft.clone();
        self.drop_path_completions();
        let _ = self.push(
            SourceRequest::PathCompletion(PathCompletionRequest { generation, draft }),
        );
        self.path_completion_ready_at = Some(
            clock.saturating_add(SOURCE_PATH_COMPLETION_DEBOUNCE),
        );
    }

    fn schedule_path_completion(&mut self, clock: u64)
        ensures
            final(self).model() == old(self).model().completion_scheduled(clock as int),
    {
        if self.state.mode != SourceDialogMode::Manual || self.state.kind != SourceKind::File {
            return;
        }
        if self.state.draft.as_str().is_empty() {
            self.clear_path_completion();
            self.drop_path_completions();
            return;
        }
        self.state.path_completion.candidates = Vec::new();
        self.state.path_completion.selected = 0;
        assert(self.model().path.candidates =~= Seq::<Seq<char>>::empty());
        self.complete_path_request(clock);
    }

    fn append_source(&mut self, text: &str, max_bytes: usize, clock: u64)
        ensures
            final(self).model() == old(self).model().source_appended(
                text@,
                max_bytes as int,
                clock as int,
            ),
    {
        append_clipped(&mut self.state.draft, text, max_bytes);
        self.state.error = None;
        self.clear_path_completion();
        self.reset_cursor(SourceField::Manual);
        if self.state.mode == SourceDialogMode::Manual && self.state.kind == SourceKind::File {
            self.schedule_path_completion(clock);
        }
    }

    fn append_discovery_query(&mut self, text: &str, max_bytes: usize)
        ensures
            final(self).model() == old(self).model().query_appended(text@, max_bytes as int),
    {
        append_clipped(&mut self.state.discovery.query, text, max_bytes);
        self.state.discovery.selected = 0;
        self.reset_cursor(SourceField::Discovery);
    }

    fn append_ai(&mut self, text: &str, max_bytes: usize)
        ensures
            final(self).model() == old(self).model().instruction_appended(text@, max_bytes as int),
    {
        match self.state.ai.stage {
            SourceAiStage::Input | SourceAiStage::Error => {},
            _ => return,
        }
        append_clipped(&mut self.state.ai.instruction, text, max_bytes);
        self.state.ai.stage = SourceAiStage::Input;
        self.reset_cursor(SourceField::Ai);
    }

    #[verifier::rlimit(60)]
    fn start_discovery_scan(&mut self)
        ensures
            final(self).model() == old(self).model().scan_started(),
    {
        let ghost before = self.model();
        let last: u64 = self.state.discovery.generation;
        let running = last > 0 && self.state.discovery.scanning;
        let generation: u64 = last.saturating_add(1);
        self.state.discovery.generation = generation;
        self.state.discovery.scanning = true;
        self.state.discovery.items = Vec::new();
        self.state.discovery.selected = 0;
        self.state.discovery.show_older_unavailable = false;
        self.state.discovery.status = "scanning bounded local providers\u{2026}".to_owned();
        assert(self.model() == SourceModel {
            discovery: DiscoveryModel {
                generation: generation as int,
                scanning: true,
                items: Seq::empty(),
                selected: 0,
                show_older: false,
                status: "scanning bounded local providers\u{2026}"@,
                ..before.discovery
            },
            ..before
        });
        if running {
            let _ = self.push(
                SourceRequest::Discovery(DiscoveryUiRequest::Cancel { generation: last }),
            );
        }
        if self.queued(RequestKind::Discovery) < MAX_DISCOVERY_REQUESTS {
            let _ = self.push(SourceRequest::Discovery(DiscoveryUiRequest::Scan { generation }));
        } else {
            self.state.discovery.scanning = false;
            self.state.discovery.status = "discovery request queue is full".to_owned();
        }
        proof {
            reveal(SourceModel::scan_started);
        }
    }

    /// The discovered items that are shown, by index.
    fn shown(&self, now: i64) -> (r: Vec<usize>)
        ensures
            r@ == shown_items(self.model().discovery, now),
            forall|i: int|
                0 <= i < r@.len() ==> #[trigger] r@[i] < self.model().discovery.items.len(),
    {
        let list = filtered_at(&self.state.discovery, now);
        proof {
            let d = self.model().discovery;
            assert(is_filtered(d.items, d.query, d.show_older, now, list@));
            filtered_is_unique(
                d.items,
                d.query,
                d.show_older,
                now,
                list@,
                shown_items(d, now),
            );
            assert forall|i: int| 0 <= i < list@.len() implies #[trigger] list@[i]
                < d.items.len() by {
                assert(list@.contains(list@[i]));
            }
        }
        list
    }

    fn move_discovery(&mut self, delta: i32, now: i64)
        ensures
            final(self).model() == old(self).model().discovery_moved(delta as int, now),
    {
        let count: usize = self.shown(now).len();
        self.state.discovery.selected = if count == 0 {
            0
        } else {
            scroll_by(self.state.discovery.selected, count - 1, delta)
        };
    }

    fn toggle_older_unavailable(&mut self, now: i64)
        ensures
            final(self).model() == old(self).model().older_toggled(now),
    {
        self.state.discovery.show_older_unavailable = !self.state.discovery.show_older_unavailable;
        let count: usize = self.shown(now).len();
        let last: usize = if count == 0 {
            0
        } else {
            count - 1
        };
        if self.state.discovery.selected > last {
            self.state.discovery.selected = last;
        }
    }

    fn move_path_completion(&mut self, delta: i32, now: i64)
        ensures
            final(self).model() == old(self).model().completion_moved(delta as int, now),
    {
        if self.state.mode == SourceDialogMode::Discovery {
            self.move_discovery(delta, now);
            return;
        }
        if self.state.mode == SourceDialogMode::Ai && self.state.ai.stage
            == SourceAiStage::Proposal {
            self.state.ai.preview_scroll = scroll_by(
                self.state.ai.preview_scroll,
                usize::MAX,
                delta,
            );
            return;
        }
        if self.state.mode == SourceDialogMode::Manual && self.state.kind == SourceKind::File
            && self.state.path_completion.candidates.len() > 0 {
            self.state.path_completion.selected = move_index(
                self.state.path_completion.selected,
                self.state.path_completion.candidates.len(),
                delta,
            );
        }
    }

    fn scroll_discovery_status(&mut self, delta: i32)
        ensures
            final(self).model() == old(self).model().status_scrolled(delta as int),
    {
        self.state.discovery.status_scroll = scroll_by(
            self.state.discovery.status_scroll,
            self.state.discovery.status_scroll_limit,
            delta,
        );
    }

    fn scroll_existing(&mut self, delta: i32)
        ensures
            final(self).model() == old(self).model().existing_scrolled(delta as int),
    {
        self.state.existing_scroll = scroll_by(
            self.state.existing_scroll,
            self.state.existing_scroll_limit,
            delta,
        );
    }

    fn move_existing(&mut self, delta: i32, count: usize)
        ensures
            final(self).model() == old(self).model().existing_moved(delta as int, count as int),
    {
        if count == 0 {
            self.state.existing_selected = 0;
            self.state.confirm_remove = false;
            return;
        }
        let next: usize = scroll_by(self.state.existing_selected, count - 1, delta);
        if next != self.state.existing_selected {
            self.state.confirm_remove = false;
            self.state.existing_scroll = 0;
        }
        self.state.existing_selected = next;
    }

    fn submit_management(&mut self, remove: bool, sources: &Vec<SourceItem>)
        ensures
            final(self).model() == old(self).model().management_submitted(remove, sources@),
    {
        proof {
            reveal(SourceModel::management_submitted);
        }
        let selected: usize = self.state.existing_selected;
        if selected >= sources.len() {
            self.fail("no existing source selected");
            return;
        }
        if remove && !self.state.confirm_remove {
            self.state.confirm_remove = true;
            self.state.error = None;
            return;
        }
        let source_id = sources[selected].id.clone();
        self.state.confirm_remove = false;
        let request = if remove {
            SourceManagementRequest::Remove { source_id }
        } else {
            SourceManagementRequest::Restart { source_id }
        };
        let ghost settled = self.model();
        if !self.push(SourceRequest::Manage(request)) {
            assert(self.model() == settled);
            self.fail("source action queue is full");
        }
    }

    fn submit_discovered_source(&mut self, now: i64)
        ensures
            final(self).model() == old(self).model().discovered_submitted(now),
    {
        let shown = self.shown(now);
        let selected: usize = self.state.discovery.selected;
        if selected >= shown.len() {
            self.fail("no matching discovered source to start");
            return;
        }
        if self.queued(RequestKind::Discovery) >= MAX_DISCOVERY_REQUESTS {
            self.fail("discovery action queue is full");
            return;
        }
        let generation: u64 = self.state.discovery.generation;
        let key = self.state.discovery.items[shown[selected]].key.clone();
        let _ = self.push(SourceRequest::Discovery(DiscoveryUiRequest::Select { generation, key }));
        self.fail("starting selected source\u{2026}");
    }

    fn launch(&mut self)
        ensures
            final(self).model() == old(self).model().launched(),
    {
        if self.state.draft.as_str().is_empty() {
            self.fail("enter a file path or shell command");
            return;
        }
        if self.queued(RequestKind::Launch) >= MAX_SOURCE_REQUESTS {
            self.fail("source launch queue is full");
            return;
        }
        let kind = self.state.kind;
        let text = self.state.draft.clone();
        let _ = self.push(SourceRequest::Launch(SourceLaunchRequest { kind, text }));
        self.fail("starting source\u{2026}");
    }

    fn submit_source(&mut self, clock: u64)
        ensures
            final(self).model() == old(self).model().source_submitted(clock as int),
    {
        let manual_file = self.state.mode == SourceDialogMode::Manual && self.state.kind
            == SourceKind::File;
        if manual_file && ends_with(self.state.draft.as_str(), '/')
            && self.state.path_completion.candidates.len() == 0 {
            if !self.state.path_completion.scanning {
                self.schedule_path_completion(clock);
            }
            return;
        }
        let selected: usize = self.state.path_completion.selected;
        if manual_file && selected < self.state.path_completion.candidates.len() {
            let path = self.state.path_completion.candidates[selected].clone();
            let is_directory = ends_with(path.as_str(), '/');
            assert(self.model().path.candidates[selected as int] == path@);
            self.state.draft = path;
            self.clear_path_completion();
            self.reset_cursor(SourceField::Manual);
            if is_directory {
                self.schedule_path_completion(clock);
                return;
            }
        }
        self.launch();
    }

    fn note_ai(&mut self, stage: SourceAiStage, progress: &str)
        ensures
            final(self).model() == old(self).model().ai_noted(stage, progress@),
    {
        self.state.ai.stage = stage;
        self.state.ai.progress = progress.to_owned();
    }

    fn submit_source_ai(&mut self, agent: &AgentChoice)
        ensures
            final(self).model() == old(self).model().ai_submitted(*agent),
    {
        let full = self.queued(RequestKind::Ai) >= MAX_SOURCE_AI_REQUESTS;
        if self.state.ai.stage == SourceAiStage::Proposal {
            if full {
                self.note_ai(SourceAiStage::Proposal, "source agent request queue is full");
            } else {
                let generation: u64 = self.state.ai.generation;
                let count: usize = match &self.state.ai.preview {
                    Some(preview) => preview.sources.len(),
                    None => 0,
                };
                let mut progress = "starting reviewed source\u{2026}".to_owned();
                if count > 1 {
                    progress = "starting ".to_owned();
                    progress.append(decimal_text(count as u64).as_str());
                    progress.append(" reviewed sources\u{2026}");
                }
                self.note_ai(SourceAiStage::Applying, progress.as_str());
                let _ = self.push(SourceRequest::Ai(SourceAiRequest::Apply { generation }));
            }
            return;
        }
        match self.state.ai.stage {
            SourceAiStage::Input | SourceAiStage::Error => {},
            _ => return,
        }
        if trim(self.state.ai.instruction.as_str()).as_str().is_empty() {
            self.note_ai(SourceAiStage::Error, "describe the source to follow");
            return;
        }
        if full {
            self.note_ai(SourceAiStage::Error, "source agent request queue is full");
            return;
        }
        self.next_ai_generation = self.next_ai_generation.saturating_add(1);
        self.state.ai.generation = self.next_ai_generation;
        self.state.ai.stage = SourceAiStage::Preparing;
        self.state.ai.progress = "collecting bounded read-only discovery context".to_owned();
        self.state.ai.preview = None;
        self.state.ai.preview_scroll = 0;
        self.state.ai.preview_scroll_limit = 0;
        let request = SourceAiRequest::Start {
            generation: self.state.ai.generation,
            instruction: self.state.ai.instruction.clone(),
            provider: agent.provider.clone(),
            mode: agent.mode.clone(),
            thinking: agent.thinking.clone(),
        };
        let _ = self.push(SourceRequest::Ai(request));
    }

    fn submit(&mut self, ctx: SourceContext)
        ensures
            final(self).model() == old(self).model().submitted(ctx),
    {
        match self.state.mode {
            SourceDialogMode::Existing => self.submit_management(false, ctx.sources),
            SourceDialogMode::Discovery => self.submit_discovered_source(ctx.now),
            SourceDialogMode::Ai => self.submit_source_ai(ctx.agent),
            SourceDialogMode::Manual => self.submit_source(ctx.clock),
        }
    }

    fn set_mode(&mut self, mode: SourceDialogMode)
        ensures
            final(self).model() == old(self).model().mode_set(mode),
    {
        proof {
            reveal(SourceModel::mode_set);
        }
        self.state.mode = mode;
        self.state.control = SourceControl::Input;
        self.state.controls_focused = false;
        self.state.confirm_remove = false;
        if mode == SourceDialogMode::Existing {
            self.state.return_to_existing = false;
        }
        self.clear_path_completion();
        self.drop_path_completions();
        if mode == SourceDialogMode::Discovery && self.state.discovery.generation == 0 {
            self.start_discovery_scan();
        }
    }

    fn leave_list(&mut self)
        ensures
            final(self).model() == old(self).model().leaving_list(),
    {
        if self.state.mode == SourceDialogMode::Existing {
            self.state.return_to_existing = true;
        }
    }

    fn toggle_discovery(&mut self)
        ensures
            final(self).model() == old(self).model().discovery_toggled(),
    {
        if self.state.mode == SourceDialogMode::Discovery {
            self.set_mode(SourceDialogMode::Manual);
        } else {
            self.leave_list();
            self.set_mode(SourceDialogMode::Discovery);
        }
    }

    fn toggle_ai(&mut self)
        ensures
            final(self).model() == old(self).model().ai_toggled(),
    {
        if self.state.mode == SourceDialogMode::Ai {
            self.set_mode(SourceDialogMode::Manual);
        } else {
            self.leave_list();
            self.set_mode(SourceDialogMode::Ai);
        }
    }

    fn focus(&mut self, control: SourceControl)
        ensures
            final(self).model() == old(self).model().focused(control),
    {
        self.state.control = control;
        self.state.controls_focused = control != SourceControl::Input;
    }

    fn toggle_control_focus(&mut self)
        ensures
            final(self).model() == old(self).model().focus_moved(),
    {
        let controls = SourceControl::visible(self.state.mode, self.state.kind);
        let place: usize = match find_control(&controls, self.state.control) {
            Some(place) => place,
            None => 0,
        };
        let next: usize = move_index(place, controls.len(), 1);
        self.focus(controls[next]);
    }

    fn move_source_mode(&mut self, delta: i32)
        ensures
            final(self).model() == old(self).model().mode_moved(delta as int),
    {
        if !self.state.controls_focused || self.state.mode == SourceDialogMode::Existing {
            return;
        }
        let place: usize = match self.state.mode {
            SourceDialogMode::Discovery => 1,
            SourceDialogMode::Ai => 2,
            _ => 0,
        };
        proof {
            reveal_with_fuel(place_from, 4);
        }
        let next: usize = move_index(place, 3, delta);
        let (mode, control) = if next == 0 {
            (SourceDialogMode::Manual, SourceControl::Manual)
        } else if next == 1 {
            (SourceDialogMode::Discovery, SourceControl::Discovery)
        } else {
            (SourceDialogMode::Ai, SourceControl::Agent)
        };
        self.state.mode = mode;
        self.state.control = control;
        self.clear_path_completion();
        if mode == SourceDialogMode::Discovery && self.state.discovery.generation == 0 {
            self.start_discovery_scan();
        }
    }

    fn select_kind(&mut self, kind: SourceKind)
        ensures
            final(self).model() == old(self).model().kind_selected(kind),
    {
        if self.state.mode == SourceDialogMode::Manual {
            self.state.kind = kind;
            let controls = SourceControl::visible(self.state.mode, kind);
            if find_control(&controls, self.state.control).is_none() {
                self.state.control = SourceControl::Input;
                self.state.controls_focused = false;
            }
            self.state.error = None;
            self.clear_path_completion();
        }
        if kind == SourceKind::Command {
            self.drop_path_completions();
        }
    }

    fn add_source(&mut self, sources: &Vec<SourceItem>)
        ensures
            final(self).model() == old(self).model().adding(sources@),
    {
        proof {
            reveal(SourceModel::adding);
        }
        self.state.return_to_existing = sources.len() > 0;
        self.set_mode(SourceDialogMode::Manual);
    }

    fn activate(&mut self, ctx: SourceContext)
        ensures
            final(self).model() == old(self).model().activated(ctx),
    {
        proof {
            reveal(SourceModel::activated);
        }
        match self.state.control {
            SourceControl::Input => self.submit(ctx),
            SourceControl::Add => self.add_source(ctx.sources),
            SourceControl::Manual => self.set_mode(SourceDialogMode::Manual),
            SourceControl::Discovery => self.set_mode(SourceDialogMode::Discovery),
            SourceControl::Agent => self.set_mode(SourceDialogMode::Ai),
            SourceControl::File => self.select_kind(SourceKind::File),
            SourceControl::Command => self.select_kind(SourceKind::Command),
            SourceControl::Refresh => self.start_discovery_scan(),
            SourceControl::Restart => self.submit_management(false, ctx.sources),
            SourceControl::Remove => self.submit_management(true, ctx.sources),
        }
    }

    fn focus_control(&mut self, control: SourceControl, ctx: SourceContext)
        ensures
            final(self).model() == old(self).model().focused(control).activated(ctx),
    {
        self.focus(control);
        self.activate(ctx);
    }

    fn modal_vertical(&mut self, delta: i32, ctx: SourceContext)
        ensures
            final(self).model() == old(self).model().vertical(delta as int, ctx),
    {
        match self.state.mode {
            SourceDialogMode::Existing => if self.scroll_focused {
                self.scroll_existing(delta)
            } else {
                self.move_existing(delta, ctx.sources.len())
            },
            SourceDialogMode::Discovery => if self.scroll_focused {
                self.scroll_discovery_status(delta)
            } else {
                self.move_discovery(delta, ctx.now)
            },
            SourceDialogMode::Manual | SourceDialogMode::Ai => self.move_path_completion(
                delta,
                ctx.now,
            ),
        }
    }

    /// The field that has the focus, with its text, its caret and the bytes it
    /// holds at most: what a command to it works on.
    pub fn edit_target(&self, ctx: SourceContext) -> (r: Option<(String, usize, usize)>)
        ensures
            match self.model().field() {
                None => r is None,
                Some(field) => {
                    &&& r matches Some((value, cursor, max_bytes))
                    &&& value@ == self.model().value_of(field)
                    &&& cursor == self.model().caret(field)
                    &&& max_bytes == if field == SourceField::Ai {
                        ctx.prompt_bytes
                    } else {
                        ctx.editor_bytes
                    }
                },
            },
    {
        let field = match self.field() {
            Some(field) => field,
            None => return None,
        };
        let max_bytes: usize = match field {
            SourceField::Ai => ctx.prompt_bytes,
            _ => ctx.editor_bytes,
        };
        match self.active_cursor() {
            Some(cursor) => Some((self.value_of(field).to_owned(), cursor, max_bytes)),
            None => None,
        }
    }

    /// Takes over what came of a command to the field that has the focus.
    pub fn apply_edit(&mut self, edited: Edited, clock: u64)
        ensures
            final(self).model() == old(self).model().edited(
                edited.value@,
                edited.cursor as int,
                edited.changed,
                clock as int,
            ),
    {
        let field = match self.field() {
            Some(field) => field,
            None => return,
        };
        self.set_cursor(field, edited.cursor);
        if !edited.changed {
            return;
        }
        match field {
            SourceField::Manual => {
                self.state.draft = edited.value;
                self.state.error = None;
                self.clear_path_completion();
                if self.state.kind == SourceKind::File {
                    self.schedule_path_completion(clock);
                }
            },
            SourceField::Discovery => {
                self.state.discovery.query = edited.value;
                self.state.discovery.selected = 0;
                self.state.error = None;
            },
            SourceField::Ai => {
                self.state.ai.instruction = edited.value;
                self.state.ai.stage = SourceAiStage::Input;
                self.state.error = None;
            },
        }
    }

    fn edit(&self, command: EditCommand) -> (r: Step)
        ensures
            (self.model(), r) == edit_step(self.model(), command),
    {
        if self.field().is_some() {
            Step::Edit(command)
        } else {
            Step::Done(Outcome::Consumed)
        }
    }

    fn table_key(&mut self, key: KeyEvent, ctx: SourceContext) -> (r: Step)
        ensures
            (final(self).model(), r) == old(self).model().after_table_key(key, ctx),
    {
        let control = key.modifiers.control;
        let alt = key.modifiers.alt;
        let existing = self.state.mode == SourceDialogMode::Existing;
        match key.code {
            KeyCode::Down => self.modal_vertical(1, ctx),
            KeyCode::Up => self.modal_vertical(-1, ctx),
            KeyCode::Left => self.move_source_mode(-1),
            KeyCode::Right => self.move_source_mode(1),
            KeyCode::Tab | KeyCode::BackTab => self.toggle_control_focus(),
            KeyCode::Enter => self.activate(ctx),
            KeyCode::Backspace => return self.edit(EditCommand::Backspace),
            KeyCode::Delete => if existing {
                self.submit_management(true, ctx.sources)
            } else {
                return Step::Done(Outcome::Ignored);
            },
            KeyCode::Char(ch) => if ch == 'd' && control {
                self.toggle_discovery()
            } else if ch == 'r' && control {
                self.start_discovery_scan()
            } else if ch == 'u' && alt && self.state.mode == SourceDialogMode::Discovery {
                self.toggle_older_unavailable(ctx.now)
            } else if ch == 'f' && alt {
                self.select_kind(SourceKind::File)
            } else if ch == 'c' && alt {
                self.select_kind(SourceKind::Command)
            } else if ch == 'R' && existing {
                self.submit_management(false, ctx.sources)
            } else if is_typed_char(&key) {
                return self.edit(EditCommand::Insert(ch));
            } else {
                return Step::Done(Outcome::Ignored);
            },
            _ => return Step::Done(Outcome::Ignored),
        }
        Step::Done(Outcome::Consumed)
    }

    pub fn key(&mut self, key: KeyEvent, ctx: SourceContext) -> (r: Step)
        ensures
            (final(self).model(), r) == old(self).model().after_key(key, ctx),
    {
        if !key.is_active() {
            return Step::Done(Outcome::Ignored);
        }
        if key.modifiers.control {
            if let Some(command) = control_edit_for(key.code) {
                return self.edit(command);
            }
        }
        let empty = key.modifiers.is_empty();
        if empty && self.state.control == SourceControl::Input && !self.scroll_focused {
            let delta: i32 = match key.code {
                KeyCode::Up => -1,
                KeyCode::Down => 1,
                _ => 0,
            };
            if delta != 0 {
                if self.state.mode == SourceDialogMode::Discovery {
                    self.move_discovery(delta, ctx.now);
                    return Step::Done(Outcome::Consumed);
                }
                if self.state.mode == SourceDialogMode::Manual && self.state.kind
                    == SourceKind::File && self.state.path_completion.candidates.len() > 0 {
                    self.move_path_completion(delta, ctx.now);
                    return Step::Done(Outcome::Consumed);
                }
            }
        }
        if empty && self.field().is_some() {
            if let Some(command) = arrow_edit_for(key.code) {
                return self.edit(command);
            }
        }
        self.table_key(key, ctx)
    }

    fn scroll_hovered(&mut self, delta: i32, now: i64)
        ensures
            final(self).model() == old(self).model().pane_scrolled(delta as int, now),
    {
        match self.state.mode {
            SourceDialogMode::Existing => self.scroll_existing(delta),
            SourceDialogMode::Ai => self.move_path_completion(delta, now),
            SourceDialogMode::Manual | SourceDialogMode::Discovery => self.scroll_discovery_status(
                delta,
            ),
        }
    }

    fn focus_input(&mut self)
        ensures
            final(self).model() == old(self).model().input_focused(),
    {
        self.state.control = SourceControl::Input;
        self.state.controls_focused = false;
    }

    pub fn mouse(&mut self, kind: MouseEventKind, hit: Option<SourceHit>, ctx: SourceContext)
        ensures
            final(self).model() == old(self).model().after_mouse(kind, hit, ctx),
    {
        let pressed = kind == MouseEventKind::LeftDown;
        if let Some(SourceHit::Scroll) = hit {
            match kind {
                MouseEventKind::LeftDown => {
                    self.scroll_focused = true;
                },
                MouseEventKind::ScrollUp => self.scroll_hovered(-1, ctx.now),
                MouseEventKind::ScrollDown => self.scroll_hovered(1, ctx.now),
                MouseEventKind::Other => {},
            }
            return;
        }
        if pressed {
            self.scroll_focused = false;
            match hit {
                Some(SourceHit::PathCompletion(index)) => {
                    self.state.path_completion.selected = index;
                    self.focus_input();
                    return;
                },
                Some(SourceHit::Control(control)) => {
                    self.focus_control(control, ctx);
                    return;
                },
                _ => {},
            }
        }
        match self.state.mode {
            SourceDialogMode::Existing => self.mouse_existing(kind, hit, ctx.sources.len()),
            SourceDialogMode::Discovery => self.mouse_discovery(kind, hit, ctx.now),
            SourceDialogMode::Manual | SourceDialogMode::Ai => {},
        }
    }

    fn mouse_existing(&mut self, kind: MouseEventKind, hit: Option<SourceHit>, count: usize)
        ensures
            final(self).model() == old(self).model().existing_pointed(kind, hit, count as int),
    {
        proof {
            reveal(SourceModel::existing_pointed);
        }
        match kind {
            MouseEventKind::LeftDown => {
                if let Some(SourceHit::Existing(index)) = hit {
                    if index != self.state.existing_selected {
                        self.state.confirm_remove = false;
                        self.state.existing_scroll = 0;
                    }
                    self.state.existing_selected = index;
                    self.focus_input();
                }
            },
            MouseEventKind::ScrollUp => self.move_existing(-1, count),
            MouseEventKind::ScrollDown => self.move_existing(1, count),
            MouseEventKind::Other => {},
        }
    }

    fn mouse_discovery(&mut self, kind: MouseEventKind, hit: Option<SourceHit>, now: i64)
        ensures
            final(self).model() == old(self).model().discovery_pointed(kind, hit, now),
    {
        proof {
            reveal(SourceModel::discovery_pointed);
        }
        match kind {
            MouseEventKind::LeftDown => match hit {
                Some(SourceHit::OlderUnavailable) => self.toggle_older_unavailable(now),
                Some(SourceHit::Discovery(index)) => {
                    self.state.discovery.selected = index;
                    self.focus_input();
                },
                _ => {},
            },
            MouseEventKind::ScrollUp => self.move_discovery(-1, now),
            MouseEventKind::ScrollDown => self.move_discovery(1, now),
            MouseEventKind::Other => {},
        }
    }

    pub fn command(&mut self, id: CommandId) -> (r: Outcome)
        ensures
            (final(self).model(), r) == old(self).model().after_command(id),
    {
        match id {
            CommandId::DiscoverSources => self.toggle_discovery(),
            CommandId::AskAiSource => self.toggle_ai(),
            CommandId::SourceFileMode => self.select_kind(SourceKind::File),
            CommandId::SourceCommandMode => self.select_kind(SourceKind::Command),
            _ => return Outcome::Ignored,
        }
        Outcome::Consumed
    }

    fn cancel_work(&mut self)
        ensures
            final(self).model() == old(self).model().work_cancelled(),
    {
        if self.state.discovery.scanning && self.queued(RequestKind::Discovery)
            < MAX_DISCOVERY_REQUESTS {
            let generation: u64 = self.state.discovery.generation;
            let _ = self.push(SourceRequest::Discovery(DiscoveryUiRequest::Cancel { generation }));
        }
        match self.state.ai.stage {
            SourceAiStage::Input | SourceAiStage::Error => {},
            _ => {
                if self.queued(RequestKind::Ai) < MAX_SOURCE_AI_REQUESTS {
                    let generation: u64 = self.state.ai.generation;
                    let _ = self.push(SourceRequest::Ai(SourceAiRequest::Cancel { generation }));
                }
            },
        }
    }

    fn reset(&mut self)
        ensures
            final(self).model() == old(self).model().reset(),
    {
        self.state = SourceDialogState::default();
        self.manual_cursor = None;
        self.discovery_cursor = None;
        self.ai_cursor = None;
        assert(self.model() =~= old(self).model().reset());
    }

    fn dismiss(&mut self, sources: &Vec<SourceItem>) -> (r: Outcome)
        ensures
            (final(self).model(), r) == old(self).model().dismissed(sources@),
    {
        if self.state.path_completion.scanning || self.state.path_completion.candidates.len() > 0 {
            self.clear_path_completion();
            self.state.control = SourceControl::Input;
            return Outcome::Consumed;
        }
        let back = self.state.mode != SourceDialogMode::Existing && self.state.return_to_existing
            && sources.len() > 0;
        self.cancel_work();
        if back {
            self.set_mode(SourceDialogMode::Existing);
            self.scroll_focused = false;
            return Outcome::Consumed;
        }
        self.reset();
        self.open = false;
        Outcome::Close
    }

    fn keep_selection(&mut self, count: usize)
        ensures
            final(self).model() == old(self).model().selection_kept(count as int),
    {
        let last: usize = if count == 0 {
            0
        } else {
            count - 1
        };
        if self.state.existing_selected > last {
            self.state.existing_selected = last;
        }
    }

    fn source_removed(&mut self, count: usize)
        ensures
            final(self).model() == old(self).model().source_removed(count as int),
    {
        self.state.confirm_remove = false;
        if count == 0 {
            self.state.mode = SourceDialogMode::Manual;
            self.focus_input();
            self.state.return_to_existing = false;
        }
        self.keep_selection(count);
    }

    pub fn handle(&mut self, event: Event<SourceHit>, ctx: SourceContext) -> (r: Step)
        ensures
            (final(self).model(), r) == old(self).model().after_event(event, ctx),
    {
        match event {
            Event::Key(key) => self.key(key, ctx),
            Event::Paste(text) => {
                match self.state.mode {
                    SourceDialogMode::Existing => {},
                    SourceDialogMode::Discovery => self.append_discovery_query(
                        text.as_str(),
                        ctx.editor_bytes,
                    ),
                    SourceDialogMode::Ai => self.append_ai(text.as_str(), ctx.prompt_bytes),
                    SourceDialogMode::Manual => self.append_source(
                        text.as_str(),
                        ctx.editor_bytes,
                        ctx.clock,
                    ),
                }
                Step::Done(Outcome::Consumed)
            },
            Event::Mouse { kind, hit } => {
                self.mouse(kind, hit, ctx);
                Step::Done(Outcome::Consumed)
            },
            Event::Dismiss => Step::Done(self.dismiss(ctx.sources)),
            Event::Command(id) => Step::Done(self.command(id)),
            Event::View(ViewEvent::SourceRemoved) => {
                self.source_removed(ctx.sources.len());
                Step::Done(Outcome::Consumed)
            },
            Event::View(_) | Event::Resize => Step::Done(Outcome::Ignored),
        }
    }

    pub fn press_action(&mut self, index: usize, ctx: SourceContext) -> (r: Outcome)
        ensures
            (final(self).model(), r) == old(self).model().action_pressed(index as int, ctx),
    {
        match self.state.mode {
            SourceDialogMode::Existing => match index {
                0 => self.add_source(ctx.sources),
                1 => self.submit_management(false, ctx.sources),
                2 => self.submit_management(true, ctx.sources),
                _ => return Outcome::Ignored,
            },
            SourceDialogMode::Discovery => match index {
                0 => self.focus_control(SourceControl::Input, ctx),
                1 => self.focus_control(SourceControl::Refresh, ctx),
                _ => return Outcome::Ignored,
            },
            SourceDialogMode::Manual | SourceDialogMode::Ai => if index == 0 {
                self.focus_control(SourceControl::Input, ctx)
            } else {
                return Outcome::Ignored;
            },
        }
        Outcome::Consumed
    }
}

impl Default for PathCompletionState {
    fn default() -> (r: PathCompletionState)
        ensures
            r.generation == 0,
            !r.scanning,
            r.candidates@ == Seq::<String>::empty(),
            r.selected == 0,
    {
        PathCompletionState { generation: 0, scanning: false, candidates: Vec::new(), selected: 0 }
    }
}

impl Default for SourceAiDialogState {
    fn default() -> (r: SourceAiDialogState)
        ensures
            r.generation == 0,
            r.instruction@ == Seq::<char>::empty(),
            r.stage == SourceAiStage::Input,
            r.progress@ == "Describe the source to follow"@,
            r.session_id is None,
            r.preview is None,
            r.preview_scroll == 0,
            r.preview_scroll_limit == 0,
    {
        SourceAiDialogState {
            generation: 0,
            instruction: String::new(),
            stage: SourceAiStage::Input,
            progress: "Describe the source to follow".to_owned(),
            session_id: None,
            preview: None,
            preview_scroll: 0,
            preview_scroll_limit: 0,
        }
    }
}

impl Default for SourceDialogState {
    fn default() -> (r: SourceDialogState)
        ensures
            r.kind == SourceKind::File,
            r.draft@ == Seq::<char>::empty(),
            r.error is None,
            r.mode == SourceDialogMode::Manual,
            !r.controls_focused,
            r.control == SourceControl::Input,
            r.discovery_model() == no_discovery(),
            r.path_model() == no_completion(),
            r.ai_model() == no_proposal(),
            r.existing_selected == 0,
            r.existing_scroll == 0,
            r.existing_scroll_limit == 0,
            !r.confirm_remove,
            !r.return_to_existing,
    {
        let r = SourceDialogState {
            kind: SourceKind::File,
            draft: String::new(),
            error: None,
            mode: SourceDialogMode::Manual,
            controls_focused: false,
            control: SourceControl::Input,
            discovery: DiscoveryDialogState::default(),
            path_completion: PathCompletionState::default(),
            ai: SourceAiDialogState::default(),
            existing_selected: 0,
            existing_scroll: 0,
            existing_scroll_limit: 0,
            confirm_remove: false,
            return_to_existing: false,
        };
        assert(r.path_model().candidates =~= Seq::<Seq<char>>::empty());
        r
    }
}

} // verus!
