//! The Investigation layer: a conversation with an agent over a fixed snapshot
//! of a view.
//!
//! A session outlives its turns and the dialog. What comes back before a session
//! exists is fenced by the generation of the dialog that asked, and what comes
//! back in a session by the session's own identity.

use crate::component::{
    arrow_edit, arrow_edit_for, control_edit, control_edit_for, move_index, place_from,
    place_or_start, ring_step, scroll_by, scroll_step, CommandId, EditCommand, Edited, Event,
    Outbox, Outcome, Queue, Step, Surface,
};
use crate::geometry::Rect;
use crate::input::{KeyCode, KeyEvent, MouseEventKind};
use crate::text::{same, some_text, texts, trim, trimmed};
use vstd::prelude::*;

pub mod frame;
pub mod laws;
pub mod render;
pub mod shown;

verus! {

/// The most requests that wait to be taken.
pub const MAX_INVESTIGATION_REQUESTS: usize = 4;

/// The most sessions that are kept to be resumed.
pub const MAX_SAVED_INVESTIGATIONS: usize = 64;

/// The most bytes of a question.
pub const MAX_QUESTION_BYTES: usize = 8192;

#[derive(Clone, Copy, Debug, PartialEq, Eq, Structural)]
pub enum InvestigationStage {
    Input,
    Snapshot,
    StartingSession,
    Resuming,
    Sending,
    Conversation,
    Error,
    Cancelling,
}

impl InvestigationStage {
    /// The stage takes a question.
    pub open spec fn editable(self) -> bool {
        self == InvestigationStage::Input || self == InvestigationStage::Conversation || self
            == InvestigationStage::Error
    }

    fn is_editable(self) -> (r: bool)
        ensures
            r == self.editable(),
    {
        match self {
            InvestigationStage::Input
            | InvestigationStage::Conversation
            | InvestigationStage::Error => true,
            _ => false,
        }
    }
}

#[derive(Clone, Copy, Debug, PartialEq, Eq, Structural)]
pub enum InvestigationControl {
    ModeNew,
    Saved,
    Prompt,
    Submit,
    Open,
    New,
    More,
}

/// A session that can be resumed.
#[derive(Debug)]
pub struct InvestigationItem {
    pub id: String,
    pub session_id: String,
    pub question: String,
    pub snapshot_dir: String,
    pub manifest_path: String,
}

impl InvestigationItem {
    fn copy(&self) -> (r: InvestigationItem)
        ensures
            r == *self,
    {
        InvestigationItem {
            id: self.id.clone(),
            session_id: self.session_id.clone(),
            question: self.question.clone(),
            snapshot_dir: self.snapshot_dir.clone(),
            manifest_path: self.manifest_path.clone(),
        }
    }
}

#[derive(Debug)]
pub enum InvestigationRequest {
    Resume { generation: u64, item: InvestigationItem },
    Start {
        generation: u64,
        view_id: String,
        definition_revision: u64,
        question: String,
        provider: String,
        mode: String,
        thinking: String,
    },
    Send { generation: u64, session_id: String, prompt: String },
    Cancel { generation: u64 },
}

/// A request by what it says.
pub enum InvestigationAsk {
    Resume { generation: int, item: InvestigationItem },
    Start {
        generation: int,
        view_id: Seq<char>,
        definition_revision: int,
        question: Seq<char>,
        agent: AgentModel,
    },
    Send { generation: int, session_id: Seq<char>, prompt: Seq<char> },
    Cancel { generation: int },
}

/// The agent that a session is started with.
pub struct AgentModel {
    pub provider: Seq<char>,
    pub mode: Seq<char>,
    pub thinking: Seq<char>,
}

/// What a request says.
pub open spec fn ask_of(request: InvestigationRequest) -> InvestigationAsk {
    match request {
        InvestigationRequest::Resume { generation, item } => InvestigationAsk::Resume {
            generation: generation as int,
            item,
        },
        InvestigationRequest::Start {
            generation,
            view_id,
            definition_revision,
            question,
            provider,
            mode,
            thinking,
        } => InvestigationAsk::Start {
            generation: generation as int,
            view_id: view_id@,
            definition_revision: definition_revision as int,
            question: question@,
            agent: AgentModel { provider: provider@, mode: mode@, thinking: thinking@ },
        },
        InvestigationRequest::Send { generation, session_id, prompt } => InvestigationAsk::Send {
            generation: generation as int,
            session_id: session_id@,
            prompt: prompt@,
        },
        InvestigationRequest::Cancel { generation } => InvestigationAsk::Cancel {
            generation: generation as int,
        },
    }
}

/// What the requests say, in order.
pub open spec fn asks(items: Seq<InvestigationRequest>) -> Seq<InvestigationAsk> {
    items.map_values(|request: InvestigationRequest| ask_of(request))
}

/// Everything the layer draws that can be clicked.
#[derive(Clone, Copy, Debug, PartialEq, Eq, Structural)]
pub enum InvestigationHit {
    Control(InvestigationControl),
    /// The transcript or the saved sessions, for the wheel.
    Body,
}

/// Where the last frame drew what can be clicked.
#[derive(Debug)]
pub struct InvestigationGeometry {
    pub controls: Vec<(Rect, InvestigationControl)>,
    pub body: Option<Rect>,
}

impl InvestigationGeometry {
    /// Nothing was drawn.
    pub open spec fn blank(self) -> bool {
        self.controls@.len() == 0 && self.body is None
    }
}

impl Default for InvestigationGeometry {
    fn default() -> (r: InvestigationGeometry)
        ensures
            r.blank(),
    {
        InvestigationGeometry { controls: Vec::new(), body: None }
    }
}

#[derive(Debug)]
pub struct InvestigationDialogState {
    pub generation: u64,
    pub definition_revision: u64,
    pub view_id: String,
    pub stage: InvestigationStage,
    pub focus: InvestigationControl,
    pub input: String,
    pub progress: String,
    pub selected: usize,
    pub items: Vec<InvestigationItem>,
    pub investigation_id: Option<String>,
    pub session_id: Option<String>,
    pub snapshot_dir: Option<String>,
    pub manifest_path: Option<String>,
    pub messages: Vec<String>,
    pub review_scroll: u16,
    pub review_scroll_limit: u16,
    pub saved_mode: bool,
}

/// The state of an open dialog.
#[verifier::ext_equal]
pub struct TalkModel {
    pub generation: int,
    pub definition_revision: int,
    pub view_id: Seq<char>,
    pub stage: InvestigationStage,
    pub focus: InvestigationControl,
    pub input: Seq<char>,
    pub progress: Seq<char>,
    pub selected: int,
    pub items: Seq<InvestigationItem>,
    pub investigation_id: Option<Seq<char>>,
    pub session_id: Option<Seq<char>>,
    pub snapshot_dir: Option<Seq<char>>,
    pub manifest_path: Option<Seq<char>>,
    pub messages: Seq<Seq<char>>,
    pub review_scroll: int,
    pub review_scroll_limit: int,
    pub saved_mode: bool,
}

/// A control, where it is there.
pub open spec fn one_if(there: bool, control: InvestigationControl) -> Seq<InvestigationControl> {
    if there {
        seq![control]
    } else {
        seq![]
    }
}

/// A message behind the others, of which the oldest leave where there are too
/// many.
pub open spec fn kept(messages: Seq<Seq<char>>, message: Seq<char>, limit: int) -> Seq<Seq<char>> {
    let all = messages.push(message);
    if all.len() <= limit {
        all
    } else {
        all.skip(all.len() - limit)
    }
}

impl TalkModel {
    /// A session was started or resumed.
    pub open spec fn has_session(self) -> bool {
        self.investigation_id is Some || self.session_id is Some
    }

    /// The controls in the order of the focus.
    pub open spec fn controls(self) -> Seq<InvestigationControl> {
        one_if(self.items.len() > 0, InvestigationControl::ModeNew) + one_if(
            self.items.len() > 0,
            InvestigationControl::Saved,
        ) + one_if(self.stage.editable(), InvestigationControl::Prompt) + one_if(
            self.stage.editable(),
            InvestigationControl::Submit,
        ) + one_if(
            self.stage.editable() && self.saved_mode && self.items.len() > 0,
            InvestigationControl::Open,
        ) + one_if(self.stage.editable() && self.has_session(), InvestigationControl::New)
            + one_if(self.review_scroll_limit > 0, InvestigationControl::More)
    }

    /// The question takes text.
    pub open spec fn editing(self) -> bool {
        self.focus == InvestigationControl::Prompt && self.stage.editable()
    }

    /// A turn is under way.
    pub open spec fn working(self) -> bool {
        !self.stage.editable()
    }

    pub open spec fn failed(self, why: Seq<char>) -> TalkModel {
        TalkModel { stage: InvestigationStage::Error, progress: why, ..self }
    }

    pub open spec fn noted(self, stage: InvestigationStage, progress: Seq<char>) -> TalkModel {
        TalkModel { stage, progress, ..self }
    }

    /// A stage was reported; what else was reported replaces what was known.
    pub open spec fn progressed(
        self,
        stage: InvestigationStage,
        progress: Seq<char>,
        session_id: Option<Seq<char>>,
        snapshot_dir: Option<Seq<char>>,
        manifest_path: Option<Seq<char>>,
    ) -> TalkModel {
        TalkModel {
            stage,
            focus: if stage == InvestigationStage::Conversation || stage
                == InvestigationStage::Error {
                InvestigationControl::Prompt
            } else {
                self.focus
            },
            progress,
            session_id: if session_id is Some {
                session_id
            } else {
                self.session_id
            },
            snapshot_dir: if snapshot_dir is Some {
                snapshot_dir
            } else {
                self.snapshot_dir
            },
            manifest_path: if manifest_path is Some {
                manifest_path
            } else {
                self.manifest_path
            },
            ..self
        }
    }

    /// The session exists.
    pub open spec fn bound(self, item: InvestigationItem) -> TalkModel {
        TalkModel {
            investigation_id: Some(item.id@),
            session_id: Some(item.session_id@),
            snapshot_dir: Some(item.snapshot_dir@),
            manifest_path: Some(item.manifest_path@),
            stage: InvestigationStage::Sending,
            progress: "prompt accepted; waiting for local agent"@,
            ..self
        }
    }

    pub open spec fn told(self, message: Seq<char>, limit: int) -> TalkModel {
        TalkModel { messages: kept(self.messages, message, limit), ..self }
    }

    /// A turn ended, well or badly.
    pub open spec fn turn_ended(
        self,
        message: Seq<char>,
        failure: Option<Seq<char>>,
        limit: int,
    ) -> TalkModel {
        let heard = if message.len() == 0 {
            self
        } else {
            self.told(message, limit)
        };
        let ended = match failure {
            None => heard.noted(
                InvestigationStage::Conversation,
                "turn complete; type a follow-up to continue"@,
            ),
            Some(error) => heard.noted(InvestigationStage::Error, error),
        };
        TalkModel { focus: InvestigationControl::Prompt, ..ended }
    }

    pub open spec fn focus_moved(self, delta: int) -> TalkModel {
        let list = self.controls();
        if list.len() == 0 {
            self
        } else {
            TalkModel {
                focus: list[ring_step(
                    place_or_start(list, self.focus),
                    list.len() as int,
                    delta,
                )],
                ..self
            }
        }
    }

    pub open spec fn focused(self, control: InvestigationControl) -> TalkModel {
        if self.controls().contains(control) {
            TalkModel { focus: control, ..self }
        } else {
            self
        }
    }

    pub open spec fn selection_moved(self, delta: int) -> TalkModel {
        if self.stage == InvestigationStage::Input && self.items.len() > 0 {
            TalkModel {
                selected: ring_step(self.selected, self.items.len() as int, delta),
                ..self
            }
        } else {
            self
        }
    }

    pub open spec fn scrolled(self, delta: int) -> TalkModel {
        TalkModel {
            review_scroll: scroll_step(self.review_scroll, self.review_scroll_limit, delta),
            ..self
        }
    }

    /// The conversation is dropped for a new snapshot of the same view.
    pub open spec fn started_over(self) -> TalkModel {
        TalkModel {
            stage: InvestigationStage::Input,
            investigation_id: None,
            session_id: None,
            snapshot_dir: None,
            manifest_path: None,
            messages: Seq::empty(),
            focus: InvestigationControl::Prompt,
            review_scroll: 0,
            review_scroll_limit: 0,
            progress: "enter a question for a new fixed snapshot"@,
            input: Seq::empty(),
            ..self
        }
    }
}

impl InvestigationDialogState {
    pub open spec fn model(self) -> TalkModel {
        TalkModel {
            generation: self.generation as int,
            definition_revision: self.definition_revision as int,
            view_id: self.view_id@,
            stage: self.stage,
            focus: self.focus,
            input: self.input@,
            progress: self.progress@,
            selected: self.selected as int,
            items: self.items@,
            investigation_id: some_text(self.investigation_id),
            session_id: some_text(self.session_id),
            snapshot_dir: some_text(self.snapshot_dir),
            manifest_path: some_text(self.manifest_path),
            messages: texts(self.messages@),
            review_scroll: self.review_scroll as int,
            review_scroll_limit: self.review_scroll_limit as int,
            saved_mode: self.saved_mode,
        }
    }
}

/// The state of the layer.
#[verifier::ext_equal]
pub struct InvestigationModel {
    pub open: bool,
    pub talk: Option<TalkModel>,
    pub question: Seq<char>,
    pub cursor: int,
    pub saved: Seq<InvestigationItem>,
    pub geometry: InvestigationGeometry,
    pub surface: Surface,
    pub agent: AgentModel,
    pub queue: Queue<InvestigationAsk>,
}

/// The place of a session in a list, from one place on.
pub open spec fn session_place(items: Seq<InvestigationItem>, id: Seq<char>, from: int) -> Option<int>
    decreases items.len() - from,
{
    if from < 0 || from >= items.len() {
        None
    } else if items[from].id@ == id {
        Some(from)
    } else {
        session_place(items, id, from + 1)
    }
}

/// The first `n` of the sessions found, behind those that were known but for
/// those that are known already.
pub open spec fn merged(known: Seq<InvestigationItem>, found: Seq<InvestigationItem>, n: int) -> Seq<
    InvestigationItem,
>
    decreases n,
{
    if n <= 0 {
        known
    } else {
        let before = merged(known, found, n - 1);
        if session_place(before, found[n - 1].id@, 0) is Some {
            before
        } else {
            before.push(found[n - 1])
        }
    }
}

/// At most as many sessions as are kept.
pub open spec fn bounded(items: Seq<InvestigationItem>) -> Seq<InvestigationItem> {
    if items.len() <= MAX_SAVED_INVESTIGATIONS {
        items
    } else {
        items.take(MAX_SAVED_INVESTIGATIONS as int)
    }
}

/// The sessions with one that was just made or changed: in its place, or before
/// all others, of which the last leaves where there are too many.
pub open spec fn with_session(saved: Seq<InvestigationItem>, item: InvestigationItem) -> Seq<
    InvestigationItem,
> {
    match session_place(saved, item.id@, 0) {
        Some(place) => saved.update(place, item),
        None => seq![item] + (if saved.len() >= MAX_SAVED_INVESTIGATIONS {
            saved.drop_last()
        } else {
            saved
        }),
    }
}

impl InvestigationModel {
    pub open spec fn with(self, talk: TalkModel) -> InvestigationModel {
        InvestigationModel { talk: Some(talk), ..self }
    }

    pub open spec fn asked(self, ask: InvestigationAsk) -> InvestigationModel {
        InvestigationModel { queue: self.queue.put(ask), ..self }
    }

    pub open spec fn editing(self) -> bool {
        self.talk is Some && self.talk->0.editing()
    }

    /// The sessions on disk were read.
    pub open spec fn saved_found(self, items: Seq<InvestigationItem>) -> InvestigationModel {
        let saved = bounded(merged(self.saved, items, items.len() as int));
        InvestigationModel {
            saved,
            talk: match self.talk {
                Some(talk) => if talk.stage == InvestigationStage::Input {
                    Some(
                        TalkModel {
                            items: saved,
                            selected: if saved.len() == 0 {
                                0
                            } else if talk.selected < saved.len() {
                                talk.selected
                            } else {
                                saved.len() - 1
                            },
                            ..talk
                        },
                    )
                } else {
                    Some(talk)
                },
                None => None,
            },
            ..self
        }
    }

    /// An answer is for the dialog that is open.
    pub open spec fn awaits(self, generation: int) -> bool {
        self.talk is Some && self.talk->0.generation == generation
    }

    /// What is heard belongs to the session of the dialog that is open.
    pub open spec fn hears(self, session_id: Seq<char>) -> bool {
        self.talk is Some && self.talk->0.session_id == Some(session_id)
    }

    /// The session exists and is kept, before all others where it is new.
    pub open spec fn session_ready(self, generation: int, item: InvestigationItem) -> (
        InvestigationModel,
        bool,
    ) {
        if !self.awaits(generation) {
            (self, false)
        } else {
            let saved = with_session(self.saved, item);
            (
                InvestigationModel {
                    saved,
                    talk: Some(TalkModel { items: saved, ..self.talk->0.bound(item) }),
                    ..self
                },
                true,
            )
        }
    }

    pub open spec fn question_cleared(self) -> InvestigationModel {
        InvestigationModel { question: Seq::empty(), cursor: 0, ..self }
    }

    pub open spec fn edited(self, value: Seq<char>, cursor: int) -> InvestigationModel {
        if self.editing() {
            InvestigationModel {
                question: value,
                cursor,
                talk: Some(TalkModel { input: value, ..self.talk->0 }),
                ..self
            }
        } else {
            self
        }
    }

    pub open spec fn edit_step(self, command: EditCommand) -> Step {
        if self.editing() {
            Step::Edit(command)
        } else {
            Step::Done(Outcome::Ignored)
        }
    }

    pub open spec fn started_over(self) -> InvestigationModel {
        InvestigationModel {
            talk: match self.talk {
                Some(talk) => Some(talk.started_over()),
                None => None,
            },
            ..self.question_cleared()
        }
    }

    /// A saved session is resumed, a new one is started, or the session that is
    /// there is sent a follow-up.
    pub open spec fn submitted(self, limit: int) -> InvestigationModel {
        match self.talk {
            None => self,
            Some(talk) => {
                let blank = trimmed(talk.input).len() == 0;
                if self.queue.items.len() >= MAX_INVESTIGATION_REQUESTS {
                    self.with(talk.failed("investigation request queue is full"@))
                } else if talk.stage == InvestigationStage::Input && blank {
                    if 0 <= talk.selected < talk.items.len() {
                        self.with(
                            TalkModel {
                                saved_mode: false,
                                ..talk.noted(
                                    InvestigationStage::Resuming,
                                    "resuming selected local agent session"@,
                                )
                            },
                        ).asked(
                            InvestigationAsk::Resume {
                                generation: talk.generation,
                                item: talk.items[talk.selected],
                            },
                        )
                    } else {
                        self.with(talk.failed("enter a question to start an investigation"@))
                    }
                } else if talk.stage == InvestigationStage::Input {
                    self.with(
                        TalkModel {
                            input: Seq::empty(),
                            ..talk.noted(
                                InvestigationStage::Snapshot,
                                "freezing applied view snapshot"@,
                            ).told("You: "@ + talk.input, limit)
                        },
                    ).question_cleared().asked(
                        InvestigationAsk::Start {
                            generation: talk.generation,
                            view_id: talk.view_id,
                            definition_revision: talk.definition_revision,
                            question: talk.input,
                            agent: self.agent,
                        },
                    )
                } else if talk.stage.editable() {
                    match talk.session_id {
                        None => self.with(
                            talk.failed("session is unavailable; start or resume again"@),
                        ),
                        Some(session_id) => if blank {
                            self.with(
                                TalkModel { progress: "enter a follow-up question"@, ..talk },
                            )
                        } else {
                            self.with(
                                TalkModel {
                                    input: Seq::empty(),
                                    ..talk.noted(
                                        InvestigationStage::Sending,
                                        "sending follow-up to local agent"@,
                                    ).told("You: "@ + talk.input, limit)
                                },
                            ).question_cleared().asked(
                                InvestigationAsk::Send {
                                    generation: talk.generation,
                                    session_id,
                                    prompt: talk.input,
                                },
                            )
                        },
                    }
                } else {
                    self
                }
            },
        }
    }

    pub open spec fn activated(self, limit: int) -> InvestigationModel {
        match self.talk {
            None => self,
            Some(talk) => match talk.focus {
                InvestigationControl::Saved => self.with(TalkModel { saved_mode: true, ..talk }),
                InvestigationControl::ModeNew => self.with(TalkModel { saved_mode: false, ..talk }),
                InvestigationControl::Submit | InvestigationControl::Open => self.submitted(limit),
                InvestigationControl::New => self.started_over(),
                _ => self,
            },
        }
    }

    /// The layer closes; a turn under way or a conversation is cancelled.
    pub open spec fn dismissed(self) -> InvestigationModel {
        let closed = InvestigationModel { open: false, talk: None, ..self.question_cleared() };
        match self.talk {
            Some(talk) => if talk.stage == InvestigationStage::Input || talk.stage
                == InvestigationStage::Error {
                closed
            } else {
                closed.asked(InvestigationAsk::Cancel { generation: talk.generation })
            },
            None => closed,
        }
    }

    pub open spec fn focus_moved(self, delta: int) -> InvestigationModel {
        match self.talk {
            Some(talk) => self.with(talk.focus_moved(delta)),
            None => self,
        }
    }

    pub open spec fn selection_moved(self, delta: int) -> InvestigationModel {
        match self.talk {
            Some(talk) => self.with(talk.selection_moved(delta)),
            None => self,
        }
    }

    pub open spec fn scrolled(self, delta: int) -> InvestigationModel {
        match self.talk {
            Some(talk) => self.with(talk.scrolled(delta)),
            None => self,
        }
    }

    /// The panes take the arrows while they have the focus.
    pub open spec fn after_pane_key(self, code: KeyCode) -> Option<InvestigationModel> {
        match self.talk {
            None => None,
            Some(talk) => {
                let delta: int = if code == KeyCode::Up {
                    -1
                } else {
                    1
                };
                if code != KeyCode::Up && code != KeyCode::Down {
                    None
                } else if talk.focus == InvestigationControl::More {
                    Some(self.scrolled(delta))
                } else if talk.focus == InvestigationControl::Saved || talk.focus
                    == InvestigationControl::Open {
                    Some(self.selection_moved(delta))
                } else {
                    None
                }
            },
        }
    }

    pub open spec fn after_key(self, key: KeyEvent, limit: int) -> (InvestigationModel, Step) {
        let done = Step::Done(Outcome::Consumed);
        let ignored = Step::Done(Outcome::Ignored);
        if !key.spec_is_active() {
            (self, done)
        } else if key.modifiers.control {
            match control_edit(key.code) {
                Some(command) => (self, self.edit_step(command)),
                None => (self, ignored),
            }
        } else if key.modifiers.alt {
            if key.code == KeyCode::Char('n') {
                (self.started_over(), done)
            } else {
                (self, ignored)
            }
        } else if self.after_pane_key(key.code) is Some {
            (self.after_pane_key(key.code)->0, done)
        } else if self.editing() && question_edit(key.code) is Some {
            (self, Step::Edit(question_edit(key.code)->0))
        } else {
            match key.code {
                KeyCode::Tab | KeyCode::Down => (self.focus_moved(1), done),
                KeyCode::BackTab | KeyCode::Up => (self.focus_moved(-1), done),
                KeyCode::Enter => (self.activated(limit), done),
                KeyCode::Char(ch) => if ch == ' ' {
                    (self.activated(limit), done)
                } else {
                    (self, ignored)
                },
                _ => (self, ignored),
            }
        }
    }

    pub open spec fn after_mouse(
        self,
        kind: MouseEventKind,
        hit: Option<InvestigationHit>,
        limit: int,
    ) -> InvestigationModel {
        match (kind, hit) {
            (MouseEventKind::LeftDown, Some(InvestigationHit::Control(control))) => {
                let there = match self.talk {
                    Some(talk) => self.with(talk.focused(control)),
                    None => self,
                };
                if control == InvestigationControl::Submit || control == InvestigationControl::New {
                    there.activated(limit)
                } else {
                    there
                }
            },
            (MouseEventKind::ScrollUp, Some(InvestigationHit::Body)) => self.scrolled(-1),
            (MouseEventKind::ScrollDown, Some(InvestigationHit::Body)) => self.scrolled(1),
            _ => self,
        }
    }

    pub open spec fn after_event(self, event: Event<InvestigationHit>, limit: int) -> (
        InvestigationModel,
        Step,
    ) {
        let done = Step::Done(Outcome::Consumed);
        match event {
            Event::Key(key) => self.after_key(key, limit),
            Event::Paste(_) => (self, self.edit_step(EditCommand::InsertPasted)),
            Event::Mouse { kind, hit } => (self.after_mouse(kind, hit, limit), done),
            Event::Dismiss => (self.dismissed(), Step::Done(Outcome::Close)),
            Event::Command(CommandId::NewInvestigation) => (self.started_over(), done),
            Event::Command(CommandId::ResumeInvestigation)
            | Event::Command(CommandId::InvestigationFollowup) => (self.submitted(limit), done),
            _ => (self, Step::Done(Outcome::Ignored)),
        }
    }

    /// The layer opens over a view, with the saved sessions to resume.
    pub open spec fn opened(
        self,
        view_id: Option<Seq<char>>,
        definition_revision: int,
        geometry: InvestigationGeometry,
    ) -> InvestigationModel {
        match view_id {
            None => self,
            Some(view_id) => InvestigationModel {
                open: true,
                talk: Some(
                    TalkModel {
                        generation: self.queue.drawn().generation,
                        definition_revision,
                        view_id,
                        stage: InvestigationStage::Input,
                        focus: InvestigationControl::Prompt,
                        input: Seq::empty(),
                        progress: if self.saved.len() == 0 {
                            "enter a question for a new fixed snapshot"@
                        } else {
                            "type a new question, or leave blank to resume the selected investigation"@
                        },
                        selected: 0,
                        items: self.saved,
                        investigation_id: None,
                        session_id: None,
                        snapshot_dir: None,
                        manifest_path: None,
                        messages: Seq::empty(),
                        review_scroll: 0,
                        review_scroll_limit: 0,
                        saved_mode: self.saved.len() > 0,
                    },
                ),
                queue: self.queue.drawn(),
                geometry,
                ..self.question_cleared()
            },
        }
    }

    /// A layer that was never opened.
    pub open spec fn initial(geometry: InvestigationGeometry) -> InvestigationModel {
        InvestigationModel {
            open: false,
            talk: None,
            question: Seq::empty(),
            cursor: 0,
            saved: Seq::empty(),
            geometry,
            surface: Surface::nothing(),
            agent: AgentModel {
                provider: "codex/gpt-5.6-sol"@,
                mode: "full-access"@,
                thinking: "medium"@,
            },
            queue: Queue::empty(MAX_INVESTIGATION_REQUESTS as int),
        }
    }
}

/// The edit of the question that a key without Ctrl or Alt makes.
pub open spec fn question_edit(code: KeyCode) -> Option<EditCommand> {
    match code {
        KeyCode::Enter => Some(EditCommand::Insert('\n')),
        KeyCode::Backspace => Some(EditCommand::Backspace),
        KeyCode::Char(ch) => Some(EditCommand::Insert(ch)),
        _ => arrow_edit(code),
    }
}

fn question_edit_for(code: KeyCode) -> (r: Option<EditCommand>)
    ensures
        r == question_edit(code),
{
    match code {
        KeyCode::Enter => Some(EditCommand::Insert('\n')),
        KeyCode::Backspace => Some(EditCommand::Backspace),
        KeyCode::Char(ch) => Some(EditCommand::Insert(ch)),
        _ => arrow_edit_for(code),
    }
}

fn control_place(list: &Vec<InvestigationControl>, control: InvestigationControl) -> (r: usize)
    ensures
        r == place_or_start(list@, control),
        r < list@.len() || r == 0,
{
    let mut i: usize = 0;
    while i < list.len()
        invariant
            i <= list@.len(),
            place_from(list@, control, 0) == place_from(
                list@,
                control,
                i as int,
            ),
        decreases list.len() - i,
    {
        if list[i] == control {
            return i;
        }
        i += 1;
    }
    0
}

fn holds_control(list: &Vec<InvestigationControl>, control: InvestigationControl) -> (r: bool)
    ensures
        r == list@.contains(control),
{
    let mut i: usize = 0;
    while i < list.len()
        invariant
            i <= list@.len(),
            forall|j: int| 0 <= j < i ==> list@[j] != control,
        decreases list.len() - i,
    {
        if list[i] == control {
            return true;
        }
        i += 1;
    }
    false
}

fn find_session(items: &Vec<InvestigationItem>, id: &str) -> (r: Option<usize>)
    ensures
        r matches Some(place) ==> session_place(items@, id@, 0) == Some(place as int) && place
            < items@.len(),
        r is None ==> session_place(items@, id@, 0) is None,
{
    let mut i: usize = 0;
    while i < items.len()
        invariant
            i <= items@.len(),
            session_place(items@, id@, 0) == session_place(items@, id@, i as int),
        decreases items.len() - i,
    {
        if same(items[i].id.as_str(), id) {
            return Some(i);
        }
        i += 1;
    }
    None
}

fn copy_items(items: &Vec<InvestigationItem>) -> (r: Vec<InvestigationItem>)
    ensures
        r@ == items@,
{
    let mut out: Vec<InvestigationItem> = Vec::new();
    let mut i: usize = 0;
    while i < items.len()
        invariant
            i <= items@.len(),
            out@ =~= items@.take(i as int),
        decreases items.len() - i,
    {
        out.push(items[i].copy());
        i += 1;
    }
    assert(out@ =~= items@);
    out
}

/// Puts a session where it belongs among those that are kept.
fn keep_session(saved: &mut Vec<InvestigationItem>, item: InvestigationItem)
    ensures
        final(saved)@ == with_session(old(saved)@, item),
{
    let ghost before = saved@;
    match find_session(saved, item.id.as_str()) {
        Some(place) => {
            saved.set(place, item);
        },
        None => {
            if saved.len() >= MAX_SAVED_INVESTIGATIONS {
                saved.pop();
            }
            saved.insert(0, item);
            assert(saved@ =~= with_session(before, item));
        },
    }
}

/// Adds a message and lets the oldest go where there are too many.
fn keep_message(messages: &mut Vec<String>, message: String, limit: usize)
    ensures
        texts(final(messages)@) == kept(texts(old(messages)@), message@, limit as int),
{
    let ghost said = message@;
    let ghost before = texts(messages@);
    messages.push(message);
    let ghost all = texts(messages@);
    assert(all =~= before.push(said));
    let ghost mut gone: int = 0;
    assert(all.skip(0) =~= all);
    while messages.len() > limit
        invariant
            0 <= gone <= all.len(),
            texts(messages@) == all.skip(gone),
            gone > 0 ==> messages@.len() >= limit,
        decreases messages.len(),
    {
        let ghost now = messages@;
        messages.remove(0);
        proof {
            assert(texts(messages@) =~= texts(now).skip(1));
            assert(all.skip(gone).skip(1) =~= all.skip(gone + 1));
            gone = gone + 1;
        }
    }
}

impl InvestigationDialogState {
    fn controls(&self) -> (r: Vec<InvestigationControl>)
        ensures
            r@ == self.model().controls(),
    {
        let mut list: Vec<InvestigationControl> = Vec::new();
        if self.items.len() > 0 {
            list.push(InvestigationControl::ModeNew);
            list.push(InvestigationControl::Saved);
        }
        if self.stage.is_editable() {
            list.push(InvestigationControl::Prompt);
            list.push(InvestigationControl::Submit);
            if self.saved_mode && self.items.len() > 0 {
                list.push(InvestigationControl::Open);
            }
            if self.investigation_id.is_some() || self.session_id.is_some() {
                list.push(InvestigationControl::New);
            }
        }
        if self.review_scroll_limit > 0 {
            list.push(InvestigationControl::More);
        }
        assert(list@ =~= self.model().controls());
        list
    }

    fn editing(&self) -> (r: bool)
        ensures
            r == self.model().editing(),
    {
        self.focus == InvestigationControl::Prompt && self.stage.is_editable()
    }

    fn fail(&mut self, why: &str)
        ensures
            final(self).model() == old(self).model().failed(why@),
    {
        self.stage = InvestigationStage::Error;
        self.progress = why.to_owned();
    }

    fn note(&mut self, stage: InvestigationStage, progress: &str)
        ensures
            final(self).model() == old(self).model().noted(stage, progress@),
    {
        self.stage = stage;
        self.progress = progress.to_owned();
    }

    fn tell(&mut self, message: String, limit: usize)
        ensures
            final(self).model() == old(self).model().told(message@, limit as int),
    {
        keep_message(&mut self.messages, message, limit);
    }

    fn move_focus(&mut self, delta: i32)
        ensures
            final(self).model() == old(self).model().focus_moved(delta as int),
    {
        let list = self.controls();
        if list.len() > 0 {
            let place: usize = control_place(&list, self.focus);
            let next: usize = move_index(place, list.len(), delta);
            self.focus = list[next];
        }
    }

    fn focus_on(&mut self, control: InvestigationControl)
        ensures
            final(self).model() == old(self).model().focused(control),
    {
        let list = self.controls();
        if holds_control(&list, control) {
            self.focus = control;
        }
    }

    fn move_selection(&mut self, delta: i32)
        ensures
            final(self).model() == old(self).model().selection_moved(delta as int),
    {
        if self.stage == InvestigationStage::Input && self.items.len() > 0 {
            self.selected = move_index(self.selected, self.items.len(), delta);
        }
    }

    fn scroll(&mut self, delta: i32)
        ensures
            final(self).model() == old(self).model().scrolled(delta as int),
    {
        let place: usize = scroll_by(
            self.review_scroll as usize,
            self.review_scroll_limit as usize,
            delta,
        );
        self.review_scroll = place as u16;
    }

    fn start_over(&mut self)
        ensures
            final(self).model() == old(self).model().started_over(),
    {
        self.stage = InvestigationStage::Input;
        self.investigation_id = None;
        self.session_id = None;
        self.snapshot_dir = None;
        self.manifest_path = None;
        self.messages = Vec::new();
        self.focus = InvestigationControl::Prompt;
        self.review_scroll = 0;
        self.review_scroll_limit = 0;
        self.progress = "enter a question for a new fixed snapshot".to_owned();
        self.input = String::new();
        assert(texts(self.messages@) =~= seq![]);
    }

    /// Takes the question and says it in the transcript.
    fn take_question(&mut self, stage: InvestigationStage, progress: &str, limit: usize) -> (r: String)
        ensures
            r@ == old(self).model().input,
            final(self).model() == (TalkModel {
                input: Seq::empty(),
                ..old(self).model().noted(stage, progress@).told(
                    "You: "@ + old(self).model().input,
                    limit as int,
                )
            }),
    {
        let question = self.input.clone();
        self.note(stage, progress);
        self.input = String::new();
        let mut line = "You: ".to_owned();
        line.append(question.as_str());
        self.tell(line, limit);
        question
    }
}

#[derive(Debug)]
pub struct InvestigationDialog {
    open: bool,
    state: Option<InvestigationDialogState>,
    question: String,
    cursor: usize,
    saved: Vec<InvestigationItem>,
    geometry: InvestigationGeometry,
    surface: Surface,
    provider: String,
    mode: String,
    thinking: String,
    pub outbox: Outbox<InvestigationRequest>,
}

/// The state of a dialog that may be open.
pub open spec fn some_talk(state: Option<InvestigationDialogState>) -> Option<TalkModel> {
    match state {
        Some(state) => Some(state.model()),
        None => None,
    }
}

impl Default for InvestigationDialog {
    fn default() -> (r: InvestigationDialog)
        ensures
            r.model().geometry.blank(),
            r.model() == InvestigationModel::initial(r.model().geometry),
    {
        let r = InvestigationDialog {
            open: false,
            state: None,
            question: String::new(),
            cursor: 0,
            saved: Vec::new(),
            geometry: InvestigationGeometry::default(),
            surface: Surface::default(),
            provider: "codex/gpt-5.6-sol".to_owned(),
            mode: "full-access".to_owned(),
            thinking: "medium".to_owned(),
            outbox: Outbox::new(MAX_INVESTIGATION_REQUESTS),
        };
        assert(asks(r.outbox@.items) =~= seq![]);
        assert(r.model().queue =~= Queue::<InvestigationAsk>::empty(
            MAX_INVESTIGATION_REQUESTS as int,
        ));
        r
    }
}

impl InvestigationDialog {
    pub closed spec fn model(&self) -> InvestigationModel {
        InvestigationModel {
            open: self.open,
            talk: some_talk(self.state),
            question: self.question@,
            cursor: self.cursor as int,
            saved: self.saved@,
            geometry: self.geometry,
            surface: self.surface,
            agent: AgentModel {
                provider: self.provider@,
                mode: self.mode@,
                thinking: self.thinking@,
            },
            queue: Queue {
                items: asks(self.outbox@.items),
                cap: self.outbox@.cap,
                generation: self.outbox@.generation,
            },
        }
    }

    fn offer(&mut self, request: InvestigationRequest)
        ensures
            final(self).model() == old(self).model().asked(ask_of(request)),
    {
        let ghost before = self.outbox@.items;
        let ghost ask = ask_of(request);
        let _ = self.outbox.push(request);
        proof {
            assert(asks(before.push(request)) =~= asks(before).push(ask));
            assert(self.model().queue =~= old(self).model().queue.put(ask));
        }
    }

    /// Sets the agent that sessions are started with.
    pub fn configure(&mut self, provider: String, mode: String, thinking: String)
        ensures
            final(self).model() == (InvestigationModel {
                agent: AgentModel { provider: provider@, mode: mode@, thinking: thinking@ },
                ..old(self).model()
            }),
    {
        self.provider = provider;
        self.mode = mode;
        self.thinking = thinking;
    }

    pub fn is_open(&self) -> (r: bool)
        ensures
            r == self.model().open,
    {
        self.open
    }

    pub fn state(&self) -> (r: Option<&InvestigationDialogState>)
        ensures
            r is Some <==> self.model().talk is Some,
            r matches Some(state) ==> self.model().talk == Some(state.model()),
    {
        match &self.state {
            Some(state) => Some(state),
            None => None,
        }
    }

    /// Whether a turn is under way.
    pub fn is_working(&self) -> (r: bool)
        ensures
            r == (self.model().talk is Some && self.model().talk->0.working()),
    {
        match &self.state {
            Some(state) => !state.stage.is_editable(),
            None => false,
        }
    }

    /// The sessions that can be resumed.
    pub fn saved(&self) -> (r: &Vec<InvestigationItem>)
        ensures
            r@ == self.model().saved,
    {
        &self.saved
    }

    /// The text of the question and the place of its caret.
    pub fn question(&self) -> (r: (&String, usize))
        ensures
            r.0@ == self.model().question,
            r.1 == self.model().cursor,
    {
        (&self.question, self.cursor)
    }

    /// Hands out the requests that wait.
    pub fn take_requests(&mut self) -> (r: Vec<InvestigationRequest>)
        ensures
            asks(r@) == old(self).model().queue.items,
            final(self).model() == (InvestigationModel {
                queue: Queue { items: Seq::empty(), ..old(self).model().queue },
                ..old(self).model()
            }),
    {
        let r = self.outbox.drain();
        assert(asks(self.outbox@.items) =~= seq![]);
        assert(self.model().queue =~= (Queue { items: Seq::empty(), ..old(self).model().queue }));
        r
    }

    /// The sessions on disk were read: those that are not known yet are kept.
    pub fn set_saved(&mut self, items: Vec<InvestigationItem>)
        ensures
            final(self).model() == old(self).model().saved_found(items@),
    {
        let ghost known = self.saved@;
        let mut i: usize = 0;
        while i < items.len()
            invariant
                i <= items@.len(),
                self.saved@ == merged(known, items@, i as int),
                *self == (InvestigationDialog { saved: self.saved, ..*old(self) }),
            decreases items.len() - i,
        {
            if find_session(&self.saved, items[i].id.as_str()).is_none() {
                self.saved.push(items[i].copy());
            }
            i += 1;
        }
        self.saved.truncate(MAX_SAVED_INVESTIGATIONS);
        assert(self.saved@ =~= bounded(merged(known, items@, items@.len() as int)));
        if let Some(state) = &mut self.state {
            if state.stage == InvestigationStage::Input {
                state.items = copy_items(&self.saved);
                let last: usize = state.items.len().saturating_sub(1);
                if state.selected > last {
                    state.selected = last;
                }
            }
        }
    }

    /// A stage was reported for the request of a generation.
    pub fn progress(
        &mut self,
        generation: u64,
        stage: InvestigationStage,
        progress: String,
        session_id: Option<String>,
        snapshot_dir: Option<String>,
        manifest_path: Option<String>,
    ) -> (r: bool)
        ensures
            r == old(self).model().awaits(generation as int),
            final(self).model() == if r {
                old(self).model().with(
                    old(self).model().talk->0.progressed(
                        stage,
                        progress@,
                        some_text(session_id),
                        some_text(snapshot_dir),
                        some_text(manifest_path),
                    ),
                )
            } else {
                old(self).model()
            },
    {
        if let Some(state) = &mut self.state {
            if state.generation == generation {
                state.stage = stage;
                if stage == InvestigationStage::Conversation || stage == InvestigationStage::Error {
                    state.focus = InvestigationControl::Prompt;
                }
                state.progress = progress;
                if session_id.is_some() {
                    state.session_id = session_id;
                }
                if snapshot_dir.is_some() {
                    state.snapshot_dir = snapshot_dir;
                }
                if manifest_path.is_some() {
                    state.manifest_path = manifest_path;
                }
                return true;
            }
        }
        false
    }

    /// The session exists and was recorded.
    pub fn ready(&mut self, generation: u64, item: InvestigationItem) -> (r: bool)
        ensures
            (final(self).model(), r) == old(self).model().session_ready(generation as int, item),
    {
        let awaited = match &self.state {
            Some(state) => state.generation == generation,
            None => false,
        };
        if !awaited {
            return false;
        }
        let kept = item.copy();
        keep_session(&mut self.saved, kept);
        if let Some(state) = &mut self.state {
            state.investigation_id = Some(item.id);
            state.session_id = Some(item.session_id);
            state.snapshot_dir = Some(item.snapshot_dir);
            state.manifest_path = Some(item.manifest_path);
            state.stage = InvestigationStage::Sending;
            state.progress = "prompt accepted; waiting for local agent".to_owned();
            state.items = copy_items(&self.saved);
        }
        true
    }

    fn hears(&self, session_id: &str) -> (r: bool)
        ensures
            r == self.model().hears(session_id@),
    {
        match &self.state {
            Some(state) => match &state.session_id {
                Some(id) => same(id.as_str(), session_id),
                None => false,
            },
            None => false,
        }
    }

    /// A turn of a session ended, well or with an error.
    pub fn push_event(
        &mut self,
        session_id: &str,
        message: String,
        terminal: Result<(), String>,
        limit: usize,
    ) -> (r: bool)
        ensures
            r == old(self).model().hears(session_id@),
            final(self).model() == if r {
                old(self).model().with(
                    old(self).model().talk->0.turn_ended(
                        message@,
                        match terminal {
                            Ok(_) => None,
                            Err(error) => Some(error@),
                        },
                        limit as int,
                    ),
                )
            } else {
                old(self).model()
            },
    {
        if !self.hears(session_id) {
            return false;
        }
        if let Some(state) = &mut self.state {
            if !message.as_str().is_empty() {
                state.tell(message, limit);
            }
            match terminal {
                Ok(_) => {
                    state.note(
                        InvestigationStage::Conversation,
                        "turn complete; type a follow-up to continue",
                    );
                },
                Err(error) => {
                    state.note(InvestigationStage::Error, error.as_str());
                },
            }
            state.focus = InvestigationControl::Prompt;
        }
        true
    }

    /// Output came within a turn.
    pub fn append_output(&mut self, session_id: &str, message: String, limit: usize) -> (r: bool)
        ensures
            r == old(self).model().hears(session_id@),
            final(self).model() == if r {
                old(self).model().with(old(self).model().talk->0.told(message@, limit as int))
            } else {
                old(self).model()
            },
    {
        if !self.hears(session_id) {
            return false;
        }
        if let Some(state) = &mut self.state {
            state.tell(message, limit);
        }
        true
    }

    fn editing(&self) -> (r: bool)
        ensures
            r == self.model().editing(),
    {
        match &self.state {
            Some(state) => state.editing(),
            None => false,
        }
    }

    fn edit(&self, command: EditCommand) -> (r: Step)
        ensures
            r == self.model().edit_step(command),
    {
        if self.editing() {
            Step::Edit(command)
        } else {
            Step::Done(Outcome::Ignored)
        }
    }

    /// The question was edited.
    pub fn edited(&mut self, edited: Edited)
        ensures
            final(self).model() == old(self).model().edited(edited.value@, edited.cursor as int),
    {
        if !self.editing() {
            return;
        }
        self.question = edited.value.clone();
        self.cursor = edited.cursor;
        if let Some(state) = &mut self.state {
            state.input = edited.value;
        }
    }

    fn start_over(&mut self)
        ensures
            final(self).model() == old(self).model().started_over(),
    {
        if let Some(state) = &mut self.state {
            state.start_over();
        }
        self.question = String::new();
        self.cursor = 0;
    }

    fn resume(&mut self) -> (r: Option<InvestigationRequest>)
        requires
            old(self).model().talk is Some,
        ensures
            ({
                let talk = old(self).model().talk->0;
                if 0 <= talk.selected < talk.items.len() {
                    &&& r is Some
                    &&& ask_of(r->0) == InvestigationAsk::Resume {
                        generation: talk.generation,
                        item: talk.items[talk.selected],
                    }
                    &&& final(self).model() == old(self).model().with(
                        TalkModel {
                            saved_mode: false,
                            ..talk.noted(
                                InvestigationStage::Resuming,
                                "resuming selected local agent session"@,
                            )
                        },
                    )
                } else {
                    &&& r is None
                    &&& final(self).model() == old(self).model().with(
                        talk.failed("enter a question to start an investigation"@),
                    )
                }
            }),
    {
        if let Some(state) = &mut self.state {
            if state.selected < state.items.len() {
                let item = state.items[state.selected].copy();
                state.note(
                    InvestigationStage::Resuming,
                    "resuming selected local agent session",
                );
                state.saved_mode = false;
                return Some(
                    InvestigationRequest::Resume { generation: state.generation, item },
                );
            }
            state.fail("enter a question to start an investigation");
        }
        None
    }

    fn clear_question(&mut self)
        ensures
            final(self).model() == old(self).model().question_cleared(),
    {
        self.question = String::new();
        self.cursor = 0;
    }

    fn start(&mut self, limit: usize)
        requires
            old(self).model().talk is Some,
            old(self).model().talk->0.stage == InvestigationStage::Input,
            trimmed(old(self).model().talk->0.input).len() > 0,
            old(self).model().queue.items.len() < MAX_INVESTIGATION_REQUESTS,
        ensures
            final(self).model() == old(self).model().submitted(limit as int),
    {
        let request = match &mut self.state {
            Some(state) => {
                let question = state.take_question(
                    InvestigationStage::Snapshot,
                    "freezing applied view snapshot",
                    limit,
                );
                InvestigationRequest::Start {
                    generation: state.generation,
                    view_id: state.view_id.clone(),
                    definition_revision: state.definition_revision,
                    question,
                    provider: self.provider.clone(),
                    mode: self.mode.clone(),
                    thinking: self.thinking.clone(),
                }
            },
            None => {
                return;
            },
        };
        self.clear_question();
        self.offer(request);
    }

    fn follow_up(&mut self, limit: usize)
        requires
            old(self).model().talk is Some,
            old(self).model().talk->0.stage == InvestigationStage::Conversation || old(
                self,
            ).model().talk->0.stage == InvestigationStage::Error,
            old(self).model().queue.items.len() < MAX_INVESTIGATION_REQUESTS,
        ensures
            final(self).model() == old(self).model().submitted(limit as int),
    {
        let request = match &mut self.state {
            Some(state) => {
                let session_id = match &state.session_id {
                    Some(id) => id.clone(),
                    None => {
                        state.fail("session is unavailable; start or resume again");
                        return;
                    },
                };
                if trim(state.input.as_str()).as_str().is_empty() {
                    state.progress = "enter a follow-up question".to_owned();
                    return;
                }
                let prompt = state.take_question(
                    InvestigationStage::Sending,
                    "sending follow-up to local agent",
                    limit,
                );
                InvestigationRequest::Send { generation: state.generation, session_id, prompt }
            },
            None => {
                return;
            },
        };
        self.clear_question();
        self.offer(request);
    }

    fn submit(&mut self, limit: usize)
        ensures
            final(self).model() == old(self).model().submitted(limit as int),
    {
        let waiting: usize = self.outbox.len();
        let (stage, blank) = match &mut self.state {
            Some(state) => {
                if waiting >= MAX_INVESTIGATION_REQUESTS {
                    state.fail("investigation request queue is full");
                    return;
                }
                (state.stage, trim(state.input.as_str()).as_str().is_empty())
            },
            None => {
                return;
            },
        };
        match stage {
            InvestigationStage::Input => {
                if blank {
                    if let Some(request) = self.resume() {
                        self.offer(request);
                    }
                } else {
                    self.start(limit);
                }
            },
            InvestigationStage::Conversation | InvestigationStage::Error => self.follow_up(limit),
            _ => {},
        }
    }

    fn activate(&mut self, limit: usize)
        ensures
            final(self).model() == old(self).model().activated(limit as int),
    {
        let focus = match &self.state {
            Some(state) => state.focus,
            None => {
                return;
            },
        };
        match focus {
            InvestigationControl::Saved | InvestigationControl::ModeNew => {
                if let Some(state) = &mut self.state {
                    state.saved_mode = focus == InvestigationControl::Saved;
                }
            },
            InvestigationControl::Submit | InvestigationControl::Open => self.submit(limit),
            InvestigationControl::New => self.start_over(),
            _ => {},
        }
    }

    fn dismiss(&mut self)
        ensures
            final(self).model() == old(self).model().dismissed(),
    {
        let cancelled: Option<u64> = match &self.state {
            Some(state) => if state.stage == InvestigationStage::Input || state.stage
                == InvestigationStage::Error {
                None
            } else {
                Some(state.generation)
            },
            None => None,
        };
        self.open = false;
        self.state = None;
        self.clear_question();
        if let Some(generation) = cancelled {
            self.offer(InvestigationRequest::Cancel { generation });
        }
    }

    fn pane_key(&mut self, code: KeyCode) -> (r: bool)
        ensures
            match old(self).model().after_pane_key(code) {
                Some(after) => r && final(self).model() == after,
                None => !r && final(self).model() == old(self).model(),
            },
    {
        let delta: i32 = match code {
            KeyCode::Up => -1,
            KeyCode::Down => 1,
            _ => {
                return false;
            },
        };
        if let Some(state) = &mut self.state {
            match state.focus {
                InvestigationControl::More => {
                    state.scroll(delta);
                    return true;
                },
                InvestigationControl::Saved | InvestigationControl::Open => {
                    state.move_selection(delta);
                    return true;
                },
                _ => {},
            }
        }
        false
    }

    fn move_focus(&mut self, delta: i32)
        ensures
            final(self).model() == old(self).model().focus_moved(delta as int),
    {
        if let Some(state) = &mut self.state {
            state.move_focus(delta);
        }
    }

    fn scroll(&mut self, delta: i32)
        ensures
            final(self).model() == old(self).model().scrolled(delta as int),
    {
        if let Some(state) = &mut self.state {
            state.scroll(delta);
        }
    }

    pub fn key(&mut self, key: KeyEvent, limit: usize) -> (r: Step)
        ensures
            (final(self).model(), r) == old(self).model().after_key(key, limit as int),
    {
        let done = Step::Done(Outcome::Consumed);
        if !key.is_active() {
            return done;
        }
        if key.modifiers.control {
            return match control_edit_for(key.code) {
                Some(command) => self.edit(command),
                None => Step::Done(Outcome::Ignored),
            };
        }
        if key.modifiers.alt {
            if let KeyCode::Char('n') = key.code {
                self.start_over();
                return done;
            }
            return Step::Done(Outcome::Ignored);
        }
        if self.pane_key(key.code) {
            return done;
        }
        if self.editing() {
            if let Some(command) = question_edit_for(key.code) {
                return Step::Edit(command);
            }
        }
        match key.code {
            KeyCode::Tab | KeyCode::Down => self.move_focus(1),
            KeyCode::BackTab | KeyCode::Up => self.move_focus(-1),
            KeyCode::Enter | KeyCode::Char(' ') => self.activate(limit),
            _ => {
                return Step::Done(Outcome::Ignored);
            },
        }
        done
    }

    pub fn mouse(&mut self, kind: MouseEventKind, hit: Option<InvestigationHit>, limit: usize) -> (r:
        Outcome)
        ensures
            final(self).model() == old(self).model().after_mouse(kind, hit, limit as int),
            r == Outcome::Consumed,
    {
        match (kind, hit) {
            (MouseEventKind::LeftDown, Some(InvestigationHit::Control(control))) => {
                if let Some(state) = &mut self.state {
                    state.focus_on(control);
                }
                if control == InvestigationControl::Submit || control == InvestigationControl::New {
                    self.activate(limit);
                }
            },
            (MouseEventKind::ScrollUp, Some(InvestigationHit::Body)) => self.scroll(-1),
            (MouseEventKind::ScrollDown, Some(InvestigationHit::Body)) => self.scroll(1),
            _ => {},
        }
        Outcome::Consumed
    }

    pub fn handle(&mut self, event: Event<InvestigationHit>, limit: usize) -> (r: Step)
        ensures
            (final(self).model(), r) == old(self).model().after_event(event, limit as int),
    {
        match event {
            Event::Key(key) => self.key(key, limit),
            Event::Paste(_) => self.edit(EditCommand::InsertPasted),
            Event::Mouse { kind, hit } => Step::Done(self.mouse(kind, hit, limit)),
            Event::Dismiss => {
                self.dismiss();
                Step::Done(Outcome::Close)
            },
            Event::Command(CommandId::NewInvestigation) => {
                self.start_over();
                Step::Done(Outcome::Consumed)
            },
            Event::Command(CommandId::ResumeInvestigation)
            | Event::Command(CommandId::InvestigationFollowup) => {
                self.submit(limit);
                Step::Done(Outcome::Consumed)
            },
            _ => Step::Done(Outcome::Ignored),
        }
    }

    /// Opens the layer over a view, if one is shown.
    pub fn open(&mut self, view_id: Option<String>, definition_revision: u64)
        ensures
            view_id is Some ==> final(self).model().geometry.blank(),
            final(self).model() == old(self).model().opened(
                some_text(view_id),
                definition_revision as int,
                final(self).model().geometry,
            ),
    {
        let view_id = match view_id {
            Some(view_id) => view_id,
            None => {
                return;
            },
        };
        let generation: u64 = self.outbox.next_generation();
        let items = copy_items(&self.saved);
        let any = items.len() > 0;
        let messages: Vec<String> = Vec::new();
        assert(texts(messages@) =~= seq![]);
        self.state = Some(
            InvestigationDialogState {
                generation,
                definition_revision,
                view_id,
                stage: InvestigationStage::Input,
                focus: InvestigationControl::Prompt,
                input: String::new(),
                progress: (if any {
                    "type a new question, or leave blank to resume the selected investigation"
                } else {
                    "enter a question for a new fixed snapshot"
                }).to_owned(),
                selected: 0,
                items,
                investigation_id: None,
                session_id: None,
                snapshot_dir: None,
                manifest_path: None,
                messages,
                review_scroll: 0,
                review_scroll_limit: 0,
                saved_mode: any,
            },
        );
        self.clear_question();
        self.geometry = InvestigationGeometry::default();
        self.open = true;
        proof {
            let q = old(self).model().queue;
            assert(self.model().queue =~= q.drawn());
        }
    }
}

} // verus!
