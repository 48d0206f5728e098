//! The requests of the Source layer, taken by kind, and what comes back.

use super::{
    ask_of, asks, but_kind, of_kind, DiscoveryUiRequest, PathCompletionRequest, RequestKind,
    SourceAiPreview, SourceAiRequest, SourceAiStage, SourceAsk, SourceDialog, SourceDialogMode,
    SourceKind, SourceLaunchRequest, SourceManagementRequest, SourceModel, SourceRequest,
};
use crate::components::discovery::DiscoveryItem;
use crate::text::{same, some_text, texts};
use vstd::prelude::*;

verus! {

/// The requests of a kind are all of that kind.
pub proof fn of_kind_is_of_kind(items: Seq<SourceAsk>, kind: RequestKind)
    ensures
        forall|i: int| 0 <= i < of_kind(items, kind).len() ==> (#[trigger] of_kind(items, kind)[i]).kind() == kind,
    decreases items.len(),
{
    if items.len() > 0 {
        of_kind_is_of_kind(items.drop_last(), kind);
    }
}

/// What requests of this kind say.
pub open spec fn launch_asks(requests: Seq<SourceLaunchRequest>) -> Seq<SourceAsk> {
    requests.map_values(|request: SourceLaunchRequest| ask_of(SourceRequest::Launch(request)))
}

fn unwrap_launch(requests: &mut Vec<SourceRequest>) -> (r: Vec<SourceLaunchRequest>)
    requires
        forall|i: int|
            0 <= i < old(requests)@.len() ==> ask_of(#[trigger] old(requests)@[i]).kind()
                == RequestKind::Launch,
    ensures
        launch_asks(r@) == asks(old(requests)@),
{
    let ghost whole = requests@;
    let mut out: Vec<SourceLaunchRequest> = Vec::new();
    assert(launch_asks(out@) =~= asks(whole).take(0));
    while requests.len() > 0
        invariant
            out@.len() + requests@.len() == whole.len(),
            requests@ == whole.skip(out@.len() as int),
            launch_asks(out@) == asks(whole).take(out@.len() as int),
            forall|i: int|
                0 <= i < whole.len() ==> ask_of(#[trigger] whole[i]).kind()
                    == RequestKind::Launch,
        decreases requests@.len(),
    {
        let ghost n = out@.len() as int;
        let request = requests.remove(0);
        assert(request == whole[n]);
        assert(requests@ =~= whole.skip(n + 1));
        match request {
            SourceRequest::Launch(inner) => {
                assert(launch_asks(out@.push(inner)) =~= launch_asks(out@).push(ask_of(request)));
                assert(asks(whole).take(n + 1) =~= asks(whole).take(n).push(asks(whole)[n]));
                out.push(inner);
            },
            _ => {
                assert(false);
            },
        }
    }
    assert(asks(whole).take(whole.len() as int) =~= asks(whole));
    out
}

/// What requests of this kind say.
pub open spec fn discovery_asks(requests: Seq<DiscoveryUiRequest>) -> Seq<SourceAsk> {
    requests.map_values(|request: DiscoveryUiRequest| ask_of(SourceRequest::Discovery(request)))
}

fn unwrap_discovery(requests: &mut Vec<SourceRequest>) -> (r: Vec<DiscoveryUiRequest>)
    requires
        forall|i: int|
            0 <= i < old(requests)@.len() ==> ask_of(#[trigger] old(requests)@[i]).kind()
                == RequestKind::Discovery,
    ensures
        discovery_asks(r@) == asks(old(requests)@),
{
    let ghost whole = requests@;
    let mut out: Vec<DiscoveryUiRequest> = Vec::new();
    assert(discovery_asks(out@) =~= asks(whole).take(0));
    while requests.len() > 0
        invariant
            out@.len() + requests@.len() == whole.len(),
            requests@ == whole.skip(out@.len() as int),
            discovery_asks(out@) == asks(whole).take(out@.len() as int),
            forall|i: int|
                0 <= i < whole.len() ==> ask_of(#[trigger] whole[i]).kind()
                    == RequestKind::Discovery,
        decreases requests@.len(),
    {
        let ghost n = out@.len() as int;
        let request = requests.remove(0);
        assert(request == whole[n]);
        assert(requests@ =~= whole.skip(n + 1));
        match request {
            SourceRequest::Discovery(inner) => {
                assert(discovery_asks(out@.push(inner)) =~= discovery_asks(out@).push(ask_of(request)));
                assert(asks(whole).take(n + 1) =~= asks(whole).take(n).push(asks(whole)[n]));
                out.push(inner);
            },
            _ => {
                assert(false);
            },
        }
    }
    assert(asks(whole).take(whole.len() as int) =~= asks(whole));
    out
}

/// What requests of this kind say.
pub open spec fn pathcompletion_asks(requests: Seq<PathCompletionRequest>) -> Seq<SourceAsk> {
    requests.map_values(|request: PathCompletionRequest| ask_of(SourceRequest::PathCompletion(request)))
}

fn unwrap_pathcompletion(requests: &mut Vec<SourceRequest>) -> (r: Vec<PathCompletionRequest>)
    requires
        forall|i: int|
            0 <= i < old(requests)@.len() ==> ask_of(#[trigger] old(requests)@[i]).kind()
                == RequestKind::PathCompletion,
    ensures
        pathcompletion_asks(r@) == asks(old(requests)@),
{
    let ghost whole = requests@;
    let mut out: Vec<PathCompletionRequest> = Vec::new();
    assert(pathcompletion_asks(out@) =~= asks(whole).take(0));
    while requests.len() > 0
        invariant
            out@.len() + requests@.len() == whole.len(),
            requests@ == whole.skip(out@.len() as int),
            pathcompletion_asks(out@) == asks(whole).take(out@.len() as int),
            forall|i: int|
                0 <= i < whole.len() ==> ask_of(#[trigger] whole[i]).kind()
                    == RequestKind::PathCompletion,
        decreases requests@.len(),
    {
        let ghost n = out@.len() as int;
        let request = requests.remove(0);
        assert(request == whole[n]);
        assert(requests@ =~= whole.skip(n + 1));
        match request {
            SourceRequest::PathCompletion(inner) => {
                assert(pathcompletion_asks(out@.push(inner)) =~= pathcompletion_asks(out@).push(ask_of(request)));
                assert(asks(whole).take(n + 1) =~= asks(whole).take(n).push(asks(whole)[n]));
                out.push(inner);
            },
            _ => {
                assert(false);
            },
        }
    }
    assert(asks(whole).take(whole.len() as int) =~= asks(whole));
    out
}

/// What requests of this kind say.
pub open spec fn ai_asks(requests: Seq<SourceAiRequest>) -> Seq<SourceAsk> {
    requests.map_values(|request: SourceAiRequest| ask_of(SourceRequest::Ai(request)))
}

fn unwrap_ai(requests: &mut Vec<SourceRequest>) -> (r: Vec<SourceAiRequest>)
    requires
        forall|i: int|
            0 <= i < old(requests)@.len() ==> ask_of(#[trigger] old(requests)@[i]).kind()
                == RequestKind::Ai,
    ensures
        ai_asks(r@) == asks(old(requests)@),
{
    let ghost whole = requests@;
    let mut out: Vec<SourceAiRequest> = Vec::new();
    assert(ai_asks(out@) =~= asks(whole).take(0));
    while requests.len() > 0
        invariant
            out@.len() + requests@.len() == whole.len(),
            requests@ == whole.skip(out@.len() as int),
            ai_asks(out@) == asks(whole).take(out@.len() as int),
            forall|i: int|
                0 <= i < whole.len() ==> ask_of(#[trigger] whole[i]).kind()
                    == RequestKind::Ai,
        decreases requests@.len(),
    {
        let ghost n = out@.len() as int;
        let request = requests.remove(0);
        assert(request == whole[n]);
        assert(requests@ =~= whole.skip(n + 1));
        match request {
            SourceRequest::Ai(inner) => {
                assert(ai_asks(out@.push(inner)) =~= ai_asks(out@).push(ask_of(request)));
                assert(asks(whole).take(n + 1) =~= asks(whole).take(n).push(asks(whole)[n]));
                out.push(inner);
            },
            _ => {
                assert(false);
            },
        }
    }
    assert(asks(whole).take(whole.len() as int) =~= asks(whole));
    out
}

/// What requests of this kind say.
pub open spec fn manage_asks(requests: Seq<SourceManagementRequest>) -> Seq<SourceAsk> {
    requests.map_values(|request: SourceManagementRequest| ask_of(SourceRequest::Manage(request)))
}

fn unwrap_manage(requests: &mut Vec<SourceRequest>) -> (r: Vec<SourceManagementRequest>)
    requires
        forall|i: int|
            0 <= i < old(requests)@.len() ==> ask_of(#[trigger] old(requests)@[i]).kind()
                == RequestKind::Manage,
    ensures
        manage_asks(r@) == asks(old(requests)@),
{
    let ghost whole = requests@;
    let mut out: Vec<SourceManagementRequest> = Vec::new();
    assert(manage_asks(out@) =~= asks(whole).take(0));
    while requests.len() > 0
        invariant
            out@.len() + requests@.len() == whole.len(),
            requests@ == whole.skip(out@.len() as int),
            manage_asks(out@) == asks(whole).take(out@.len() as int),
            forall|i: int|
                0 <= i < whole.len() ==> ask_of(#[trigger] whole[i]).kind()
                    == RequestKind::Manage,
        decreases requests@.len(),
    {
        let ghost n = out@.len() as int;
        let request = requests.remove(0);
        assert(request == whole[n]);
        assert(requests@ =~= whole.skip(n + 1));
        match request {
            SourceRequest::Manage(inner) => {
                assert(manage_asks(out@.push(inner)) =~= manage_asks(out@).push(ask_of(request)));
                assert(asks(whole).take(n + 1) =~= asks(whole).take(n).push(asks(whole)[n]));
                out.push(inner);
            },
            _ => {
                assert(false);
            },
        }
    }
    assert(asks(whole).take(whole.len() as int) =~= asks(whole));
    out
}

impl SourceDialog {
    /// Takes the sources to launch.
    pub fn take_launches(&mut self) -> (r: Vec<SourceLaunchRequest>)
        ensures
            launch_asks(r@) == of_kind(old(self).model().queue.items, RequestKind::Launch),
            final(self).model() == old(self).model().without(RequestKind::Launch),
    {
        let mut requests = self.take_kind(RequestKind::Launch);
        proof {
            of_kind_is_of_kind(old(self).model().queue.items, RequestKind::Launch);
            assert forall|i: int| 0 <= i < requests@.len() implies ask_of(#[trigger] requests@[i]).kind() == RequestKind::Launch by {
                assert(asks(requests@)[i] == ask_of(requests@[i]));
            }
        }
        unwrap_launch(&mut requests)
    }

    /// Takes the discovery requests.
    pub fn take_discovery(&mut self) -> (r: Vec<DiscoveryUiRequest>)
        ensures
            discovery_asks(r@) == of_kind(old(self).model().queue.items, RequestKind::Discovery),
            final(self).model() == old(self).model().without(RequestKind::Discovery),
    {
        let mut requests = self.take_kind(RequestKind::Discovery);
        proof {
            of_kind_is_of_kind(old(self).model().queue.items, RequestKind::Discovery);
            assert forall|i: int| 0 <= i < requests@.len() implies ask_of(#[trigger] requests@[i]).kind() == RequestKind::Discovery by {
                assert(asks(requests@)[i] == ask_of(requests@[i]));
            }
        }
        unwrap_discovery(&mut requests)
    }

    /// Takes the agent requests.
    pub fn take_ai(&mut self) -> (r: Vec<SourceAiRequest>)
        ensures
            ai_asks(r@) == of_kind(old(self).model().queue.items, RequestKind::Ai),
            final(self).model() == old(self).model().without(RequestKind::Ai),
    {
        let mut requests = self.take_kind(RequestKind::Ai);
        proof {
            of_kind_is_of_kind(old(self).model().queue.items, RequestKind::Ai);
            assert forall|i: int| 0 <= i < requests@.len() implies ask_of(#[trigger] requests@[i]).kind() == RequestKind::Ai by {
                assert(asks(requests@)[i] == ask_of(requests@[i]));
            }
        }
        unwrap_ai(&mut requests)
    }

    /// Takes the requests to sources that exist.
    pub fn take_management(&mut self) -> (r: Vec<SourceManagementRequest>)
        ensures
            manage_asks(r@) == of_kind(old(self).model().queue.items, RequestKind::Manage),
            final(self).model() == old(self).model().without(RequestKind::Manage),
    {
        let mut requests = self.take_kind(RequestKind::Manage);
        proof {
            of_kind_is_of_kind(old(self).model().queue.items, RequestKind::Manage);
            assert forall|i: int| 0 <= i < requests@.len() implies ask_of(#[trigger] requests@[i]).kind() == RequestKind::Manage by {
                assert(asks(requests@)[i] == ask_of(requests@[i]));
            }
        }
        unwrap_manage(&mut requests)
    }

    /// Takes the path scans once typing has paused; none before that.
    pub fn take_path_completions(&mut self, clock: u64) -> (r: Vec<PathCompletionRequest>)
        ensures
            pathcompletion_asks(r@) == if old(self).model().completions_ready(clock as int) {
                of_kind(old(self).model().queue.items, RequestKind::PathCompletion)
            } else {
                seq![]
            },
            final(self).model() == old(self).model().completions_taken(clock as int),
    {
        if let Some(ready_at) = self.path_completion_ready_at {
            if clock < ready_at {
                let none: Vec<PathCompletionRequest> = Vec::new();
                assert(pathcompletion_asks(none@) =~= seq![]);
                return none;
            }
        }
        self.path_completion_ready_at = None;
        let mut requests = self.take_kind(RequestKind::PathCompletion);
        proof {
            of_kind_is_of_kind(old(self).model().queue.items, RequestKind::PathCompletion);
            assert forall|i: int| 0 <= i < requests@.len() implies ask_of(
                #[trigger] requests@[i],
            ).kind() == RequestKind::PathCompletion by {
                assert(asks(requests@)[i] == ask_of(requests@[i]));
            }
        }
        unwrap_pathcompletion(&mut requests)
    }

    /// The path scan that may still be answered.
    pub fn active_path_completion_generation(&self) -> (r: Option<u64>)
        ensures
            r is Some <==> self.model().is_manual_file() && self.model().path.scanning,
            r matches Some(generation) ==> generation == self.model().path.generation,
    {
        if self.state.mode == SourceDialogMode::Manual && self.state.kind == SourceKind::File
            && self.state.path_completion.scanning {
            Some(self.state.path_completion.generation)
        } else {
            None
        }
    }

    /// The answer to a path scan; whether it was to the draft that is shown.
    pub fn complete_path(
        &mut self,
        generation: u64,
        original_draft: &str,
        candidates: Vec<String>,
        error: Option<String>,
    ) -> (r: bool)
        ensures
            (final(self).model(), r) == old(self).model().path_completed(
                generation as int,
                original_draft@,
                texts(candidates@),
                some_text(error),
            ),
    {
        if !self.open || self.state.mode != SourceDialogMode::Manual || self.state.kind
            != SourceKind::File || !same(self.state.draft.as_str(), original_draft)
            || self.state.path_completion.generation != generation {
            return false;
        }
        self.state.path_completion.scanning = false;
        self.state.path_completion.candidates = candidates;
        self.state.path_completion.selected = 0;
        self.state.error = error;
        true
    }

    /// The end of a discovery scan; whether it was the current one.
    pub fn complete_discovery(&mut self, generation: u64, items: Vec<DiscoveryItem>, status: String) -> (r:
        bool)
        ensures
            (final(self).model(), r) == old(self).model().discovery_completed(
                generation as int,
                items@,
                status@,
            ),
    {
        if !self.open || self.state.discovery.generation != generation {
            return false;
        }
        self.state.discovery.items = items;
        self.state.discovery.selected = 0;
        self.state.discovery.scanning = false;
        self.state.discovery.status = status;
        self.state.discovery.status_scroll = 0;
        self.state.discovery.show_older_unavailable = false;
        self.state.error = None;
        true
    }

    /// Progress of a proposal; whether it was the current one.
    pub fn update_ai_progress(
        &mut self,
        generation: u64,
        stage: SourceAiStage,
        progress: String,
        session_id: Option<String>,
    ) -> (r: bool)
        ensures
            (final(self).model(), r) == old(self).model().ai_progressed(
                generation as int,
                stage,
                progress@,
                some_text(session_id),
            ),
    {
        if !self.open || self.state.ai.generation != generation {
            return false;
        }
        self.state.ai.stage = stage;
        self.state.ai.progress = progress;
        if session_id.is_some() {
            self.state.ai.session_id = session_id;
        }
        true
    }

    /// The end of a proposal; whether it was the current one.
    pub fn finish_ai(&mut self, generation: u64, result: Result<SourceAiPreview, String>) -> (r:
        bool)
        ensures
            (final(self).model(), r) == match result {
                Ok(preview) => old(self).model().ai_finished(
                    generation as int,
                    Some(preview),
                    seq![],
                ),
                Err(error) => old(self).model().ai_finished(generation as int, None, error@),
            },
    {
        if !self.open || self.state.ai.generation != generation {
            return false;
        }
        self.state.ai.preview_scroll = 0;
        self.state.ai.preview_scroll_limit = 0;
        match result {
            Ok(preview) => {
                self.state.ai.preview = Some(preview);
                self.state.ai.stage = SourceAiStage::Proposal;
                self.state.ai.progress =
                "Review only \u{2014} explicit confirmation starts this source".to_owned();
            },
            Err(error) => {
                self.state.ai.preview = None;
                self.state.ai.stage = SourceAiStage::Error;
                self.state.ai.progress = error;
            },
        }
        true
    }

    /// A start that failed throughout keeps its review, with what went wrong as
    /// its progress, so that the same proposal can be confirmed again.
    pub fn retain_ai_batch(&mut self, generation: u64, summary: String) -> (r: bool)
        ensures
            r == old(self).model().ai_matches(generation as int),
            final(self).model() == if r {
                old(self).model().ai_noted(SourceAiStage::Proposal, summary@)
            } else {
                old(self).model()
            },
    {
        if !self.open || self.state.ai.generation != generation {
            return false;
        }
        self.state.ai.stage = SourceAiStage::Proposal;
        self.state.ai.progress = summary;
        true
    }

    /// Whether a proposal that started is the one the layer shows.
    pub fn ai_launch_matches(&self, generation: u64) -> (r: bool)
        ensures
            r == self.model().ai_matches(generation as int),
    {
        self.open && self.state.ai.generation == generation
    }

    /// Whether a launch is the draft that the layer shows.
    pub fn launch_matches(&self, request: &SourceLaunchRequest) -> (r: bool)
        ensures
            r == self.model().shows_launch(request.kind, request.text@),
    {
        self.open && self.state.kind == request.kind && same(
            self.state.draft.as_str(),
            request.text.as_str(),
        )
    }

    /// Whether a discovered source that started is one the layer shows.
    pub fn discovery_matches(&self, generation: u64) -> (r: bool)
        ensures
            r == self.model().shows_discovery(generation as int),
    {
        self.open && self.state.mode == SourceDialogMode::Discovery
            && self.state.discovery.generation == generation
    }

    /// A launch that failed: reported where the layer shows that draft. False
    /// where no layer is open to report it.
    pub fn fail_launch(&mut self, request: &SourceLaunchRequest, message: &str) -> (r: bool)
        ensures
            r == old(self).model().open,
            final(self).model() == if old(self).model().shows_launch(request.kind, request.text@) {
                old(self).model().failed(message@)
            } else {
                old(self).model()
            },
    {
        if !self.open {
            return false;
        }
        if self.launch_matches(request) {
            self.fail(message);
        }
        true
    }

    /// Opens the layer on a launch that failed, with the reason.
    pub fn open_on_failure(&mut self, request: SourceLaunchRequest, message: String)
        ensures
            final(self).model() == (SourceModel {
                kind: request.kind,
                draft: request.text@,
                error: Some(message@),
                scroll_focused: false,
                open: true,
                ..old(self).model().reset()
            }),
    {
        self.reset();
        self.state.kind = request.kind;
        self.state.draft = request.text;
        self.state.error = Some(message);
        self.scroll_focused = false;
        self.open = true;
    }

    /// A discovered source that failed: reported where the layer shows it.
    pub fn fail_discovery(&mut self, generation: u64, message: String)
        ensures
            final(self).model() == if old(self).model().shows_discovery(generation as int) {
                old(self).model().failed(message@)
            } else {
                old(self).model()
            },
    {
        if self.discovery_matches(generation) {
            self.state.error = Some(message);
        }
    }

    /// The shell closes the layer; what it held is dropped, so that a proposal
    /// that was accepted is not found again.
    pub fn close(&mut self)
        ensures
            final(self).model() == (SourceModel {
                open: false,
                scroll_focused: false,
                ready_at: None,
                ..old(self).model().reset()
            }),
    {
        self.reset();
        self.open = false;
        self.scroll_focused = false;
        self.path_completion_ready_at = None;
    }
}

/// Taking the requests of one kind leaves all others in their order.
pub proof fn kinds_are_taken_apart(items: Seq<SourceAsk>, taken: RequestKind, other: RequestKind)
    requires
        taken != other,
    ensures
        of_kind(but_kind(items, taken), other) == of_kind(items, other),
        of_kind(but_kind(items, taken), taken).len() == 0,
        of_kind(items, taken).len() + but_kind(items, taken).len() == items.len(),
    decreases items.len(),
{
    if items.len() > 0 {
        kinds_are_taken_apart(items.drop_last(), taken, other);
        let front = but_kind(items.drop_last(), taken);
        if items.last().kind() != taken {
            assert(front.push(items.last()).drop_last() =~= front);
        }
    }
}

/// Launching never lets the queue of launches grow past its depth.
pub proof fn launching_keeps_depth(before: SourceModel)
    requires
        before.queued(RequestKind::Launch) <= super::MAX_SOURCE_REQUESTS,
    ensures
        before.launched().queued(RequestKind::Launch) <= super::MAX_SOURCE_REQUESTS,
        before.launched().queued(RequestKind::Launch) > before.queued(RequestKind::Launch)
            ==> before.draft.len() > 0,
{
    asking_counts(before, SourceAsk::Launch { kind: before.kind, text: before.draft }, RequestKind::Launch);
}

/// A request adds one to its own kind at most, and nothing to another.
pub proof fn asking_counts(before: SourceModel, ask: SourceAsk, kind: RequestKind)
    ensures
        before.asked(ask).queued(kind) <= before.queued(kind) + if ask.kind() == kind {
            1int
        } else {
            0
        },
        before.asked(ask).queued(kind) >= before.queued(kind),
{
    let items = before.queue.items;
    assert(items.push(ask).drop_last() =~= items);
}

/// A proposal is applied once: confirming it leaves the review, and confirming
/// again while it starts asks for nothing.
pub proof fn proposal_applies_once(before: SourceModel, agent: super::AgentChoice)
    requires
        before.ai.stage == SourceAiStage::Proposal,
        before.queued(RequestKind::Ai) < super::MAX_SOURCE_AI_REQUESTS,
    ensures
        ({
            let once = before.ai_submitted(agent);
            &&& once.ai.stage == SourceAiStage::Applying
            &&& once.queue == before.queue.put(
                SourceAsk::AiApply { generation: before.ai.generation as u64 },
            )
            &&& once.ai_submitted(agent) == once
        }),
{
}

/// A batch of which nothing started stays under review: the proposal is the one
/// that was confirmed, and confirming again asks for the same one.
pub proof fn failed_batch_can_be_retried(
    before: SourceModel,
    summary: Seq<char>,
    agent: super::AgentChoice,
)
    requires
        before.queued(RequestKind::Ai) < super::MAX_SOURCE_AI_REQUESTS,
    ensures
        ({
            let kept = before.ai_noted(SourceAiStage::Proposal, summary);
            &&& kept.ai.preview == before.ai.preview
            &&& kept.ai.generation == before.ai.generation
            &&& kept.ai_submitted(agent).ai.preview == before.ai.preview
            &&& kept.ai_submitted(agent).queue == before.queue.put(
                SourceAsk::AiApply { generation: before.ai.generation as u64 },
            )
        }),
{
}

/// A layer that was closed on a started source does not find the proposal again
/// when it is opened: nothing is under review.
pub proof fn closed_review_is_gone(
    before: SourceModel,
    params: super::SourceOpen,
    count: int,
    geometry: super::SourceGeometry,
)
    ensures
        ({
            let closed = SourceModel {
                open: false,
                scroll_focused: false,
                ready_at: None,
                ..before.reset()
            };
            let again = closed.opened(params, count, geometry);
            &&& again.open
            &&& again.ai.preview is None
            &&& again.ai.stage == SourceAiStage::Input
            &&& again.ai.instruction.len() == 0
            &&& again.queue == before.queue
        }),
{
}

/// What comes back under another generation than the current one, or after the
/// layer was closed, changes nothing.
pub proof fn stale_answers_are_ignored(
    before: SourceModel,
    generation: int,
    draft: Seq<char>,
    candidates: Seq<Seq<char>>,
    items: Seq<DiscoveryItem>,
    text: Seq<char>,
    stage: SourceAiStage,
    preview: Option<SourceAiPreview>,
)
    ensures
        !before.open || before.path.generation != generation ==> before.path_completed(
            generation,
            draft,
            candidates,
            None,
        ) == (before, false),
        before.draft != draft ==> before.path_completed(generation, draft, candidates, None) == (
            before,
            false,
        ),
        !before.open || before.discovery.generation != generation ==> before.discovery_completed(
            generation,
            items,
            text,
        ) == (before, false),
        !before.open || before.ai.generation != generation ==> before.ai_progressed(
            generation,
            stage,
            text,
            None,
        ) == (before, false) && before.ai_finished(generation, preview, text) == (before, false),
{
}

/// Removing a source takes two presses, and moving to another source in between
/// takes the first one back.
pub proof fn removal_is_confirmed(
    before: SourceModel,
    sources: Seq<super::SourceItem>,
    delta: int,
)
    requires
        0 <= before.existing_selected < sources.len(),
        !before.confirm_remove,
        before.queue.items.len() < before.queue.cap,
    ensures
        ({
            let asked = before.management_submitted(true, sources);
            &&& asked.queue == before.queue
            &&& asked.confirm_remove
            &&& asked.management_submitted(true, sources).queue == before.queue.put(
                SourceAsk::Remove { source_id: sources[before.existing_selected].id@ },
            )
            &&& asked.existing_moved(delta, sources.len() as int).existing_selected
                != before.existing_selected ==> asked.existing_moved(
                delta,
                sources.len() as int,
            ).management_submitted(true, sources).queue == before.queue
        }),
{
    reveal(SourceModel::management_submitted);
}

/// Taking path scans waits for the pause: until it is over nothing is handed
/// out, and typing on starts the wait anew with the last draft alone.
pub proof fn completion_is_debounced(before: SourceModel, clock: int, later: int)
    requires
        before.is_manual_file(),
        before.draft.len() > 0,
        0 <= clock <= later < clock + super::SOURCE_PATH_COMPLETION_DEBOUNCE,
        clock + super::SOURCE_PATH_COMPLETION_DEBOUNCE <= u64::MAX,
        before.queue.items.len() < before.queue.cap,
    ensures
        ({
            let waiting = before.completion_scheduled(clock);
            &&& !waiting.completions_ready(later)
            &&& waiting.completions_taken(later) == waiting
            &&& waiting.completions_ready(clock + super::SOURCE_PATH_COMPLETION_DEBOUNCE)
            &&& of_kind(waiting.queue.items, RequestKind::PathCompletion) == seq![
                SourceAsk::Complete {
                    generation: before.next_path as u64,
                    draft: before.draft,
                },
            ]
        }),
{
    let kept = but_kind(before.queue.items, RequestKind::PathCompletion);
    kinds_are_taken_apart(before.queue.items, RequestKind::PathCompletion, RequestKind::Launch);
    let ask = SourceAsk::Complete { generation: before.next_path as u64, draft: before.draft };
    assert(kept.push(ask).drop_last() =~= kept);
    assert(of_kind(kept, RequestKind::PathCompletion) =~= seq![]);
    assert(of_kind(kept.push(ask), RequestKind::PathCompletion) =~= seq![ask]);
}

} // verus!
