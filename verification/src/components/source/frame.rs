//! How a frame of the Source layer is laid out and what it says.

use super::{
    asks, shown_items, AiModel, DiscoveryModel, SOURCE_OUTBOX_CAP, SourceAiPreview, SourceAiStage,
    SourceAsk, SourceControl, SourceDialog, SourceDialogMode, SourceDialogState, SourceGeometry,
    SourceHit, SourceItem, SourceKind, SourceModel, SourceOpen, SourceProposal,
};
use crate::component::{CommandEntry, CommandId, CommandSpec, MessageState, Outbox, Queue, Surface};
use crate::components::discovery::{
    candidate_rows, discovery_display_rows, older_row, DiscoveryDisplayRow, DiscoveryItem,
};
use crate::components::storage::row_marker;
use crate::dialog_controls::{role_at, ButtonRole};
use crate::dialog_layout::{
    action_rows, budget_actions, DialogSpec, find_region, region_at, FIELD_GUTTER, PANE_INDENT,
};
use crate::geometry::{greatest, least, max16, min16, minus, sat16, Rect};
use crate::text::{
    contains_text, decimal, decimal_text, holds, lines_in, lines_of, some_str, some_text, strs,
    text_lists, texts, trim, trimmed,
};
use vstd::prelude::*;

verus! {

/// Adds a line made of two parts.
fn push_line(lines: &mut Vec<String>, label: &str, value: &str)
    ensures
        texts(final(lines)@) == texts(old(lines)@).push(label@ + value@),
{
    let mut line = label.to_owned();
    line.append(value);
    let ghost before = lines@;
    lines.push(line);
    assert(texts(lines@) =~= texts(before).push(label@ + value@));
}

/// The heading of one source of a proposal: its name, numbered where there are
/// more, with an empty line between them.
pub open spec fn proposal_heading(name: Seq<char>, index: int, count: int) -> Seq<Seq<char>> {
    if count > 1 {
        let numbered = "Source "@ + decimal((index + 1) as nat) + " of "@ + decimal(count as nat)
            + ": "@ + name;
        if index > 0 {
            seq![""@ + ""@, numbered]
        } else {
            seq![numbered]
        }
    } else {
        seq!["Name: "@ + name]
    }
}

/// The environment of a proposed source, a line for each variable.
pub open spec fn environment_lines(environment: Seq<Seq<char>>) -> Seq<Seq<char>> {
    if environment.len() == 0 {
        seq!["Env: (none)"@ + ""@]
    } else {
        environment.map_values(|value: Seq<char>| "Env: "@ + value)
    }
}

/// What is shown of one source of a proposal.
pub open spec fn proposal_lines(source: SourceProposal, index: int, count: int) -> Seq<Seq<char>> {
    proposal_heading(source.name@, index, count) + seq![
        "Kind: "@ + source.kind@,
        "Launch: "@ + source.launch@,
        "Effective path/cwd: "@ + source.effective_path_or_cwd@,
        "Restart: "@ + source.restart@,
    ] + environment_lines(texts(source.environment@))
}

/// What is shown of the first `n` sources of a proposal.
pub open spec fn proposals_lines(sources: Seq<SourceProposal>, n: int) -> Seq<Seq<char>>
    decreases n,
{
    if n <= 0 {
        seq![]
    } else {
        proposals_lines(sources, n - 1) + proposal_lines(
            sources[n - 1],
            n - 1,
            sources.len() as int,
        )
    }
}

/// The lines of a review: every source, the reason they share, and the session.
pub open spec fn review(preview: Option<SourceAiPreview>, session: Option<Seq<char>>) -> Seq<
    Seq<char>,
> {
    let proposed = match preview {
        Some(preview) => proposals_lines(preview.sources@, preview.sources@.len() as int).push(
            "Why: "@ + preview.explanation@,
        ),
        None => seq![],
    };
    match session {
        Some(session) => proposed.push("Local session: "@ + session),
        None => proposed,
    }
}

fn push_proposal(lines: &mut Vec<String>, source: &SourceProposal, index: usize, count: usize)
    requires
        index < count,
    ensures
        texts(final(lines)@) == texts(old(lines)@) + proposal_lines(
            *source,
            index as int,
            count as int,
        ),
{
    let ghost before = texts(lines@);
    if count > 1 {
        if index > 0 {
            push_line(lines, "", "");
        }
        let mut heading = "Source ".to_owned();
        heading.append(decimal_text((index + 1) as u64).as_str());
        heading.append(" of ");
        heading.append(decimal_text(count as u64).as_str());
        heading.append(": ");
        push_line(lines, heading.as_str(), source.name.as_str());
    } else {
        push_line(lines, "Name: ", source.name.as_str());
    }
    assert(texts(lines@) =~= before + proposal_heading(source.name@, index as int, count as int));
    push_line(lines, "Kind: ", source.kind.as_str());
    push_line(lines, "Launch: ", source.launch.as_str());
    push_line(lines, "Effective path/cwd: ", source.effective_path_or_cwd.as_str());
    push_line(lines, "Restart: ", source.restart.as_str());
    let ghost middle = texts(lines@);
    if source.environment.len() == 0 {
        push_line(lines, "Env: (none)", "");
    } else {
        let mut i: usize = 0;
        let ghost all = environment_lines(texts(source.environment@));
        while i < source.environment.len()
            invariant
                i <= source.environment@.len(),
                source.environment@.len() > 0,
                all == environment_lines(texts(source.environment@)),
                texts(lines@) =~= middle + all.take(i as int),
            decreases source.environment.len() - i,
        {
            push_line(lines, "Env: ", source.environment[i].as_str());
            i += 1;
        }
        assert(all.take(i as int) =~= all);
    }
    assert(texts(lines@) =~= before + proposal_lines(*source, index as int, count as int));
}

impl SourceModel {
    /// The message row: an error first; then what the mode promises. While a
    /// proposal is made or reviewed, the promise that looking at it runs nothing
    /// is always part of it.
    pub open spec fn message(self) -> (MessageState, Seq<char>) {
        if self.error is Some {
            (MessageState::Error, self.promised(self.error->0))
        } else {
            match self.mode {
                SourceDialogMode::Existing => if self.confirm_remove {
                    (
                        MessageState::Updating,
                        "press Remove or Delete again to confirm; captured data stays on disk"@,
                    )
                } else {
                    (
                        MessageState::Ready,
                        "select a source to inspect its complete status, restart it, or remove it"@,
                    )
                },
                SourceDialogMode::Ai => (
                    match self.ai.stage {
                        SourceAiStage::Error => MessageState::Error,
                        SourceAiStage::Input => MessageState::Ready,
                        SourceAiStage::Proposal => MessageState::Ready,
                        _ => MessageState::Updating,
                    },
                    self.promised(self.ai.progress),
                ),
                SourceDialogMode::Discovery => if self.discovery.scanning {
                    (
                        MessageState::Updating,
                        "selecting a candidate never starts capture \u{b7} scanning, "@ + decimal(
                            self.discovery.items.len(),
                        ) + " so far"@,
                    )
                } else {
                    (MessageState::Ready, "selecting a candidate never starts capture"@)
                },
                SourceDialogMode::Manual => (
                    MessageState::Ready,
                    "capture starts only when you open the source"@,
                ),
            }
        }
    }

    /// A sentence with the promise behind it that a preview never executes,
    /// where the mode owes it and the sentence does not hold it yet.
    pub open spec fn promised(self, sentence: Seq<char>) -> Seq<char> {
        if self.mode == SourceDialogMode::Ai && !holds(sentence, "never executes"@) {
            sentence + " \u{b7} the preview never executes"@
        } else {
            sentence
        }
    }

    /// The labels of the action row; a proposal of several sources says how
    /// many where it is `painted`.
    pub open spec fn labels(self, painted: bool) -> Seq<Seq<char>> {
        match self.mode {
            SourceDialogMode::Existing => seq!["&Add source"@, "&Restart"@, "Re&move"@],
            SourceDialogMode::Manual => seq!["&Open"@],
            SourceDialogMode::Discovery => seq!["&Open"@, "&Rescan"@],
            SourceDialogMode::Ai => seq![
                match self.ai.stage {
                    SourceAiStage::Input => "Request &proposal"@,
                    SourceAiStage::Error => "Request &proposal"@,
                    SourceAiStage::Proposal => if painted && self.proposed() > 1 {
                        "Start "@ + decimal(self.proposed() as nat) + " &reviewed sources"@
                    } else {
                        "Start &reviewed source"@
                    },
                    _ => "Wor&king\u{2026}"@,
                },
            ],
        }
    }

    /// The button that Enter executes.
    pub open spec fn default_action(self) -> usize {
        if self.mode == SourceDialogMode::Existing {
            1
        } else {
            0
        }
    }

    /// What a point of the last frame stands for: the scrolled pane first, then
    /// completed paths, controls, sources, discovered sources, and the row that
    /// shows or hides old ones.
    pub open spec fn at(self, column: int, row: int) -> Option<SourceHit> {
        let g = self.geometry;
        if g.scroll is Some && g.scroll->0.covers(column, row) {
            Some(SourceHit::Scroll)
        } else if region_at(g.path_completion_rows@, column, row) is Some {
            Some(SourceHit::PathCompletion(region_at(g.path_completion_rows@, column, row)->0))
        } else if region_at(g.controls@, column, row) is Some {
            Some(SourceHit::Control(region_at(g.controls@, column, row)->0))
        } else if region_at(g.existing_rows@, column, row) is Some {
            Some(SourceHit::Existing(region_at(g.existing_rows@, column, row)->0))
        } else if region_at(g.discovery_rows@, column, row) is Some {
            Some(SourceHit::Discovery(region_at(g.discovery_rows@, column, row)->0))
        } else if g.older_unavailable is Some && g.older_unavailable->0.covers(column, row) {
            Some(SourceHit::OlderUnavailable)
        } else {
            None
        }
    }

    /// A layer that was never opened.
    pub open spec fn initial(self) -> bool {
        &&& self == (SourceModel {
            open: false,
            scroll_focused: false,
            next_path: 1,
            next_ai: 1,
            ready_at: None,
            surface: Surface::nothing(),
            queue: Queue::empty(SOURCE_OUTBOX_CAP as int),
            ..self.reset()
        })
        &&& self.geometry.blank()
    }
}

impl Default for SourceDialog {
    fn default() -> (r: SourceDialog)
        ensures
            r.model().initial(),
    {
        let r = SourceDialog {
            open: false,
            state: SourceDialogState::default(),
            scroll_focused: false,
            manual_cursor: None,
            discovery_cursor: None,
            ai_cursor: None,
            next_path_completion_generation: 1,
            next_ai_generation: 1,
            path_completion_ready_at: None,
            geometry: SourceGeometry::default(),
            surface: Surface::default(),
            outbox: Outbox::new(SOURCE_OUTBOX_CAP),
        };
        proof {
            assert(asks(r.outbox@.items) =~= Seq::<SourceAsk>::empty());
            assert(r.model() =~= (SourceModel {
                open: false,
                scroll_focused: false,
                next_path: 1,
                next_ai: 1,
                ready_at: None,
                surface: Surface::nothing(),
                queue: Queue::empty(SOURCE_OUTBOX_CAP as int),
                ..r.model().reset()
            }));
        }
        r
    }
}

/// Writes the lines of a review.
pub fn review_lines(preview: &Option<SourceAiPreview>, session: &Option<String>) -> (r: Vec<String>)
    ensures
        texts(r@) == review(*preview, some_text(*session)),
{
    let mut lines: Vec<String> = Vec::new();
    assert(texts(lines@) =~= seq![]);
    if let Some(preview) = preview {
        let mut i: usize = 0;
        while i < preview.sources.len()
            invariant
                i <= preview.sources@.len(),
                texts(lines@) == proposals_lines(preview.sources@, i as int),
            decreases preview.sources.len() - i,
        {
            push_proposal(&mut lines, &preview.sources[i], i, preview.sources.len());
            i += 1;
        }
        push_line(&mut lines, "Why: ", preview.explanation.as_str());
    }
    if let Some(session) = session {
        push_line(&mut lines, "Local session: ", session.as_str());
    }
    lines
}

impl SourceDialog {
    pub fn is_open(&self) -> (r: bool)
        ensures
            r == self.model().open,
    {
        self.open
    }

    pub fn state(&self) -> (r: &SourceDialogState)
        ensures
            r.kind == self.model().kind,
            r.draft@ == self.model().draft,
            some_text(r.error) == self.model().error,
            r.mode == self.model().mode,
            r.controls_focused == self.model().controls_focused,
            r.control == self.model().control,
            r.discovery_model() == self.model().discovery,
            r.path_model() == self.model().path,
            r.ai_model() == self.model().ai,
            r.existing_selected == self.model().existing_selected,
            r.existing_scroll == self.model().existing_scroll,
            r.existing_scroll_limit == self.model().existing_scroll_limit,
            r.confirm_remove == self.model().confirm_remove,
            r.return_to_existing == self.model().return_to_existing,
    {
        &self.state
    }

    /// Marks the layer open and changes nothing else.
    pub fn open_for_test(&mut self)
        ensures
            final(self).model() == (SourceModel { open: true, ..old(self).model() }),
    {
        self.open = true;
    }

    /// An empty workspace opens on adding a source before anything is drawn.
    pub fn open_at_startup(&mut self)
        ensures
            final(self).model() == (SourceModel {
                open: true,
                ..old(self).model()
            }).surface_seeded(),
    {
        self.open = true;
        self.seed_surface();
    }

    fn seed_surface(&mut self)
        ensures
            final(self).model() == old(self).model().surface_seeded(),
    {
        let mut surface = Surface::default();
        surface.text_focus = self.text_focus();
        self.surface = surface;
    }

    pub fn open(&mut self, params: SourceOpen, sources: &Vec<SourceItem>)
        ensures
            final(self).model().geometry.blank(),
            final(self).model() == old(self).model().opened(
                params,
                sources@.len() as int,
                final(self).model().geometry,
            ),
    {
        self.open = true;
        let existing = params == SourceOpen::Existing && sources.len() > 0;
        self.state.mode = if existing {
            SourceDialogMode::Existing
        } else {
            SourceDialogMode::Manual
        };
        self.keep_selection(sources.len());
        self.focus_input();
        self.state.confirm_remove = false;
        self.state.return_to_existing = false;
        self.scroll_focused = false;
        self.geometry = SourceGeometry::default();
        self.seed_surface();
    }

    /// The controls of the last frame.
    pub fn control_rects(&self) -> (r: &[(Rect, SourceControl)])
        ensures
            r@ == self.model().geometry.controls@,
    {
        self.geometry.controls.as_slice()
    }

    /// The completed paths of the last frame.
    pub fn path_completion_rects(&self) -> (r: &[(Rect, usize)])
        ensures
            r@ == self.model().geometry.path_completion_rows@,
    {
        self.geometry.path_completion_rows.as_slice()
    }

    /// The discovered sources of the last frame.
    pub fn discovery_rects(&self) -> (r: &[(Rect, usize)])
        ensures
            r@ == self.model().geometry.discovery_rows@,
    {
        self.geometry.discovery_rows.as_slice()
    }

    /// The scrolled pane of the last frame.
    pub fn scroll_rect(&self) -> (r: Option<Rect>)
        ensures
            r == self.model().geometry.scroll,
    {
        self.geometry.scroll
    }

    pub fn surface(&self) -> (r: Surface)
        ensures
            r == self.model().surface,
    {
        self.surface
    }

    pub fn hit(&self, column: u16, row: u16) -> (r: Option<SourceHit>)
        ensures
            r == self.model().at(column as int, row as int),
    {
        let g = &self.geometry;
        if let Some(area) = g.scroll {
            if area.contains(column, row) {
                return Some(SourceHit::Scroll);
            }
        }
        if let Some(index) = find_region(&g.path_completion_rows, column, row) {
            return Some(SourceHit::PathCompletion(index));
        }
        if let Some(control) = find_region(&g.controls, column, row) {
            return Some(SourceHit::Control(control));
        }
        if let Some(index) = find_region(&g.existing_rows, column, row) {
            return Some(SourceHit::Existing(index));
        }
        if let Some(index) = find_region(&g.discovery_rows, column, row) {
            return Some(SourceHit::Discovery(index));
        }
        if let Some(area) = g.older_unavailable {
            if area.contains(column, row) {
                return Some(SourceHit::OlderUnavailable);
            }
        }
        None
    }

    /// The labels of the action row, as the shell resolves mnemonics by them.
    pub fn action_labels(&self) -> (r: Vec<String>)
        ensures
            texts(r@) == self.model().labels(false),
    {
        self.labels(false)
    }

    /// The labels of the action row, as they are drawn.
    pub fn painted_labels(&self) -> (r: Vec<String>)
        ensures
            texts(r@) == self.model().labels(true),
    {
        self.labels(true)
    }

    fn labels(&self, painted: bool) -> (r: Vec<String>)
        ensures
            texts(r@) == self.model().labels(painted),
    {
        let mut labels: Vec<String> = Vec::new();
        match self.state.mode {
            SourceDialogMode::Existing => {
                labels.push("&Add source".to_owned());
                labels.push("&Restart".to_owned());
                labels.push("Re&move".to_owned());
            },
            SourceDialogMode::Manual => {
                labels.push("&Open".to_owned());
            },
            SourceDialogMode::Discovery => {
                labels.push("&Open".to_owned());
                labels.push("&Rescan".to_owned());
            },
            SourceDialogMode::Ai => match self.state.ai.stage {
                SourceAiStage::Input | SourceAiStage::Error => {
                    labels.push("Request &proposal".to_owned());
                },
                SourceAiStage::Proposal => {
                    let count: usize = match &self.state.ai.preview {
                        Some(preview) => preview.sources.len(),
                        None => 0,
                    };
                    if painted && count > 1 {
                        let mut label = "Start ".to_owned();
                        label.append(decimal_text(count as u64).as_str());
                        label.append(" &reviewed sources");
                        labels.push(label);
                    } else {
                        labels.push("Start &reviewed source".to_owned());
                    }
                },
                _ => {
                    labels.push("Wor&king\u{2026}".to_owned());
                },
            },
        }
        assert(texts(labels@) =~= self.model().labels(painted));
        labels
    }

    /// The role of a button: the default of the mode, and removing is
    /// destructive.
    pub fn action_role(&self, index: usize) -> (r: ButtonRole)
        ensures
            r == role_at(
                if self.model().mode == SourceDialogMode::Existing {
                    seq![2usize]
                } else {
                    seq![]
                },
                Some(self.model().default_action()),
                index,
            ),
    {
        let existing = self.state.mode == SourceDialogMode::Existing;
        let default: usize = if existing {
            1
        } else {
            0
        };
        if existing && index == 2 {
            assert(seq![2usize][0] == index);
            ButtonRole::Destructive
        } else if index == default {
            ButtonRole::Default
        } else {
            ButtonRole::Normal
        }
    }

    /// The message row of a frame.
    pub fn message(&self) -> (r: (MessageState, String))
        ensures
            (r.0, r.1@) == self.model().message(),
    {
        if let Some(error) = &self.state.error {
            return (MessageState::Error, self.promise(error.as_str()));
        }
        match self.state.mode {
            SourceDialogMode::Existing => if self.state.confirm_remove {
                (
                    MessageState::Updating,
                    "press Remove or Delete again to confirm; captured data stays on disk".to_owned(),
                )
            } else {
                (
                    MessageState::Ready,
                    "select a source to inspect its complete status, restart it, or remove it".to_owned(),
                )
            },
            SourceDialogMode::Ai => (
                match self.state.ai.stage {
                    SourceAiStage::Error => MessageState::Error,
                    SourceAiStage::Input | SourceAiStage::Proposal => MessageState::Ready,
                    _ => MessageState::Updating,
                },
                self.promise(self.state.ai.progress.as_str()),
            ),
            SourceDialogMode::Discovery => if self.state.discovery.scanning {
                let mut sentence =
                    "selecting a candidate never starts capture \u{b7} scanning, ".to_owned();
                sentence.append(decimal_text(self.state.discovery.items.len() as u64).as_str());
                sentence.append(" so far");
                (MessageState::Updating, sentence)
            } else {
                (MessageState::Ready, "selecting a candidate never starts capture".to_owned())
            },
            SourceDialogMode::Manual => (
                MessageState::Ready,
                "capture starts only when you open the source".to_owned(),
            ),
        }
    }

    fn promise(&self, sentence: &str) -> (r: String)
        ensures
            r@ == self.model().promised(sentence@),
    {
        let mut out = sentence.to_owned();
        if self.state.mode == SourceDialogMode::Ai && !contains_text(sentence, "never executes") {
            out.append(" \u{b7} the preview never executes");
        }
        out
    }

    /// The lines of the review that a frame shows.
    pub fn review(&self) -> (r: Vec<String>)
        ensures
            texts(r@) == review(self.model().ai.preview, self.model().ai.session_id),
    {
        review_lines(&self.state.ai.preview, &self.state.ai.session_id)
    }
}

/// While a proposal is made, reviewed or started, the message row promises that
/// the preview never executes.
pub proof fn review_promise_is_kept(model: SourceModel)
    requires
        model.mode == SourceDialogMode::Ai,
    ensures
        holds(model.message().1, "never executes"@),
{
    let sentence = if model.error is Some {
        model.error->0
    } else {
        model.ai.progress
    };
    if !holds(sentence, "never executes"@) {
        reveal_strlit("never executes");
        reveal_strlit(" \u{b7} the preview never executes");
        let tail = " \u{b7} the preview never executes"@;
        let whole = sentence + tail;
        let at = sentence.len() as int + 15;
        assert(whole.subrange(at, at + 14) =~= "never executes"@);
    }
}

/// A row gap where the frame is roomy.
pub open spec fn gap_of(roomy: bool) -> int {
    if roomy {
        1
    } else {
        0
    }
}

/// The list of sources and, below it, up to five rows of details that leave the
/// list two.
pub open spec fn existing_areas(body: Rect) -> (Rect, Rect) {
    let details = least(5, minus(body.height as int, 2));
    let list = Rect::spec_new(body.x, body.y, body.width, (body.height - details) as u16);
    (
        list,
        Rect::spec_new(
            body.x,
            list.spec_bottom() as u16,
            body.width,
            minus(body.spec_bottom(), list.spec_bottom()) as u16,
        ),
    )
}

/// Divides the body between the list of sources and the details of one.
pub fn split_existing(body: Rect) -> (r: (Rect, Rect))
    ensures
        r == existing_areas(body),
{
    let details: u16 = min16(5, body.height.saturating_sub(2));
    let list = Rect::new(body.x, body.y, body.width, body.height - details);
    (
        list,
        Rect::new(
            body.x,
            list.bottom(),
            body.width,
            body.bottom().saturating_sub(list.bottom()),
        ),
    )
}

/// A count beside a heading: the number, or that there is none.
pub fn count_text(total: usize) -> (r: String)
    ensures
        r@ == if total == 0 {
            "none"@
        } else {
            decimal(total as nat)
        },
{
    if total == 0 {
        "none".to_owned()
    } else {
        decimal_text(total as u64)
    }
}

/// A row of a list: a mark, a name, and what is said of it.
pub open spec fn named_row(chosen: bool, ascii: bool, name: Seq<char>, status: Seq<char>) -> Seq<
    char,
> {
    row_marker(chosen, ascii) + name + "  "@ + status
}

fn marker_text(chosen: bool, ascii: bool) -> (r: String)
    ensures
        r@ == row_marker(chosen, ascii),
{
    if !chosen {
        "  ".to_owned()
    } else if ascii {
        "> ".to_owned()
    } else {
        "\u{203a} ".to_owned()
    }
}

/// Writes the row of a source or of a discovered item.
pub fn named_row_text(chosen: bool, ascii: bool, name: &str, status: &str) -> (r: String)
    ensures
        r@ == named_row(chosen, ascii, name@, status@),
{
    let mut text = marker_text(chosen, ascii);
    text.append(name);
    text.append("  ");
    text.append(status);
    text
}

/// Writes the row of a completed path.
pub fn candidate_row_text(chosen: bool, ascii: bool, path: &str) -> (r: String)
    ensures
        r@ == row_marker(chosen, ascii) + path@,
{
    let mut text = marker_text(chosen, ascii);
    text.append(path);
    text
}

/// What is shown of a source in full.
pub open spec fn source_status(sources: Seq<SourceItem>, selected: int) -> Seq<Seq<char>> {
    if 0 <= selected < sources.len() {
        let source = sources[selected];
        seq!["Name: "@ + source.name@, "Source ID: "@ + source.id@, "Status: "@ + source.health@]
    } else {
        seq!["No source selected"@ + ""@]
    }
}

/// Writes what is shown of a source in full.
pub fn status_lines(sources: &Vec<SourceItem>, selected: usize) -> (r: Vec<String>)
    ensures
        texts(r@) == source_status(sources@, selected as int),
{
    let mut lines: Vec<String> = Vec::new();
    assert(texts(lines@) =~= seq![]);
    if selected < sources.len() {
        let source = &sources[selected];
        push_line(&mut lines, "Name: ", source.name.as_str());
        push_line(&mut lines, "Source ID: ", source.id.as_str());
        push_line(&mut lines, "Status: ", source.health.as_str());
    } else {
        push_line(&mut lines, "No source selected", "");
    }
    assert(texts(lines@) =~= source_status(sources@, selected as int));
    lines
}

/// Where a manual source is typed: the label of its kind, the kinds to choose
/// from, the field where there is a row for it, and what is left for
/// completions.
#[derive(Clone, Copy, Debug, PartialEq, Eq, Structural)]
pub struct ManualAreas {
    pub label: Rect,
    pub kinds: Rect,
    pub field: Option<Rect>,
    pub rest: Rect,
}

/// The columns of the longest label of a manual source.
pub const MANUAL_LABEL_WIDTH: u16 = 7;

/// Divides the body of a manual source.
pub fn split_manual(body: Rect, roomy: bool) -> (r: ManualAreas)
    ensures
        r.label == Rect::spec_new(
            body.x,
            body.y,
            least(MANUAL_LABEL_WIDTH as int, body.width as int) as u16,
            1,
        ),
        r.kinds == {
            let x = sat16(sat16(body.x + MANUAL_LABEL_WIDTH) + FIELD_GUTTER);
            Rect::spec_new(x as u16, body.y, minus(body.spec_right(), x) as u16, 1)
        },
        r.field == if body.height > 1 {
            Some(Rect::spec_new(body.x, sat16(body.y + 1) as u16, body.width, 1))
        } else {
            None
        },
        r.rest == Rect::spec_new(
            body.x,
            sat16(sat16(body.y + 2) + gap_of(roomy)) as u16,
            body.width,
            minus(minus(body.height as int, 2), gap_of(roomy)) as u16,
        ),
{
    let gap: u16 = if roomy {
        1
    } else {
        0
    };
    let x: u16 = body.x.saturating_add(MANUAL_LABEL_WIDTH).saturating_add(FIELD_GUTTER);
    ManualAreas {
        label: Rect::new(body.x, body.y, min16(MANUAL_LABEL_WIDTH, body.width), 1),
        kinds: Rect::new(x, body.y, body.right().saturating_sub(x), 1),
        field: if body.height > 1 {
            Some(Rect::new(body.x, body.y.saturating_add(1), body.width, 1))
        } else {
            None
        },
        rest: Rect::new(
            body.x,
            body.y.saturating_add(2).saturating_add(gap),
            body.width,
            body.height.saturating_sub(2).saturating_sub(gap),
        ),
    }
}

/// What stands below the field of a manual source.
#[derive(Clone, Copy, Debug, PartialEq, Eq, Structural)]
pub enum ManualRest {
    Nothing,
    /// A path scan runs.
    Completing,
    /// There are no completions, because nothing was typed or nothing matches.
    NoSuggestions { typed: bool },
    /// The completed paths.
    Suggestions(usize),
    /// A command has no completions.
    CommandNote,
}

impl SourceModel {
    pub open spec fn manual_rest(self, height: int) -> ManualRest {
        let count = if self.kind == SourceKind::File {
            self.path.candidates.len() as int
        } else {
            0
        };
        if height <= 0 {
            ManualRest::Nothing
        } else if self.path.scanning {
            ManualRest::Completing
        } else if count == 0 && self.kind == SourceKind::File {
            ManualRest::NoSuggestions { typed: self.draft.len() > 0 }
        } else if count > 0 {
            ManualRest::Suggestions(count as usize)
        } else {
            ManualRest::CommandNote
        }
    }

    /// A scan that ended without any item has only its report to show.
    pub open spec fn shows_report(self) -> bool {
        !self.discovery.scanning && self.discovery.items.len() == 0
    }
}

/// Writes how many completed paths there are.
pub fn match_count(count: usize) -> (r: String)
    ensures
        r@ == decimal(count as nat) + " match"@ + if count == 1 {
            ""@
        } else {
            "es"@
        },
{
    let mut text = decimal_text(count as u64);
    text.append(" match");
    text.append(
        if count == 1 {
            ""
        } else {
            "es"
        },
    );
    text
}

/// Where discovered sources are shown: the query, the list, the details of one
/// below it, and the report of a scan that found none.
#[derive(Clone, Copy, Debug, PartialEq, Eq, Structural)]
pub struct DiscoveryAreas {
    pub filter: Rect,
    pub list: Rect,
    pub details: Rect,
    pub report: Rect,
}

/// Divides the body of discovered sources.
pub fn split_discovery(body: Rect, roomy: bool) -> (r: DiscoveryAreas)
    ensures
        ({
            let gap = gap_of(roomy);
            let room = minus(minus(body.height as int, 1), gap);
            let y = sat16(sat16(body.y + 1) + gap);
            &&& r.filter == Rect::spec_new(body.x, body.y, body.width, 1)
            &&& r.list == Rect::spec_new(
                body.x,
                y as u16,
                body.width,
                (room - least(3, room)) as u16,
            )
            &&& r.details == Rect::spec_new(
                body.x,
                r.list.spec_bottom() as u16,
                body.width,
                minus(body.spec_bottom(), r.list.spec_bottom()) as u16,
            )
            &&& r.report == Rect::spec_new(
                body.x,
                y as u16,
                body.width,
                minus(body.spec_bottom(), y) as u16,
            )
        }),
{
    let gap: u16 = if roomy {
        1
    } else {
        0
    };
    let room: u16 = body.height.saturating_sub(1).saturating_sub(gap);
    let y: u16 = body.y.saturating_add(1).saturating_add(gap);
    let list = Rect::new(body.x, y, body.width, room - min16(3, room));
    DiscoveryAreas {
        filter: Rect::new(body.x, body.y, body.width, 1),
        list,
        details: Rect::new(
            body.x,
            list.bottom(),
            body.width,
            body.bottom().saturating_sub(list.bottom()),
        ),
        report: Rect::new(body.x, y, body.width, body.bottom().saturating_sub(y)),
    }
}

/// Where the lines of a proposal are shown, below its description.
pub fn preview_area(body: Rect, roomy: bool) -> (r: Rect)
    ensures
        r == Rect::spec_new(
            body.x,
            sat16(sat16(body.y + 1) + gap_of(roomy)) as u16,
            body.width,
            minus(minus(body.height as int, 1), gap_of(roomy)) as u16,
        ),
{
    let gap: u16 = if roomy {
        1
    } else {
        0
    };
    Rect::new(
        body.x,
        body.y.saturating_add(1).saturating_add(gap),
        body.width,
        body.height.saturating_sub(1).saturating_sub(gap),
    )
}

/// The place of the row that shows a selected item.
pub open spec fn selection_row(rows: Seq<DiscoveryDisplayRow>, selected: usize, from: int) -> Option<int>
    decreases rows.len() - from,
{
    if from < 0 || from >= rows.len() {
        None
    } else if rows[from] is Candidate && rows[from]->selection == selected {
        Some(from)
    } else {
        selection_row(rows, selected, from + 1)
    }
}

/// Finds the row that shows a selected item.
pub fn find_selection(rows: &Vec<DiscoveryDisplayRow>, selected: usize) -> (r: Option<usize>)
    ensures
        match r {
            Some(place) => selection_row(rows@, selected, 0) == Some(place as int),
            None => selection_row(rows@, selected, 0) is None,
        },
{
    let mut i: usize = 0;
    while i < rows.len()
        invariant
            i <= rows@.len(),
            selection_row(rows@, selected, 0) == selection_row(rows@, selected, i as int),
        decreases rows.len() - i,
    {
        if let DiscoveryDisplayRow::Candidate { item: _, selection } = rows[i] {
            if selection == selected {
                return Some(i);
            }
        }
        i += 1;
    }
    None
}

/// Where the first `n` rows of a list window show discovered items, each with
/// its selection.
pub open spec fn candidate_regions(
    rows: Seq<DiscoveryDisplayRow>,
    first: int,
    rects: Seq<Rect>,
    n: int,
) -> Seq<(Rect, usize)>
    decreases n,
{
    if n <= 0 {
        seq![]
    } else {
        let before = candidate_regions(rows, first, rects, n - 1);
        let place = first + n - 1;
        if place < rows.len() && rows[place] is Candidate {
            before.push((rects[n - 1], rows[place]->selection))
        } else {
            before
        }
    }
}

/// Where the first `n` rows of a list window show the row for old items.
pub open spec fn older_region(
    rows: Seq<DiscoveryDisplayRow>,
    first: int,
    rects: Seq<Rect>,
    n: int,
) -> Option<Rect>
    decreases n,
{
    if n <= 0 {
        None
    } else {
        let place = first + n - 1;
        if place < rows.len() && rows[place] is OlderUnavailable {
            Some(rects[n - 1])
        } else {
            older_region(rows, first, rects, n - 1)
        }
    }
}

/// Finds what can be clicked in a window of the discovered list.
pub fn discovery_regions(rows: &Vec<DiscoveryDisplayRow>, first: usize, rects: &Vec<Rect>) -> (r: (
    Vec<(Rect, usize)>,
    Option<Rect>,
))
    ensures
        r.0@ == candidate_regions(rows@, first as int, rects@, rects@.len() as int),
        r.1 == older_region(rows@, first as int, rects@, rects@.len() as int),
{
    let mut shown: Vec<(Rect, usize)> = Vec::new();
    let mut older: Option<Rect> = None;
    let mut n: usize = 0;
    while n < rects.len()
        invariant
            n <= rects@.len(),
            shown@ == candidate_regions(rows@, first as int, rects@, n as int),
            older == older_region(rows@, first as int, rects@, n as int),
        decreases rects.len() - n,
    {
        if first < rows.len() && n < rows.len() - first {
            match rows[first + n] {
                DiscoveryDisplayRow::Candidate { item: _, selection } => {
                    shown.push((rects[n], selection));
                },
                DiscoveryDisplayRow::OlderUnavailable(_) => {
                    older = Some(rects[n]);
                },
                DiscoveryDisplayRow::Heading(_) => {},
            }
        }
        n += 1;
    }
    (shown, older)
}

/// Writes the count beside the discovered list: the items in its window against
/// all that are shown.
pub fn discovery_count(shown: usize, total: usize) -> (r: String)
    ensures
        r@ == if total == 0 {
            "none"@
        } else {
            decimal(shown as nat) + " of "@ + decimal(total as nat)
        },
{
    if total == 0 {
        return "none".to_owned();
    }
    let mut text = decimal_text(shown as u64);
    text.append(" of ");
    text.append(decimal_text(total as u64).as_str());
    text
}

/// Writes the row that shows or hides old items.
pub fn older_label(hidden: usize) -> (r: String)
    ensures
        r@ == if hidden == 0 {
            "Hide older unavailable sources \u{b7} Alt-U"@
        } else {
            "Show "@ + decimal(hidden as nat) + " older unavailable sources \u{b7} Alt-U"@
        },
{
    if hidden == 0 {
        return "Hide older unavailable sources \u{b7} Alt-U".to_owned();
    }
    let mut text = "Show ".to_owned();
    text.append(decimal_text(hidden as u64).as_str());
    text.append(" older unavailable sources \u{b7} Alt-U");
    text
}

/// Writes the details of the selected item, or that there is none.
pub fn discovery_detail(item: Option<&DiscoveryItem>) -> (r: String)
    ensures
        r@ == match item {
            Some(item) => item.label@ + " \u{b7} "@ + item.detail@,
            None => "No candidate selected"@,
        },
{
    match item {
        Some(item) => {
            let mut text = item.label.clone();
            text.append(" \u{b7} ");
            text.append(item.detail.as_str());
            text
        },
        None => "No candidate selected".to_owned(),
    }
}

/// A pane of wrapped lines: how far it scrolls and where it stands.
#[derive(Clone, Copy, Debug, PartialEq, Eq, Structural)]
pub struct PaneScroll {
    pub limit: usize,
    pub scroll: usize,
}

/// Settles the scroll of a pane whose window shows `rows` of `total` lines from
/// `first` on.
pub fn settle_scroll(total: usize, rows: usize, first: usize) -> (r: PaneScroll)
    ensures
        r.limit == minus(total as int, rows as int),
        r.scroll == least(first as int, r.limit as int),
{
    let limit: usize = total.saturating_sub(rows);
    PaneScroll {
        limit,
        scroll: if first <= limit {
            first
        } else {
            limit
        },
    }
}

/// Writes which lines of a proposal are shown, where not all are.
pub fn preview_counter(scroll: PaneScroll, visible: usize, total: usize) -> (r: Option<String>)
    ensures
        r is Some <==> scroll.limit > 0,
        r matches Some(text) ==> text@ == "lines "@ + decimal(
            least(scroll.scroll + 1, usize::MAX as int) as nat,
        ) + "\u{2013}"@ + decimal(least(scroll.scroll + visible, total as int) as nat) + " of "@
            + decimal(total as nat),
{
    if scroll.limit == 0 {
        return None;
    }
    let end: usize = scroll.scroll.saturating_add(visible);
    let mut text = "lines ".to_owned();
    text.append(decimal_text(scroll.scroll.saturating_add(1) as u64).as_str());
    text.append("\u{2013}");
    text.append(
        decimal_text(
            (if end <= total {
                end
            } else {
                total
            }) as u64,
        ).as_str(),
    );
    text.append(" of ");
    text.append(decimal_text(total as u64).as_str());
    Some(text)
}

/// The columns of a pane's lines and the rows it has for them.
pub fn pane_room(area: Rect) -> (r: (u16, u16))
    ensures
        r.0 == greatest(area.width - least(PANE_INDENT as int, area.width as int), 1),
        r.1 == area.height - if area.height > 1 {
            1int
        } else {
            0
        },
{
    let indent: u16 = min16(PANE_INDENT, area.width);
    (
        max16(area.width - indent, 1),
        if area.height > 1 {
            area.height - 1
        } else {
            area.height
        },
    )
}

/// Whether the lines of a pane have to be wrapped one column narrower, because
/// a scroll bar takes the last one.
pub fn pane_needs_bar(area: Rect, wrapped: usize) -> (r: bool)
    ensures
        r == ({
            let width = greatest(area.width - least(PANE_INDENT as int, area.width as int), 1);
            let rows = area.height - if area.height > 1 {
                1int
            } else {
                0
            };
            wrapped > rows && width > 1
        }),
{
    let (width, rows) = pane_room(area);
    wrapped > rows as usize && width > 1
}

/// The lines of a pane: each logical line by its wrapped rows, and a blank one
/// by a blank row.
pub open spec fn pane_lines(logical: Seq<Seq<char>>, wrapped: Seq<Seq<Seq<char>>>, n: int) -> Seq<
    Seq<char>,
>
    decreases n,
{
    if n <= 0 {
        seq![]
    } else {
        pane_lines(logical, wrapped, n - 1) + if trimmed(logical[n - 1]).len() == 0 {
            seq![Seq::<char>::empty()]
        } else {
            wrapped[n - 1]
        }
    }
}

fn push_copies(lines: &mut Vec<String>, list: &Vec<String>)
    ensures
        texts(final(lines)@) == texts(old(lines)@) + texts(list@),
{
    let ghost before = texts(lines@);
    let mut i: usize = 0;
    while i < list.len()
        invariant
            i <= list@.len(),
            texts(lines@) =~= before + texts(list@).take(i as int),
        decreases list.len() - i,
    {
        let ghost then_lines = lines@;
        lines.push(list[i].clone());
        assert(texts(lines@) =~= texts(then_lines).push(list@[i as int]@));
        i += 1;
    }
    assert(texts(list@).take(i as int) =~= texts(list@));
}

/// Puts the wrapped rows of logical lines together, as far as they were wrapped.
pub fn assemble_pane(logical: &Vec<String>, wrapped: &Vec<Vec<String>>) -> (r: Vec<String>)
    ensures
        texts(r@) == pane_lines(
            texts(logical@),
            text_lists(wrapped@),
            least(logical@.len() as int, wrapped@.len() as int),
        ),
{
    let mut lines: Vec<String> = Vec::new();
    let mut n: usize = 0;
    assert(texts(lines@) =~= seq![]);
    while n < logical.len() && n < wrapped.len()
        invariant
            n <= logical@.len(),
            n <= wrapped@.len(),
            texts(lines@) == pane_lines(texts(logical@), text_lists(wrapped@), n as int),
        decreases logical.len() - n,
    {
        if trim(logical[n].as_str()).as_str().is_empty() {
            let ghost before = lines@;
            lines.push(String::new());
            assert(texts(lines@) =~= texts(before) + seq![Seq::<char>::empty()]);
        } else {
            push_copies(&mut lines, &wrapped[n]);
        }
        n += 1;
    }
    lines
}

impl SourceModel {
    /// A frame is remembered.
    pub open spec fn recorded(
        self,
        geometry: SourceGeometry,
        caret: Option<(u16, u16)>,
        surface: Surface,
    ) -> SourceModel {
        SourceModel { geometry, surface: Surface { caret, ..surface }, ..self }
    }

    /// The details of a source were scrolled as far as they go.
    pub open spec fn existing_settled(self, pane: PaneScroll, selected: int) -> SourceModel {
        SourceModel {
            existing_scroll_limit: pane.limit as int,
            existing_scroll: pane.scroll as int,
            existing_selected: selected,
            ..self
        }
    }

    pub open spec fn status_settled(self, pane: PaneScroll) -> SourceModel {
        SourceModel {
            discovery: DiscoveryModel {
                status_scroll_limit: pane.limit as int,
                status_scroll: pane.scroll as int,
                ..self.discovery
            },
            ..self
        }
    }

    pub open spec fn preview_settled(self, pane: PaneScroll) -> SourceModel {
        SourceModel {
            ai: AiModel {
                preview_scroll_limit: pane.limit as int,
                preview_scroll: pane.scroll as int,
                ..self.ai
            },
            ..self
        }
    }
}

impl SourceDialog {
    /// What stands below the field of a manual source.
    pub fn manual_rest(&self, height: u16) -> (r: ManualRest)
        ensures
            r == self.model().manual_rest(height as int),
    {
        let count: usize = if self.state.kind == SourceKind::File {
            self.state.path_completion.candidates.len()
        } else {
            0
        };
        if height == 0 {
            ManualRest::Nothing
        } else if self.state.path_completion.scanning {
            ManualRest::Completing
        } else if count == 0 && self.state.kind == SourceKind::File {
            ManualRest::NoSuggestions { typed: !self.state.draft.as_str().is_empty() }
        } else if count > 0 {
            ManualRest::Suggestions(count)
        } else {
            ManualRest::CommandNote
        }
    }

    /// Whether a scan that ended without any item has only its report to show.
    pub fn shows_report(&self) -> (r: bool)
        ensures
            r == self.model().shows_report(),
    {
        !self.state.discovery.scanning && self.state.discovery.items.len() == 0
    }

    /// Remembers a frame.
    pub fn record(
        &mut self,
        geometry: SourceGeometry,
        caret: Option<(u16, u16)>,
        surface: Surface,
    ) -> (r: Surface)
        ensures
            final(self).model() == old(self).model().recorded(geometry, caret, surface),
            r == (Surface { caret, ..surface }),
    {
        self.geometry = geometry;
        self.surface = Surface { caret, ..surface };
        self.surface
    }

    /// Remembers how far the details of a source scroll.
    pub fn settle_existing(&mut self, pane: PaneScroll, selected: usize)
        ensures
            final(self).model() == old(self).model().existing_settled(pane, selected as int),
    {
        self.state.existing_scroll_limit = pane.limit;
        self.state.existing_scroll = pane.scroll;
        self.state.existing_selected = selected;
    }

    /// Remembers how far the status of a scan scrolls.
    pub fn settle_status(&mut self, pane: PaneScroll)
        ensures
            final(self).model() == old(self).model().status_settled(pane),
    {
        self.state.discovery.status_scroll_limit = pane.limit;
        self.state.discovery.status_scroll = pane.scroll;
    }

    /// Remembers how far the lines of a proposal scroll.
    pub fn settle_preview(&mut self, pane: PaneScroll)
        ensures
            final(self).model() == old(self).model().preview_settled(pane),
    {
        self.state.ai.preview_scroll_limit = pane.limit;
        self.state.ai.preview_scroll = pane.scroll;
    }

    /// The controls that the buttons of the action row stand for.
    pub fn action_control(&self, index: usize) -> (r: Option<SourceControl>)
        ensures
            r == self.model().action_control(index as int),
    {
        match self.state.mode {
            SourceDialogMode::Existing => match index {
                0 => Some(SourceControl::Add),
                1 => Some(SourceControl::Restart),
                2 => Some(SourceControl::Remove),
                _ => None,
            },
            SourceDialogMode::Discovery => match index {
                0 => Some(SourceControl::Input),
                1 => Some(SourceControl::Refresh),
                _ => None,
            },
            SourceDialogMode::Manual | SourceDialogMode::Ai => if index == 0 {
                Some(SourceControl::Input)
            } else {
                None
            },
        }
    }

    /// The control regions of a frame: the mode selector's, the kinds', and the
    /// buttons', each where it was drawn.
    pub fn control_regions(
        &self,
        modes: &Vec<Rect>,
        kinds: &Vec<Rect>,
        buttons: &Vec<(usize, Rect)>,
    ) -> (r: Vec<(Rect, SourceControl)>)
        ensures
            r@ == selector_regions(modes@) + kind_regions(kinds@) + button_regions(
                self.model(),
                buttons@,
                buttons@.len() as int,
            ),
    {
        let mut out: Vec<(Rect, SourceControl)> = Vec::new();
        let mut i: usize = 0;
        while i < modes.len() && i < 3
            invariant
                i <= modes@.len(),
                i <= 3,
                out@ =~= selector_regions(modes@).take(i as int),
            decreases modes.len() - i,
        {
            let control = if i == 0 {
                SourceControl::Manual
            } else if i == 1 {
                SourceControl::Discovery
            } else {
                SourceControl::Agent
            };
            out.push((modes[i], control));
            i += 1;
        }
        assert(out@ =~= selector_regions(modes@));
        let mut k: usize = 0;
        while k < kinds.len() && k < 2
            invariant
                k <= kinds@.len(),
                k <= 2,
                out@ =~= selector_regions(modes@) + kind_regions(kinds@).take(k as int),
            decreases kinds.len() - k,
        {
            let control = if k == 0 {
                SourceControl::File
            } else {
                SourceControl::Command
            };
            out.push((kinds[k], control));
            k += 1;
        }
        assert(out@ =~= selector_regions(modes@) + kind_regions(kinds@));
        let ghost fixed = out@;
        let mut n: usize = 0;
        while n < buttons.len()
            invariant
                n <= buttons@.len(),
                out@ =~= fixed + button_regions(self.model(), buttons@, n as int),
            decreases buttons.len() - n,
        {
            if let Some(control) = self.action_control(buttons[n].0) {
                out.push((buttons[n].1, control));
            }
            n += 1;
        }
        out
    }
}

/// The regions of the mode selector.
pub open spec fn selector_regions(modes: Seq<Rect>) -> Seq<(Rect, SourceControl)> {
    Seq::new(
        least(modes.len() as int, 3) as nat,
        |i: int|
            (
                modes[i],
                if i == 0 {
                    SourceControl::Manual
                } else if i == 1 {
                    SourceControl::Discovery
                } else {
                    SourceControl::Agent
                },
            ),
    )
}

/// The regions of the kinds of a manual source.
pub open spec fn kind_regions(kinds: Seq<Rect>) -> Seq<(Rect, SourceControl)> {
    Seq::new(
        least(kinds.len() as int, 2) as nat,
        |i: int|
            (
                kinds[i],
                if i == 0 {
                    SourceControl::File
                } else {
                    SourceControl::Command
                },
            ),
    )
}

/// The regions of the first `n` buttons.
pub open spec fn button_regions(model: SourceModel, buttons: Seq<(usize, Rect)>, n: int) -> Seq<
    (Rect, SourceControl),
>
    decreases n,
{
    if n <= 0 {
        seq![]
    } else {
        let before = button_regions(model, buttons, n - 1);
        match model.action_control(buttons[n - 1].0 as int) {
            Some(control) => before.push((buttons[n - 1].1, control)),
            None => before,
        }
    }
}

/// The shortcut of a command while the layer is open.
pub open spec fn shortcut_of(id: CommandId) -> Option<Seq<char>> {
    match id {
        CommandId::DiscoverSources => Some("Ctrl-D"@),
        CommandId::SourceFileMode => Some("Alt-F"@),
        CommandId::SourceCommandMode => Some("Alt-C"@),
        _ => None,
    }
}

fn source_command_shortcut(id: CommandId) -> (r: Option<&'static str>)
    ensures
        some_str(r) == shortcut_of(id),
{
    match id {
        CommandId::DiscoverSources => Some("Ctrl-D"),
        CommandId::SourceFileMode => Some("Alt-F"),
        CommandId::SourceCommandMode => Some("Alt-C"),
        _ => None,
    }
}

/// The words of a palette entry: its name, what it does, and what else it is
/// found by.
pub open spec fn command_words(id: CommandId) -> (Seq<char>, Seq<char>, Seq<Seq<char>>) {
    match id {
        CommandId::DiscoverSources => (
            "Discover recent sources"@,
            "Choose a remembered or discovered source"@,
            seq!["recent"@, "docker"@, "journal"@],
        ),
        CommandId::AskAiSource => (
            "Describe source with agent"@,
            "Draft a source definition for review"@,
            seq!["source ai"@, "generate source"@],
        ),
        CommandId::SourceFileMode => (
            "Use file source"@,
            "Select file input in the source dialog"@,
            seq!["path"@, "tail file"@],
        ),
        _ => (
            "Use command source"@,
            "Select command input in the source dialog"@,
            seq!["process"@, "argv"@, "shell"@],
        ),
    }
}

/// A palette entry of the layer: usable while the layer is open, and only so
/// with its shortcut.
pub open spec fn is_source_entry(entry: CommandEntry, id: CommandId, open: bool) -> bool {
    let (name, description, aliases) = command_words(id);
    &&& entry.spec.id == id
    &&& entry.spec.name@ == name
    &&& entry.spec.description@ == description
    &&& entry.spec.category@ == "Sources"@
    &&& strs(entry.spec.aliases@) == aliases
    &&& some_str(entry.spec.shortcut) == if open {
        shortcut_of(id)
    } else {
        None
    }
    &&& some_str(entry.unavailable_reason) == if open {
        None
    } else {
        Some("open the dialog first"@)
    }
}

fn source_entry(
    id: CommandId,
    name: &'static str,
    description: &'static str,
    aliases: Vec<&'static str>,
    open: bool,
) -> (r: CommandEntry)
    requires
        command_words(id) == (name@, description@, strs(aliases@)),
    ensures
        is_source_entry(r, id, open),
{
    CommandEntry {
        spec: CommandSpec {
            id,
            name,
            description,
            category: "Sources",
            aliases,
            shortcut: if open {
                source_command_shortcut(id)
            } else {
                None
            },
        },
        unavailable_reason: if open {
            None
        } else {
            Some("open the dialog first")
        },
    }
}

impl SourceDialog {
    /// The palette entries of the layer.
    pub fn commands(&self) -> (r: Vec<CommandEntry>)
        ensures
            r@.len() == 4,
            is_source_entry(r@[0], CommandId::DiscoverSources, self.model().open),
            is_source_entry(r@[1], CommandId::AskAiSource, self.model().open),
            is_source_entry(r@[2], CommandId::SourceFileMode, self.model().open),
            is_source_entry(r@[3], CommandId::SourceCommandMode, self.model().open),
    {
        let mut entries: Vec<CommandEntry> = Vec::new();
        let discover: Vec<&'static str> = vec!["recent", "docker", "journal"];
        assert(strs(discover@) =~= seq!["recent"@, "docker"@, "journal"@]);
        entries.push(
            source_entry(
                CommandId::DiscoverSources,
                "Discover recent sources",
                "Choose a remembered or discovered source",
                discover,
                self.open,
            ),
        );
        let describe: Vec<&'static str> = vec!["source ai", "generate source"];
        assert(strs(describe@) =~= seq!["source ai"@, "generate source"@]);
        entries.push(
            source_entry(
                CommandId::AskAiSource,
                "Describe source with agent",
                "Draft a source definition for review",
                describe,
                self.open,
            ),
        );
        let file: Vec<&'static str> = vec!["path", "tail file"];
        assert(strs(file@) =~= seq!["path"@, "tail file"@]);
        entries.push(
            source_entry(
                CommandId::SourceFileMode,
                "Use file source",
                "Select file input in the source dialog",
                file,
                self.open,
            ),
        );
        let command: Vec<&'static str> = vec!["process", "argv", "shell"];
        assert(strs(command@) =~= seq!["process"@, "argv"@, "shell"@]);
        entries.push(
            source_entry(
                CommandId::SourceCommandMode,
                "Use command source",
                "Select command input in the source dialog",
                command,
                self.open,
            ),
        );
        entries
    }
}

/// The rows set aside for each part: the same whatever the dialog shows.
pub fn source_spec_for(policy_width: u16) -> (r: DialogSpec)
    ensures
        r == (DialogSpec {
            header: 1,
            body: 3,
            message: 2,
            help: 0,
            actions: action_rows(policy_width, seq!["Start reviewed source", "Rescan"]) as u16,
        }),
{
    let labels: Vec<&'static str> = vec!["Start reviewed source", "Rescan"];
    assert(labels@ =~= seq!["Start reviewed source", "Rescan"]);
    DialogSpec {
        header: 1,
        body: 3,
        message: 2,
        help: 0,
        actions: budget_actions(policy_width, labels.as_slice()),
    }
}

/// The candidates among the first `n` rows that show.
pub open spec fn candidates_shown(rows: Seq<DiscoveryDisplayRow>, first: int, n: int) -> int
    decreases n,
{
    if n <= 0 {
        0
    } else {
        candidates_shown(rows, first, n - 1) + if first + n - 1 < rows.len() && rows[first + n
            - 1] is Candidate {
            1int
        } else {
            0
        }
    }
}

/// Counts the candidates among the rows that show.
pub fn shown_candidates(rows: &Vec<DiscoveryDisplayRow>, first: usize, visible: usize) -> (r: usize)
    ensures
        r == candidates_shown(rows@, first as int, visible as int),
{
    let mut count: usize = 0;
    let mut n: usize = 0;
    while n < visible
        invariant
            n <= visible,
            count <= n,
            count == candidates_shown(rows@, first as int, n as int),
        decreases visible - n,
    {
        if first < rows.len() && n < rows.len() - first {
            if let DiscoveryDisplayRow::Candidate { item: _, selection: _ } = rows[first + n] {
                count += 1;
            }
        }
        n += 1;
    }
    count
}

/// The columns of the label before the field of a mode.
pub fn field_label_width(mode: SourceDialogMode) -> (r: u16)
    ensures
        r == match mode {
            SourceDialogMode::Discovery => 6u16,
            SourceDialogMode::Ai => 8u16,
            _ => MANUAL_LABEL_WIDTH,
        },
{
    match mode {
        SourceDialogMode::Discovery => 6,
        SourceDialogMode::Ai => 8,
        _ => MANUAL_LABEL_WIDTH,
    }
}

/// What stands in the preview while nothing is under review.
pub const PREVIEW_HINT: &'static str = "A reviewed source definition appears here; nothing runs until you start it.";

impl SourceModel {
    /// What the details of the discovered sources say: the selected one, and the
    /// report of the scan below it.
    pub open spec fn report(self, indices: Seq<usize>) -> Seq<char> {
        let place = least(self.discovery.selected, minus(indices.len() as int, 1));
        (if place < indices.len() && indices[place] < self.discovery.items.len() {
            let item = self.discovery.items[indices[place] as int];
            item.label@ + " \u{b7} "@ + item.detail@
        } else {
            "No candidate selected"@
        }) + "\n"@ + self.discovery.status
    }

    /// The lines of the preview: the review, or what it is for.
    pub open spec fn preview_text(self) -> Seq<Seq<char>> {
        let lines = review(self.ai.preview, self.ai.session_id);
        if lines.len() == 0 {
            seq![PREVIEW_HINT@]
        } else {
            lines
        }
    }
}

impl SourceDialog {
    /// What the details of the discovered sources say; `indices` are those that
    /// are shown.
    pub fn report(&self, indices: &Vec<usize>) -> (r: String)
        ensures
            r@ == self.model().report(indices@),
    {
        let last: usize = if indices.len() == 0 {
            0
        } else {
            indices.len() - 1
        };
        let place: usize = if self.state.discovery.selected < last {
            self.state.discovery.selected
        } else {
            last
        };
        let mut text = if place < indices.len() && indices[place]
            < self.state.discovery.items.len() {
            discovery_detail(Some(&self.state.discovery.items[indices[place]]))
        } else {
            discovery_detail(None)
        };
        text.append("\n");
        text.append(self.state.discovery.status.as_str());
        text
    }

    /// The lines of the preview.
    pub fn preview_text(&self) -> (r: Vec<String>)
        ensures
            texts(r@) == self.model().preview_text(),
    {
        let mut lines = self.review();
        assert(texts(lines@).len() == lines@.len());
        if lines.len() == 0 {
            lines.push(PREVIEW_HINT.to_owned());
            assert(texts(lines@) =~= seq![PREVIEW_HINT@]);
        }
        lines
    }
}

impl SourceModel {
    /// The rows of the discovered sources.
    pub open spec fn found_rows(self, now: i64) -> Seq<DiscoveryDisplayRow> {
        let shown = shown_items(self.discovery, now);
        older_row(self.discovery.items, self.discovery.query, self.discovery.show_older, now)
            + candidate_rows(self.discovery.items, shown, shown.len() as int)
    }

    /// The lines of the mode's pane, before they are broken: the status of the
    /// selected source, what is found, or what is proposed.
    pub open spec fn pane_text(self, sources: Seq<SourceItem>, now: i64) -> Seq<Seq<char>> {
        match self.mode {
            SourceDialogMode::Existing => source_status(
                sources,
                least(self.existing_selected, minus(sources.len() as int, 1)),
            ),
            SourceDialogMode::Manual => seq![],
            SourceDialogMode::Discovery => lines_in(
                self.report(shown_items(self.discovery, now)),
            ),
            SourceDialogMode::Ai => self.preview_text(),
        }
    }
}

impl SourceDialog {
    /// Lists the rows of the discovered sources, and how many sources they show.
    pub fn found_rows(&self, now: i64) -> (r: (Vec<DiscoveryDisplayRow>, usize))
        ensures
            r.0@ == self.model().found_rows(now),
            r.1 == shown_items(self.model().discovery, now).len(),
            forall|i: int|
                0 <= i < r.1 ==> #[trigger] shown_items(self.model().discovery, now)[i]
                    < self.model().discovery.items.len(),
    {
        let indices = self.shown(now);
        let rows = discovery_display_rows(&self.state.discovery, &indices, now);
        (rows, indices.len())
    }

    /// Writes the lines of the mode's pane.
    pub fn pane_text(&self, sources: &Vec<SourceItem>, now: i64) -> (r: Vec<String>)
        ensures
            texts(r@) == self.model().pane_text(sources@, now),
    {
        match self.state.mode {
            SourceDialogMode::Existing => {
                let last: usize = if sources.len() == 0 {
                    0
                } else {
                    sources.len() - 1
                };
                let selected: usize = if self.state.existing_selected < last {
                    self.state.existing_selected
                } else {
                    last
                };
                status_lines(sources, selected)
            },
            SourceDialogMode::Manual => {
                let none: Vec<String> = Vec::new();
                assert(texts(none@) =~= seq![]);
                none
            },
            SourceDialogMode::Discovery => {
                let indices = self.shown(now);
                lines_of(self.report(&indices).as_str())
            },
            SourceDialogMode::Ai => self.preview_text(),
        }
    }
}

/// The rows of the discovered sources name items that there are, and groups of
/// such items.
pub proof fn found_rows_are_of_items(
    items: Seq<DiscoveryItem>,
    indices: Seq<usize>,
    n: int,
    groups: int,
)
    requires
        0 <= n <= indices.len(),
        forall|i: int| 0 <= i < indices.len() ==> #[trigger] indices[i] < items.len(),
        forall|i: int| 0 <= i < items.len() ==> (#[trigger] items[i]).section.rank < groups,
    ensures
        forall|k: int|
            0 <= k < candidate_rows(items, indices, n).len() ==> match #[trigger] candidate_rows(
                items,
                indices,
                n,
            )[k] {
                DiscoveryDisplayRow::Heading(section) => section.rank < groups,
                DiscoveryDisplayRow::Candidate { item, .. } => item < items.len(),
                DiscoveryDisplayRow::OlderUnavailable(_) => true,
            },
    decreases n,
{
    if n > 0 {
        found_rows_are_of_items(items, indices, n - 1, groups);
        let before = candidate_rows(items, indices, n - 1);
        let rows = candidate_rows(items, indices, n);
        assert(indices[n - 1] < items.len());
        assert forall|k: int| 0 <= k < rows.len() implies match #[trigger] rows[k] {
            DiscoveryDisplayRow::Heading(section) => section.rank < groups,
            DiscoveryDisplayRow::Candidate { item, .. } => item < items.len(),
            DiscoveryDisplayRow::OlderUnavailable(_) => true,
        } by {
            if k < before.len() {
                assert(rows[k] == before[k]);
            } else {
                assert(items[indices[n - 1] as int].section.rank < groups);
            }
        }
    }
}

} // verus!
