//! What holds of the Source layer as a whole.

use super::{
    adding_modes, ask_of, but_kind, of_kind, shown_items, visible_controls, DiscoveryModel,
    DiscoveryUiRequest, PathCompletionRequest, PathModel, RequestKind, SourceAiPreview,
    SourceAiRequest, SourceAiStage, SourceAsk, SourceContext, SourceControl, SourceDialogMode,
    SourceDialogState, SourceGeometry, SourceHit, SourceItem, SourceKind, SourceLaunchRequest,
    SourceManagementRequest, SourceModel, SourceOpen, SourceRequest,
};
use super::requests::kinds_are_taken_apart;
use crate::component::{
    distinct_item_is_found, place_or_start, ring_goes_round, CommandId, EditCommand, Outcome, Step,
};
use crate::components::discovery::{filtered_is_unique, is_filtered, DiscoveryItem};
use crate::input::{KeyCode, KeyEvent, KeyEventKind, Modifiers, MouseEventKind};
use crate::text::{all_white, blank_text_has_no_core, byte_count, fitting_text_is_whole};
use vstd::prelude::*;

verus! {

/// A key goes down, first or by repetition.
pub open spec fn goes_down(key: KeyEvent) -> bool {
    key.kind == KeyEventKind::Press || key.kind == KeyEventKind::Repeat
}

/// The manual form for a file, with its input in focus.
pub open spec fn types_a_path(m: SourceModel) -> bool {
    &&& m.mode == SourceDialogMode::Manual
    &&& m.kind == SourceKind::File
    &&& m.control == SourceControl::Input
    &&& !m.scroll_focused
}

/// A launch is a request of this kind.
pub open spec fn is_launch() -> spec_fn(SourceAsk) -> bool {
    |ask: SourceAsk| ask is Launch
}

pub open spec fn is_discovery() -> spec_fn(SourceAsk) -> bool {
    |ask: SourceAsk| ask is Scan || ask is CancelScan || ask is Select
}

pub open spec fn is_completion() -> spec_fn(SourceAsk) -> bool {
    |ask: SourceAsk| ask is Complete
}

pub open spec fn is_agents() -> spec_fn(SourceAsk) -> bool {
    |ask: SourceAsk| ask is AiStart || ask is AiApply || ask is AiCancel
}

pub open spec fn is_management() -> spec_fn(SourceAsk) -> bool {
    |ask: SourceAsk| ask is Restart || ask is Remove
}

/// The requests that are taken of a kind are exactly those of that kind, in their
/// order, and all others are left, in theirs.
pub proof fn each_kind_is_taken_whole(items: Seq<SourceAsk>)
    ensures
        of_kind(items, RequestKind::Launch) == items.filter(is_launch()),
        of_kind(items, RequestKind::Discovery) == items.filter(is_discovery()),
        of_kind(items, RequestKind::PathCompletion) == items.filter(is_completion()),
        of_kind(items, RequestKind::Ai) == items.filter(is_agents()),
        of_kind(items, RequestKind::Manage) == items.filter(is_management()),
        but_kind(items, RequestKind::Launch) == items.filter(|ask: SourceAsk| !(ask is Launch)),
        but_kind(items, RequestKind::PathCompletion) == items.filter(
            |ask: SourceAsk| !(ask is Complete),
        ),
    decreases items.len(),
{
    reveal(Seq::filter);
    if items.len() > 0 {
        each_kind_is_taken_whole(items.drop_last());
    }
}

proof fn others_are_left(items: Seq<SourceAsk>)
    ensures
        of_kind(but_kind(items, RequestKind::PathCompletion), RequestKind::PathCompletion).len()
            == 0,
        of_kind(but_kind(items, RequestKind::PathCompletion), RequestKind::Launch) == of_kind(
            items,
            RequestKind::Launch,
        ),
        but_kind(items, RequestKind::PathCompletion).len() <= items.len(),
{
    kinds_are_taken_apart(items, RequestKind::PathCompletion, RequestKind::Launch);
}

proof fn one_more(items: Seq<SourceAsk>, ask: SourceAsk, kind: RequestKind)
    ensures
        of_kind(items.push(ask), kind) == if ask.kind() == kind {
            of_kind(items, kind).push(ask)
        } else {
            of_kind(items, kind)
        },
{
    assert(items.push(ask).drop_last() =~= items);
}

/// Enter takes the completed path that is highlighted, and no other, as the
/// draft. A path that is no directory is then launched as a file, where the queue
/// has room; a directory is completed further, and nothing is launched.
pub proof fn enter_takes_the_highlighted_path(
    m: SourceModel,
    key: KeyEvent,
    ctx: SourceContext<'_>,
)
    requires
        goes_down(key),
        key.code == KeyCode::Enter,
        types_a_path(m),
        0 <= m.path.selected < m.path.candidates.len(),
        m.queue.items.len() < m.queue.cap,
        0 <= m.next_path <= u64::MAX,
    ensures
        ({
            let path = m.path.candidates[m.path.selected];
            let (after, step) = m.after_key(key, ctx);
            let directory = path.len() > 0 && path.last() == '/';
            let before = m.queue.items.filter(is_launch());
            &&& step == Step::Done(Outcome::Consumed)
            &&& after.draft == path
            &&& after.kind == SourceKind::File
            &&& after.manual_cursor == Some(path.len() as int)
            &&& after.path.candidates.len() == 0
            &&& !directory && path.len() > 0 && before.len() < 8 ==> after.queue.items
                == m.queue.items.push(SourceAsk::Launch { kind: SourceKind::File, text: path })
            &&& !directory && before.len() >= 8 ==> after.queue.items == m.queue.items
                && after.error is Some
            &&& directory ==> {
                &&& after.queue.items.filter(is_launch()) == before
                &&& after.queue.items.filter(is_completion()) == seq![
                    SourceAsk::Complete { generation: m.next_path as u64, draft: path },
                ]
                &&& after.path.scanning
                &&& after.path.generation == m.next_path
            }
        }),
{
    reveal(SourceModel::activated);
    let path = m.path.candidates[m.path.selected];
    let after = m.after_key(key, ctx).0;
    let ask = SourceAsk::Complete { generation: m.next_path as u64, draft: path };
    each_kind_is_taken_whole(m.queue.items);
    each_kind_is_taken_whole(after.queue.items);
    others_are_left(m.queue.items);
    let kept = but_kind(m.queue.items, RequestKind::PathCompletion);
    one_more(kept, ask, RequestKind::Launch);
    one_more(kept, ask, RequestKind::PathCompletion);
    assert(of_kind(kept, RequestKind::PathCompletion) =~= seq![]);
    assert(seq![].push(ask) =~= seq![ask]);
}

/// Without a completed path Enter launches what was typed: as a file or as a
/// command, whichever is chosen, and letter for letter. A blank draft launches
/// nothing, and neither does a full queue or a directory.
pub proof fn enter_launches_the_draft(m: SourceModel, key: KeyEvent, ctx: SourceContext<'_>)
    requires
        goes_down(key),
        key.code == KeyCode::Enter,
        m.mode == SourceDialogMode::Manual,
        m.control == SourceControl::Input,
        m.kind == SourceKind::Command || m.path.candidates.len() == 0,
        m.path.selected >= 0,
        m.queue.items.len() < m.queue.cap,
    ensures
        ({
            let after = m.after_key(key, ctx).0;
            let directory = m.kind == SourceKind::File && m.draft.len() > 0 && m.draft.last()
                == '/';
            let launches = m.queue.items.filter(is_launch());
            &&& after.draft == m.draft
            &&& after.kind == m.kind
            &&& m.draft.len() > 0 && !directory && launches.len() < 8 ==> after.queue.items
                == m.queue.items.push(SourceAsk::Launch { kind: m.kind, text: m.draft })
            &&& m.draft.len() == 0 || launches.len() >= 8 || directory
                ==> after.queue.items.filter(is_launch()) == launches
            &&& m.draft.len() == 0 ==> after.queue == m.queue && after.error is Some
        }),
{
    reveal(SourceModel::activated);
    let after = m.after_key(key, ctx).0;
    let ask = SourceAsk::Complete { generation: m.next_path as u64, draft: m.draft };
    each_kind_is_taken_whole(m.queue.items);
    each_kind_is_taken_whole(after.queue.items);
    others_are_left(m.queue.items);
    one_more(but_kind(m.queue.items, RequestKind::PathCompletion), ask, RequestKind::Launch);
}

/// Up and Down highlight the completed path before and after, round the ends of
/// the list, and change nothing else.
pub proof fn paths_are_walked(m: SourceModel, key: KeyEvent, ctx: SourceContext<'_>)
    requires
        goes_down(key),
        types_a_path(m),
        key.modifiers == (Modifiers { shift: false, control: false, alt: false, other: false }),
        0 <= m.path.selected < m.path.candidates.len(),
        key.code == KeyCode::Down || key.code == KeyCode::Up,
    ensures
        ({
            let n = m.path.candidates.len() as int;
            let at = m.path.selected;
            let after = m.after_key(key, ctx).0;
            &&& after == (SourceModel { path: after.path, ..m })
            &&& after.path == (PathModel { selected: after.path.selected, ..m.path })
            &&& key.code == KeyCode::Down ==> after.path.selected == if at + 1 < n {
                at + 1
            } else {
                0
            }
            &&& key.code == KeyCode::Up ==> after.path.selected == if at > 0 {
                at - 1
            } else {
                n - 1
            }
        }),
{
    ring_goes_round(m.path.selected, m.path.candidates.len() as int);
}

/// The completions that came are shown with the first one highlighted, where they
/// answer the last question about the draft that is shown.
pub proof fn completions_that_came_are_shown(
    m: SourceModel,
    generation: int,
    draft: Seq<char>,
    candidates: Seq<Seq<char>>,
    error: Option<Seq<char>>,
)
    ensures
        ({
            let (after, taken) = m.path_completed(generation, draft, candidates, error);
            &&& taken <==> m.open && m.mode == SourceDialogMode::Manual && m.kind
                == SourceKind::File && m.draft == draft && m.path.generation == generation
            &&& taken ==> after.path.candidates == candidates && after.path.selected == 0
                && !after.path.scanning && after.error == error && after.draft == m.draft
                && after.queue == m.queue
            &&& !taken ==> after == m
        }),
{
}

/// What is typed goes into the field of the mode and into no other; the path that
/// is typed is asked to be completed, in place of any path before it.
pub proof fn typing_fills_its_field(
    m: SourceModel,
    value: Seq<char>,
    cursor: int,
    clock: int,
)
    requires
        m.control == SourceControl::Input,
        !m.scroll_focused,
        m.queue.items.len() < m.queue.cap,
        0 <= m.next_path <= u64::MAX,
        m.mode == SourceDialogMode::Ai ==> m.ai.stage == SourceAiStage::Input || m.ai.stage
            == SourceAiStage::Error,
    ensures
        ({
            let after = m.edited(value, cursor, true, clock);
            let manual = m.mode == SourceDialogMode::Manual;
            let finds = m.mode == SourceDialogMode::Discovery;
            let asks = m.mode == SourceDialogMode::Ai;
            &&& after.draft == if manual {
                value
            } else {
                m.draft
            }
            &&& after.discovery.query == if finds {
                value
            } else {
                m.discovery.query
            }
            &&& after.ai.instruction == if asks {
                value
            } else {
                m.ai.instruction
            }
            &&& after.manual_cursor == if manual {
                Some(cursor)
            } else {
                m.manual_cursor
            }
            &&& after.discovery_cursor == if finds {
                Some(cursor)
            } else {
                m.discovery_cursor
            }
            &&& after.ai_cursor == if asks {
                Some(cursor)
            } else {
                m.ai_cursor
            }
            &&& after.discovery.items == m.discovery.items
            &&& finds ==> after.discovery.selected == 0
            &&& asks ==> after.ai.stage == SourceAiStage::Input
            &&& manual && m.kind == SourceKind::File && value.len() > 0
                ==> after.queue.items.filter(is_completion()) == seq![
                SourceAsk::Complete { generation: m.next_path as u64, draft: value },
            ] && after.path.generation == m.next_path
            &&& manual && m.kind == SourceKind::File && value.len() == 0
                ==> after.queue.items.filter(is_completion()).len() == 0
            &&& manual ==> after.path.candidates.len() == 0
            &&& manual && m.kind == SourceKind::Command ==> after.queue == m.queue
            &&& finds || asks ==> after.queue == m.queue
            &&& after.mode == m.mode
            &&& after.kind == m.kind
        }),
{
    let after = m.edited(value, cursor, true, clock);
    let ask = SourceAsk::Complete { generation: m.next_path as u64, draft: value };
    each_kind_is_taken_whole(after.queue.items);
    others_are_left(m.queue.items);
    let kept = but_kind(m.queue.items, RequestKind::PathCompletion);
    one_more(kept, ask, RequestKind::PathCompletion);
    assert(of_kind(kept, RequestKind::PathCompletion) =~= seq![]);
    assert(seq![].push(ask) =~= seq![ask]);
}

/// A pasted text is appended to the field of the mode, as much of its beginning as
/// fits.
pub proof fn paste_fills_its_field(m: SourceModel, text: Seq<char>, ctx: SourceContext<'_>)
    ensures
        ({
            let after = m.pasted(text, ctx);
            &&& m.mode == SourceDialogMode::Existing ==> after == m
            &&& m.mode == SourceDialogMode::Manual && byte_count(m.draft) + byte_count(text)
                <= ctx.editor_bytes ==> after.draft == m.draft + text
            &&& m.mode == SourceDialogMode::Discovery && byte_count(m.discovery.query)
                + byte_count(text) <= ctx.editor_bytes ==> after.discovery.query
                == m.discovery.query + text
            &&& m.mode == SourceDialogMode::Ai && (m.ai.stage == SourceAiStage::Input || m.ai.stage
                == SourceAiStage::Error) && byte_count(m.ai.instruction) + byte_count(text)
                <= ctx.prompt_bytes ==> after.ai.instruction == m.ai.instruction + text
            &&& m.mode != SourceDialogMode::Manual ==> after.draft == m.draft
            &&& m.mode != SourceDialogMode::Discovery ==> after.discovery.query
                == m.discovery.query
            &&& m.mode != SourceDialogMode::Ai ==> after.ai.instruction == m.ai.instruction
        }),
{
    if m.mode == SourceDialogMode::Manual && byte_count(m.draft) + byte_count(text)
        <= ctx.editor_bytes {
        fitting_text_is_whole(text, ctx.editor_bytes - byte_count(m.draft));
    }
    if m.mode == SourceDialogMode::Discovery && byte_count(m.discovery.query) + byte_count(text)
        <= ctx.editor_bytes {
        fitting_text_is_whole(text, ctx.editor_bytes - byte_count(m.discovery.query));
    }
    if m.mode == SourceDialogMode::Ai && byte_count(m.ai.instruction) + byte_count(text)
        <= ctx.prompt_bytes {
        fitting_text_is_whole(text, ctx.prompt_bytes - byte_count(m.ai.instruction));
    }
}

/// The kind of a manual source is the one that was chosen, by its letter with
/// Alt, its command or its control.
pub proof fn kind_is_the_chosen_one(m: SourceModel, key: KeyEvent, ctx: SourceContext<'_>)
    requires
        goes_down(key),
        m.mode == SourceDialogMode::Manual,
        key.modifiers.alt && !key.modifiers.control,
    ensures
        key.code == KeyCode::Char('f') ==> m.after_key(key, ctx).0.kind == SourceKind::File,
        key.code == KeyCode::Char('c') ==> m.after_key(key, ctx).0.kind == SourceKind::Command,
        m.after_command(CommandId::SourceFileMode).0.kind == SourceKind::File,
        m.after_command(CommandId::SourceCommandMode).0.kind == SourceKind::Command,
        m.focused(SourceControl::File).activated(ctx).kind == SourceKind::File,
        m.focused(SourceControl::Command).activated(ctx).kind == SourceKind::Command,
        m.kind_selected(SourceKind::Command).draft == m.draft,
        m.kind_selected(SourceKind::File).draft == m.draft,
        m.kind_selected(SourceKind::File).queue == m.queue,
        m.kind_selected(SourceKind::Command).queue.items == m.queue.items.filter(
            |ask: SourceAsk| !(ask is Complete),
        ),
{
    reveal(SourceModel::activated);
    each_kind_is_taken_whole(m.queue.items);
}

/// Another mode keeps what was typed, found and proposed in each, and has its
/// input in focus.
pub proof fn changing_the_mode_keeps_the_fields(m: SourceModel, mode: SourceDialogMode)
    ensures
        ({
            let after = m.mode_set(mode);
            &&& after.mode == mode
            &&& after.draft == m.draft
            &&& after.discovery.query == m.discovery.query
            &&& after.ai == m.ai
            &&& after.kind == m.kind
            &&& after.control == SourceControl::Input
            &&& !after.confirm_remove
            &&& after.return_to_existing == (m.return_to_existing && mode
                != SourceDialogMode::Existing)
            &&& mode == SourceDialogMode::Discovery && m.discovery.generation == 0
                ==> after.discovery.generation == 1
            &&& mode != SourceDialogMode::Discovery || m.discovery.generation != 0
                ==> after.discovery == m.discovery
        }),
{
    reveal(SourceModel::mode_set);
    reveal(SourceModel::scan_started);
}

/// The mode is the one of the control or the command that was used.
pub proof fn mode_is_the_chosen_one(m: SourceModel, ctx: SourceContext<'_>)
    ensures
        m.focused(SourceControl::Manual).activated(ctx).mode == SourceDialogMode::Manual,
        m.focused(SourceControl::Discovery).activated(ctx).mode == SourceDialogMode::Discovery,
        m.focused(SourceControl::Agent).activated(ctx).mode == SourceDialogMode::Ai,
        m.focused(SourceControl::Add).activated(ctx).mode == SourceDialogMode::Manual,
        m.focused(SourceControl::Add).activated(ctx).return_to_existing == (ctx.sources@.len() > 0),
        m.focused(SourceControl::Refresh).activated(ctx) == m.focused(
            SourceControl::Refresh,
        ).scan_started(),
        m.after_command(CommandId::DiscoverSources).0.mode == if m.mode
            == SourceDialogMode::Discovery {
            SourceDialogMode::Manual
        } else {
            SourceDialogMode::Discovery
        },
        m.after_command(CommandId::AskAiSource).0.mode == if m.mode == SourceDialogMode::Ai {
            SourceDialogMode::Manual
        } else {
            SourceDialogMode::Ai
        },
{
    reveal(SourceModel::activated);
    reveal(SourceModel::adding);
    changing_the_mode_keeps_the_fields(
        m.focused(SourceControl::Manual),
        SourceDialogMode::Manual,
    );
    changing_the_mode_keeps_the_fields(
        m.focused(SourceControl::Discovery),
        SourceDialogMode::Discovery,
    );
    changing_the_mode_keeps_the_fields(m.focused(SourceControl::Agent), SourceDialogMode::Ai);
    changing_the_mode_keeps_the_fields(
        SourceModel {
            return_to_existing: ctx.sources@.len() > 0,
            ..m.focused(SourceControl::Add)
        },
        SourceDialogMode::Manual,
    );
    changing_the_mode_keeps_the_fields(m, SourceDialogMode::Manual);
    changing_the_mode_keeps_the_fields(m.leaving_list(), SourceDialogMode::Discovery);
    changing_the_mode_keeps_the_fields(m.leaving_list(), SourceDialogMode::Ai);
}

/// A scan is asked for under the next generation, starts from an empty list, and
/// calls off the scan that runs.
pub proof fn scan_starts_anew(m: SourceModel)
    requires
        0 <= m.discovery.generation < u64::MAX,
        m.queue.items.filter(is_discovery()).len() < 3,
        m.queue.items.len() + 2 <= m.queue.cap,
    ensures
        ({
            let after = m.scan_started();
            let scan = SourceAsk::Scan { generation: (m.discovery.generation + 1) as u64 };
            &&& after.discovery.generation == m.discovery.generation + 1
            &&& after.discovery.scanning
            &&& after.discovery.items.len() == 0
            &&& after.discovery.selected == 0
            &&& !after.discovery.show_older
            &&& after.discovery.query == m.discovery.query
            &&& m.discovery.scanning && m.discovery.generation > 0 ==> after.queue.items
                == m.queue.items.push(
                SourceAsk::CancelScan { generation: m.discovery.generation as u64 },
            ).push(scan)
            &&& !m.discovery.scanning ==> after.queue.items == m.queue.items.push(scan)
            &&& after.draft == m.draft
            &&& after.mode == m.mode
        }),
{
    reveal(SourceModel::scan_started);
    each_kind_is_taken_whole(m.queue.items);
    one_more(
        m.queue.items,
        SourceAsk::CancelScan { generation: m.discovery.generation as u64 },
        RequestKind::Discovery,
    );
}

/// What a scan found is shown, where it is the last scan that was asked for.
pub proof fn found_sources_are_shown(
    m: SourceModel,
    generation: int,
    items: Seq<DiscoveryItem>,
    status: Seq<char>,
)
    ensures
        ({
            let (after, taken) = m.discovery_completed(generation, items, status);
            &&& taken <==> m.open && m.discovery.generation == generation
            &&& taken ==> after.discovery.items == items && after.discovery.status == status
                && after.discovery.selected == 0 && !after.discovery.scanning
                && after.discovery.query == m.discovery.query && after.queue == m.queue
            &&& !taken ==> after == m
        }),
{
}

/// Enter asks for the discovered source that is highlighted: the one whose place
/// among those shown is selected, by its key and the generation of its scan.
pub proof fn enter_asks_for_the_highlighted_source(
    m: SourceModel,
    key: KeyEvent,
    ctx: SourceContext<'_>,
    shown: Seq<usize>,
)
    requires
        goes_down(key),
        key.code == KeyCode::Enter,
        m.mode == SourceDialogMode::Discovery,
        m.control == SourceControl::Input,
        is_filtered(m.discovery.items, m.discovery.query, m.discovery.show_older, ctx.now, shown),
        0 <= m.discovery.generation <= u64::MAX,
        m.discovery.selected >= 0,
        m.queue.items.len() < m.queue.cap,
    ensures
        ({
            let after = m.after_key(key, ctx).0;
            let room = m.queue.items.filter(is_discovery()).len() < 4;
            &&& m.discovery.selected < shown.len() && room ==> after.queue.items
                == m.queue.items.push(
                SourceAsk::Select {
                    generation: m.discovery.generation as u64,
                    key: m.discovery.items[shown[m.discovery.selected] as int].key@,
                },
            )
            &&& m.discovery.selected >= shown.len() || !room ==> after.queue == m.queue
                && after.error is Some
            &&& after.discovery == m.discovery
        }),
{
    reveal(SourceModel::activated);
    each_kind_is_taken_whole(m.queue.items);
    let other = shown_items(m.discovery, ctx.now);
    filtered_is_unique(
        m.discovery.items,
        m.discovery.query,
        m.discovery.show_older,
        ctx.now,
        shown,
        other,
    );
}

/// Up and Down highlight the discovered source before and after, and stop at the
/// ends of what is shown.
pub proof fn discovered_sources_are_walked(
    m: SourceModel,
    key: KeyEvent,
    ctx: SourceContext<'_>,
    shown: Seq<usize>,
)
    requires
        goes_down(key),
        key.modifiers == (Modifiers { shift: false, control: false, alt: false, other: false }),
        m.mode == SourceDialogMode::Discovery,
        m.control == SourceControl::Input,
        !m.scroll_focused,
        is_filtered(m.discovery.items, m.discovery.query, m.discovery.show_older, ctx.now, shown),
        0 <= m.discovery.selected < shown.len(),
        key.code == KeyCode::Down || key.code == KeyCode::Up,
    ensures
        ({
            let at = m.discovery.selected;
            let after = m.after_key(key, ctx).0;
            &&& key.code == KeyCode::Down ==> after.discovery.selected == if at + 1 < shown.len() {
                at + 1
            } else {
                at
            }
            &&& key.code == KeyCode::Up ==> after.discovery.selected == if at > 0 {
                at - 1
            } else {
                0
            }
            &&& after == (SourceModel { discovery: after.discovery, ..m })
            &&& after.discovery.items == m.discovery.items
            &&& after.discovery.query == m.discovery.query
        }),
{
    let other = shown_items(m.discovery, ctx.now);
    filtered_is_unique(
        m.discovery.items,
        m.discovery.query,
        m.discovery.show_older,
        ctx.now,
        shown,
        other,
    );
}

/// Restart and Remove are asked of the source that is selected, by its identity:
/// Restart at once, and Remove when it is asked for again.
pub proof fn management_is_of_the_selected_source(
    m: SourceModel,
    sources: Seq<SourceItem>,
)
    requires
        0 <= m.existing_selected < sources.len(),
        m.queue.items.len() < m.queue.cap,
    ensures
        ({
            let id = sources[m.existing_selected].id@;
            let restarted = m.management_submitted(false, sources);
            let removed = m.management_submitted(true, sources);
            &&& restarted.queue.items == m.queue.items.push(SourceAsk::Restart { source_id: id })
            &&& !restarted.confirm_remove
            &&& m.confirm_remove ==> removed.queue.items == m.queue.items.push(
                SourceAsk::Remove { source_id: id },
            ) && !removed.confirm_remove
            &&& !m.confirm_remove ==> removed.queue == m.queue && removed.confirm_remove
            &&& restarted.existing_selected == m.existing_selected
            &&& removed.existing_selected == m.existing_selected
        }),
{
    reveal(SourceModel::management_submitted);
}

/// In the list of sources Enter and R restart, Delete removes, and the buttons
/// and controls do what they are named for.
pub proof fn list_keys_do_what_they_say(
    m: SourceModel,
    key: KeyEvent,
    ctx: SourceContext<'_>,
)
    requires
        goes_down(key),
        m.mode == SourceDialogMode::Existing,
        key.modifiers == (Modifiers { shift: false, control: false, alt: false, other: false }),
    ensures
        key.code == KeyCode::Delete ==> m.after_key(key, ctx).0 == m.management_submitted(
            true,
            ctx.sources@,
        ),
        key.code == KeyCode::Char('R') ==> m.after_key(key, ctx).0 == m.management_submitted(
            false,
            ctx.sources@,
        ),
        key.code == KeyCode::Enter && m.control == SourceControl::Input ==> m.after_key(key, ctx).0
            == m.management_submitted(false, ctx.sources@),
        key.code == KeyCode::Enter && m.control == SourceControl::Restart ==> m.after_key(
            key,
            ctx,
        ).0 == m.management_submitted(false, ctx.sources@),
        key.code == KeyCode::Enter && m.control == SourceControl::Remove ==> m.after_key(key, ctx).0
            == m.management_submitted(true, ctx.sources@),
        m.action_pressed(0, ctx).0.mode == SourceDialogMode::Manual,
        m.action_pressed(1, ctx).0 == m.management_submitted(false, ctx.sources@),
        m.action_pressed(2, ctx).0 == m.management_submitted(true, ctx.sources@),
{
    reveal(SourceModel::activated);
    reveal(SourceModel::adding);
    reveal(SourceModel::mode_set);
}

/// Up and Down select the source before and after and stop at the ends; a click
/// selects the source of its row. Leaving a source withdraws the confirmation.
pub proof fn sources_are_walked(
    m: SourceModel,
    key: KeyEvent,
    ctx: SourceContext<'_>,
    row: usize,
)
    requires
        goes_down(key),
        m.mode == SourceDialogMode::Existing,
        !m.scroll_focused,
        key.modifiers == (Modifiers { shift: false, control: false, alt: false, other: false }),
        0 <= m.existing_selected < ctx.sources@.len(),
    ensures
        ({
            let n = ctx.sources@.len();
            let at = m.existing_selected;
            let after = m.after_key(key, ctx).0;
            let clicked = m.after_mouse(
                MouseEventKind::LeftDown,
                Some(SourceHit::Existing(row)),
                ctx,
            );
            &&& key.code == KeyCode::Down ==> after.existing_selected == if at + 1 < n {
                at + 1
            } else {
                at
            }
            &&& key.code == KeyCode::Up ==> after.existing_selected == if at > 0 {
                at - 1
            } else {
                0
            }
            &&& key.code == KeyCode::Down || key.code == KeyCode::Up ==> after.queue == m.queue && (
            after.existing_selected != at ==> !after.confirm_remove)
            &&& clicked.existing_selected == row
            &&& row != at ==> !clicked.confirm_remove
            &&& row == at ==> clicked.confirm_remove == m.confirm_remove
            &&& clicked.control == SourceControl::Input
            &&& clicked.queue == m.queue
        }),
{
    reveal(SourceModel::existing_pointed);
}

/// A click highlights what is under it: the completed path or the discovered
/// source of its row.
pub proof fn click_highlights_its_row(m: SourceModel, ctx: SourceContext<'_>, row: usize)
    ensures
        ({
            let path = m.after_mouse(
                MouseEventKind::LeftDown,
                Some(SourceHit::PathCompletion(row)),
                ctx,
            );
            let found = m.after_mouse(
                MouseEventKind::LeftDown,
                Some(SourceHit::Discovery(row)),
                ctx,
            );
            &&& path.path.selected == row
            &&& path.path.candidates == m.path.candidates
            &&& path.draft == m.draft
            &&& path.queue == m.queue
            &&& path.control == SourceControl::Input
            &&& m.mode == SourceDialogMode::Discovery ==> found.discovery.selected == row
                && found.discovery.items == m.discovery.items && found.queue == m.queue
                && found.control == SourceControl::Input
        }),
{
    reveal(SourceModel::discovery_pointed);
}

/// A description is sent to the agent that was chosen, letter for letter and
/// under a new generation; one of white space alone is not sent.
pub proof fn description_is_sent(
    m: SourceModel,
    key: KeyEvent,
    ctx: SourceContext<'_>,
)
    requires
        goes_down(key),
        key.code == KeyCode::Enter,
        m.mode == SourceDialogMode::Ai,
        m.control == SourceControl::Input,
        m.ai.stage == SourceAiStage::Input || m.ai.stage == SourceAiStage::Error,
        0 <= m.next_ai < u64::MAX,
        m.queue.items.filter(is_agents()).len() < 8,
        m.queue.items.len() < m.queue.cap,
    ensures
        ({
            let after = m.after_key(key, ctx).0;
            &&& all_white(m.ai.instruction) ==> after.queue == m.queue && after.ai.stage
                == SourceAiStage::Error
            &&& !all_white(m.ai.instruction) ==> {
                &&& after.queue.items == m.queue.items.push(
                    SourceAsk::AiStart {
                        generation: (m.next_ai + 1) as u64,
                        instruction: m.ai.instruction,
                        provider: ctx.agent.provider@,
                        mode: ctx.agent.mode@,
                        thinking: ctx.agent.thinking@,
                    },
                )
                &&& after.ai.generation == m.next_ai + 1
                &&& after.ai.stage == SourceAiStage::Preparing
                &&& after.ai.preview is None
            }
            &&& after.ai.instruction == m.ai.instruction
        }),
{
    reveal(SourceModel::activated);
    each_kind_is_taken_whole(m.queue.items);
    blank_text_has_no_core(m.ai.instruction);
}

/// Confirming a proposal asks for exactly that proposal to be started.
pub proof fn reviewed_proposal_is_applied(m: SourceModel, ctx: SourceContext<'_>)
    requires
        m.mode == SourceDialogMode::Ai,
        m.control == SourceControl::Input,
        m.ai.stage == SourceAiStage::Proposal,
        0 <= m.ai.generation <= u64::MAX,
        m.queue.items.filter(is_agents()).len() < 8,
        m.queue.items.len() < m.queue.cap,
    ensures
        ({
            let after = m.activated(ctx);
            &&& after.queue.items == m.queue.items.push(
                SourceAsk::AiApply { generation: m.ai.generation as u64 },
            )
            &&& after.ai.stage == SourceAiStage::Applying
            &&& after.ai.preview == m.ai.preview
        }),
{
    reveal(SourceModel::activated);
    each_kind_is_taken_whole(m.queue.items);
}

/// What an agent answers is shown where it answers the last question: its
/// progress, its session, and in the end its proposal or what went wrong.
pub proof fn agents_answer_is_shown(
    m: SourceModel,
    generation: int,
    stage: SourceAiStage,
    text: Seq<char>,
    session: Option<Seq<char>>,
    preview: SourceAiPreview,
)
    ensures
        ({
            let current = m.open && m.ai.generation == generation;
            let (told, heard) = m.ai_progressed(generation, stage, text, session);
            let (done, taken) = m.ai_finished(generation, Some(preview), text);
            let (failed, failing) = m.ai_finished(generation, None, text);
            &&& heard == current && taken == current && failing == current
            &&& current ==> {
                &&& told.ai.stage == stage
                &&& told.ai.progress == text
                &&& session is Some ==> told.ai.session_id == session
                &&& session is None ==> told.ai.session_id == m.ai.session_id
                &&& told.ai.instruction == m.ai.instruction
                &&& told.ai.preview == m.ai.preview
                &&& done.ai.preview == Some(preview)
                &&& done.ai.stage == SourceAiStage::Proposal
                &&& done.ai.instruction == m.ai.instruction
                &&& failed.ai.preview is None
                &&& failed.ai.stage == SourceAiStage::Error
                &&& failed.ai.progress == text
                &&& failed.ai.instruction == m.ai.instruction
            }
            &&& told.queue == m.queue && done.queue == m.queue && failed.queue == m.queue
        }),
{
}

/// Closing the layer calls off the scan and the agent that still work, by their
/// generations, and forgets what was typed.
pub proof fn closing_calls_off_the_work(m: SourceModel, sources: Seq<SourceItem>)
    requires
        !m.path.scanning,
        m.path.candidates.len() == 0,
        !m.return_to_existing,
        m.queue.items.filter(is_discovery()).len() < 4,
        m.queue.items.filter(is_agents()).len() < 8,
        m.queue.items.len() + 2 <= m.queue.cap,
    ensures
        ({
            let (after, outcome) = m.dismissed(sources);
            let works = m.ai.stage != SourceAiStage::Input && m.ai.stage != SourceAiStage::Error;
            let scan = SourceAsk::CancelScan { generation: m.discovery.generation as u64 };
            let agent = SourceAsk::AiCancel { generation: m.ai.generation as u64 };
            &&& outcome == Outcome::Close
            &&& !after.open
            &&& after.draft.len() == 0
            &&& after.discovery.query.len() == 0
            &&& after.ai.instruction.len() == 0
            &&& after.ai.preview is None
            &&& m.discovery.scanning && works ==> after.queue.items == m.queue.items.push(scan).push(
                agent,
            )
            &&& m.discovery.scanning && !works ==> after.queue.items == m.queue.items.push(scan)
            &&& !m.discovery.scanning && works ==> after.queue.items == m.queue.items.push(agent)
            &&& !m.discovery.scanning && !works ==> after.queue.items == m.queue.items
        }),
{
    each_kind_is_taken_whole(m.queue.items);
    one_more(
        m.queue.items,
        SourceAsk::CancelScan { generation: m.discovery.generation as u64 },
        RequestKind::Ai,
    );
}

/// Dismissal closes completed paths first and keeps the draft; then it goes back
/// to the list that the layer came from.
pub proof fn dismissal_goes_inside_out(m: SourceModel, sources: Seq<SourceItem>)
    ensures
        m.path.candidates.len() > 0 ==> m.dismissed(sources).0.path.candidates.len() == 0
            && m.dismissed(sources).0.draft == m.draft && m.dismissed(sources).0.open == m.open
            && m.dismissed(sources).1 == Outcome::Consumed,
        m.path.candidates.len() == 0 && !m.path.scanning && m.mode != SourceDialogMode::Existing
            && m.return_to_existing && sources.len() > 0 ==> m.dismissed(sources).0.mode
            == SourceDialogMode::Existing && m.dismissed(sources).0.open == m.open
            && m.dismissed(sources).1 == Outcome::Consumed,
{
    reveal(SourceModel::mode_set);
}

/// The layer opens on the list where it is asked for and there are sources, and
/// on adding one otherwise; the selection is one of the sources.
pub proof fn opening_shows_what_was_asked(
    m: SourceModel,
    params: SourceOpen,
    count: int,
    geometry: SourceGeometry,
)
    requires
        count >= 0,
        m.existing_selected >= 0,
    ensures
        ({
            let after = m.opened(params, count, geometry);
            &&& after.open
            &&& after.mode == if params == SourceOpen::Existing && count > 0 {
                SourceDialogMode::Existing
            } else {
                SourceDialogMode::Manual
            }
            &&& after.draft == m.draft
            &&& after.kind == m.kind
            &&& after.control == SourceControl::Input
            &&& !after.confirm_remove
            &&& m.existing_selected < count ==> after.existing_selected == m.existing_selected
            &&& m.existing_selected >= count > 0 ==> after.existing_selected == count - 1
            &&& after.queue == m.queue
        }),
{
}

/// Once a source was removed, the selection stays among those left, and where
/// none is left one can be added.
pub proof fn removal_keeps_a_selection(m: SourceModel, count: int)
    requires
        count >= 0,
        m.existing_selected >= 0,
    ensures
        ({
            let after = m.source_removed(count);
            &&& !after.confirm_remove
            &&& count == 0 ==> after.mode == SourceDialogMode::Manual && after.existing_selected
                == 0 && after.control == SourceControl::Input
            &&& count > 0 ==> after.mode == m.mode && after.existing_selected == if
                m.existing_selected < count {
                m.existing_selected
            } else {
                count - 1
            }
        }),
{
}

/// Old sources that cannot be opened are shown or hidden in turn, with the
/// highlight among those shown.
pub proof fn older_sources_are_toggled(
    m: SourceModel,
    key: KeyEvent,
    ctx: SourceContext<'_>,
    shown: Seq<usize>,
)
    requires
        goes_down(key),
        key.code == KeyCode::Char('u'),
        key.modifiers.alt && !key.modifiers.control,
        m.mode == SourceDialogMode::Discovery,
        m.discovery.selected >= 0,
        is_filtered(
            m.discovery.items,
            m.discovery.query,
            !m.discovery.show_older,
            ctx.now,
            shown,
        ),
    ensures
        ({
            let after = m.after_key(key, ctx).0;
            &&& after.discovery.show_older == !m.discovery.show_older
            &&& after.discovery.items == m.discovery.items
            &&& m.discovery.selected < shown.len() ==> after.discovery.selected
                == m.discovery.selected
            &&& m.discovery.selected >= shown.len() > 0 ==> after.discovery.selected == shown.len()
                - 1
        }),
{
    let turned = DiscoveryModel { show_older: !m.discovery.show_older, ..m.discovery };
    let other = shown_items(turned, ctx.now);
    filtered_is_unique(
        m.discovery.items,
        m.discovery.query,
        !m.discovery.show_older,
        ctx.now,
        shown,
        other,
    );
}

/// In a field the keys are handed to its editor.
pub proof fn keys_edit_the_field(m: SourceModel, key: KeyEvent, ctx: SourceContext<'_>)
    requires
        goes_down(key),
        m.control == SourceControl::Input,
        !m.scroll_focused,
        m.mode == SourceDialogMode::Manual || m.mode == SourceDialogMode::Discovery,
    ensures
        ({
            let plain = !key.modifiers.control && !key.modifiers.alt && !key.modifiers.other;
            let (after, step) = m.after_key(key, ctx);
            &&& key.code matches KeyCode::Char(ch) ==> (plain ==> after == m && step == Step::Edit(
                EditCommand::Insert(ch),
            ))
            &&& key.code == KeyCode::Backspace ==> after == m && step == Step::Edit(
                EditCommand::Backspace,
            )
            &&& plain && !key.modifiers.shift && key.code == KeyCode::Left ==> step == Step::Edit(
                EditCommand::MoveLeft,
            )
            &&& plain && !key.modifiers.shift && key.code == KeyCode::Right ==> step == Step::Edit(
                EditCommand::MoveRight,
            )
        }),
{
}

/// A path that is typed is handed over to be completed once the typing has paused
/// for thirty-five milliseconds, and not before.
pub proof fn completion_waits_for_a_pause(m: SourceModel, clock: int, later: int)
    requires
        m.mode == SourceDialogMode::Manual,
        m.kind == SourceKind::File,
        m.draft.len() > 0,
        0 <= clock <= later,
        clock + 35 <= u64::MAX,
    ensures
        m.completion_scheduled(clock).completions_ready(later) <==> later >= clock + 35,
{
}

/// Tab goes through the controls of the mode in their order.
pub proof fn tab_follows_the_order(m: SourceModel, key: KeyEvent, ctx: SourceContext<'_>)
    requires
        goes_down(key),
        !key.modifiers.control,
        key.code == KeyCode::Tab,
    ensures
        ({
            let after = m.after_key(key, ctx).0;
            &&& m.mode == SourceDialogMode::Existing ==> after.control == match m.control {
                SourceControl::Input => SourceControl::Add,
                SourceControl::Add => SourceControl::Restart,
                SourceControl::Restart => SourceControl::Remove,
                SourceControl::Remove => SourceControl::Input,
                _ => after.control,
            }
            &&& m.mode == SourceDialogMode::Manual ==> after.control == match m.control {
                SourceControl::Input => SourceControl::Manual,
                SourceControl::Manual => SourceControl::Discovery,
                SourceControl::Discovery => SourceControl::Agent,
                SourceControl::Agent => SourceControl::File,
                SourceControl::File => SourceControl::Command,
                SourceControl::Command => SourceControl::Input,
                _ => after.control,
            }
            &&& m.mode == SourceDialogMode::Discovery ==> after.control == match m.control {
                SourceControl::Input => SourceControl::Manual,
                SourceControl::Manual => SourceControl::Discovery,
                SourceControl::Discovery => SourceControl::Agent,
                SourceControl::Agent => SourceControl::Refresh,
                SourceControl::Refresh => SourceControl::Input,
                _ => after.control,
            }
            &&& after.draft == m.draft && after.queue == m.queue && after.mode == m.mode
        }),
{
    let list = visible_controls(m.mode);
    assert forall|k: int| 0 <= k < list.len() && list[k] == m.control implies place_or_start(
        list,
        m.control,
    ) == k by {
        distinct_item_is_found(list, k);
    }
    if list.contains(m.control) {
        let k = choose|k: int| 0 <= k < list.len() && list[k] == m.control;
        ring_goes_round(k, list.len() as int);
    }
}

/// With the selector in focus Left and Right go from mode to mode, and round.
pub proof fn arrows_turn_the_selector(m: SourceModel, key: KeyEvent, ctx: SourceContext<'_>)
    requires
        goes_down(key),
        m.controls_focused,
        m.control != SourceControl::Input,
        m.mode != SourceDialogMode::Existing,
        key.modifiers == (Modifiers { shift: false, control: false, alt: false, other: false }),
    ensures
        ({
            let after = m.after_key(key, ctx).0;
            &&& key.code == KeyCode::Right ==> after.mode == match m.mode {
                SourceDialogMode::Manual => SourceDialogMode::Discovery,
                SourceDialogMode::Discovery => SourceDialogMode::Ai,
                _ => SourceDialogMode::Manual,
            }
            &&& key.code == KeyCode::Left ==> after.mode == match m.mode {
                SourceDialogMode::Manual => SourceDialogMode::Ai,
                SourceDialogMode::Discovery => SourceDialogMode::Manual,
                _ => SourceDialogMode::Discovery,
            }
        }),
{
    reveal(SourceModel::scan_started);
    let list = adding_modes();
    assert(list[0] == SourceDialogMode::Manual && list[1] == SourceDialogMode::Discovery && list[2]
        == SourceDialogMode::Ai);
    let k: int = match m.mode {
        SourceDialogMode::Manual => 0,
        SourceDialogMode::Discovery => 1,
        _ => 2,
    };
    distinct_item_is_found(list, k);
    ring_goes_round(k, 3);
}

/// The pane of the list and that of a scan scroll a row at a time within their
/// limits, by the wheel over them and by the arrows where they have the focus.
pub proof fn panes_are_scrolled(m: SourceModel, key: KeyEvent, ctx: SourceContext<'_>)
    requires
        goes_down(key),
        m.mode == SourceDialogMode::Existing || m.mode == SourceDialogMode::Discovery,
        0 <= m.existing_scroll <= m.existing_scroll_limit,
        0 <= m.discovery.status_scroll <= m.discovery.status_scroll_limit,
    ensures
        ({
            let existing = m.mode == SourceDialogMode::Existing;
            let at = if existing {
                m.existing_scroll
            } else {
                m.discovery.status_scroll
            };
            let limit = if existing {
                m.existing_scroll_limit
            } else {
                m.discovery.status_scroll_limit
            };
            let down = if at < limit {
                at + 1
            } else {
                at
            };
            let wheel = m.after_mouse(MouseEventKind::ScrollDown, Some(SourceHit::Scroll), ctx);
            let after = m.after_key(key, ctx).0;
            &&& existing ==> wheel.existing_scroll == down
            &&& !existing ==> wheel.discovery.status_scroll == down
            &&& m.scroll_focused && key.code == KeyCode::Down && existing ==> after.existing_scroll
                == down && after.existing_selected == m.existing_selected
            &&& m.scroll_focused && key.code == KeyCode::Down && !existing
                ==> after.discovery.status_scroll == down && after.discovery.selected
                == m.discovery.selected
            &&& m.after_mouse(
                MouseEventKind::LeftDown,
                Some(SourceHit::Scroll),
                ctx,
            ).scroll_focused
        }),
{
}

/// Control with d turns to the scan and back, and Control with r scans anew.
pub proof fn control_keys_scan(m: SourceModel, key: KeyEvent, ctx: SourceContext<'_>)
    requires
        goes_down(key),
        key.modifiers.control,
    ensures
        key.code == KeyCode::Char('d') ==> m.after_key(key, ctx).0 == m.after_command(
            CommandId::DiscoverSources,
        ).0,
        key.code == KeyCode::Char('r') ==> m.after_key(key, ctx).0 == m.scan_started(),
{
}

/// The first button of a form does what Enter in its field does.
pub proof fn first_button_submits(m: SourceModel, key: KeyEvent, ctx: SourceContext<'_>)
    requires
        goes_down(key),
        key.code == KeyCode::Enter,
        m.mode != SourceDialogMode::Existing,
        m.control == SourceControl::Input,
        !m.controls_focused,
    ensures
        m.action_pressed(0, ctx).0 == m.after_key(key, ctx).0,
{
}

/// Going back to the list calls off the scan and the agent that still work, and
/// keeps what was typed.
pub proof fn going_back_calls_off_the_work(m: SourceModel, sources: Seq<SourceItem>)
    requires
        !m.path.scanning,
        m.path.candidates.len() == 0,
        m.mode != SourceDialogMode::Existing,
        m.return_to_existing,
        sources.len() > 0,
        m.queue.items.filter(is_discovery()).len() < 4,
        m.queue.items.filter(is_agents()).len() < 8,
        m.queue.items.len() + 2 <= m.queue.cap,
    ensures
        ({
            let after = m.dismissed(sources).0;
            let works = m.ai.stage != SourceAiStage::Input && m.ai.stage != SourceAiStage::Error;
            &&& after.draft == m.draft
            &&& m.discovery.scanning ==> after.queue.items.contains(
                SourceAsk::CancelScan { generation: m.discovery.generation as u64 },
            )
            &&& works ==> after.queue.items.contains(
                SourceAsk::AiCancel { generation: m.ai.generation as u64 },
            )
        }),
{
    reveal(SourceModel::mode_set);
    each_kind_is_taken_whole(m.queue.items);
    let scan = SourceAsk::CancelScan { generation: m.discovery.generation as u64 };
    let agent = SourceAsk::AiCancel { generation: m.ai.generation as u64 };
    one_more(m.queue.items, scan, RequestKind::Ai);
    let quiet = m.work_cancelled().queue.items;
    if m.discovery.scanning {
        assert(quiet[m.queue.items.len() as int] == scan);
        others_stay(quiet, m.queue.items.len() as int);
    }
    if m.ai.stage != SourceAiStage::Input && m.ai.stage != SourceAiStage::Error {
        assert(quiet.last() == agent);
        others_stay(quiet, quiet.len() - 1);
    }
}

proof fn others_stay(items: Seq<SourceAsk>, k: int)
    requires
        0 <= k < items.len(),
        !(items[k] is Complete),
    ensures
        but_kind(items, RequestKind::PathCompletion).contains(items[k]),
    decreases items.len(),
{
    let rest = items.drop_last();
    let kept = but_kind(rest, RequestKind::PathCompletion);
    let all = but_kind(items, RequestKind::PathCompletion);
    if k == items.len() - 1 {
        assert(all.last() == items[k]);
    } else {
        others_stay(rest, k);
        let j = choose|j: int| 0 <= j < kept.len() && kept[j] == rest[k];
        assert(all[j] == items[k]);
    }
}

/// A launch that failed is told where its draft is still shown.
pub proof fn failed_launch_is_told(
    m: SourceModel,
    kind: SourceKind,
    text: Seq<char>,
    message: Seq<char>,
    generation: int,
)
    ensures
        m.shows_launch(kind, text) <==> m.open && m.kind == kind && m.draft == text,
        m.failed(message).error == Some(message),
        m.failed(message).draft == m.draft,
        m.failed(message).queue == m.queue,
        m.shows_discovery(generation) <==> m.open && m.mode == SourceDialogMode::Discovery
            && m.discovery.generation == generation,
        m.ai_matches(generation) <==> m.open && m.ai.generation == generation,
{
}

/// A request is read as it is written, each part under its own name.
pub proof fn request_is_read_as_written(
    launch: SourceLaunchRequest,
    completion: PathCompletionRequest,
    generation: u64,
    text: String,
    provider: String,
    mode: String,
    thinking: String,
)
    ensures
        ask_of(SourceRequest::Launch(launch)) == (SourceAsk::Launch {
            kind: launch.kind,
            text: launch.text@,
        }),
        ask_of(SourceRequest::PathCompletion(completion)) == (SourceAsk::Complete {
            generation: completion.generation,
            draft: completion.draft@,
        }),
        ask_of(SourceRequest::Discovery(DiscoveryUiRequest::Scan { generation })) == (
        SourceAsk::Scan { generation }),
        ask_of(SourceRequest::Discovery(DiscoveryUiRequest::Cancel { generation })) == (
        SourceAsk::CancelScan { generation }),
        ask_of(SourceRequest::Discovery(DiscoveryUiRequest::Select { generation, key: text })) == (
        SourceAsk::Select { generation, key: text@ }),
        ask_of(
            SourceRequest::Ai(
                (SourceAiRequest::Start {
                    generation,
                    instruction: text,
                    provider,
                    mode,
                    thinking,
                }),
            ),
        ) == (SourceAsk::AiStart {
            generation,
            instruction: text@,
            provider: provider@,
            mode: mode@,
            thinking: thinking@,
        }),
        ask_of(SourceRequest::Ai(SourceAiRequest::Apply { generation })) == (SourceAsk::AiApply {
            generation,
        }),
        ask_of(SourceRequest::Ai(SourceAiRequest::Cancel { generation })) == (SourceAsk::AiCancel {
            generation,
        }),
        ask_of(SourceRequest::Manage(SourceManagementRequest::Restart { source_id: text })) == (
        SourceAsk::Restart { source_id: text@ }),
        ask_of(SourceRequest::Manage(SourceManagementRequest::Remove { source_id: text })) == (
        SourceAsk::Remove { source_id: text@ }),
{
}

/// So is the state of the dialog.
pub proof fn state_is_read_as_written(state: SourceDialogState, i: int)
    ensures
        state.discovery_model().query == state.discovery.query@,
        state.discovery_model().items == state.discovery.items@,
        state.discovery_model().selected == state.discovery.selected,
        state.discovery_model().generation == state.discovery.generation,
        state.discovery_model().scanning == state.discovery.scanning,
        state.discovery_model().status == state.discovery.status@,
        state.discovery_model().show_older == state.discovery.show_older_unavailable,
        state.path_model().selected == state.path_completion.selected,
        state.path_model().generation == state.path_completion.generation,
        state.path_model().scanning == state.path_completion.scanning,
        state.path_model().candidates.len() == state.path_completion.candidates@.len(),
        0 <= i < state.path_completion.candidates@.len() ==> state.path_model().candidates[i]
            == state.path_completion.candidates@[i]@,
        state.ai_model().instruction == state.ai.instruction@,
        state.ai_model().generation == state.ai.generation,
        state.ai_model().stage == state.ai.stage,
        state.ai_model().progress == state.ai.progress@,
        state.ai_model().preview == state.ai.preview,
{
}

/// What was typed is what is launched: Enter after an edit launches exactly the
/// typed text, as a file or as a command, whichever is chosen.
pub proof fn typed_source_is_launched(
    m: SourceModel,
    value: Seq<char>,
    cursor: int,
    key: KeyEvent,
    ctx: SourceContext<'_>,
)
    requires
        goes_down(key),
        key.code == KeyCode::Enter,
        m.mode == SourceDialogMode::Manual,
        m.control == SourceControl::Input,
        !m.scroll_focused,
        value.len() > 0,
        m.kind == SourceKind::File ==> value.last() != '/',
        m.queue.items.filter(is_launch()).len() < 8,
        m.queue.items.len() + 1 < m.queue.cap,
        0 <= m.next_path <= u64::MAX,
    ensures
        m.edited(value, cursor, true, ctx.clock as int).after_key(key, ctx).0.queue.items.last() == (
        SourceAsk::Launch { kind: m.kind, text: value }),
{
    let typed = m.edited(value, cursor, true, ctx.clock as int);
    let ask = SourceAsk::Complete { generation: m.next_path as u64, draft: value };
    let kept = but_kind(m.queue.items, RequestKind::PathCompletion);
    typing_fills_its_field(m, value, cursor, ctx.clock as int);
    each_kind_is_taken_whole(m.queue.items);
    each_kind_is_taken_whole(typed.queue.items);
    others_are_left(m.queue.items);
    one_more(kept, ask, RequestKind::Launch);
    enter_launches_the_draft(typed, key, ctx);
}

/// Completions that came are taken one by one: Down as often as it takes and Enter
/// make the draft the completion that is then highlighted.
pub proof fn second_completion_is_taken(
    m: SourceModel,
    candidates: Seq<Seq<char>>,
    down: KeyEvent,
    enter: KeyEvent,
    ctx: SourceContext<'_>,
)
    requires
        goes_down(down) && goes_down(enter),
        down.code == KeyCode::Down,
        down.modifiers == (Modifiers { shift: false, control: false, alt: false, other: false }),
        enter.code == KeyCode::Enter,
        m.open,
        types_a_path(m),
        candidates.len() >= 2,
        m.queue.items.len() < m.queue.cap,
        0 <= m.next_path <= u64::MAX,
    ensures
        ({
            let came = m.path_completed(m.path.generation, m.draft, candidates, None).0;
            let first = came.after_key(enter, ctx).0;
            let second = came.after_key(down, ctx).0.after_key(enter, ctx).0;
            first.draft == candidates[0] && second.draft == candidates[1]
        }),
{
    let came = m.path_completed(m.path.generation, m.draft, candidates, None).0;
    enter_takes_the_highlighted_path(came, enter, ctx);
    paths_are_walked(came, down, ctx);
    enter_takes_the_highlighted_path(came.after_key(down, ctx).0, enter, ctx);
}

} // verus!
