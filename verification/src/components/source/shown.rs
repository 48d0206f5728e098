//! What the Source layer shows.

use super::{
    SourceAiPreview, SourceAiStage, SourceControl, SourceDialogMode, SourceItem, SourceKind,
    SourceModel,
};
use super::frame::{
    candidate_regions, environment_lines, kind_regions, named_row, proposals_lines, review,
    selection_row, selector_regions, ManualRest,
};
use crate::component::MessageState;
use crate::components::discovery::DiscoveryDisplayRow;
use crate::geometry::Rect;
use crate::text::texts;
use super::render::SourceSheet;
use crate::components::storage::row_marker;
use crate::paint::is_text;
use vstd::prelude::*;

verus! {

/// Each button is named for what it does, and the one that Enter does by default is
/// the second in the list of sources and the first elsewhere.
pub proof fn buttons_are_named_for_their_work(m: SourceModel)
    ensures
        m.mode == SourceDialogMode::Existing ==> m.labels(false) == seq![
            "&Add source"@,
            "&Restart"@,
            "Re&move"@,
        ] && m.action_control(0) == Some(SourceControl::Add) && m.action_control(1) == Some(
            SourceControl::Restart,
        ) && m.action_control(2) == Some(SourceControl::Remove) && m.default_action() == 1,
        m.mode == SourceDialogMode::Discovery ==> m.labels(false) == seq!["&Open"@, "&Rescan"@]
            && m.action_control(0) == Some(SourceControl::Input) && m.action_control(1) == Some(
            SourceControl::Refresh,
        ) && m.default_action() == 0,
        m.mode == SourceDialogMode::Manual ==> m.labels(false) == seq!["&Open"@]
            && m.action_control(0) == Some(SourceControl::Input) && m.default_action() == 0,
        m.mode == SourceDialogMode::Ai ==> m.labels(false).len() == 1 && m.action_control(0)
            == Some(SourceControl::Input) && m.default_action() == 0,
{
}

/// The pane of the list shows the selected source: its name, its identity and its
/// status.
pub proof fn pane_shows_the_selected_source(m: SourceModel, sources: Seq<SourceItem>, now: i64)
    requires
        m.mode == SourceDialogMode::Existing,
        0 <= m.existing_selected < sources.len(),
    ensures
        m.pane_text(sources, now) == seq![
            "Name: "@ + sources[m.existing_selected].name@,
            "Source ID: "@ + sources[m.existing_selected].id@,
            "Status: "@ + sources[m.existing_selected].health@,
        ],
{
}

/// The pane of a scan shows the discovered source that is highlighted, and what
/// the scan reported.
pub proof fn report_shows_the_highlighted_source(m: SourceModel, shown: Seq<usize>)
    requires
        0 <= m.discovery.selected < shown.len(),
        shown[m.discovery.selected] < m.discovery.items.len(),
    ensures
        ({
            let item = m.discovery.items[shown[m.discovery.selected] as int];
            m.report(shown) == item.label@ + " \u{b7} "@ + item.detail@ + "\n"@
                + m.discovery.status
        }),
{
}

/// A proposal is reviewed whole: of each source its kind, how it is launched, where
/// and whether again, and the environment; then the reason.
pub proof fn proposal_is_reviewed_whole(
    preview: SourceAiPreview,
    session: Option<Seq<char>>,
)
    requires
        preview.sources@.len() == 1,
    ensures
        ({
            let source = preview.sources@[0];
            let lines = review(Some(preview), session);
            &&& lines[0] == "Name: "@ + source.name@
            &&& lines[1] == "Kind: "@ + source.kind@
            &&& lines[2] == "Launch: "@ + source.launch@
            &&& lines[3] == "Effective path/cwd: "@ + source.effective_path_or_cwd@
            &&& lines[4] == "Restart: "@ + source.restart@
            &&& session is None ==> lines.last() == "Why: "@ + preview.explanation@
            &&& session is Some ==> lines.last() == "Local session: "@ + session->0
            &&& forall|i: int|
                0 <= i < source.environment@.len() ==> #[trigger] lines[5 + i] == "Env: "@
                    + source.environment@[i]@
        }),
{
    reveal_with_fuel(proposals_lines, 2);
    let source = preview.sources@[0];
    let lines = review(Some(preview), session);
    let env = environment_lines(texts(source.environment@));
    assert forall|i: int| 0 <= i < source.environment@.len() implies #[trigger] lines[5 + i]
        == "Env: "@ + source.environment@[i]@ by {
        assert(env[i] == "Env: "@ + texts(source.environment@)[i]);
        assert(lines[5 + i] == env[i]);
    }
}

/// An error is shown before anything else; removing asks for its confirmation.
pub proof fn errors_are_shown_first(m: SourceModel)
    ensures
        m.error is Some ==> m.message().0 == MessageState::Error && m.error->0.is_prefix_of(
            m.message().1,
        ),
        m.error is None && m.mode == SourceDialogMode::Existing && m.confirm_remove ==> m.message()
            == (
            MessageState::Updating,
            "press Remove or Delete again to confirm; captured data stays on disk"@,
        ),
        m.error is None && m.mode == SourceDialogMode::Ai && m.ai.stage == SourceAiStage::Error
            ==> m.message().0 == MessageState::Error && m.ai.progress.is_prefix_of(m.message().1),
{
    if m.error is Some {
        let text = m.message().1;
        assert(text.take(m.error->0.len() as int) =~= m.error->0);
    } else if m.mode == SourceDialogMode::Ai {
        let text = m.message().1;
        assert(text.take(m.ai.progress.len() as int) =~= m.ai.progress);
    }
}

/// A row of a discovered source highlights the source that it shows.
pub proof fn row_highlights_its_source(
    rows: Seq<DiscoveryDisplayRow>,
    first: int,
    rects: Seq<Rect>,
    n: int,
    k: int,
)
    requires
        0 <= k < n <= rects.len(),
        0 <= first,
        first + k < rows.len(),
        rows[first + k] is Candidate,
    ensures
        candidate_regions(rows, first, rects, n).contains(
            (rects[k], rows[first + k]->selection),
        ),
    decreases n,
{
    let before = candidate_regions(rows, first, rects, n - 1);
    let after = candidate_regions(rows, first, rects, n);
    if k == n - 1 {
        assert(after.last() == (rects[k], rows[first + k]->selection));
    } else {
        row_highlights_its_source(rows, first, rects, n - 1, k);
        let j = choose|j: int|
            0 <= j < before.len() && before[j] == (rects[k], rows[first + k]->selection);
        assert(after[j] == before[j]);
    }
}

/// The highlighted source is found in the row that shows it.
pub proof fn highlighted_row_is_found(rows: Seq<DiscoveryDisplayRow>, selected: usize, k: int, from: int)
    requires
        0 <= from <= k < rows.len(),
        rows[k] is Candidate && rows[k]->selection == selected,
        forall|i: int|
            from <= i < k ==> !((#[trigger] rows[i]) is Candidate && rows[i]->selection == selected),
    ensures
        selection_row(rows, selected, from) == Some(k),
    decreases k - from,
{
    if from < k {
        highlighted_row_is_found(rows, selected, k, from + 1);
    }
}

/// The selectors turn to the manual form, the scan and the agent, and to a file and
/// a command, in this order.
pub proof fn selectors_stand_in_their_order(modes: Seq<Rect>, kinds: Seq<Rect>)
    requires
        modes.len() == 3,
        kinds.len() == 2,
    ensures
        selector_regions(modes) == seq![
            (modes[0], SourceControl::Manual),
            (modes[1], SourceControl::Discovery),
            (modes[2], SourceControl::Agent),
        ],
        kind_regions(kinds) == seq![
            (kinds[0], SourceControl::File),
            (kinds[1], SourceControl::Command),
        ],
{
    assert(selector_regions(modes) =~= seq![
        (modes[0], SourceControl::Manual),
        (modes[1], SourceControl::Discovery),
        (modes[2], SourceControl::Agent),
    ]);
    assert(kind_regions(kinds) =~= seq![
        (kinds[0], SourceControl::File),
        (kinds[1], SourceControl::Command),
    ]);
}

/// Below the manual form stand the completed paths where there are any, and never
/// for a command.
pub proof fn completed_paths_are_offered(m: SourceModel, height: int)
    requires
        height > 0,
        !m.path.scanning,
        m.path.candidates.len() <= usize::MAX,
    ensures
        m.kind == SourceKind::Command ==> m.manual_rest(height) == ManualRest::CommandNote,
        m.kind == SourceKind::File && m.path.candidates.len() > 0 ==> m.manual_rest(height)
            == ManualRest::Suggestions(m.path.candidates.len() as usize),
        m.kind == SourceKind::File && m.path.candidates.len() == 0 ==> m.manual_rest(height)
            == (ManualRest::NoSuggestions { typed: m.draft.len() > 0 }),
{
}

/// Each row of the list is drawn with the name and the status of the source that
/// a click on it selects.
pub proof fn row_draws_its_source(m: SourceModel, s: SourceSheet<'_>, n: int, k: int)
    requires
        0 <= k < n,
    ensures
        m.source_rows_part(s, n).len() == n,
        is_text(
            m.source_rows_part(s, n)[k],
            m.source_rows(s)[k].0,
            named_row(
                m.source_rows(s)[k].1 == m.drawn_source(s),
                s.ascii,
                s.sources@[m.source_rows(s)[k].1 as int].name@,
                s.sources@[m.source_rows(s)[k].1 as int].health@,
            ),
        ),
    decreases n,
{
    if n - 1 > 0 {
        row_draws_its_source(m, s, n - 1, if k < n - 1 {
            k
        } else {
            0
        });
    } else {
        assert(m.source_rows_part(s, 0).len() == 0);
    }
}

/// Each row of the completed paths is drawn with the path that a click on it
/// highlights.
pub proof fn row_draws_its_path(m: SourceModel, s: SourceSheet<'_>, n: int, k: int)
    requires
        0 <= k < n,
    ensures
        m.candidate_rows_part(s, n).len() == n,
        is_text(
            m.candidate_rows_part(s, n)[k],
            m.candidate_rows(s)[k].0,
            row_marker(
                m.candidate_rows(s)[k].1 == m.drawn_candidate(),
                s.ascii,
            ) + m.path.candidates[m.candidate_rows(s)[k].1 as int],
        ),
    decreases n,
{
    if n - 1 > 0 {
        row_draws_its_path(m, s, n - 1, if k < n - 1 {
            k
        } else {
            0
        });
    } else {
        assert(m.candidate_rows_part(s, 0).len() == 0);
    }
}

/// A row of a discovered source is drawn with its label and its status, and with
/// the mark where it is highlighted.
pub proof fn row_draws_its_discovery(
    m: SourceModel,
    s: SourceSheet<'_>,
    row: Rect,
    item: usize,
    selection: usize,
)
    ensures
        is_text(
            m.found_row_part(s, row, (DiscoveryDisplayRow::Candidate { item, selection })),
            row,
            named_row(
                selection == m.drawn_found(s),
                s.ascii,
                m.discovery.items[item as int].label@,
                m.discovery.items[item as int].status@,
            ),
        ),
        named_row(true, true, "a"@, "b"@) == "> "@ + "a"@ + "  "@ + "b"@,
        named_row(false, true, "a"@, "b"@) == "  "@ + "a"@ + "  "@ + "b"@,
{
}

} // verus!
