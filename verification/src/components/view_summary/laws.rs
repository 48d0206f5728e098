//! What holds of the View summary as a whole.

use super::{
    applies, in_one_line, row_label, source_name, GroupingSpec, SummaryEntry, SummaryRow, ViewOrder,
    ViewRole, ViewState,
};
use super::frame::{
    applied_operations, entry_text, stale_step, SummaryControl, SummaryHit, SummaryModel,
};
use crate::component::{Open, Outcome};
use crate::components::source::SourceItem;
use crate::components::time::{CaptureTimePolicy, TimeBasis};
use crate::input::{KeyCode, KeyEvent, KeyEventKind, MouseEventKind};
use crate::text::{core_is_left, decimal, is_core, texts};
use crate::paint::is_text;
use super::render::SummaryFrame;
use vstd::prelude::*;

verus! {

/// A key goes down, first or by repetition.
pub open spec fn goes_down(key: KeyEvent) -> bool {
    key.kind == KeyEventKind::Press || key.kind == KeyEventKind::Repeat
}

/// A text in one line is the text with a sign for each break: a text without
/// breaks is kept letter for letter, and texts are put into one line part by part.
pub proof fn one_line_keeps_the_letters(text: Seq<char>, more: Seq<char>)
    ensures
        !text.contains('\n') ==> in_one_line(text) == text,
        in_one_line(text + more) == in_one_line(text) + in_one_line(more),
        in_one_line(seq!['\n']) == " \u{23ce} "@,
    decreases more.len(),
{
    reveal_with_fuel(in_one_line, 2);
    assert(seq!['\n'].drop_last() =~= Seq::<char>::empty());
    assert(Seq::<char>::empty() + " \u{23ce} "@ =~= " \u{23ce} "@);
    if !text.contains('\n') {
        letters_are_kept(text);
    }
    if more.len() == 0 {
        assert(text + more =~= text);
        assert(in_one_line(text) + in_one_line(more) =~= in_one_line(text));
    } else {
        one_line_keeps_the_letters(text, more.drop_last());
        assert((text + more).drop_last() =~= text + more.drop_last());
        assert((text + more).last() == more.last());
        assert(in_one_line(text + more) =~= in_one_line(text) + in_one_line(more));
    }
}

proof fn letters_are_kept(text: Seq<char>)
    requires
        !text.contains('\n'),
    ensures
        in_one_line(text) == text,
    decreases text.len(),
{
    if text.len() == 0 {
        assert(in_one_line(text) =~= text);
    } else {
        assert(text.last() == text[text.len() - 1]);
        assert forall|i: int| 0 <= i < text.len() - 1 implies text.drop_last()[i] != '\n' by {
            assert(text.drop_last()[i] == text[i]);
        }
        letters_are_kept(text.drop_last());
        assert(text.drop_last().push(text.last()) =~= text);
    }
}

/// Search and the filter each show their own text, without the white space round
/// it, and show nothing where it is blank.
pub proof fn each_setting_shows_its_own_text(
    state: ViewState,
    sources: Seq<SourceItem>,
    order: Option<ViewOrder>,
    ascii: bool,
    lead: Seq<char>,
    core: Seq<char>,
    tail: Seq<char>,
)
    requires
        !core.contains('\n'),
    ensures
        is_core(state.search.applied@, lead, core, tail) ==> state.value_of(
            SummaryRow::Search,
            sources,
            order,
            ascii,
        ) == if core.len() > 0 {
            Some(core)
        } else {
            None
        },
        is_core(state.advanced.applied@, lead, core, tail) ==> state.value_of(
            SummaryRow::Filter,
            sources,
            order,
            ascii,
        ) == if core.len() > 0 {
            Some(core)
        } else {
            None
        },
        is_core(state.grouping.applied@, lead, core, tail) && core.len() == 0 ==> state.value_of(
            SummaryRow::Grouping,
            sources,
            order,
            ascii,
        ) is None,
        is_core(state.grouping.applied@, lead, core, tail) && core.len() > 0 && state.grouping_spec
            == Some(GroupingSpec::Custom) ==> state.value_of(
            SummaryRow::Grouping,
            sources,
            order,
            ascii,
        ) == Some(core),
{
    letters_are_kept(core);
    if is_core(state.search.applied@, lead, core, tail) {
        core_is_left(state.search.applied@, lead, core, tail);
    }
    if is_core(state.advanced.applied@, lead, core, tail) {
        core_is_left(state.advanced.applied@, lead, core, tail);
    }
    if is_core(state.grouping.applied@, lead, core, tail) {
        core_is_left(state.grouping.applied@, lead, core, tail);
    }
}

/// The time row shows the window that is applied and what it goes by: a rolling
/// one by its length, an absolute one by its bounds, and none as all times. It
/// shows nothing where neither was chosen.
pub proof fn time_row_shows_the_window(
    state: ViewState,
    sources: Seq<SourceItem>,
    order: Option<ViewOrder>,
    ascii: bool,
)
    ensures
        ({
            let value = state.value_of(SummaryRow::Time, sources, order, ascii);
            let basis = if state.time_basis == TimeBasis::Selected && state.time_field is Some {
                "field "@ + state.time_field->0@
            } else {
                state.time_basis_label@
            };
            &&& value is None <==> state.capture_time_policy is None && state.time_basis
                == TimeBasis::Capture
            &&& (state.capture_time_policy matches Some(CaptureTimePolicy::Recent { .. }))
                ==> value == Some("rolling last "@ + state.duration@ + " \u{b7} basis: "@ + basis)
            &&& (state.capture_time_policy matches Some(CaptureTimePolicy::Absolute(_)))
                ==> (state.capture_time matches Some((start, end)) ==> value == Some(
                "absolute "@ + start@ + " .. "@ + end@ + " \u{b7} basis: "@ + basis,
            ))
            &&& state.capture_time_policy is None && value is Some ==> value == Some(
                "all times"@ + " \u{b7} basis: "@ + basis,
            )
        }),
{
}

/// The name of a source is that of the first source of its identity, and a source
/// that is not known goes by its identity.
pub proof fn source_goes_by_its_name(sources: Seq<SourceItem>, id: Seq<char>, k: int)
    ensures
        0 <= k < sources.len() && sources[k].id@ == id && (forall|i: int|
            0 <= i < k ==> (#[trigger] sources[i]).id@ != id) ==> source_name(sources, id, 0)
            == sources[k].name@,
        (forall|i: int| 0 <= i < sources.len() ==> (#[trigger] sources[i]).id@ != id)
            ==> source_name(sources, id, 0) == id,
{
    name_is_found(sources, id, k, 0);
}

proof fn name_is_found(sources: Seq<SourceItem>, id: Seq<char>, k: int, from: int)
    requires
        0 <= from <= sources.len(),
    ensures
        from <= k < sources.len() && sources[k].id@ == id && (forall|i: int|
            from <= i < k ==> (#[trigger] sources[i]).id@ != id) ==> source_name(sources, id, from)
            == sources[k].name@,
        (forall|i: int| from <= i < sources.len() ==> (#[trigger] sources[i]).id@ != id)
            ==> source_name(sources, id, from) == id,
    decreases sources.len() - from,
{
    if from < sources.len() {
        name_is_found(sources, id, k, from + 1);
    }
}

/// The first row says what the view is and of which source, and the second names
/// its sources in their order.
pub proof fn first_rows_name_the_sources(
    state: ViewState,
    sources: Seq<SourceItem>,
    order: Option<ViewOrder>,
    ascii: bool,
)
    ensures
        ({
            let role = state.value_of(SummaryRow::Role, sources, order, ascii);
            let name = source_name(sources, state.source_id@, 0);
            &&& state.role == ViewRole::Canonical ==> role == Some(
                "All events of "@ + name + " \u{b7} fixed"@,
            )
            &&& state.role == ViewRole::Derived ==> role == Some("derived from "@ + name)
            &&& state.source_ids@.len() == 1 ==> state.value_of(
                SummaryRow::Sources,
                sources,
                order,
                ascii,
            ) == Some(source_name(sources, state.source_ids@[0]@, 0))
        }),
{
}

/// What is shown is ready only where no query and no window is on its way and no
/// command step is out of date; the first of these that holds is said.
pub proof fn readiness_says_what_is_missing(state: ViewState)
    ensures
        ({
            let pending = state.search.pending || state.advanced.pending || state.enrichment.pending
                || state.grouping.pending || state.applied_query_revision
                != state.desired_query_revision;
            let said = state.readiness();
            &&& pending ==> said
                == "query pending \u{b7} the last applied definition stays active"@
            &&& !pending && state.time_update_pending ==> said
                == "time window updating \u{b7} the last applied window stays active"@
            &&& !pending && !state.time_update_pending && state.stale_steps@.len() == 0 ==> said
                == "ready"@
            &&& !pending && !state.time_update_pending && state.stale_steps@.len() == 1 ==> said
                == "1"@ + " command step"@ + ""@ + " unrun: "@ + state.stale_steps@[0]@
        }),
{
    reveal_strlit("1");
    assert(decimal(1) =~= "1"@);
}

/// Folding, pinned columns, colours and steps are shown exactly where there are
/// any.
pub proof fn operations_show_where_applied(
    state: ViewState,
    sources: Seq<SourceItem>,
    order: Option<ViewOrder>,
    ascii: bool,
)
    ensures
        state.value_of(SummaryRow::Fold, sources, order, ascii) is Some <==> state.fold_enabled,
        state.value_of(SummaryRow::Columns, sources, order, ascii) is Some
            <==> state.pinned_columns@.len() > 0,
        state.value_of(SummaryRow::Colour, sources, order, ascii) is Some <==> state.color_field
            is Some || state.color_rules@.len() > 0,
        state.value_of(SummaryRow::Enrichment, sources, order, ascii) is Some
            <==> state.enrichments@.len() > 0,
        state.color_field is Some && state.color_rules@.len() == 0 ==> state.value_of(
            SummaryRow::Colour,
            sources,
            order,
            ascii,
        ) == Some("by "@ + state.color_field->0@),
        state.pinned_columns@.len() == 1 ==> state.value_of(
            SummaryRow::Columns,
            sources,
            order,
            ascii,
        ) == Some("pinned: "@ + state.pinned_columns@[0]@),
        state.fold_run() == if state.fold_minimum_run == 0 {
            state.fold_default_run
        } else {
            state.fold_minimum_run
        },
{
    let field = "by "@ + state.color_field->0@;
    if state.color_field is Some && state.color_rules@.len() == 0 {
        assert(seq![field] + Seq::<Seq<char>>::empty() =~= seq![field]);
    }
}

/// Enter, and a click on the button, hand over to the dialog of the selected row
/// and close the summary: each row to its own dialog.
pub proof fn row_hands_over_to_its_dialog(
    m: SummaryModel,
    key: KeyEvent,
    state: ViewState,
)
    requires
        goes_down(key),
        key.code == KeyCode::Enter,
        0 <= m.selected < 11,
    ensures
        ({
            let (after, step) = m.after_key(key, Some(state));
            let open = match m.selected as usize {
                0 => Open::View,
                1 => Open::ViewMembership,
                2 => Open::Time,
                3 => Open::Enrichment,
                4 => Open::Search,
                5 => Open::Advanced,
                6 => Open::Grouping,
                7 => Open::Grouping,
                8 => if state.pinned_columns@.len() > 0 {
                    Open::FieldColumn { column: state.pinned_columns@[0] }
                } else {
                    Open::Fields
                },
                9 => if state.color_rules@.len() > 0 || state.color_field is None {
                    Open::ColorRules
                } else {
                    Open::FieldColumn { column: state.color_field->0 }
                },
                _ => if state.stale_steps@.len() > 0 {
                    Open::Enrichment
                } else {
                    Open::View
                },
            };
            &&& !after.open
            &&& step.outcome == Outcome::Replace(open)
            &&& m.selected != 10 ==> step.enrichment_step is None
            &&& m.after_mouse(
                MouseEventKind::LeftDown,
                Some(SummaryHit::Control(SummaryControl::Open)),
                Some(state),
            ) == (after, step)
            &&& m.after_key(key, None).0 == m
        }),
{
}

/// From the readiness row the enrichment opens on the first of its steps that is
/// out of date.
pub proof fn readiness_opens_the_stale_step(m: SummaryModel, state: ViewState, k: int)
    requires
        m.selected == 10,
        0 <= k < state.enrichments@.len() <= usize::MAX,
        texts(state.stale_steps@).contains(state.enrichments@[k].source@),
        forall|i: int|
            0 <= i < k ==> !texts(state.stale_steps@).contains(
                (#[trigger] state.enrichments@[i]).source@,
            ),
    ensures
        m.handed_over(Some(state)).1.enrichment_step == Some(k as usize),
{
    step_is_found(state, k, 0);
    assert(state.stale_steps@.len() > 0);
}

proof fn step_is_found(state: ViewState, k: int, from: int)
    requires
        0 <= from <= k < state.enrichments@.len(),
        texts(state.stale_steps@).contains(state.enrichments@[k].source@),
        forall|i: int|
            0 <= i < k ==> !texts(state.stale_steps@).contains(
                (#[trigger] state.enrichments@[i]).source@,
            ),
    ensures
        stale_step(state, from) == Some(k as usize),
    decreases k - from,
{
    if from < k {
        step_is_found(state, k, from + 1);
    }
}

/// Up and Down, and the wheel, select the row before and after and stop at the
/// ends; a click selects its row.
pub proof fn rows_are_walked(m: SummaryModel, key: KeyEvent, row: usize, state: Option<ViewState>)
    requires
        goes_down(key),
        0 <= m.selected < 11,
        row < 11,
    ensures
        ({
            let after = m.after_key(key, state).0;
            let next = if m.selected < 10 {
                m.selected + 1
            } else {
                10
            };
            let back = if m.selected > 0 {
                m.selected - 1
            } else {
                0
            };
            &&& key.code == KeyCode::Down ==> after.selected == next
            &&& key.code == KeyCode::Up ==> after.selected == back
            &&& m.after_mouse(MouseEventKind::ScrollDown, None, state).0.selected == next
            &&& m.after_mouse(MouseEventKind::ScrollUp, None, state).0.selected == back
            &&& m.after_mouse(
                MouseEventKind::LeftDown,
                Some(SummaryHit::Row(row)),
                state,
            ).0.selected == row
            &&& key.code == KeyCode::Tab ==> after.control != m.control && after.selected
                == m.selected
        }),
{
}

/// The text of a row is its label and its value; the selected one alone is marked.
pub proof fn row_says_its_value(entry: SummaryEntry, chosen: bool, ascii: bool)
    ensures
        ({
            let text = entry_text(entry, chosen, ascii);
            &&& (text[0] == ' ') == !chosen
            &&& row_label(entry.row).is_prefix_of(text.skip(2))
            &&& entry.value@.is_suffix_of(text)
        }),
{
    let text = entry_text(entry, chosen, ascii);
    let label = row_label(entry.row);
    reveal_strlit("  ");
    reveal_strlit("> ");
    reveal_strlit("\u{203a} ");
    assert(text.skip(2).take(label.len() as int) =~= label);
    assert(text.skip(text.len() - entry.value@.len()) =~= entry.value@);
}

/// The rows go by the names of what they show.
pub proof fn rows_go_by_their_names()
    ensures
        row_label(SummaryRow::Role) == "View"@,
        row_label(SummaryRow::Sources) == "Sources"@,
        row_label(SummaryRow::Time) == "Time"@,
        row_label(SummaryRow::Enrichment) == "Enrichment"@,
        row_label(SummaryRow::Search) == "Search"@,
        row_label(SummaryRow::Filter) == "Advanced"@,
        row_label(SummaryRow::Grouping) == "Grouping"@,
        row_label(SummaryRow::Fold) == "Fold"@,
        row_label(SummaryRow::Columns) == "Columns"@,
        row_label(SummaryRow::Colour) == "Colour"@,
        row_label(SummaryRow::Readiness) == "Readiness"@,
{
}

/// An operation is something applied.
pub open spec fn is_applied() -> spec_fn(SummaryEntry) -> bool {
    |entry: SummaryEntry| entry.applied && applies(entry.row)
}

/// As many operations are counted as are applied.
pub proof fn applied_operations_are_counted(entries: Seq<SummaryEntry>, n: int)
    requires
        0 <= n <= entries.len(),
    ensures
        applied_operations(entries, n) == entries.take(n).filter(is_applied()).len(),
    decreases n,
{
    reveal(Seq::filter);
    if n > 0 {
        applied_operations_are_counted(entries, n - 1);
        assert(entries.take(n).drop_last() =~= entries.take(n - 1));
    }
}

/// Each row that shows is drawn with the text of the entry that a click on it
/// selects.
pub proof fn row_draws_its_entry(m: SummaryModel, f: SummaryFrame<'_>, n: int, k: int)
    requires
        0 <= k < n,
    ensures
        m.rows_part(f, n).len() == n,
        is_text(
            m.rows_part(f, n)[k],
            m.rows(f.entries@.len() as int, f.pane.viewport)[k].0,
            entry_text(
                f.entries@[m.rows(f.entries@.len() as int, f.pane.viewport)[k].1 as int],
                m.rows(f.entries@.len() as int, f.pane.viewport)[k].1 == m.drawn(
                    f.entries@.len() as int,
                ),
                f.ascii,
            ),
        ),
    decreases n,
{
    if n - 1 > 0 {
        row_draws_its_entry(m, f, n - 1, if k < n - 1 {
            k
        } else {
            0
        });
    } else {
        assert(m.rows_part(f, 0).len() == 0);
    }
}

} // verus!
