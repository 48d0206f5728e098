//! What holds of the Storage layer as a whole.

use super::{
    category_word, cleanup_label, of_limit, opened, StorageCategory, StorageFigures,
    StorageGeometry, StorageHit, StorageModel, StorageRequest, StorageRequestKind, StorageSnapshot,
};
use crate::component::{CommandId, Event, MessageState, Outcome, ring_goes_round};
use crate::input::{KeyCode, KeyEvent, KeyEventKind, MouseEventKind};
use super::render::{figure, StorageFrame};
use crate::dialog_layout::{button_at, region_at};
use crate::paint::is_text;
use vstd::prelude::*;

verus! {

/// A key goes down, first or by repetition.
pub open spec fn goes_down(key: KeyEvent) -> bool {
    key.kind == KeyEventKind::Press || key.kind == KeyEventKind::Repeat
}

/// A scan is asked for under the next generation; what is in flight is called off
/// before it, under its own.
pub open spec fn scans_anew(before: StorageModel, after: StorageModel) -> bool {
    let generation = (before.queue.generation + 1) as u64;
    let quiet = if before.scanning {
        before.queue.items.push(
            StorageRequest {
                generation: before.generation as u64,
                kind: StorageRequestKind::Cancel,
            },
        )
    } else {
        before.queue.items
    };
    &&& after.queue.items == quiet.push(
        StorageRequest { generation, kind: StorageRequestKind::Scan },
    )
    &&& after.generation == generation
    &&& after.scanning
    &&& !after.confirm_clear
}

/// Enter and the first button scan anew and leave the entries and the selection
/// as they are until the scan reports.
pub proof fn refresh_scans_anew(m: StorageModel, key: KeyEvent, amount: Seq<char>)
    requires
        goes_down(key),
        key.code == KeyCode::Enter,
        !m.menu_open,
        m.queue.items.len() + 2 <= m.queue.cap,
        0 <= m.queue.generation < u64::MAX,
    ensures
        ({
            let (after, outcome) = m.after_key(key, amount);
            let clicked = m.after_mouse(
                MouseEventKind::LeftDown,
                Some(StorageHit::Refresh),
                amount,
            ).0;
            &&& outcome == Outcome::Consumed
            &&& scans_anew(m, after)
            &&& scans_anew(m, clicked)
            &&& after.snapshot == m.snapshot
            &&& after.selected == m.selected
        }),
{
}

/// The layer opens blank and scans.
pub proof fn opening_scans(
    m: StorageModel,
    snapshot: StorageSnapshot,
    geometry: StorageGeometry,
)
    requires
        m.queue.items.len() + 2 <= m.queue.cap,
        0 <= m.queue.generation < u64::MAX,
    ensures
        ({
            let after = opened(m, snapshot, geometry);
            &&& after.open
            &&& scans_anew(m, after)
            &&& after.snapshot == snapshot
            &&& after.selected == 0
            &&& after.scroll == 0
            &&& !after.menu_open
            &&& !after.scroll_focused
        }),
{
}

/// The cleanup, by its button, its command or the row of the menu, first asks and
/// then deletes: it is asked of the scan that is shown, and only where that found
/// something to reclaim and nothing is in flight.
pub proof fn cleanup_deletes_what_was_shown(m: StorageModel, amount: Seq<char>)
    requires
        m.queue.items.len() < m.queue.cap,
        0 <= m.generation <= u64::MAX,
    ensures
        ({
            let after = m.cleared(amount);
            let ready = !m.scanning && m.snapshot.reclaimable_bytes > 0;
            &&& !ready ==> after.queue == m.queue && after.confirm_clear == m.confirm_clear
                && after.scanning == m.scanning
            &&& ready && !m.confirm_clear ==> after.queue == m.queue && after.confirm_clear
                && !after.scanning && after.status == "clear "@ + amount
                + " of unused recomputable derived indexes? press c again"@
            &&& ready && m.confirm_clear ==> after.queue.items == m.queue.items.push(
                StorageRequest {
                    generation: m.generation as u64,
                    kind: StorageRequestKind::ClearUnusedDerived,
                },
            ) && !after.confirm_clear && after.scanning
            &&& after.snapshot == m.snapshot && after.selected == m.selected
            &&& m.after_event(Event::Command(CommandId::StorageClear), amount).0 == after
            &&& m.after_mouse(
                MouseEventKind::LeftDown,
                Some(StorageHit::Cleanup),
                amount,
            ).0.queue == after.queue
            &&& m.after_mouse(
                MouseEventKind::LeftDown,
                Some(StorageHit::Menu(1)),
                amount,
            ).0.queue == after.queue
        }),
{
}

/// A report of the current scan is shown as it came; the last one ends the scan
/// and withdraws the confirmation.
pub proof fn report_is_shown(
    m: StorageModel,
    snapshot: StorageSnapshot,
    status: Seq<char>,
    complete: bool,
)
    requires
        m.open,
        m.selected >= 0,
    ensures
        ({
            let after = m.completed(m.generation, snapshot, status, complete);
            &&& after.snapshot == snapshot
            &&& after.status == status
            &&& after.scanning == !complete
            &&& complete ==> !after.confirm_clear
            &&& !complete ==> after.confirm_clear == m.confirm_clear
            &&& m.selected < snapshot.entries@.len() ==> after.selected == m.selected
            &&& m.selected >= snapshot.entries@.len() > 0 ==> after.selected
                == snapshot.entries@.len() - 1
            &&& after.queue == m.queue
            &&& after.generation == m.generation
        }),
{
}

/// Up and Down select the entry before and after, round the ends of the list, and
/// so do k and j; a click selects the entry of its row. Each withdraws the
/// confirmation and asks for nothing.
pub proof fn entries_are_walked(m: StorageModel, key: KeyEvent, amount: Seq<char>, row: usize)
    requires
        goes_down(key),
        !m.menu_open,
        !m.scroll_focused,
        0 <= m.selected < m.snapshot.entries@.len(),
    ensures
        ({
            let n = m.snapshot.entries@.len() as int;
            let after = m.after_key(key, amount).0;
            let clicked = m.after_mouse(
                MouseEventKind::LeftDown,
                Some(StorageHit::Row(row)),
                amount,
            ).0;
            let next = if m.selected + 1 < n {
                m.selected + 1
            } else {
                0
            };
            let back = if m.selected > 0 {
                m.selected - 1
            } else {
                n - 1
            };
            let forward = key.code == KeyCode::Down || key.code == KeyCode::Char('j');
            let backward = key.code == KeyCode::Up || key.code == KeyCode::Char('k');
            &&& forward ==> after.selected == next
            &&& backward ==> after.selected == back
            &&& forward || backward ==> !after.confirm_clear && after.queue == m.queue
                && after.snapshot == m.snapshot
            &&& clicked.selected == row && !clicked.confirm_clear && clicked.queue == m.queue
            &&& m.after_mouse(MouseEventKind::ScrollDown, Some(StorageHit::Body), amount).0.selected
                == next
            &&& m.after_mouse(MouseEventKind::ScrollUp, Some(StorageHit::Body), amount).0.selected
                == back
        }),
{
    ring_goes_round(m.selected, m.snapshot.entries@.len() as int);
}

/// Tab hands the arrows to the diagnostics, which scroll a row at a time within
/// their limit, and takes them back.
pub proof fn diagnostics_are_scrolled(m: StorageModel, key: KeyEvent, amount: Seq<char>)
    requires
        goes_down(key),
        !m.menu_open,
        0 <= m.scroll <= m.scroll_limit,
    ensures
        ({
            let after = m.after_key(key, amount).0;
            let down = if m.scroll < m.scroll_limit {
                m.scroll + 1
            } else {
                m.scroll
            };
            let up = if m.scroll > 0 {
                m.scroll - 1
            } else {
                0
            };
            &&& key.code == KeyCode::Tab ==> after.scroll_focused == !m.scroll_focused
            &&& m.scroll_focused && key.code == KeyCode::Down ==> after.scroll == down
                && after.selected == m.selected
            &&& m.scroll_focused && key.code == KeyCode::Up ==> after.scroll == up
                && after.selected == m.selected
            &&& m.after_mouse(
                MouseEventKind::ScrollDown,
                Some(StorageHit::Diagnostics),
                amount,
            ).0.scroll == down
            &&& m.after_mouse(
                MouseEventKind::ScrollUp,
                Some(StorageHit::Diagnostics),
                amount,
            ).0.scroll == up
        }),
{
}

/// Closing the layer calls off what is in flight, under its own generation.
pub proof fn closing_calls_off_the_scan(m: StorageModel)
    requires
        !m.menu_open,
        m.queue.items.len() < m.queue.cap,
    ensures
        ({
            let (after, outcome) = m.dismissed();
            &&& outcome == Outcome::Close
            &&& !after.open
            &&& !after.scanning
            &&& m.scanning ==> after.queue.items == m.queue.items.push(
                StorageRequest {
                    generation: m.generation as u64,
                    kind: StorageRequestKind::Cancel,
                },
            )
            &&& !m.scanning ==> after.queue == m.queue
        }),
{
}

/// The menu opens and closes by its button, Enter takes its row, and Escape or a
/// dismissal closes it without doing anything.
pub proof fn menu_opens_and_closes(m: StorageModel, key: KeyEvent, amount: Seq<char>)
    requires
        goes_down(key),
    ensures
        ({
            let pressed = m.after_mouse(
                MouseEventKind::LeftDown,
                Some(StorageHit::More),
                amount,
            ).0;
            &&& pressed.menu_open == !m.menu_open
            &&& pressed.queue == m.queue
            &&& m.menu_open ==> !m.dismissed().0.menu_open && m.dismissed().0.open == m.open
                && m.dismissed().0.queue == m.queue
            &&& m.menu_open && key.code == KeyCode::Esc ==> !m.after_key(key, amount).0.menu_open
                && m.after_key(key, amount).0.queue == m.queue
            &&& m.menu_open && key.code == KeyCode::Enter ==> !m.after_key(key, amount).0.menu_open
                && m.after_key(key, amount).0.queue == m.cleared(amount).queue
        }),
{
}

/// What is said: problems come first, then the confirmation, then the scan.
pub proof fn problems_come_first(m: StorageModel)
    ensures
        m.message().0 == if m.snapshot.errors@.len() > 0 {
            MessageState::Error
        } else if m.confirm_clear {
            MessageState::Pending
        } else if m.scanning {
            MessageState::Updating
        } else {
            MessageState::Scanned
        },
        m.snapshot.errors@.len() == 0 ==> m.message().1 == m.status,
{
}

/// Each figure of the summary stands under its own name: how much of how much.
pub proof fn figures_stand_under_their_names(figures: StorageFigures)
    ensures
        figure(figures, 0) == (
            "Row cache"@,
            of_limit(figures.row_cache@, figures.row_cache_limit@),
        ),
        figure(figures, 1) == (
            "Membership"@,
            of_limit(figures.query_index@, figures.query_index_limit@),
        ),
        figure(figures, 2) == ("Derived disk"@, of_limit(figures.total@, figures.total_limit@)),
        figure(figures, 3) == ("Per source"@, figures.per_source_limit@ + " cap"@),
        figures.row_cache@.is_prefix_of(of_limit(figures.row_cache@, figures.row_cache_limit@)),
        figures.row_cache_limit@.is_suffix_of(
            of_limit(figures.row_cache@, figures.row_cache_limit@),
        ),
{
    let text = of_limit(figures.row_cache@, figures.row_cache_limit@);
    assert(text.take(figures.row_cache@.len() as int) =~= figures.row_cache@);
    assert(text.skip(text.len() - figures.row_cache_limit@.len()) =~= figures.row_cache_limit@);
}

/// The row of an entry begins with its mark and says what it is kept for; the
/// selected one alone is marked.
pub proof fn row_says_what_it_is_kept_for(m: StorageModel, f: StorageFrame<'_>, i: int)
    requires
        0 <= i < m.snapshot.entries@.len(),
        0 <= m.selected < m.snapshot.entries@.len(),
    ensures
        ({
            let entry = m.snapshot.entries@[i];
            let word = match entry.category {
                StorageCategory::Capture => "capture"@,
                StorageCategory::Derived => "derived"@,
                StorageCategory::Workspace => "workspace"@,
                StorageCategory::Investigation => "exports"@,
            };
            let row = m.entry_row(f, i);
            &&& row[0] == if i == m.selected {
                row[0]
            } else {
                ' '
            }
            &&& (row[0] == ' ') == (i != m.selected)
            &&& word.is_prefix_of(row.skip(2))
        }),
{
    let entry = m.snapshot.entries@[i];
    let row = m.entry_row(f, i);
    let word = category_word(entry.category);
    reveal_strlit("  ");
    reveal_strlit("> ");
    reveal_strlit("\u{203a} ");
    assert(row.skip(2).take(word.len() as int) =~= word);
}

/// A click falls on the menu first, then on its button, the diagnostics, the
/// buttons and the rows: the first button refreshes, and the other cleans up.
pub proof fn click_falls_on_the_menu_first(m: StorageModel, column: int, row: int)
    ensures
        ({
            let g = m.geometry;
            let hit = m.at(column, row);
            let menu = region_at(g.menu@, column, row);
            let button = button_at(g.actions@, column, row);
            let entry = region_at(g.rows@, column, row);
            let more = g.more is Some && g.more->0.covers(column, row);
            let pane = g.diagnostics is Some && g.diagnostics->0.covers(column, row);
            &&& menu is Some ==> hit == Some(StorageHit::Menu(menu->0))
            &&& menu is None && more ==> hit == Some(StorageHit::More)
            &&& menu is None && !more && pane ==> hit == Some(StorageHit::Diagnostics)
            &&& menu is None && !more && !pane && button == Some(0usize) ==> hit == Some(
                StorageHit::Refresh,
            )
            &&& menu is None && !more && !pane && button == Some(1usize) ==> hit == Some(
                StorageHit::Cleanup,
            )
            &&& menu is None && !more && !pane && button is None && entry is Some ==> hit == Some(
                StorageHit::Row(entry->0),
            )
        }),
{
}

/// The second button says whether it asks or deletes.
pub proof fn cleanup_button_says_what_it_does()
    ensures
        cleanup_label(false) == "Preview &cleanup"@,
        cleanup_label(true) == "Confirm &cleanup"@,
{
}

/// Each row that shows is drawn with the text of the entry that a click on it
/// selects.
pub proof fn row_draws_its_entry(m: StorageModel, f: StorageFrame<'_>, n: int, k: int)
    requires
        0 <= k < n,
    ensures
        m.rows_part(f, n).len() == n,
        is_text(
            m.rows_part(f, n)[k],
            m.shown_rows(f)[k].0,
            m.entry_row(f, m.shown_rows(f)[k].1 as int),
        ),
    decreases n,
{
    if n - 1 > 0 {
        row_draws_its_entry(m, f, n - 1, if k < n - 1 {
            k
        } else {
            0
        });
    } else {
        assert(m.rows_part(f, 0).len() == 0);
    }
}

} // verus!
