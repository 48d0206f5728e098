//! What the View layer shows.

use super::{ViewDialogMode, ViewHit, ViewModel};
use super::frame::{tab_labels, tab_regions};
use crate::component::{MessageState, place_from};
use crate::dialog_layout::region_at;
use crate::geometry::Rect;
use crate::paint::is_text;
use super::render::ViewFrame;
use vstd::prelude::*;

verus! {

/// A row ends with the name of its source; the selected one alone is marked, and
/// one that is chosen is ticked and numbered by its place.
pub proof fn row_shows_its_source(
    m: ViewModel,
    i: int,
    id: Seq<char>,
    name: Seq<char>,
    ascii: bool,
)
    ensures
        ({
            let text = m.row_text(i, id, name, ascii);
            &&& name.is_suffix_of(text)
            &&& (text[0] == ' ') == (i != m.selected)
            &&& (text[3] == 'x') == m.source_ids.contains(id)
        }),
{
    let text = m.row_text(i, id, name, ascii);
    reveal_strlit("  ");
    reveal_strlit("> ");
    reveal_strlit("\u{203a} ");
    reveal_strlit("[x]");
    reveal_strlit("[ ]");
    assert(text.skip(text.len() - name.len()) =~= name);
    chosen_has_a_place(m.source_ids, id, 0);
    if m.source_ids.contains(id) {
        let k = choose|k: int| 0 <= k < m.source_ids.len() && m.source_ids[k] == id;
    }
}

proof fn chosen_has_a_place(list: Seq<Seq<char>>, id: Seq<char>, from: int)
    requires
        from >= 0,
    ensures
        place_from(list, id, from) is Some <==> exists|i: int|
            from <= i < list.len() && #[trigger] list[i] == id,
    decreases list.len() - from,
{
    if from < list.len() && list[from] != id {
        chosen_has_a_place(list, id, from + 1);
    }
}

/// The tabs stand for the modes in their order, under their names.
pub proof fn tabs_stand_in_their_order(rects: Seq<Rect>)
    requires
        rects.len() == 4,
    ensures
        tab_regions(rects) == seq![
            (rects[0], ViewDialogMode::Blank),
            (rects[1], ViewDialogMode::Clone),
            (rects[2], ViewDialogMode::Rename),
            (rects[3], ViewDialogMode::Sources),
        ],
        tab_labels() == seq!["New &blank"@, "&Clone"@, "&Rename"@, "&Sources"@],
{
    assert(tab_regions(rects) =~= seq![
        (rects[0], ViewDialogMode::Blank),
        (rects[1], ViewDialogMode::Clone),
        (rects[2], ViewDialogMode::Rename),
        (rects[3], ViewDialogMode::Sources),
    ]);
}

/// An error is shown before anything else.
pub proof fn errors_are_shown_first(m: ViewModel)
    ensures
        m.error is Some ==> m.message() == (MessageState::Error, m.error->0),
        m.error is None ==> m.message().0 == MessageState::Ready,
{
}

/// The row of a source stands for that source, in the order of the list.
pub proof fn rows_stand_for_their_sources(m: ViewModel, total: int, viewport: Rect, i: int)
    requires
        viewport.y + viewport.height <= 65535,
        0 <= total <= usize::MAX,
        m.selected >= 0,
        0 <= i < m.source_rows(total, viewport).len(),
    ensures
        ({
            let rows = m.source_rows(total, viewport);
            &&& rows[i].1 == rows[0].1 + i
            &&& rows[i].0.y == viewport.y + i
            &&& rows[i].1 < total
        }),
{
}

/// A click falls on the tabs first, then on the controls, the sources and the body.
pub proof fn click_falls_on_the_tabs_first(m: ViewModel, column: int, row: int)
    ensures
        ({
            let tab = region_at(m.geometry.tabs@, column, row);
            let control = region_at(m.geometry.controls@, column, row);
            let source = region_at(m.geometry.sources@, column, row);
            &&& tab is Some ==> m.at(column, row) == Some(ViewHit::Tab(tab->0))
            &&& tab is None && control is Some ==> m.at(column, row) == Some(
                ViewHit::Control(control->0),
            )
            &&& tab is None && control is None && source is Some ==> m.at(column, row) == Some(
                ViewHit::Source(source->0),
            )
        }),
{
}

/// Each row that shows is drawn with the text of the source that a click on it
/// selects.
pub proof fn row_draws_its_source(m: ViewModel, f: ViewFrame<'_>, n: int, k: int)
    requires
        0 <= k < n,
    ensures
        m.rows_part(f, n).len() == n,
        is_text(
            m.rows_part(f, n)[k],
            m.source_rows(f.ctx.sources@.len() as int, f.pane.viewport)[k].0,
            m.row_text(
                m.source_rows(f.ctx.sources@.len() as int, f.pane.viewport)[k].1 as int,
                f.ctx.sources@[m.source_rows(
                    f.ctx.sources@.len() as int,
                    f.pane.viewport,
                )[k].1 as int].id@,
                f.ctx.sources@[m.source_rows(
                    f.ctx.sources@.len() as int,
                    f.pane.viewport,
                )[k].1 as int].name@,
                f.ascii,
            ),
        ),
    decreases n,
{
    if n - 1 > 0 {
        row_draws_its_source(m, f, n - 1, if k < n - 1 {
            k
        } else {
            0
        });
    } else {
        assert(m.rows_part(f, 0).len() == 0);
    }
}

} // verus!
