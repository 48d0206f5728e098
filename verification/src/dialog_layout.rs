//! The regions that a dialog's frame is divided into.

use crate::dialog_controls::{
    clipped_widths, rects_of, rows_needed, stable_action_rows, ActionGeometry, MAX_ACTION_ROWS,
};
use crate::geometry::{greatest, least, max16, minus, sat16, Rect};
use vstd::prelude::*;

verus! {

/// How far the rows of a pane stand in from its heading.
pub const PANE_INDENT: u16 = 2;

/// The gap between a field's label and its value.
pub const FIELD_GUTTER: u16 = 2;

/// A dialog's frame, divided.
#[derive(Debug)]
pub struct ResolvedDialog {
    pub frame: Rect,
    pub interior: Rect,
    pub header: Rect,
    pub body: Rect,
    pub message: Rect,
    pub help: Rect,
    pub content_width: u16,
    pub compact: bool,
    pub actions: ActionGeometry,
}

/// A list pane: its heading, its count, and the rows that are shown.
#[derive(Debug)]
pub struct ListGeometry {
    pub heading: Rect,
    pub count: Rect,
    pub viewport: Rect,
    pub scrollbar: Option<Rect>,
    pub first_row: usize,
    pub row_rects: Vec<Rect>,
}

/// The frame of a smaller dialog, divided.
#[derive(Clone, Copy, Debug, PartialEq, Eq, Structural)]
pub struct FrameRegions {
    pub popup: Rect,
    pub interior: Rect,
    pub content: Rect,
    pub header: Rect,
    pub body: Rect,
    pub message: Rect,
    pub help: Rect,
    pub actions: Rect,
}

/// A pane: its heading, its count, and the cells of its rows.
#[derive(Clone, Copy, Debug, PartialEq, Eq, Structural)]
pub struct PaneGeometry {
    pub heading: Rect,
    pub count: Rect,
    pub viewport: Rect,
    pub scrollbar: Option<Rect>,
}

/// A menu hung on a control.
#[derive(Clone, Copy, Debug, PartialEq, Eq, Structural)]
pub struct AnchoredGeometry {
    pub popup: Rect,
    pub viewport: Rect,
    pub scrollbar: Option<Rect>,
    pub first_item: usize,
}

/// A scrolled region: the cells it shows and its first line.
#[derive(Clone, Copy, Debug, PartialEq, Eq, Structural)]
pub struct ScrollViewport {
    pub viewport: Rect,
    pub scrollbar: Option<Rect>,
    pub first_row: usize,
}

/// The first rectangle of a list that covers a point, by its index.
pub open spec fn covering(rects: Seq<Rect>, column: int, row: int, from: int) -> Option<int>
    decreases rects.len() - from,
{
    if from < 0 || from >= rects.len() {
        None
    } else if rects[from].covers(column, row) {
        Some(from)
    } else {
        covering(rects, column, row, from + 1)
    }
}

/// The rectangles of a list of hit regions.
pub open spec fn areas<T>(regions: Seq<(Rect, T)>) -> Seq<Rect> {
    regions.map_values(|region: (Rect, T)| region.0)
}

/// What the first of the regions that cover a point stands for.
pub open spec fn region_at<T>(regions: Seq<(Rect, T)>, column: int, row: int) -> Option<T> {
    match covering(areas(regions), column, row, 0) {
        Some(index) => Some(regions[index].1),
        None => None,
    }
}

/// Finds what the first region under a point stands for.
pub fn find_region<T: Copy>(regions: &Vec<(Rect, T)>, column: u16, row: u16) -> (r: Option<T>)
    ensures
        r == region_at(regions@, column as int, row as int),
{
    let mut i: usize = 0;
    let ghost all = areas(regions@);
    while i < regions.len()
        invariant
            i <= regions@.len(),
            all == areas(regions@),
            covering(all, column as int, row as int, 0) == covering(
                all,
                column as int,
                row as int,
                i as int,
            ),
        decreases regions.len() - i,
    {
        if regions[i].0.contains(column, row) {
            assert(all[i as int] == regions@[i as int].0);
            return Some(regions[i].1);
        }
        i += 1;
    }
    None
}

/// A region found under a point is one of the list, and it covers the point.
pub proof fn region_covers<T>(regions: Seq<(Rect, T)>, column: int, row: int)
    ensures
        region_at(regions, column, row) matches Some(found) ==> exists|i: int|
            0 <= i < regions.len() && (#[trigger] regions[i]).1 == found && regions[i].0.covers(
                column,
                row,
            ),
{
    covering_covers(areas(regions), column, row, 0);
    if let Some(index) = covering(areas(regions), column, row, 0) {
        assert(regions[index].0.covers(column, row));
    }
}

proof fn covering_covers(rects: Seq<Rect>, column: int, row: int, from: int)
    requires
        from >= 0,
    ensures
        covering(rects, column, row, from) matches Some(index) ==> from <= index < rects.len()
            && rects[index].covers(column, row),
    decreases rects.len() - from,
{
    if from < rects.len() && !rects[from].covers(column, row) {
        covering_covers(rects, column, row, from + 1);
    }
}

/// The label index of the first button that covers a point.
pub open spec fn button_at(buttons: Seq<(usize, Rect)>, column: int, row: int) -> Option<usize> {
    match covering(rects_of(buttons), column, row, 0) {
        Some(index) => Some(buttons[index].0),
        None => None,
    }
}

/// Finds the first button under a point.
pub fn find_button(buttons: &Vec<(usize, Rect)>, column: u16, row: u16) -> (r: Option<usize>)
    ensures
        r == button_at(buttons@, column as int, row as int),
{
    let mut i: usize = 0;
    let ghost all = rects_of(buttons@);
    while i < buttons.len()
        invariant
            i <= buttons@.len(),
            all == rects_of(buttons@),
            covering(all, column as int, row as int, 0) == covering(
                all,
                column as int,
                row as int,
                i as int,
            ),
        decreases buttons.len() - i,
    {
        if buttons[i].1.contains(column, row) {
            assert(all[i as int] == buttons@[i as int].1);
            return Some(buttons[i].0);
        }
        i += 1;
    }
    None
}

/// The rows of a list that show an item, each with the item's index: row `i`
/// shows item `first + i` where there is one.
pub open spec fn item_rows(rows: Seq<Rect>, first: int, count: int) -> Seq<(Rect, usize)> {
    Seq::new(
        (if first >= count {
            0
        } else if rows.len() <= count - first {
            rows.len() as int
        } else {
            count - first
        }) as nat,
        |i: int| (rows[i], (first + i) as usize),
    )
}

/// Pairs the rows of a list with the items they show.
pub fn rows_with_items(rows: &Vec<Rect>, first: usize, count: usize) -> (r: Vec<(Rect, usize)>)
    ensures
        r@ == item_rows(rows@, first as int, count as int),
{
    let mut out: Vec<(Rect, usize)> = Vec::new();
    let mut i: usize = 0;
    while i < rows.len() && first < count && i < count - first
        invariant
            i <= rows@.len(),
            first < count ==> i <= count - first,
            first >= count ==> i == 0,
            out@ =~= item_rows(rows@, first as int, count as int).take(i as int),
        decreases rows.len() - i,
    {
        out.push((rows[i], first + i));
        i += 1;
    }
    assert(out@ =~= item_rows(rows@, first as int, count as int));
    out
}

/// The columns of a menu's rows, beside its scroll bar where it has one.
pub open spec fn menu_width(menu: AnchoredGeometry) -> int {
    if menu.scrollbar is Some && menu.viewport.width > 0 {
        menu.viewport.width - 1
    } else {
        menu.viewport.width as int
    }
}

/// How many rows a menu of hidden actions shows.
pub open spec fn menu_height(menu: AnchoredGeometry, count: int) -> int {
    if menu.first_item >= count {
        0
    } else if count - menu.first_item <= menu.viewport.height {
        count - menu.first_item
    } else {
        menu.viewport.height as int
    }
}

/// The rows of a menu of hidden actions, each with the action's own index.
pub open spec fn menu_rows(menu: AnchoredGeometry, hidden: Seq<usize>) -> Seq<(Rect, usize)> {
    Seq::new(
        menu_height(menu, hidden.len() as int) as nat,
        |i: int|
            (
                Rect::spec_new(
                    menu.viewport.x,
                    sat16(menu.viewport.y + i) as u16,
                    menu_width(menu) as u16,
                    1,
                ),
                hidden[menu.first_item + i],
            ),
    )
}

/// Lays the rows of a menu of hidden actions.
pub fn rows_of_menu(menu: AnchoredGeometry, hidden: &Vec<usize>) -> (r: Vec<(Rect, usize)>)
    ensures
        r@ == menu_rows(menu, hidden@),
{
    let width: u16 = if menu.scrollbar.is_some() {
        menu.viewport.width.saturating_sub(1)
    } else {
        menu.viewport.width
    };
    let mut out: Vec<(Rect, usize)> = Vec::new();
    let mut i: u16 = 0;
    while i < menu.viewport.height && menu.first_item < hidden.len() && (i as usize) < hidden.len()
        - menu.first_item
        invariant
            i <= menu_height(menu, hidden@.len() as int),
            width == menu_width(menu),
            out@ =~= menu_rows(menu, hidden@).take(i as int),
        decreases menu.viewport.height - i,
    {
        out.push(
            (
                Rect::new(menu.viewport.x, menu.viewport.y.saturating_add(i), width, 1),
                hidden[menu.first_item + i as usize],
            ),
        );
        i += 1;
    }
    assert(out@ =~= menu_rows(menu, hidden@));
    out
}

/// The rows a dialog sets aside for each of its parts, whatever it shows.
#[derive(Clone, Copy, Debug, PartialEq, Eq, Structural)]
pub struct DialogSpec {
    pub header: u16,
    pub body: u16,
    pub message: u16,
    pub help: u16,
    pub actions: u16,
}

/// The columns that the content of a dialog can count on.
pub fn content_estimate(policy_width: u16) -> (r: u16)
    ensures
        r == greatest(minus(policy_width as int, 4), 1),
{
    max16(policy_width.saturating_sub(4), 1)
}

/// The rows for the actions of a dialog that is so wide: one or two.
pub open spec fn action_rows(policy_width: u16, labels: Seq<&str>) -> int {
    let width: u16 = if policy_width <= 5 {
        1
    } else {
        (policy_width - 4) as u16
    };
    greatest(
        1,
        least(rows_needed(clipped_widths(labels, width), 0, width as int), MAX_ACTION_ROWS as int),
    )
}

/// Counts the rows for the actions.
pub fn budget_actions(policy_width: u16, labels: &[&str]) -> (r: u16)
    ensures
        r == action_rows(policy_width, labels@),
        1 <= r <= MAX_ACTION_ROWS,
{
    let width: u16 = max16(policy_width.saturating_sub(4), 1);
    max16(stable_action_rows(width, labels), 1)
}

/// The buttons with their rectangles first.
pub open spec fn button_areas(buttons: Seq<(usize, Rect)>) -> Seq<(Rect, usize)> {
    buttons.map_values(|button: (usize, Rect)| (button.1, button.0))
}

/// Where a row shows in a viewport that scrolls: not at all where it is above or
/// below, and left of the scroll bar where there is one.
pub open spec fn row_in_view(scroll: ScrollViewport, row: int) -> Option<Rect> {
    let bar = if scroll.scrollbar is Some {
        1int
    } else {
        0
    };
    if scroll.first_row <= row < scroll.first_row + scroll.viewport.height {
        Some(
            Rect::spec_new(
                scroll.viewport.x,
                sat16(scroll.viewport.y + (row - scroll.first_row)) as u16,
                minus(scroll.viewport.width as int, bar) as u16,
                1,
            ),
        )
    } else {
        None
    }
}

/// Where the first rows show in a viewport that scrolls.
pub fn rows_in_view(scroll: ScrollViewport, rows: usize) -> (r: Vec<Option<Rect>>)
    ensures
        r@ == Seq::new(rows as nat, |i: int| row_in_view(scroll, i)),
{
    let bar: u16 = if scroll.scrollbar.is_some() {
        1
    } else {
        0
    };
    let mut out: Vec<Option<Rect>> = Vec::new();
    let mut i: usize = 0;
    while i < rows
        invariant
            i <= rows,
            bar == if scroll.scrollbar is Some {
                1int
            } else {
                0
            },
            out@ =~= Seq::new(i as nat, |j: int| row_in_view(scroll, j)),
        decreases rows - i,
    {
        if scroll.first_row <= i && i - scroll.first_row < scroll.viewport.height as usize {
            let offset: u16 = (i - scroll.first_row) as u16;
            out.push(
                Some(
                    Rect::new(
                        scroll.viewport.x,
                        scroll.viewport.y.saturating_add(offset),
                        scroll.viewport.width.saturating_sub(bar),
                        1,
                    ),
                ),
            );
        } else {
            out.push(None);
        }
        i += 1;
    }
    assert(out@ =~= Seq::new(rows as nat, |j: int| row_in_view(scroll, j)));
    out
}

/// A click finds the region that is drawn first among those under it: where the
/// first region that covers a point is known, it is found, and where none covers
/// it, none is.
pub proof fn click_finds_the_first_region<T>(
    regions: Seq<(Rect, T)>,
    column: int,
    row: int,
    k: int,
)
    ensures
        0 <= k < regions.len() && regions[k].0.covers(column, row) && (forall|i: int|
            0 <= i < k ==> !(#[trigger] regions[i]).0.covers(column, row)) ==> region_at(
            regions,
            column,
            row,
        ) == Some(regions[k].1),
        (forall|i: int|
            0 <= i < regions.len() ==> !(#[trigger] regions[i]).0.covers(column, row))
            ==> region_at(regions, column, row) is None,
{
    let rects = areas(regions);
    if 0 <= k < regions.len() && regions[k].0.covers(column, row) && (forall|i: int|
        0 <= i < k ==> !(#[trigger] regions[i]).0.covers(column, row)) {
        assert forall|i: int| 0 <= i < k implies !(#[trigger] rects[i]).covers(column, row) by {
            assert(rects[i] == regions[i].0);
        }
        first_is_covering(rects, column, row, k, 0);
    }
    if forall|i: int|
        0 <= i < regions.len() ==> !(#[trigger] regions[i]).0.covers(column, row) {
        covering_covers(rects, column, row, 0);
        if let Some(index) = covering(rects, column, row, 0) {
            assert(rects[index] == regions[index].0);
        }
    }
}

proof fn first_is_covering(rects: Seq<Rect>, column: int, row: int, k: int, from: int)
    requires
        0 <= from <= k < rects.len(),
        rects[k].covers(column, row),
        forall|i: int| from <= i < k ==> !(#[trigger] rects[i]).covers(column, row),
    ensures
        covering(rects, column, row, from) == Some(k),
    decreases k - from,
{
    if from < k {
        first_is_covering(rects, column, row, k, from + 1);
    }
}

/// A click finds the first button under it.
pub proof fn click_finds_the_first_button(
    buttons: Seq<(usize, Rect)>,
    column: int,
    row: int,
    k: int,
)
    requires
        0 <= k < buttons.len(),
        buttons[k].1.covers(column, row),
        forall|i: int| 0 <= i < k ==> !(#[trigger] buttons[i]).1.covers(column, row),
    ensures
        button_at(buttons, column, row) == Some(buttons[k].0),
{
    let rects = rects_of(buttons);
    assert forall|i: int| 0 <= i < k implies !(#[trigger] rects[i]).covers(column, row) by {
        assert(rects[i] == buttons[i].1);
    }
    first_is_covering(rects, column, row, k, 0);
}

/// A rectangle covers the cells from its corner on, as many as it is wide and
/// high.
pub proof fn rectangle_covers_its_cells(rect: Rect, column: int, row: int)
    requires
        rect.x + rect.width <= 65535,
        rect.y + rect.height <= 65535,
    ensures
        rect.covers(column, row) <==> rect.x <= column < rect.x + rect.width && rect.y <= row
            < rect.y + rect.height,
{
}

/// The rows of a list stand for its items from the first that shows on, one after
/// another.
pub proof fn rows_stand_for_their_items(rows: Seq<Rect>, first: int, count: int, i: int)
    requires
        0 <= first,
        0 <= i < rows.len(),
        first + i < count <= usize::MAX,
    ensures
        i < item_rows(rows, first, count).len(),
        item_rows(rows, first, count)[i] == (rows[i], (first + i) as usize),
{
}

/// The rows of a menu stand for the hidden actions from the first that shows on,
/// one under another.
pub proof fn menu_rows_stand_for_their_actions(
    menu: AnchoredGeometry,
    hidden: Seq<usize>,
    i: int,
)
    requires
        0 <= i < menu.viewport.height,
        menu.first_item + i < hidden.len(),
        menu.viewport.y + i < 65535,
        menu.viewport.x + menu.viewport.width <= 65535,
    ensures
        i < menu_rows(menu, hidden).len(),
        menu_rows(menu, hidden)[i].1 == hidden[menu.first_item + i],
        menu_rows(menu, hidden)[i].0.x == menu.viewport.x,
        menu_rows(menu, hidden)[i].0.y == menu.viewport.y + i,
        menu_rows(menu, hidden)[i].0.height == 1,
{
}

/// A row shows in a viewport exactly where it is among those scrolled into it, as
/// far down as it is behind the first.
pub proof fn scrolled_row_is_in_its_place(scroll: ScrollViewport, row: int)
    requires
        scroll.viewport.x + scroll.viewport.width <= 65535,
        scroll.viewport.y + scroll.viewport.height <= 65535,
    ensures
        row_in_view(scroll, row) is Some <==> scroll.first_row <= row < scroll.first_row
            + scroll.viewport.height,
        row_in_view(scroll, row) matches Some(place) ==> place.y == scroll.viewport.y + row
            - scroll.first_row && place.x == scroll.viewport.x && place.height == 1,
{
}

} // verus!
