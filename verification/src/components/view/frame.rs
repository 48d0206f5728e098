//! How a frame of the View layer is laid out and what it says.

use super::{
    view_modes, ViewContext, ViewDialog, ViewDialogControl, ViewDialogMode, ViewGeometry, ViewHit,
    ViewModel,
};
use crate::component::{place_from, CommandEntry, CommandId, CommandSpec, MessageState, Surface};
use crate::components::source::SourceItem;
use crate::dialog_layout::{find_region, region_at, DialogSpec, FIELD_GUTTER};
use crate::geometry::{greatest, least, min16, minus, sat16, Rect};
use crate::text::{decimal, decimal_text, pad_left, padded_left, some_str, strs};
use vstd::prelude::*;

verus! {

/// The rows of the list at most.
pub const VIEW_LIST_ROWS: usize = 12;

/// The columns of the field's label.
pub const VIEW_LABEL_WIDTH: u16 = 4;

/// The label of the one button.
pub open spec fn apply_text(mode: ViewDialogMode) -> Seq<char> {
    if mode == ViewDialogMode::Sources {
        "Apply membership"@
    } else {
        "Apply"@
    }
}

/// The button of the layer as its row holds it.
pub open spec fn apply_labels(mode: ViewDialogMode) -> Seq<&'static str> {
    seq![
        if mode == ViewDialogMode::Sources {
            "Apply membership"
        } else {
            "Apply"
        },
    ]
}

pub fn view_apply_label(mode: ViewDialogMode) -> (r: &'static str)
    ensures
        r@ == apply_text(mode),
        seq![r] == apply_labels(mode),
{
    if mode == ViewDialogMode::Sources {
        "Apply membership"
    } else {
        "Apply"
    }
}

/// The segments of the header.
pub open spec fn tab_labels() -> Seq<Seq<char>> {
    seq!["New &blank"@, "&Clone"@, "&Rename"@, "&Sources"@]
}

/// Everything that a letter can press: the button, then the segments.
pub fn view_mnemonic_targets(mode: ViewDialogMode) -> (r: Vec<&'static str>)
    ensures
        strs(r@) == seq![apply_text(mode)] + tab_labels(),
{
    let targets = vec![view_apply_label(mode), "New &blank", "&Clone", "&Rename", "&Sources"];
    assert(strs(targets@) =~= seq![apply_text(mode)] + tab_labels());
    targets
}

/// The labels of the header's segments.
pub fn view_tab_labels() -> (r: Vec<&'static str>)
    ensures
        strs(r@) == tab_labels(),
{
    let labels = vec!["New &blank", "&Clone", "&Rename", "&Sources"];
    assert(strs(labels@) =~= tab_labels());
    labels
}

/// The shortcut of a command while the layer is open.
pub open spec fn shortcut_of(id: CommandId) -> Option<Seq<char>> {
    match id {
        CommandId::ViewBlank => Some("Alt-B"@),
        CommandId::ViewClone => Some("Alt-C"@),
        CommandId::ViewRename => Some("Alt-R"@),
        CommandId::ViewSources => Some("Alt-S"@),
        _ => None,
    }
}

pub fn view_command_shortcut(id: CommandId) -> (r: Option<&'static str>)
    ensures
        some_str(r) == shortcut_of(id),
{
    match id {
        CommandId::ViewBlank => Some("Alt-B"),
        CommandId::ViewClone => Some("Alt-C"),
        CommandId::ViewRename => Some("Alt-R"),
        CommandId::ViewSources => Some("Alt-S"),
        _ => None,
    }
}

/// The words of a palette entry: its name, what it does, and what else it is
/// found by.
pub open spec fn command_words(id: CommandId) -> (Seq<char>, Seq<char>, Seq<Seq<char>>) {
    match id {
        CommandId::ViewBlank => (
            "Create blank view"@,
            "Select a blank view in the view dialog"@,
            seq!["new empty"@],
        ),
        CommandId::ViewClone => (
            "Clone view"@,
            "Select clone in the view dialog"@,
            seq!["duplicate"@, "copy"@],
        ),
        CommandId::ViewRename => (
            "Rename view"@,
            "Select rename in the view dialog"@,
            seq!["name"@],
        ),
        _ => (
            "Merge / edit view sources"@,
            "Select ordered open sources; share existing captures"@,
            seq!["merge"@, "sources"@, "membership"@],
        ),
    }
}

/// A palette entry of the layer: usable while the layer is open.
pub open spec fn is_view_entry(entry: CommandEntry, id: CommandId, open: bool) -> bool {
    let (name, description, aliases) = command_words(id);
    &&& entry.spec.id == id
    &&& entry.spec.name@ == name
    &&& entry.spec.description@ == description
    &&& entry.spec.category@ == "Views"@
    &&& strs(entry.spec.aliases@) == aliases
    &&& some_str(entry.spec.shortcut) == if open {
        shortcut_of(id)
    } else {
        None
    }
    &&& some_str(entry.unavailable_reason) == if open {
        None
    } else {
        Some("open Manage views first"@)
    }
}

fn command_text(id: CommandId) -> (r: (&'static str, &'static str, Vec<&'static str>))
    ensures
        command_words(id) == (r.0@, r.1@, strs(r.2@)),
{
    let r: (&'static str, &'static str, Vec<&'static str>) = match id {
        CommandId::ViewBlank => (
            "Create blank view",
            "Select a blank view in the view dialog",
            vec!["new empty"],
        ),
        CommandId::ViewClone => (
            "Clone view",
            "Select clone in the view dialog",
            vec!["duplicate", "copy"],
        ),
        CommandId::ViewRename => (
            "Rename view",
            "Select rename in the view dialog",
            vec!["name"],
        ),
        _ => (
            "Merge / edit view sources",
            "Select ordered open sources; share existing captures",
            vec!["merge", "sources", "membership"],
        ),
    };
    assert(strs(r.2@) =~= command_words(id).2);
    r
}

fn view_entry(id: CommandId, open: bool) -> (r: CommandEntry)
    ensures
        is_view_entry(r, id, open),
{
    let (name, description, aliases) = command_text(id);
    CommandEntry {
        spec: CommandSpec {
            id,
            name,
            description,
            category: "Views",
            aliases,
            shortcut: if open {
                view_command_shortcut(id)
            } else {
                None
            },
        },
        unavailable_reason: if open {
            None
        } else {
            Some("open Manage views first")
        },
    }
}

/// A place in the order of the sources, or blanks where a source is not among
/// them.
pub open spec fn order_text(place: Option<int>) -> Seq<char> {
    match place {
        Some(place) => padded_left(decimal((place + 1) as nat), 2) + " "@,
        None => "   "@,
    }
}

impl ViewModel {
    pub open spec fn message(self) -> (MessageState, Seq<char>) {
        match self.error {
            Some(error) => (MessageState::Error, error),
            None => if self.mode == ViewDialogMode::Sources {
                (MessageState::Ready, "changing membership keeps every capture"@)
            } else {
                (MessageState::Ready, "creating, cloning and renaming keep the capture"@)
            },
        }
    }

    pub open spec fn help(self, sources: int) -> Seq<char> {
        if self.mode == ViewDialogMode::Sources && sources > 1 {
            "Sources are ordered by position, then by record sequence, not by clock time."@
        } else {
            ""@
        }
    }

    /// The rows that the body needs.
    pub open spec fn body_rows(self, sources: int) -> int {
        if self.mode == ViewDialogMode::Sources {
            1 + least(greatest(sources, 1), VIEW_LIST_ROWS as int)
        } else {
            1
        }
    }

    /// Which of how many sources is selected.
    pub open spec fn count(self, total: int) -> Seq<char> {
        decimal(least(self.selected + 1, greatest(total, 1)) as nat) + " of "@ + decimal(
            total as nat,
        )
    }

    /// The first source that shows, so that the selected one does.
    pub open spec fn first_row(self, total: int, visible: int) -> int {
        least(
            minus(self.selected, minus(visible, 1)),
            minus(total, least(visible, total)),
        )
    }

    /// The text of a source's row.
    pub open spec fn row_text(self, index: int, id: Seq<char>, name: Seq<char>, ascii: bool) -> Seq<
        char,
    > {
        let place = place_from(self.source_ids, id, 0);
        (if index != self.selected {
            "  "@
        } else if ascii {
            "> "@
        } else {
            "\u{203a} "@
        }) + (if place is Some {
            "[x]"@
        } else {
            "[ ]"@
        }) + " "@ + order_text(place) + name
    }

    /// The rows of the sources that show, each with its source's place.
    pub open spec fn source_rows(self, total: int, viewport: Rect) -> Seq<(Rect, usize)> {
        let first = self.first_row(total, viewport.height as int);
        Seq::new(
            least(minus(total, first), viewport.height as int) as nat,
            |i: int|
                (
                    Rect::spec_new(
                        viewport.x,
                        sat16(viewport.y + i) as u16,
                        viewport.width,
                        1,
                    ),
                    (first + i) as usize,
                ),
        )
    }

    /// The place of the caret: at the end while the field has not the focus.
    pub open spec fn caret_place(self) -> int {
        if self.editing() {
            self.cursor
        } else {
            self.draft.len() as int
        }
    }

    /// What a point of the last frame stands for.
    pub open spec fn at(self, column: int, row: int) -> Option<ViewHit> {
        match region_at(self.geometry.tabs@, column, row) {
            Some(mode) => Some(ViewHit::Tab(mode)),
            None => match region_at(self.geometry.controls@, column, row) {
                Some(control) => Some(ViewHit::Control(control)),
                None => match region_at(self.geometry.sources@, column, row) {
                    Some(index) => Some(ViewHit::Source(index)),
                    None => if self.geometry.body.covers(column, row) {
                        Some(ViewHit::Body)
                    } else {
                        None
                    },
                },
            },
        }
    }
}

/// The name field beside its label.
pub open spec fn name_field(content: Rect, y: u16) -> Rect {
    let x = sat16(sat16(content.x + VIEW_LABEL_WIDTH) + FIELD_GUTTER);
    Rect::spec_new(
        least(x, content.spec_right()) as u16,
        y,
        minus(content.spec_right(), x) as u16,
        1,
    )
}

/// Places the name field beside its label.
pub fn place_name_field(content: Rect, y: u16) -> (r: Rect)
    ensures
        r == name_field(content, y),
{
    let x: u16 = content.x.saturating_add(VIEW_LABEL_WIDTH).saturating_add(FIELD_GUTTER);
    let right: u16 = content.right();
    Rect::new(min16(x, right), y, right.saturating_sub(x), 1)
}

/// The segments that were drawn, each with its mode.
pub open spec fn tab_regions(rects: Seq<Rect>) -> Seq<(Rect, ViewDialogMode)> {
    Seq::new(least(rects.len() as int, 4) as nat, |i: int| (rects[i], view_modes()[i]))
}

/// Pairs the drawn segments with their modes.
pub fn regions_of_tabs(rects: &Vec<Rect>) -> (r: Vec<(Rect, ViewDialogMode)>)
    ensures
        r@ == tab_regions(rects@),
{
    let mut out: Vec<(Rect, ViewDialogMode)> = Vec::new();
    let mut i: usize = 0;
    while i < rects.len() && i < 4
        invariant
            i <= rects@.len(),
            i <= 4,
            out@ =~= tab_regions(rects@).take(i as int),
        decreases rects.len() - i,
    {
        if let Some(mode) = ViewDialogMode::at(i) {
            out.push((rects[i], mode));
        }
        i += 1;
    }
    assert(out@ =~= tab_regions(rects@));
    out
}

/// Pairs the drawn buttons with the one control they stand for.
pub fn regions_of_buttons(buttons: &Vec<(usize, Rect)>) -> (r: Vec<(Rect, ViewDialogControl)>)
    ensures
        r@ == buttons@.map_values(|button: (usize, Rect)| (button.1, ViewDialogControl::Apply)),
{
    let mut out: Vec<(Rect, ViewDialogControl)> = Vec::new();
    let mut i: usize = 0;
    while i < buttons.len()
        invariant
            i <= buttons@.len(),
            out@.len() == i,
            forall|j: int|
                0 <= j < i ==> #[trigger] out@[j] == (buttons@[j].1, ViewDialogControl::Apply),
        decreases buttons.len() - i,
    {
        out.push((buttons[i].1, ViewDialogControl::Apply));
        i += 1;
    }
    assert(out@ =~= buttons@.map_values(
        |button: (usize, Rect)| (button.1, ViewDialogControl::Apply),
    ));
    out
}

impl ViewDialog {
    /// The palette entries of the layer.
    pub fn commands(&self) -> (r: Vec<CommandEntry>)
        ensures
            r@.len() == 4,
            is_view_entry(r@[0], CommandId::ViewBlank, self.model().open),
            is_view_entry(r@[1], CommandId::ViewClone, self.model().open),
            is_view_entry(r@[2], CommandId::ViewRename, self.model().open),
            is_view_entry(r@[3], CommandId::ViewSources, self.model().open),
    {
        let mut entries: Vec<CommandEntry> = Vec::new();
        entries.push(view_entry(CommandId::ViewBlank, self.open));
        entries.push(view_entry(CommandId::ViewClone, self.open));
        entries.push(view_entry(CommandId::ViewRename, self.open));
        entries.push(view_entry(CommandId::ViewSources, self.open));
        entries
    }

    pub fn action_labels(&self) -> (r: Vec<&'static str>)
        ensures
            strs(r@) == seq![apply_text(self.model().mode)] + tab_labels(),
    {
        view_mnemonic_targets(self.mode)
    }

    /// The title, with the name of the view that is shown.
    pub fn title(&self, ctx: ViewContext<'_>) -> (r: String)
        ensures
            r@ == match ctx.read().view {
                Some(view) => "View \u{b7} "@ + view.name,
                None => "View"@,
            },
    {
        match ctx.view {
            Some(view) => {
                let mut text = "View \u{b7} ".to_owned();
                text.append(view.name.as_str());
                text
            },
            None => "View".to_owned(),
        }
    }

    pub fn message(&self) -> (r: (MessageState, String))
        ensures
            (r.0, r.1@) == self.model().message(),
    {
        match &self.error {
            Some(error) => (MessageState::Error, error.clone()),
            None => if self.mode == ViewDialogMode::Sources {
                (MessageState::Ready, "changing membership keeps every capture".to_owned())
            } else {
                (MessageState::Ready, "creating, cloning and renaming keep the capture".to_owned())
            },
        }
    }

    pub fn help(&self, sources: usize) -> (r: &'static str)
        ensures
            r@ == self.model().help(sources as int),
    {
        if self.mode == ViewDialogMode::Sources && sources > 1 {
            "Sources are ordered by position, then by record sequence, not by clock time."
        } else {
            ""
        }
    }

    pub fn body_rows(&self, sources: usize) -> (r: u16)
        ensures
            r == self.model().body_rows(sources as int),
    {
        if self.mode == ViewDialogMode::Sources {
            if sources < 1 {
                2
            } else if sources > VIEW_LIST_ROWS {
                13
            } else {
                1 + sources as u16
            }
        } else {
            1
        }
    }

    pub fn count(&self, total: usize) -> (r: String)
        ensures
            r@ == self.model().count(total as int),
    {
        let last: usize = if total > 0 {
            total
        } else {
            1
        };
        let place: usize = if self.selected_source < last {
            self.selected_source + 1
        } else {
            last
        };
        let mut text = decimal_text(place as u64);
        text.append(" of ");
        text.append(decimal_text(total as u64).as_str());
        text
    }

    /// The text of a source's row.
    pub fn row_text(&self, index: usize, source: &SourceItem, ascii: bool) -> (r: String)
        requires
            self.model().source_ids.len() < u64::MAX,
        ensures
            r@ == self.model().row_text(index as int, source.id@, source.name@, ascii),
    {
        let place = super::find_text(&self.source_ids, source.id.as_str());
        let mut text = (if index != self.selected_source {
            "  "
        } else if ascii {
            "> "
        } else {
            "\u{203a} "
        }).to_owned();
        text.append(
            if place.is_some() {
                "[x]"
            } else {
                "[ ]"
            },
        );
        text.append(" ");
        match place {
            Some(place) => {
                let number = decimal_text(place as u64 + 1);
                let mut order = pad_left(number.as_str(), 2);
                order.append(" ");
                text.append(order.as_str());
            },
            None => text.append("   "),
        }
        text.append(source.name.as_str());
        text
    }

    /// Lays the rows of the sources that show.
    pub fn source_rows(&self, total: usize, viewport: Rect) -> (r: Vec<(Rect, usize)>)
        ensures
            r@ == self.model().source_rows(total as int, viewport),
    {
        let visible: usize = viewport.height as usize;
        let limit: usize = total.saturating_sub(visible);
        let back: usize = self.selected_source.saturating_sub(visible.saturating_sub(1));
        let first: usize = if back < limit {
            back
        } else {
            limit
        };
        let mut out: Vec<(Rect, usize)> = Vec::new();
        let mut i: u16 = 0;
        while i < viewport.height && (i as usize) < total - first
            invariant
                first <= total,
                first == self.model().first_row(total as int, viewport.height as int),
                i <= viewport.height,
                i <= total - first,
                out@ =~= self.model().source_rows(total as int, viewport).take(i as int),
            decreases viewport.height - i,
        {
            out.push(
                (
                    Rect::new(viewport.x, viewport.y.saturating_add(i), viewport.width, 1),
                    first + i as usize,
                ),
            );
            i += 1;
        }
        assert(out@ =~= self.model().source_rows(total as int, viewport));
        out
    }

    /// The place of the field's caret.
    pub fn caret_place(&self) -> (r: usize)
        ensures
            r == self.model().caret_place(),
    {
        if self.text_editing() {
            self.cursor
        } else {
            self.draft.as_str().unicode_len()
        }
    }

    pub fn surface(&self) -> (r: Surface)
        ensures
            r == self.model().surface,
    {
        self.surface
    }

    pub fn hit(&self, column: u16, row: u16) -> (r: Option<ViewHit>)
        ensures
            r == self.model().at(column as int, row as int),
    {
        if let Some(mode) = find_region(&self.geometry.tabs, column, row) {
            return Some(ViewHit::Tab(mode));
        }
        if let Some(control) = find_region(&self.geometry.controls, column, row) {
            return Some(ViewHit::Control(control));
        }
        if let Some(index) = find_region(&self.geometry.sources, column, row) {
            return Some(ViewHit::Source(index));
        }
        if self.geometry.body.contains(column, row) {
            Some(ViewHit::Body)
        } else {
            None
        }
    }

    /// Remembers a frame.
    pub fn record(&mut self, geometry: ViewGeometry, popup: Rect, interior: Rect, caret: Option<
        (u16, u16),
    >) -> (r: Surface)
        ensures
            r == (Surface {
                popup,
                interior,
                caret,
                scrollable: true,
                text_focus: old(self).model().editing(),
            }),
            final(self).model() == (ViewModel { geometry, surface: r, ..old(self).model() }),
    {
        self.surface = Surface {
            popup,
            interior,
            caret,
            scrollable: true,
            text_focus: self.text_editing(),
        };
        self.geometry = geometry;
        self.surface
    }
}

/// The selected source is among the rows that a frame shows.
pub proof fn selected_source_is_shown(m: ViewModel, total: int, viewport: Rect)
    requires
        0 <= m.selected < total <= usize::MAX,
        viewport.height > 0,
    ensures
        exists|i: int|
            0 <= i < m.source_rows(total, viewport).len() && (#[trigger] m.source_rows(
                total,
                viewport,
            )[i]).1 == m.selected,
{
    let first = m.first_row(total, viewport.height as int);
    let i = m.selected - first;
    assert(m.source_rows(total, viewport)[i].1 == m.selected);
}

impl ViewDialog {
    /// The rows that the layer asks for: its header, its body, and what the
    /// message, the help and the button take.
    pub fn spec_for(&self, sources: usize, message: u16, help: u16, actions: u16) -> (r: DialogSpec)
        ensures
            r == (DialogSpec {
                header: 1,
                body: self.model().body_rows(sources as int) as u16,
                message,
                help,
                actions,
            }),
    {
        DialogSpec { header: 1, body: self.body_rows(sources), message, help, actions }
    }
}

} // verus!
