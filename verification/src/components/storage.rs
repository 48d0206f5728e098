//! The Storage layer: what the application keeps on disk and in memory, and the
//! two-step cleanup of what can be derived again.

use crate::component::{
    move_index, ring_step, scroll_by, scroll_step, CommandEntry, CommandId, CommandSpec, Event,
    MessageState, Outbox, Outcome, Queue, Surface,
};
use crate::dialog_controls::{copy_buttons, role_at, ButtonRole};
use crate::dialog_layout::{action_rows, budget_actions, DialogSpec};
use crate::dialog_layout::{
    button_at, find_button, find_region, item_rows, menu_rows, region_at, rows_with_items,
    rows_of_menu, AnchoredGeometry, ListGeometry, ResolvedDialog, ScrollViewport, FIELD_GUTTER,
    PANE_INDENT,
};
use crate::geometry::{greatest, least, max16, min16, minus, sat16, Rect};
use crate::input::{KeyCode, KeyEvent, MouseEventKind};
use crate::text::{
    decimal, decimal_text, join, joined, pad_left, pad_right, padded_left, padded_right, texts,
};
use crate::width::{
    display_width, elide_middle, elided, width_of, wrapped_line_count, wrapped_lines,
    MAX_WRAP_WIDTH,
};
use vstd::prelude::*;

pub mod laws;
pub mod render;

verus! {

/// The most requests that wait to be taken.
pub const STORAGE_OUTBOX_CAP: usize = 16;

/// What an entry is kept for.
#[derive(Clone, Copy, Debug, PartialEq, Eq, Structural)]
pub enum StorageCategory {
    Capture,
    Derived,
    Workspace,
    Investigation,
}

/// One thing the application keeps.
#[derive(Debug)]
pub struct StorageEntry {
    pub category: StorageCategory,
    pub bytes: u64,
    pub label: String,
    pub status: String,
    pub reclaimable: u64,
}

/// What a scan found.
#[derive(Debug)]
pub struct StorageSnapshot {
    pub entries: Vec<StorageEntry>,
    pub errors: Vec<String>,
    pub reclaimable_bytes: u64,
    pub row_cache_bytes: u64,
    pub row_cache_limit: u64,
    pub query_index_bytes: u64,
    pub query_index_limit: u64,
    pub total_bytes: u64,
    pub derived_index_limit_total: u64,
    pub derived_index_limit_per_source: u64,
}

impl StorageSnapshot {
    /// Nothing was found yet.
    pub open spec fn blank(self) -> bool {
        &&& self.entries@.len() == 0
        &&& self.errors@.len() == 0
        &&& self.reclaimable_bytes == 0
        &&& self.row_cache_bytes == 0
        &&& self.row_cache_limit == 0
        &&& self.query_index_bytes == 0
        &&& self.query_index_limit == 0
        &&& self.total_bytes == 0
        &&& self.derived_index_limit_total == 0
        &&& self.derived_index_limit_per_source == 0
    }
}

impl Default for StorageSnapshot {
    fn default() -> (r: StorageSnapshot)
        ensures
            r.blank(),
    {
        StorageSnapshot {
            entries: Vec::new(),
            errors: Vec::new(),
            reclaimable_bytes: 0,
            row_cache_bytes: 0,
            row_cache_limit: 0,
            query_index_bytes: 0,
            query_index_limit: 0,
            total_bytes: 0,
            derived_index_limit_total: 0,
            derived_index_limit_per_source: 0,
        }
    }
}

/// What the worker is asked for.
#[derive(Clone, Copy, Debug, PartialEq, Eq, Structural)]
pub enum StorageRequestKind {
    Scan,
    Cancel,
    ClearUnusedDerived,
}

/// A request to the worker, fenced by its generation.
#[derive(Clone, Copy, Debug, PartialEq, Eq, Structural)]
pub struct StorageRequest {
    pub generation: u64,
    pub kind: StorageRequestKind,
}

/// Everything Storage draws that can be clicked.
#[derive(Clone, Copy, Debug, PartialEq, Eq, Structural)]
pub enum StorageHit {
    /// A row of the overflow menu, which is on top.
    Menu(usize),
    /// The button of the overflow menu.
    More,
    Row(usize),
    Refresh,
    Cleanup,
    /// The scrollable pane of scan diagnostics.
    Diagnostics,
    Body,
}

/// Where the last frame drew what can be clicked.
#[derive(Debug)]
pub struct StorageGeometry {
    pub body: Rect,
    pub rows: Vec<(Rect, usize)>,
    /// Index 0 refreshes, index 1 previews or confirms cleanup.
    pub actions: Vec<(usize, Rect)>,
    pub diagnostics: Option<Rect>,
    pub menu: Vec<(Rect, usize)>,
    pub more: Option<Rect>,
}

impl StorageGeometry {
    /// Nothing was drawn.
    pub open spec fn blank(self) -> bool {
        &&& self.body == (Rect { x: 0, y: 0, width: 0, height: 0 })
        &&& self.rows@.len() == 0
        &&& self.actions@.len() == 0
        &&& self.diagnostics is None
        &&& self.menu@.len() == 0
        &&& self.more is None
    }
}

impl Default for StorageGeometry {
    fn default() -> (r: StorageGeometry)
        ensures
            r.blank(),
    {
        StorageGeometry {
            body: Rect::zero(),
            rows: Vec::new(),
            actions: Vec::new(),
            diagnostics: None,
            menu: Vec::new(),
            more: None,
        }
    }
}

#[derive(Debug)]
pub struct StorageDialog {
    open: bool,
    generation: u64,
    snapshot: StorageSnapshot,
    selected: usize,
    scanning: bool,
    confirm_clear: bool,
    status: String,
    scroll: usize,
    scroll_limit: usize,
    scroll_focused: bool,
    menu_open: bool,
    menu_selected: usize,
    geometry: StorageGeometry,
    surface: Surface,
    pub outbox: Outbox<StorageRequest>,
}

/// The state of the layer.
pub struct StorageModel {
    pub open: bool,
    pub generation: int,
    pub snapshot: StorageSnapshot,
    pub selected: int,
    pub scanning: bool,
    pub confirm_clear: bool,
    pub status: Seq<char>,
    pub scroll: int,
    pub scroll_limit: int,
    pub scroll_focused: bool,
    pub menu_open: bool,
    pub menu_selected: int,
    pub geometry: StorageGeometry,
    pub surface: Surface,
    pub queue: Queue<StorageRequest>,
}

impl StorageModel {
    /// Asks the worker for something under the current generation.
    pub open spec fn asked(self, kind: StorageRequestKind) -> StorageModel {
        StorageModel {
            queue: self.queue.put(StorageRequest { generation: self.generation as u64, kind }),
            ..self
        }
    }

    /// What is in flight is called off.
    pub open spec fn cancelled(self) -> StorageModel {
        if self.scanning {
            self.asked(StorageRequestKind::Cancel)
        } else {
            self
        }
    }

    /// A scan of a new generation starts in place of what is in flight.
    pub open spec fn scanned_anew(self, status: Seq<char>) -> StorageModel {
        let quiet = self.cancelled();
        StorageModel {
            queue: quiet.queue.drawn(),
            generation: quiet.queue.drawn().generation,
            scanning: true,
            confirm_clear: false,
            status,
            ..quiet
        }.asked(StorageRequestKind::Scan)
    }

    pub open spec fn refreshed(self) -> StorageModel {
        self.scanned_anew("refreshing storage usage\u{2026}"@)
    }

    /// The cleanup button: refused while a scan runs or where nothing can be
    /// reclaimed; else the first press asks and the second submits.
    pub open spec fn cleared(self, amount: Seq<char>) -> StorageModel {
        if self.scanning {
            StorageModel { status: "wait for the current storage scan"@, ..self }
        } else if self.snapshot.reclaimable_bytes == 0 {
            StorageModel { status: "no unused derived indexes are reclaimable"@, ..self }
        } else if !self.confirm_clear {
            StorageModel {
                confirm_clear: true,
                status: "clear "@ + amount
                    + " of unused recomputable derived indexes? press c again"@,
                ..self
            }
        } else {
            StorageModel {
                scanning: true,
                confirm_clear: false,
                status: "clearing unused derived indexes\u{2026}"@,
                ..self
            }.asked(StorageRequestKind::ClearUnusedDerived)
        }
    }

    /// Up and down move in the open menu, and else in the entries, where a move
    /// takes back the confirmation.
    pub open spec fn moved(self, delta: int) -> StorageModel {
        if self.menu_open {
            let shown = self.geometry.menu@.len() as int;
            StorageModel {
                menu_selected: ring_step(
                    self.menu_selected,
                    if shown == 0 {
                        1
                    } else {
                        shown
                    },
                    delta,
                ),
                ..self
            }
        } else if self.snapshot.entries@.len() == 0 {
            self
        } else {
            StorageModel {
                selected: ring_step(self.selected, self.snapshot.entries@.len() as int, delta),
                confirm_clear: false,
                ..self
            }
        }
    }

    pub open spec fn menu_closed(self) -> StorageModel {
        StorageModel { menu_open: false, menu_selected: 0, ..self }
    }

    /// The menu holds the cleanup alone.
    pub open spec fn menu_chosen(self, amount: Seq<char>) -> StorageModel {
        self.menu_closed().cleared(amount)
    }

    pub open spec fn scrolled(self, delta: int) -> StorageModel {
        StorageModel { scroll: scroll_step(self.scroll, self.scroll_limit, delta), ..self }
    }

    pub open spec fn row_selected(self, index: int) -> StorageModel {
        StorageModel { selected: index, confirm_clear: false, ..self }
    }

    /// Up and down: through the diagnostics where they have the focus, else
    /// through the menu or the entries.
    pub open spec fn stepped(self, delta: int) -> StorageModel {
        if self.scroll_focused {
            self.scrolled(delta)
        } else {
            self.moved(delta)
        }
    }

    /// A key: an open menu takes the arrows first, owns Enter and Escape, and
    /// lets no other key through.
    pub open spec fn after_key(self, key: KeyEvent, amount: Seq<char>) -> (StorageModel, Outcome) {
        if !key.spec_is_active() {
            (self, Outcome::Ignored)
        } else if self.menu_open {
            match key.code {
                KeyCode::Up => (self.moved(-1).stepped(-1), Outcome::Consumed),
                KeyCode::Down => (self.moved(1).stepped(1), Outcome::Consumed),
                KeyCode::Enter => (self.menu_chosen(amount), Outcome::Consumed),
                KeyCode::Esc => (self.menu_closed(), Outcome::Consumed),
                _ => (self, Outcome::Consumed),
            }
        } else {
            match key.code {
                KeyCode::Tab => (
                    StorageModel { scroll_focused: !self.scroll_focused, ..self },
                    Outcome::Consumed,
                ),
                KeyCode::Up => (self.stepped(-1), Outcome::Consumed),
                KeyCode::Down => (self.stepped(1), Outcome::Consumed),
                KeyCode::Char('k') => (self.moved(-1), Outcome::Consumed),
                KeyCode::Char('j') => (self.moved(1), Outcome::Consumed),
                KeyCode::Enter => (self.refreshed(), Outcome::Consumed),
                _ => (self, Outcome::Ignored),
            }
        }
    }

    /// The pointer: the open menu takes it first, then the diagnostics pane,
    /// then buttons and rows; the wheel elsewhere moves the selection.
    pub open spec fn after_mouse(
        self,
        kind: MouseEventKind,
        hit: Option<StorageHit>,
        amount: Seq<char>,
    ) -> (StorageModel, Outcome) {
        let pressed = kind == MouseEventKind::LeftDown;
        let up = kind == MouseEventKind::ScrollUp;
        let down = kind == MouseEventKind::ScrollDown;
        let unfocused = StorageModel {
            scroll_focused: if pressed {
                false
            } else {
                self.scroll_focused
            },
            ..self
        };
        if pressed && hit is Some && hit->0 is Menu {
            (self.menu_chosen(amount), Outcome::Consumed)
        } else if (up || down) && self.menu_open {
            (
                self.moved(
                    if up {
                        -1
                    } else {
                        1
                    },
                ),
                Outcome::Consumed,
            )
        } else if hit == Some(StorageHit::Diagnostics) {
            match kind {
                MouseEventKind::LeftDown => (
                    StorageModel { scroll_focused: true, ..self },
                    Outcome::Consumed,
                ),
                MouseEventKind::ScrollUp => (self.scrolled(-1), Outcome::Consumed),
                MouseEventKind::ScrollDown => (self.scrolled(1), Outcome::Consumed),
                MouseEventKind::Other => (self, Outcome::Ignored),
            }
        } else {
            let answered = if !pressed {
                unfocused
            } else {
                match hit {
                    Some(StorageHit::Refresh) => unfocused.refreshed(),
                    Some(StorageHit::Cleanup) => unfocused.cleared(amount),
                    Some(StorageHit::More) => StorageModel {
                        menu_open: !self.menu_open,
                        menu_selected: 0,
                        ..unfocused
                    },
                    Some(StorageHit::Row(index)) => unfocused.row_selected(index as int),
                    _ => unfocused,
                }
            };
            (
                if up {
                    answered.moved(-1)
                } else if down {
                    answered.moved(1)
                } else {
                    answered
                },
                Outcome::Consumed,
            )
        }
    }

    /// Dismissal closes the open menu first; else it calls off what is in
    /// flight and closes the layer.
    pub open spec fn dismissed(self) -> (StorageModel, Outcome) {
        if self.menu_open {
            (self.menu_closed(), Outcome::Consumed)
        } else {
            (
                StorageModel { open: false, scanning: false, ..self.cancelled() },
                Outcome::Close,
            )
        }
    }

    pub open spec fn after_event(self, event: Event<StorageHit>, amount: Seq<char>) -> (
        StorageModel,
        Outcome,
    ) {
        match event {
            Event::Key(key) => self.after_key(key, amount),
            Event::Mouse { kind, hit } => self.after_mouse(kind, hit, amount),
            Event::Dismiss => self.dismissed(),
            Event::Command(CommandId::StorageClear) => (self.cleared(amount), Outcome::Consumed),
            _ => (self, Outcome::Ignored),
        }
    }

    /// A completion of the current generation brings its snapshot, keeps the
    /// selection in it and, where it is the last of its scan, takes back the
    /// confirmation; any other changes nothing.
    pub open spec fn completed(
        self,
        generation: int,
        snapshot: StorageSnapshot,
        status: Seq<char>,
        complete: bool,
    ) -> StorageModel {
        if !self.open || self.generation != generation {
            self
        } else {
            let last = if snapshot.entries@.len() == 0 {
                0
            } else {
                snapshot.entries@.len() - 1
            };
            StorageModel {
                snapshot,
                selected: if self.selected <= last {
                    self.selected
                } else {
                    last
                },
                scanning: !complete,
                status,
                confirm_clear: self.confirm_clear && !complete,
                ..self
            }
        }
    }

    /// A layer that was never opened.
    pub open spec fn initial(self) -> bool {
        &&& !self.open
        &&& self.generation == 0
        &&& self.snapshot.blank()
        &&& self.selected == 0
        &&& !self.scanning
        &&& !self.confirm_clear
        &&& self.status == Seq::<char>::empty()
        &&& self.scroll == 0
        &&& self.scroll_limit == 0
        &&& !self.scroll_focused
        &&& !self.menu_open
        &&& self.menu_selected == 0
        &&& self.geometry.blank()
        &&& self.surface == Surface::nothing()
        &&& self.queue == Queue::<StorageRequest>::empty(STORAGE_OUTBOX_CAP as int)
    }
}

impl StorageDialog {
    pub closed spec fn model(&self) -> StorageModel {
        StorageModel {
            open: self.open,
            generation: self.generation as int,
            snapshot: self.snapshot,
            selected: self.selected as int,
            scanning: self.scanning,
            confirm_clear: self.confirm_clear,
            status: self.status@,
            scroll: self.scroll as int,
            scroll_limit: self.scroll_limit as int,
            scroll_focused: self.scroll_focused,
            menu_open: self.menu_open,
            menu_selected: self.menu_selected as int,
            geometry: self.geometry,
            surface: self.surface,
            queue: self.outbox@,
        }
    }

    /// Completion from the worker; whether it belonged to the current scan.
    pub fn complete(
        &mut self,
        generation: u64,
        snapshot: StorageSnapshot,
        status: String,
        complete: bool,
    ) -> (r: bool)
        ensures
            final(self).model() == old(self).model().completed(
                generation as int,
                snapshot,
                status@,
                complete,
            ),
            r == (old(self).model().open && old(self).model().generation == generation),
    {
        if !self.open || self.generation != generation {
            return false;
        }
        let count: usize = snapshot.entries.len();
        let last: usize = if count == 0 {
            0
        } else {
            count - 1
        };
        self.snapshot = snapshot;
        if self.selected > last {
            self.selected = last;
        }
        self.scanning = !complete;
        self.status = status;
        if complete {
            self.confirm_clear = false;
        }
        true
    }

    fn ask(&mut self, kind: StorageRequestKind)
        ensures
            final(self).model() == old(self).model().asked(kind),
    {
        let generation: u64 = self.generation;
        let _ = self.outbox.push(StorageRequest { generation, kind });
    }

    fn cancel_in_flight(&mut self)
        ensures
            final(self).model() == old(self).model().cancelled(),
    {
        if self.scanning {
            self.ask(StorageRequestKind::Cancel);
        }
    }

    fn start_scan(&mut self, status: &str)
        ensures
            final(self).model() == old(self).model().scanned_anew(status@),
    {
        self.cancel_in_flight();
        self.generation = self.outbox.next_generation();
        self.scanning = true;
        self.confirm_clear = false;
        self.status = status.to_owned();
        self.ask(StorageRequestKind::Scan);
    }

    fn refresh(&mut self)
        ensures
            final(self).model() == old(self).model().refreshed(),
    {
        self.start_scan("refreshing storage usage\u{2026}");
    }

    /// The two-step cleanup: the first press names `amount`, the reclaimable
    /// bytes in words, and the second submits.
    fn clear(&mut self, amount: &str)
        ensures
            final(self).model() == old(self).model().cleared(amount@),
    {
        if self.scanning {
            self.status = "wait for the current storage scan".to_owned();
        } else if self.snapshot.reclaimable_bytes == 0 {
            self.status = "no unused derived indexes are reclaimable".to_owned();
        } else if !self.confirm_clear {
            self.confirm_clear = true;
            let mut status = "clear ".to_owned();
            status.append(amount);
            status.append(" of unused recomputable derived indexes? press c again");
            self.status = status;
        } else {
            self.scanning = true;
            self.confirm_clear = false;
            self.status = "clearing unused derived indexes\u{2026}".to_owned();
            self.ask(StorageRequestKind::ClearUnusedDerived);
        }
    }

    fn move_selection(&mut self, delta: i32)
        ensures
            final(self).model() == old(self).model().moved(delta as int),
    {
        if self.menu_open {
            let shown: usize = self.geometry.menu.len();
            let len: usize = if shown == 0 {
                1
            } else {
                shown
            };
            self.menu_selected = move_index(self.menu_selected, len, delta);
        } else if self.snapshot.entries.len() > 0 {
            self.selected = move_index(self.selected, self.snapshot.entries.len(), delta);
            self.confirm_clear = false;
        }
    }

    fn close_menu(&mut self)
        ensures
            final(self).model() == old(self).model().menu_closed(),
    {
        self.menu_open = false;
        self.menu_selected = 0;
    }

    fn choose_menu(&mut self, amount: &str) -> (r: Outcome)
        ensures
            final(self).model() == old(self).model().menu_chosen(amount@),
            r == Outcome::Consumed,
    {
        self.close_menu();
        self.clear(amount);
        Outcome::Consumed
    }

    fn scroll_body(&mut self, delta: i32)
        ensures
            final(self).model() == old(self).model().scrolled(delta as int),
    {
        self.scroll = scroll_by(self.scroll, self.scroll_limit, delta);
    }

    fn select_row(&mut self, index: usize)
        ensures
            final(self).model() == old(self).model().row_selected(index as int),
    {
        self.selected = index;
        self.confirm_clear = false;
    }

    fn step(&mut self, delta: i32)
        ensures
            final(self).model() == old(self).model().stepped(delta as int),
    {
        if self.scroll_focused {
            self.scroll_body(delta)
        } else {
            self.move_selection(delta)
        }
    }

    pub fn key(&mut self, key: KeyEvent, amount: &str) -> (r: Outcome)
        ensures
            (final(self).model(), r) == old(self).model().after_key(key, amount@),
    {
        if !key.is_active() {
            return Outcome::Ignored;
        }
        if self.menu_open {
            match key.code {
                KeyCode::Up => {
                    self.move_selection(-1);
                    self.step(-1);
                },
                KeyCode::Down => {
                    self.move_selection(1);
                    self.step(1);
                },
                KeyCode::Enter => {
                    return self.choose_menu(amount);
                },
                KeyCode::Esc => self.close_menu(),
                _ => {},
            }
            return Outcome::Consumed;
        }
        match key.code {
            KeyCode::Tab => {
                self.scroll_focused = !self.scroll_focused;
            },
            KeyCode::Up => self.step(-1),
            KeyCode::Down => self.step(1),
            KeyCode::Char('k') => self.move_selection(-1),
            KeyCode::Char('j') => self.move_selection(1),
            KeyCode::Enter => self.refresh(),
            _ => return Outcome::Ignored,
        }
        Outcome::Consumed
    }

    pub fn mouse(&mut self, kind: MouseEventKind, hit: Option<StorageHit>, amount: &str) -> (r:
        Outcome)
        ensures
            (final(self).model(), r) == old(self).model().after_mouse(kind, hit, amount@),
    {
        let pressed = kind == MouseEventKind::LeftDown;
        if pressed {
            if let Some(StorageHit::Menu(_)) = hit {
                return self.choose_menu(amount);
            }
        }
        if self.menu_open {
            if kind == MouseEventKind::ScrollUp {
                self.move_selection(-1);
                return Outcome::Consumed;
            }
            if kind == MouseEventKind::ScrollDown {
                self.move_selection(1);
                return Outcome::Consumed;
            }
        }
        if let Some(StorageHit::Diagnostics) = hit {
            match kind {
                MouseEventKind::LeftDown => {
                    self.scroll_focused = true;
                },
                MouseEventKind::ScrollUp => self.scroll_body(-1),
                MouseEventKind::ScrollDown => self.scroll_body(1),
                MouseEventKind::Other => return Outcome::Ignored,
            }
            return Outcome::Consumed;
        }
        if pressed {
            self.scroll_focused = false;
            match hit {
                Some(StorageHit::Refresh) => self.refresh(),
                Some(StorageHit::Cleanup) => self.clear(amount),
                Some(StorageHit::More) => {
                    self.menu_open = !self.menu_open;
                    self.menu_selected = 0;
                },
                Some(StorageHit::Row(index)) => self.select_row(index),
                _ => {},
            }
        }
        match kind {
            MouseEventKind::ScrollUp => self.move_selection(-1),
            MouseEventKind::ScrollDown => self.move_selection(1),
            _ => {},
        }
        Outcome::Consumed
    }

    pub fn handle(&mut self, event: Event<StorageHit>, amount: &str) -> (r: Outcome)
        ensures
            (final(self).model(), r) == old(self).model().after_event(event, amount@),
    {
        match event {
            Event::Key(key) => self.key(key, amount),
            Event::Mouse { kind, hit } => self.mouse(kind, hit, amount),
            Event::Dismiss => {
                if self.menu_open {
                    self.close_menu();
                    return Outcome::Consumed;
                }
                self.cancel_in_flight();
                self.open = false;
                self.scanning = false;
                Outcome::Close
            },
            Event::Command(CommandId::StorageClear) => {
                self.clear(amount);
                Outcome::Consumed
            },
            Event::Command(_) | Event::Paste(_) | Event::View(_) | Event::Resize => Outcome::Ignored,
        }
    }
}

/// The columns of the entry list.
pub const STORAGE_KIND_WIDTH: u16 = 10;

pub const STORAGE_SIZE_WIDTH: u16 = 10;

pub const STORAGE_STATUS_WIDTH: u16 = 22;

/// What the budgets are not.
pub const STORAGE_CAPTION: &'static str = "managed budgets only \u{b7} not a process RSS limit";

impl Default for StorageDialog {
    fn default() -> (r: StorageDialog)
        ensures
            r.model().initial(),
    {
        StorageDialog {
            open: false,
            generation: 0,
            snapshot: StorageSnapshot::default(),
            selected: 0,
            scanning: false,
            confirm_clear: false,
            status: String::new(),
            scroll: 0,
            scroll_limit: 0,
            scroll_focused: false,
            menu_open: false,
            menu_selected: 0,
            geometry: StorageGeometry::default(),
            surface: Surface::default(),
            outbox: Outbox::new(STORAGE_OUTBOX_CAP),
        }
    }
}

/// The label of the second button, by the state of the confirmation.
pub open spec fn cleanup_label(confirm_clear: bool) -> Seq<char> {
    if confirm_clear {
        "Confirm &cleanup"@
    } else {
        "Preview &cleanup"@
    }
}

impl StorageModel {
    /// The layer opens with nothing known and a first scan asked for.
    pub open spec fn is_opened_from(self, before: StorageModel) -> bool {
        exists|snapshot: StorageSnapshot, geometry: StorageGeometry|
            snapshot.blank() && geometry.blank() && self == #[trigger] opened(
                before,
                snapshot,
                geometry,
            )
    }

    /// What a point of the last frame stands for: the open menu first, then its
    /// button, the diagnostics, the buttons, the rows, and at last the body.
    pub open spec fn at(self, column: int, row: int) -> Option<StorageHit> {
        let g = self.geometry;
        if region_at(g.menu@, column, row) is Some {
            Some(StorageHit::Menu(region_at(g.menu@, column, row)->0))
        } else if g.more is Some && g.more->0.covers(column, row) {
            Some(StorageHit::More)
        } else if g.diagnostics is Some && g.diagnostics->0.covers(column, row) {
            Some(StorageHit::Diagnostics)
        } else if button_at(g.actions@, column, row) is Some {
            if button_at(g.actions@, column, row) == Some(0usize) {
                Some(StorageHit::Refresh)
            } else {
                Some(StorageHit::Cleanup)
            }
        } else if region_at(g.rows@, column, row) is Some {
            Some(StorageHit::Row(region_at(g.rows@, column, row)->0))
        } else if g.body.covers(column, row) {
            Some(StorageHit::Body)
        } else {
            None
        }
    }

    /// The message row: problems of the last scan, else the confirmation, else
    /// what the scan is doing or did.
    pub open spec fn message(self) -> (MessageState, Seq<char>) {
        let problems = self.snapshot.errors@.len();
        if problems > 0 {
            (
                MessageState::Error,
                decimal(problems) + " problem"@ + (if problems == 1 {
                    ""@
                } else {
                    "s"@
                }) + " in the last scan \u{b7} details below"@,
            )
        } else if self.confirm_clear {
            (MessageState::Pending, self.status)
        } else if self.scanning {
            (MessageState::Updating, self.status)
        } else {
            (MessageState::Scanned, self.status)
        }
    }
}

/// The state of a layer that was just opened.
pub open spec fn opened(
    before: StorageModel,
    snapshot: StorageSnapshot,
    geometry: StorageGeometry,
) -> StorageModel {
    StorageModel {
        open: true,
        selected: 0,
        snapshot,
        scroll: 0,
        scroll_limit: 0,
        scroll_focused: false,
        menu_open: false,
        menu_selected: 0,
        geometry,
        ..before
    }.scanned_anew("scanning application-owned storage\u{2026}"@)
}

impl StorageDialog {
    pub fn is_open(&self) -> (r: bool)
        ensures
            r == self.model().open,
    {
        self.open
    }

    pub fn selected(&self) -> (r: usize)
        ensures
            r == self.model().selected,
    {
        self.selected
    }

    pub fn confirm_clear(&self) -> (r: bool)
        ensures
            r == self.model().confirm_clear,
    {
        self.confirm_clear
    }

    pub fn status(&self) -> (r: &str)
        ensures
            r@ == self.model().status,
    {
        self.status.as_str()
    }

    pub fn snapshot(&self) -> (r: &StorageSnapshot)
        ensures
            *r == self.model().snapshot,
    {
        &self.snapshot
    }

    /// The rows of the last frame.
    pub fn row_rects(&self) -> (r: &[(Rect, usize)])
        ensures
            r@ == self.model().geometry.rows@,
    {
        self.geometry.rows.as_slice()
    }

    /// The buttons of the last frame.
    pub fn action_rects(&self) -> (r: &[(usize, Rect)])
        ensures
            r@ == self.model().geometry.actions@,
    {
        self.geometry.actions.as_slice()
    }

    /// The overflow menu's rows of the last frame.
    pub fn menu_rects(&self) -> (r: &[(Rect, usize)])
        ensures
            r@ == self.model().geometry.menu@,
    {
        self.geometry.menu.as_slice()
    }

    pub fn scroll(&self) -> (r: usize)
        ensures
            r == self.model().scroll,
    {
        self.scroll
    }

    pub fn scroll_limit(&self) -> (r: usize)
        ensures
            r == self.model().scroll_limit,
    {
        self.scroll_limit
    }

    pub fn surface(&self) -> (r: Surface)
        ensures
            r == self.model().surface,
    {
        self.surface
    }

    pub fn open(&mut self)
        ensures
            final(self).model().is_opened_from(old(self).model()),
    {
        let ghost before = self.model();
        self.open = true;
        self.selected = 0;
        self.snapshot = StorageSnapshot::default();
        self.scroll = 0;
        self.scroll_limit = 0;
        self.scroll_focused = false;
        self.menu_open = false;
        self.menu_selected = 0;
        self.geometry = StorageGeometry::default();
        let ghost snapshot = self.snapshot;
        let ghost geometry = self.geometry;
        self.start_scan("scanning application-owned storage\u{2026}");
        assert(self.model() == opened(before, snapshot, geometry));
    }

    /// The labels of the action row.
    pub fn action_labels(&self) -> (r: Vec<&'static str>)
        ensures
            r@.len() == 2,
            r@[0]@ == "&Refresh"@,
            r@[1]@ == cleanup_label(self.model().confirm_clear),
    {
        let mut labels: Vec<&'static str> = Vec::new();
        labels.push("&Refresh");
        labels.push(
            if self.confirm_clear {
                "Confirm &cleanup"
            } else {
                "Preview &cleanup"
            },
        );
        labels
    }

    /// The role of a button: Refresh is the default, and the cleanup is
    /// destructive once it confirms.
    pub fn action_role(&self, index: usize) -> (r: ButtonRole)
        ensures
            r == role_at(
                if self.model().confirm_clear {
                    seq![1usize]
                } else {
                    seq![]
                },
                Some(0),
                index,
            ),
    {
        if self.confirm_clear && index == 1 {
            assert(seq![1usize][0] == index);
            ButtonRole::Destructive
        } else if index == 0 {
            ButtonRole::Default
        } else {
            ButtonRole::Normal
        }
    }

    pub fn press_action(&mut self, index: usize, amount: &str) -> (r: Outcome)
        ensures
            index == 0 ==> final(self).model() == old(self).model().refreshed() && r
                == Outcome::Consumed,
            index == 1 ==> final(self).model() == old(self).model().cleared(amount@) && r
                == Outcome::Consumed,
            index > 1 ==> *final(self) == *old(self) && r == Outcome::Ignored,
    {
        match index {
            0 => self.refresh(),
            1 => self.clear(amount),
            _ => return Outcome::Ignored,
        }
        Outcome::Consumed
    }

    /// The cleanup command of the palette, which needs the confirmation first.
    pub fn commands(&self) -> (r: Vec<CommandEntry>)
        ensures
            r@.len() == 1,
            r@[0].spec.id == CommandId::StorageClear,
            r@[0].spec.name@ == "Confirm derived-data cleanup"@,
            r@[0].spec.description@ == "Use the existing two-step storage confirmation"@,
            r@[0].spec.category@ == "Storage"@,
            r@[0].spec.aliases@.len() == 2,
            r@[0].spec.aliases@[0]@ == "clear cache"@,
            r@[0].spec.aliases@[1]@ == "delete derived"@,
            r@[0].spec.shortcut is Some <==> self.model().open,
            r@[0].spec.shortcut matches Some(keys) ==> keys@ == "Alt-C"@,
            r@[0].unavailable_reason is None <==> self.model().open && self.model().confirm_clear,
            r@[0].unavailable_reason matches Some(why) ==> why@
                == "confirm cleanup in Storage preview first"@,
    {
        let mut spec = cleanup_command();
        if self.open {
            spec.shortcut = Some("Alt-C");
        }
        let reason = if !self.open || !self.confirm_clear {
            Some("confirm cleanup in Storage preview first")
        } else {
            None
        };
        let mut entries: Vec<CommandEntry> = Vec::new();
        entries.push(CommandEntry { spec, unavailable_reason: reason });
        entries
    }

    pub fn hit(&self, column: u16, row: u16) -> (r: Option<StorageHit>)
        ensures
            r == self.model().at(column as int, row as int),
    {
        let g = &self.geometry;
        if let Some(index) = find_region(&g.menu, column, row) {
            return Some(StorageHit::Menu(index));
        }
        if let Some(area) = g.more {
            if area.contains(column, row) {
                return Some(StorageHit::More);
            }
        }
        if let Some(area) = g.diagnostics {
            if area.contains(column, row) {
                return Some(StorageHit::Diagnostics);
            }
        }
        if let Some(index) = find_button(&g.actions, column, row) {
            return Some(
                if index == 0 {
                    StorageHit::Refresh
                } else {
                    StorageHit::Cleanup
                },
            );
        }
        if let Some(index) = find_region(&g.rows, column, row) {
            return Some(StorageHit::Row(index));
        }
        if g.body.contains(column, row) {
            Some(StorageHit::Body)
        } else {
            None
        }
    }

    /// The message row of a frame.
    pub fn message(&self) -> (r: (MessageState, String))
        ensures
            (r.0, r.1@) == self.model().message(),
    {
        let problems: usize = self.snapshot.errors.len();
        if problems > 0 {
            let mut sentence = decimal_text(problems as u64);
            sentence.append(" problem");
            sentence.append(
                if problems == 1 {
                    ""
                } else {
                    "s"
                },
            );
            sentence.append(" in the last scan \u{b7} details below");
            (MessageState::Error, sentence)
        } else if self.confirm_clear {
            (MessageState::Pending, self.status.clone())
        } else if self.scanning {
            (MessageState::Updating, self.status.clone())
        } else {
            (MessageState::Scanned, self.status.clone())
        }
    }
}

/// The palette entry that Storage owns.
pub fn cleanup_command() -> (r: CommandSpec)
    ensures
        r.id == CommandId::StorageClear,
        r.name@ == "Confirm derived-data cleanup"@,
        r.description@ == "Use the existing two-step storage confirmation"@,
        r.category@ == "Storage"@,
        r.aliases@.len() == 2,
        r.aliases@[0]@ == "clear cache"@,
        r.aliases@[1]@ == "delete derived"@,
        r.shortcut is None,
{
    let mut aliases: Vec<&'static str> = Vec::new();
    aliases.push("clear cache");
    aliases.push("delete derived");
    CommandSpec {
        id: CommandId::StorageClear,
        name: "Confirm derived-data cleanup",
        description: "Use the existing two-step storage confirmation",
        category: "Storage",
        aliases,
        shortcut: None,
    }
}

/// How a frame's body is divided: whether the summary is shown, and the heights
/// of the list and of the diagnostics.
pub struct StorageSplit {
    pub summary: bool,
    pub list: int,
    pub diagnostics: int,
}

/// The rows of the summary with its caption: two figures to a row where there
/// is room, else one.
pub open spec fn summary_height(width: int) -> int {
    if width >= 72 {
        3
    } else {
        5
    }
}

/// The division of a body: all three parts where they fit, with a gap round the
/// list where the frame is roomy; else the part that has the focus alone.
pub open spec fn storage_split(
    height: int,
    width: int,
    roomy: bool,
    diagnostics: bool,
    scroll_focused: bool,
) -> StorageSplit {
    let gaps = if roomy {
        2int
    } else {
        0
    };
    let wanted = if diagnostics {
        4int
    } else {
        0
    };
    let fixed = summary_height(width) + wanted + gaps;
    if height == 0 {
        StorageSplit { summary: false, list: 0, diagnostics: 0 }
    } else if fixed + 1 <= height {
        StorageSplit {
            summary: true,
            list: if height - fixed - 1 >= 1 {
                height - fixed - 1
            } else {
                1
            },
            diagnostics: wanted,
        }
    } else if scroll_focused && diagnostics {
        StorageSplit { summary: false, list: 0, diagnostics: height }
    } else {
        StorageSplit { summary: false, list: height, diagnostics: 0 }
    }
}

/// The list's part of a body.
pub open spec fn storage_list_area(body: Rect, width: int, roomy: bool, split: StorageSplit) -> Rect {
    let y = if split.summary {
        sat16(
            sat16(sat16(body.y + summary_height(width)) + 1) + if roomy {
                1int
            } else {
                0
            },
        )
    } else {
        body.y as int
    };
    Rect::spec_new(
        body.x,
        y as u16,
        body.width,
        least(split.list, minus(body.spec_bottom(), y)) as u16,
    )
}

/// The diagnostics' part of a body, below the list.
pub open spec fn storage_diagnostics_area(body: Rect, roomy: bool, list: Rect, split: StorageSplit) -> Option<
    Rect,
> {
    let below = minus(body.spec_bottom(), list.spec_bottom());
    if split.diagnostics > 0 {
        Some(
            Rect::spec_new(
                body.x,
                sat16(
                    list.spec_bottom() + least(
                        if roomy {
                            1
                        } else {
                            0
                        },
                        below,
                    ),
                ) as u16,
                body.width,
                least(split.diagnostics, below) as u16,
            ),
        )
    } else {
        None
    }
}

/// The parts of a body.
#[derive(Clone, Copy, Debug, PartialEq, Eq, Structural)]
pub struct StorageSections {
    pub summary: bool,
    pub list: Rect,
    pub diagnostics: Option<Rect>,
}

impl StorageDialog {
    /// Divides the body of a frame between summary, list and diagnostics.
    pub fn sections(&self, body: Rect, width: u16, roomy: bool) -> (r: StorageSections)
        ensures
            ({
                let split = storage_split(
                    body.height as int,
                    width as int,
                    roomy,
                    joined(texts(self.model().snapshot.errors@), "\n"@).len() > 0,
                    self.model().scroll_focused,
                );
                &&& r.summary == split.summary
                &&& r.list == storage_list_area(body, width as int, roomy, split)
                &&& r.diagnostics == storage_diagnostics_area(body, roomy, r.list, split)
            }),
    {
        let summary_rows: u16 = if width >= 72 {
            3
        } else {
            5
        };
        let gap: u16 = if roomy {
            1
        } else {
            0
        };
        let text = join(&self.snapshot.errors, "\n");
        let wanted: u16 = if text.as_str().is_empty() {
            0
        } else {
            4
        };
        let fixed: u16 = summary_rows + wanted + gap * 2;
        let height: u16 = body.height;
        let (summary, list_height, diagnostics_height): (bool, u16, u16) = if height == 0 {
            (false, 0, 0)
        } else if fixed + 1 <= height {
            (true, max16(height - fixed - 1, 1), wanted)
        } else if self.scroll_focused && wanted > 0 {
            (false, 0, height)
        } else {
            (false, height, 0)
        };
        let list_y: u16 = if summary {
            body.y.saturating_add(summary_rows).saturating_add(1).saturating_add(gap)
        } else {
            body.y
        };
        let list = Rect::new(
            body.x,
            list_y,
            body.width,
            min16(list_height, body.bottom().saturating_sub(list_y)),
        );
        let diagnostics = if diagnostics_height > 0 {
            let below: u16 = body.bottom().saturating_sub(list.bottom());
            Some(
                Rect::new(
                    body.x,
                    list.bottom().saturating_add(min16(gap, below)),
                    body.width,
                    min16(diagnostics_height, below),
                ),
            )
        } else {
            None
        };
        StorageSections { summary, list, diagnostics }
    }
}

/// The widths of an entry's name and status: the status is dropped before the
/// name is cut, because the name is the identifier.
pub open spec fn entry_widths(width: int) -> (int, int) {
    let columns = minus(minus(minus(width, 2), STORAGE_KIND_WIDTH as int), STORAGE_SIZE_WIDTH as int);
    if columns >= STORAGE_STATUS_WIDTH * 2 {
        (least(columns / 2, 60), columns - least(columns / 2, 60))
    } else {
        (columns, 0)
    }
}

/// Divides the width of an entry row between name and status.
pub fn entry_columns(width: u16) -> (r: (u16, u16))
    ensures
        (r.0 as int, r.1 as int) == entry_widths(width as int),
{
    let columns: u16 = width.saturating_sub(2).saturating_sub(STORAGE_KIND_WIDTH).saturating_sub(
        STORAGE_SIZE_WIDTH,
    );
    if columns >= STORAGE_STATUS_WIDTH * 2 {
        let name: u16 = min16(columns / 2, 60);
        (name, columns - name)
    } else {
        (columns, 0)
    }
}

/// The word for what an entry is kept for.
pub open spec fn category_word(category: StorageCategory) -> Seq<char> {
    match category {
        StorageCategory::Capture => "capture"@,
        StorageCategory::Derived => "derived"@,
        StorageCategory::Workspace => "workspace"@,
        StorageCategory::Investigation => "exports"@,
    }
}

/// The mark before a list row.
pub open spec fn row_marker(chosen: bool, ascii: bool) -> Seq<char> {
    if !chosen {
        "  "@
    } else if ascii {
        "> "@
    } else {
        "\u{203a} "@
    }
}

/// An entry row up to its status: mark, kind, size on the right of its column,
/// and the name with its middle left out where it is too long.
pub open spec fn entry_line(
    category: StorageCategory,
    label: Seq<char>,
    size: Seq<char>,
    chosen: bool,
    ascii: bool,
    name_width: int,
) -> Seq<char> {
    row_marker(chosen, ascii) + padded_right(category_word(category), STORAGE_KIND_WIDTH as int)
        + padded_left(size, STORAGE_SIZE_WIDTH - 2) + "  "@ + padded_right(
        elided(label, minus(name_width, 1)),
        name_width,
    )
}

/// Writes an entry row up to its status; `size` is its size in words.
pub fn entry_text(entry: &StorageEntry, size: &str, chosen: bool, ascii: bool, name_width: u16) -> (r:
    String)
    ensures
        r@ == entry_line(
            entry.category,
            entry.label@,
            size@,
            chosen,
            ascii,
            name_width as int,
        ),
{
    let kind = match entry.category {
        StorageCategory::Capture => "capture",
        StorageCategory::Derived => "derived",
        StorageCategory::Workspace => "workspace",
        StorageCategory::Investigation => "exports",
    };
    let mut text = if !chosen {
        "  ".to_owned()
    } else if ascii {
        "> ".to_owned()
    } else {
        "\u{203a} ".to_owned()
    };
    text.append(pad_right(kind, STORAGE_KIND_WIDTH as usize).as_str());
    text.append(pad_left(size, STORAGE_SIZE_WIDTH as usize - 2).as_str());
    text.append("  ");
    let name = elide_middle(entry.label.as_str(), name_width.saturating_sub(1) as usize);
    text.append(pad_right(name.as_str(), name_width as usize).as_str());
    text
}

/// Writes an entry's status, and that it can be reclaimed where it can.
pub fn entry_status(entry: &StorageEntry) -> (r: String)
    ensures
        r@ == entry.status@ + if entry.reclaimable > 0 {
            " \u{b7} reclaimable"@
        } else {
            ""@
        },
{
    let mut text = entry.status.clone();
    text.append(
        if entry.reclaimable > 0 {
            " \u{b7} reclaimable"
        } else {
            ""
        },
    );
    text
}

/// Sizes in words, as the summary shows them.
#[derive(Debug)]
pub struct StorageFigures {
    pub row_cache: String,
    pub row_cache_limit: String,
    pub query_index: String,
    pub query_index_limit: String,
    pub total: String,
    pub total_limit: String,
    pub per_source_limit: String,
}

/// A figure and what it is measured against.
pub open spec fn of_limit(used: Seq<char>, limit: Seq<char>) -> Seq<char> {
    used + " of "@ + limit
}

fn of_limit_text(used: &str, limit: &str) -> (r: String)
    ensures
        r@ == of_limit(used@, limit@),
{
    let mut text = used.to_owned();
    text.append(" of ");
    text.append(limit);
    text
}

/// The labelled figures of the summary.
pub fn summary_figures(figures: &StorageFigures) -> (r: Vec<(&'static str, String)>)
    ensures
        r@.len() == 4,
        r@[0].0@ == "Row cache"@,
        r@[0].1@ == of_limit(figures.row_cache@, figures.row_cache_limit@),
        r@[1].0@ == "Membership"@,
        r@[1].1@ == of_limit(figures.query_index@, figures.query_index_limit@),
        r@[2].0@ == "Derived disk"@,
        r@[2].1@ == of_limit(figures.total@, figures.total_limit@),
        r@[3].0@ == "Per source"@,
        r@[3].1@ == figures.per_source_limit@ + " cap"@,
{
    let mut rows: Vec<(&'static str, String)> = Vec::new();
    rows.push(
        (
            "Row cache",
            of_limit_text(figures.row_cache.as_str(), figures.row_cache_limit.as_str()),
        ),
    );
    rows.push(
        (
            "Membership",
            of_limit_text(figures.query_index.as_str(), figures.query_index_limit.as_str()),
        ),
    );
    rows.push(
        ("Derived disk", of_limit_text(figures.total.as_str(), figures.total_limit.as_str())),
    );
    let mut cap = figures.per_source_limit.clone();
    cap.append(" cap");
    rows.push(("Per source", cap));
    rows
}

/// The columns of the longest label of the summary.
pub open spec fn summary_label_width() -> int {
    12
}

/// Where figure `index` of the summary starts, its row, and the columns it has.
pub open spec fn summary_slot(body: Rect, paired: bool, index: int) -> (int, int, int) {
    if paired {
        (
            sat16(
                body.x + if index % 2 == 0 {
                    0
                } else {
                    body.width / 2
                },
            ),
            sat16(body.y + index / 2),
            (body.width / 2) as int,
        )
    } else {
        (body.x as int, sat16(body.y + index), body.width as int)
    }
}

/// The cells of a figure of the summary: its label, and its value where there
/// is room behind the label.
pub open spec fn summary_cells(body: Rect, paired: bool, index: int) -> Option<
    (Rect, Option<Rect>),
> {
    let (x, y, width) = summary_slot(body, paired, index);
    let value_x = sat16(sat16(x + summary_label_width()) + FIELD_GUTTER);
    let right = sat16(x + width);
    if y >= body.spec_bottom() {
        None
    } else {
        Some(
            (
                Rect::spec_new(
                    x as u16,
                    y as u16,
                    least(summary_label_width(), width) as u16,
                    1,
                ),
                if value_x < right {
                    Some(Rect::spec_new(value_x as u16, y as u16, (right - value_x) as u16, 1))
                } else {
                    None
                },
            ),
        )
    }
}

/// Places a figure of the summary.
pub fn summary_cell(body: Rect, paired: bool, index: u16) -> (r: Option<(Rect, Option<Rect>)>)
    ensures
        r == summary_cells(body, paired, index as int),
{
    proof {
        reveal_strlit("Derived disk");
    }
    let label_width: u16 = width_of("Derived disk") as u16;
    let column: u16 = body.width / 2;
    let (x, y, width): (u16, u16, u16) = if paired {
        (
            body.x.saturating_add(
                if index % 2 == 0 {
                    0
                } else {
                    column
                },
            ),
            body.y.saturating_add(index / 2),
            column,
        )
    } else {
        (body.x, body.y.saturating_add(index), body.width)
    };
    if y >= body.bottom() {
        return None;
    }
    let label = Rect::new(x, y, min16(label_width, width), 1);
    let value_x: u16 = x.saturating_add(label_width).saturating_add(FIELD_GUTTER);
    let right: u16 = x.saturating_add(width);
    let value = if value_x < right {
        Some(Rect::new(value_x, y, right - value_x, 1))
    } else {
        None
    };
    Some((label, value))
}

/// Places the caption on the summary's last row.
pub fn caption_row(body: Rect, width: u16) -> (r: Option<Rect>)
    ensures
        r == {
            let y = sat16(body.y + summary_height(width as int) - 1);
            if y < body.spec_bottom() {
                Some(Rect::spec_new(body.x, y as u16, body.width, 1))
            } else {
                None
            }
        },
{
    let rows: u16 = if width >= 72 {
        2
    } else {
        4
    };
    let y: u16 = body.y.saturating_add(rows);
    if y < body.bottom() {
        Some(Rect::new(body.x, y, body.width, 1))
    } else {
        None
    }
}

/// Writes the count beside the list's heading: the rows that are shown, all
/// rows, and what can be reclaimed.
pub fn entry_count(list_height: u16, entries: usize, reclaimable: &str) -> (r: String)
    ensures
        r@ == decimal(least(minus(list_height as int, 1), entries as int) as nat) + " of "@ + decimal(
            entries as nat,
        ) + " \u{b7} "@ + reclaimable@ + " reclaimable"@,
{
    let shown: usize = list_height.saturating_sub(1) as usize;
    let mut text = decimal_text(
        (if shown <= entries {
            shown
        } else {
            entries
        }) as u64,
    );
    text.append(" of ");
    text.append(decimal_text(entries as u64).as_str());
    text.append(" \u{b7} ");
    text.append(reclaimable);
    text.append(" reclaimable");
    text
}

/// The heading of the diagnostics and the cells below it, indented like a
/// list's.
pub fn diagnostics_panes(area: Rect) -> (r: (Rect, Rect))
    ensures
        r.0 == Rect::spec_new(area.x, area.y, area.width, least(1, area.height as int) as u16),
        r.1 == {
            let indent = least(PANE_INDENT as int, area.width as int);
            Rect::spec_new(
                sat16(area.x + indent) as u16,
                sat16(area.y + 1) as u16,
                (area.width - indent) as u16,
                minus(area.height as int, 1) as u16,
            )
        },
{
    let indent: u16 = min16(PANE_INDENT, area.width);
    (
        Rect::new(area.x, area.y, area.width, min16(1, area.height)),
        Rect::new(
            area.x.saturating_add(indent),
            area.y.saturating_add(1),
            area.width - indent,
            area.height.saturating_sub(1),
        ),
    )
}

/// What a frame drew.
#[derive(Debug)]
pub struct StorageDrawn {
    pub geometry: StorageGeometry,
    pub surface: Surface,
    pub scroll: usize,
    pub scroll_limit: usize,
}

impl StorageModel {
    /// A frame is remembered: where everything is, how far the diagnostics
    /// scroll, and a menu selection that the drawn menu holds.
    pub open spec fn recorded(self, drawn: StorageDrawn) -> StorageModel {
        let shown = drawn.geometry.menu@.len() as int;
        StorageModel {
            geometry: drawn.geometry,
            surface: drawn.surface,
            scroll: drawn.scroll as int,
            scroll_limit: drawn.scroll_limit as int,
            menu_selected: if shown > 0 {
                least(self.menu_selected, shown - 1)
            } else {
                self.menu_selected
            },
            ..self
        }
    }
}

/// What can be clicked in a frame whose regions are known: the rows that show
/// an entry, the visible buttons, the overflow menu's button where actions are
/// hidden, and the menu's rows where it is open.
pub open spec fn storage_hits(
    model: StorageModel,
    frame: ResolvedDialog,
    list: Option<ListGeometry>,
    diagnostics: Option<Rect>,
    menu: Option<AnchoredGeometry>,
    g: StorageGeometry,
) -> bool {
    let hidden = frame.actions.overflow@;
    &&& g.body == frame.body
    &&& g.rows@ == match list {
        Some(list) => item_rows(
            list.row_rects@,
            list.first_row as int,
            model.snapshot.entries@.len() as int,
        ),
        None => seq![],
    }
    &&& g.actions@ == frame.actions.buttons@
    &&& g.diagnostics == diagnostics
    &&& g.more == if hidden.len() > 0 {
        frame.actions.more
    } else {
        None
    }
    &&& g.menu@ == match menu {
        Some(menu) => if model.menu_open && g.more is Some {
            menu_rows(menu, hidden)
        } else {
            seq![]
        },
        None => seq![],
    }
}

/// What a frame covers: the dialog with its open menu, scrollable where any of
/// its parts has a scroll bar.
pub open spec fn storage_surface(
    model: StorageModel,
    frame: ResolvedDialog,
    list: Option<ListGeometry>,
    diagnostics: Option<ScrollViewport>,
    menu: Option<AnchoredGeometry>,
    more: Option<Rect>,
) -> Surface {
    let shown = if model.menu_open && more is Some {
        menu
    } else {
        None
    };
    Surface {
        popup: match shown {
            Some(menu) => frame.frame.spec_union(menu.popup),
            None => frame.frame,
        },
        interior: frame.interior,
        caret: None,
        scrollable: (list is Some && list->0.scrollbar is Some) || (diagnostics is Some
            && diagnostics->0.scrollbar is Some) || (shown is Some && shown->0.scrollbar is Some),
        text_focus: false,
    }
}

impl StorageDialog {
    /// How far the diagnostics scroll, given their wrapped lines and the rows
    /// that show them, and the offset brought within that.
    pub fn diagnostics_scroll(&self, wrapped: usize, rows: u16) -> (r: (usize, usize))
        ensures
            r.0 == minus(wrapped as int, rows as int),
            r.1 == least(self.model().scroll, r.0 as int),
    {
        let limit: usize = wrapped.saturating_sub(rows as usize);
        (
            limit,
            if self.scroll <= limit {
                self.scroll
            } else {
                limit
            },
        )
    }

    /// The diagnostics in one text, and how far they scroll in a viewport.
    pub fn diagnostics(&self, viewport: Rect) -> (r: (String, usize, usize))
        requires
            viewport.width <= MAX_WRAP_WIDTH,
        ensures
            r.0@ == joined(texts(self.model().snapshot.errors@), "\n"@),
            r.1 == minus(
                wrapped_line_count(r.0@, greatest(viewport.width as int, 1) as u16) as int,
                viewport.height as int,
            ),
            r.2 == least(self.model().scroll, r.1 as int),
    {
        let text = join(&self.snapshot.errors, "\n");
        let wrapped: usize = wrapped_lines(text.as_str(), max16(viewport.width, 1));
        let (limit, scroll) = self.diagnostics_scroll(wrapped, viewport.height);
        (text, limit, scroll)
    }

    /// Remembers a frame.
    pub fn record(&mut self, drawn: StorageDrawn)
        ensures
            final(self).model() == old(self).model().recorded(drawn),
    {
        let shown: usize = drawn.geometry.menu.len();
        if shown > 0 && self.menu_selected > shown - 1 {
            self.menu_selected = shown - 1;
        }
        self.geometry = drawn.geometry;
        self.surface = drawn.surface;
        self.scroll = drawn.scroll;
        self.scroll_limit = drawn.scroll_limit;
    }

    /// Remembers a frame that was too small to draw in, with the surface it
    /// covers.
    pub fn record_nothing(&mut self, surface: Surface)
        ensures
            final(self).model().geometry.blank(),
            final(self).model() == (StorageModel {
                geometry: final(self).model().geometry,
                scroll_limit: 0,
                surface,
                ..old(self).model()
            }),
    {
        self.geometry = StorageGeometry::default();
        self.scroll_limit = 0;
        self.surface = surface;
    }

    /// Draws a frame into its hit regions: the list and the menu where they are
    /// shown, the diagnostics with their place, their limit and how they came
    /// to be scrolled.
    pub fn lay_out(
        &mut self,
        frame: &ResolvedDialog,
        list: Option<&ListGeometry>,
        diagnostics: Option<(Rect, usize, ScrollViewport)>,
        menu: Option<AnchoredGeometry>,
    ) -> (r: Surface)
        ensures
            ({
                let before = old(self).model();
                let after = final(self).model();
                let shown_list = match list {
                    Some(list) => Some(*list),
                    None => None,
                };
                let area = match diagnostics {
                    Some((area, _, _)) => Some(area),
                    None => None,
                };
                let scrolled = match diagnostics {
                    Some((_, _, viewport)) => Some(viewport),
                    None => None,
                };
                &&& storage_hits(before, *frame, shown_list, area, menu, after.geometry)
                &&& r == storage_surface(
                    before,
                    *frame,
                    shown_list,
                    scrolled,
                    menu,
                    after.geometry.more,
                )
                &&& after == before.recorded(
                    StorageDrawn {
                        geometry: after.geometry,
                        surface: r,
                        scroll: match diagnostics {
                            Some((_, _, viewport)) => viewport.first_row,
                            None => before.scroll as usize,
                        },
                        scroll_limit: match diagnostics {
                            Some((_, limit, _)) => limit,
                            None => 0,
                        },
                    },
                )
            }),
    {
        let mut rows: Vec<(Rect, usize)> = Vec::new();
        let mut scrollable = false;
        if let Some(list) = list {
            rows = rows_with_items(&list.row_rects, list.first_row, self.snapshot.entries.len());
            scrollable = list.scrollbar.is_some();
        }
        let mut area: Option<Rect> = None;
        let mut scroll: usize = self.scroll;
        let mut scroll_limit: usize = 0;
        if let Some((place, limit, viewport)) = diagnostics {
            area = Some(place);
            scroll = viewport.first_row;
            scroll_limit = limit;
            scrollable = scrollable || viewport.scrollbar.is_some();
        }
        let more: Option<Rect> = if frame.actions.overflow.len() > 0 {
            frame.actions.more
        } else {
            None
        };
        let mut popup = frame.frame;
        let mut menu_hits: Vec<(Rect, usize)> = Vec::new();
        if self.menu_open && more.is_some() {
            if let Some(menu) = menu {
                popup = popup.union(menu.popup);
                menu_hits = rows_of_menu(menu, &frame.actions.overflow);
                scrollable = scrollable || menu.scrollbar.is_some();
            }
        }
        let surface = Surface {
            popup,
            interior: frame.interior,
            caret: None,
            scrollable,
            text_focus: false,
        };
        let actions = copy_buttons(&frame.actions.buttons);
        let geometry = StorageGeometry {
            body: frame.body,
            rows,
            actions,
            diagnostics: area,
            menu: menu_hits,
            more,
        };
        self.record(StorageDrawn { geometry, surface, scroll, scroll_limit });
        surface
    }
}

/// The first press of the cleanup button never deletes: a deletion is only
/// asked for where the confirmation was given, no scan runs and something can be
/// reclaimed.
pub proof fn cleanup_needs_confirmation(before: StorageModel, amount: Seq<char>)
    ensures
        before.cleared(amount).queue != before.queue ==> {
            &&& before.confirm_clear
            &&& !before.scanning
            &&& before.snapshot.reclaimable_bytes > 0
        },
        !before.confirm_clear ==> before.cleared(amount).queue == before.queue,
{
}

/// Two presses in a row delete once, under the generation of the scan that the
/// user saw.
pub proof fn two_presses_clear_once(before: StorageModel, amount: Seq<char>)
    requires
        !before.scanning,
        !before.confirm_clear,
        before.snapshot.reclaimable_bytes > 0,
    ensures
        before.cleared(amount).confirm_clear,
        before.cleared(amount).cleared(amount).queue == before.queue.put(
            StorageRequest {
                generation: before.generation as u64,
                kind: StorageRequestKind::ClearUnusedDerived,
            },
        ),
        !before.cleared(amount).cleared(amount).confirm_clear,
        before.cleared(amount).cleared(amount).scanning,
{
}

/// Moving the selection between the two presses takes the confirmation back.
pub proof fn moving_withdraws_confirmation(before: StorageModel, delta: int, amount: Seq<char>)
    requires
        !before.menu_open,
        before.snapshot.entries@.len() > 0,
    ensures
        before.moved(delta).cleared(amount).queue == before.queue,
{
}

/// A completion that belongs to an earlier scan, or comes after the layer was
/// closed, changes nothing.
pub proof fn stale_completion_is_ignored(
    before: StorageModel,
    generation: int,
    snapshot: StorageSnapshot,
    status: Seq<char>,
    complete: bool,
)
    requires
        !before.open || generation != before.generation,
    ensures
        before.completed(generation, snapshot, status, complete) == before,
{
}

/// Each scan has a generation of its own, so what an earlier one still reports
/// is ignored; and a scan in flight is called off under its own generation.
pub proof fn new_scan_fences_the_old(before: StorageModel, status: Seq<char>)
    requires
        0 <= before.generation <= before.queue.generation < u64::MAX,
    ensures
        ({
            let after = before.scanned_anew(status);
            &&& after.generation > before.generation
            &&& after.generation == after.queue.generation
            &&& before.scanning && before.queue.items.len() < before.queue.cap
                ==> after.queue.items[before.queue.items.len() as int] == (StorageRequest {
                generation: before.generation as u64,
                kind: StorageRequestKind::Cancel,
            })
        }),
{
}

/// A completion keeps the selection inside the entries.
pub proof fn completion_clamps_selection(
    before: StorageModel,
    snapshot: StorageSnapshot,
    status: Seq<char>,
    complete: bool,
)
    requires
        before.open,
        before.selected >= 0,
        snapshot.entries@.len() > 0,
    ensures
        0 <= before.completed(before.generation, snapshot, status, complete).selected
            < snapshot.entries@.len(),
{
}

/// The rows set aside for each part: the same whatever was scanned.
pub fn storage_spec_for(policy_width: u16, buttons: &[&str]) -> (r: DialogSpec)
    ensures
        r == (DialogSpec {
            header: 0,
            body: 3,
            message: 2,
            help: 0,
            actions: action_rows(policy_width, buttons@) as u16,
        }),
{
    DialogSpec {
        header: 0,
        body: 3,
        message: 2,
        help: 0,
        actions: budget_actions(policy_width, buttons),
    }
}

impl StorageModel {
    /// The columns of the longest of the first `n` hidden buttons, as labelled.
    pub open spec fn longest_hidden(self, hidden: Seq<usize>, n: int) -> int
        decreases n,
    {
        if n <= 0 {
            0
        } else {
            let label = if hidden[n - 1] == 0 {
                "&Refresh"@
            } else {
                cleanup_label(self.confirm_clear)
            };
            greatest(
                self.longest_hidden(hidden, n - 1),
                if hidden[n - 1] < 2 {
                    display_width(label) as int
                } else {
                    0
                },
            )
        }
    }
}

impl StorageDialog {
    /// The columns that the menu of hidden buttons asks for: its longest label with
    /// room on both sides, and at least twelve.
    pub fn menu_width(&self, hidden: &Vec<usize>) -> (r: u16)
        ensures
            r == {
                let wanted = self.model().longest_hidden(hidden@, hidden@.len() as int) + 4;
                if wanted <= 65535 {
                    greatest(wanted, 12)
                } else {
                    12
                }
            },
    {
        let labels = self.action_labels();
        let mut longest: usize = 0;
        let mut i: usize = 0;
        while i < hidden.len()
            invariant
                i <= hidden@.len(),
                labels@.len() == 2,
                labels@[0]@ == "&Refresh"@,
                labels@[1]@ == cleanup_label(self.model().confirm_clear),
                longest == self.model().longest_hidden(hidden@, i as int),
            decreases hidden.len() - i,
        {
            if hidden[i] < 2 {
                let columns: usize = width_of(labels[hidden[i]]);
                if columns > longest {
                    longest = columns;
                }
            }
            i += 1;
        }
        if longest <= 65531 {
            max16(longest as u16 + 4, 12)
        } else {
            12
        }
    }

    /// The row of the menu that is drawn as selected.
    pub fn menu_row(&self, hidden: usize) -> (r: usize)
        ensures
            r == least(self.model().menu_selected, minus(hidden as int, 1)),
    {
        let last: usize = if hidden == 0 {
            0
        } else {
            hidden - 1
        };
        if self.menu_selected < last {
            self.menu_selected
        } else {
            last
        }
    }
}

} // verus!
