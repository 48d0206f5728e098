//! What every dialog layer shares: events in, outcomes out, a bounded queue of
//! requests, and the surface a layer covers.

use crate::geometry::Rect;
use crate::input::{KeyCode, KeyEvent, MouseEventKind};
use vstd::arithmetic::div_mod::{
    lemma_add_mod_noop, lemma_mod_add_multiples_vanish, lemma_small_mod,
};
use vstd::prelude::*;

verus! {

/// The commands of the palette that a dialog answers.
#[derive(Clone, Copy, Debug, PartialEq, Eq, Structural)]
pub enum CommandId {
    AskAiSource,
    DiscoverSources,
    InvestigationFollowup,
    NewInvestigation,
    RecipeAdaptSuggestion,
    RecipeApply,
    RecipeBrowse,
    RecipeExport,
    RecipeHistory,
    RecipeImport,
    RecipeRefreshSuggestions,
    RecipeRejectSuggestion,
    RecipeSave,
    RecipeUpdate,
    ResumeInvestigation,
    SourceCommandMode,
    SourceFileMode,
    StorageClear,
    TimeAroundSelected,
    TimeBasisCapture,
    TimeBasisEvent,
    TimeBasisExtracted,
    TimeClear,
    TimeRecentFifteen,
    TimeRecentFive,
    TimeRecentHour,
    ViewBlank,
    ViewClone,
    ViewRename,
    ViewSources,
    /// A command that belongs to another layer.
    Other,
}

/// The layers that can stand above the log.
#[derive(Clone, Copy, Debug, PartialEq, Eq, Structural)]
pub enum LayerId {
    Storage,
    Time,
    Settings,
    Source,
    Recipes,
    RecipeHistory,
    Investigation,
    View,
    ViewSummary,
    Union,
    /// A layer that is not one of these.
    Other,
}

/// What changed in the views below a layer.
#[derive(Clone, Copy, Debug, PartialEq, Eq, Structural)]
pub enum ViewEvent {
    SourcesChanged,
    SourceRemoved,
    Other,
}

/// What a layer is told.
#[derive(Debug)]
pub enum Event<H> {
    Key(KeyEvent),
    Paste(String),
    Mouse { kind: MouseEventKind, hit: Option<H> },
    Dismiss,
    Command(CommandId),
    View(ViewEvent),
    Resize,
}

/// What the palette shows of a command.
#[derive(Debug)]
pub struct CommandSpec {
    pub id: CommandId,
    pub name: &'static str,
    pub description: &'static str,
    pub category: &'static str,
    pub aliases: Vec<&'static str>,
    pub shortcut: Option<&'static str>,
}

/// A command with the reason why it cannot be run now, if there is one.
#[derive(Debug)]
pub struct CommandEntry {
    pub spec: CommandSpec,
    pub unavailable_reason: Option<&'static str>,
}

/// The state a message row reports.
#[derive(Clone, Copy, Debug, PartialEq, Eq, Structural)]
pub enum MessageState {
    Ready,
    Updating,
    Pending,
    Applied,
    Saved,
    Scanned,
    Disabled,
    Error,
}

/// What a layer covers on the screen.
#[derive(Clone, Copy, Debug, PartialEq, Eq)]
pub struct Surface {
    pub popup: Rect,
    pub interior: Rect,
    pub caret: Option<(u16, u16)>,
    pub scrollable: bool,
    pub text_focus: bool,
}

impl Surface {
    /// A surface that covers nothing.
    pub open spec fn nothing() -> Surface {
        let none = Rect { x: 0, y: 0, width: 0, height: 0 };
        Surface { popup: none, interior: none, caret: None, scrollable: false, text_focus: false }
    }
}

impl Default for Surface {
    fn default() -> (r: Surface)
        ensures
            r == Surface::nothing(),
    {
        Surface {
            popup: Rect::zero(),
            interior: Rect::zero(),
            caret: None,
            scrollable: false,
            text_focus: false,
        }
    }
}

/// The modes of the recipe layers.
#[derive(Clone, Copy, Debug, PartialEq, Eq, Structural)]
pub enum RecipeDialogMode {
    Browse,
    Save,
    Update,
    Import,
    Export,
    History,
}

/// A layer to open in place of the one that asks.
#[derive(Debug, PartialEq, Eq)]
pub enum Open {
    View,
    ViewMembership,
    Time,
    Enrichment,
    Search,
    Advanced,
    Grouping,
    FieldColumn { column: String },
    Fields,
    ColorRules,
    RecipeHistory { recipe_id: String, recipe_name: String },
    Recipes { mode: RecipeDialogMode },
}

/// Work that a layer hands to the shell.
#[derive(Clone, Copy, Debug, PartialEq, Eq, Structural)]
pub enum Action {
    /// Adapt the recipe at one place of the list by the suggestion at another.
    AdaptRecipe { item: usize, suggestion: usize },
    StageForkedTimeWindow,
    OpenTimestampAssistant,
}

/// A layer's answer to an event.
#[derive(Debug, PartialEq, Eq)]
pub enum Outcome {
    Ignored,
    Consumed,
    Close,
    Replace(Open),
    Legacy(Action),
}

/// A command to a text field.
#[derive(Clone, Copy, Debug, PartialEq, Eq, Structural)]
pub enum EditCommand {
    Insert(char),
    /// Insert the text that was pasted.
    InsertPasted,
    Backspace,
    MoveLeft,
    MoveRight,
    MoveUp,
    MoveDown,
    StartOfLine,
    EndOfLine,
    KillToEndOfLine,
}

/// What came of a command to a text field: the text and the caret behind it,
/// and whether the one changed or the other moved.
#[derive(Debug)]
pub struct Edited {
    pub value: String,
    pub cursor: usize,
    pub changed: bool,
    pub moved: bool,
}

/// What a layer makes of an event: an answer, or a command to the text field
/// that has the focus.
#[derive(Debug, PartialEq, Eq)]
pub enum Step {
    Done(Outcome),
    Edit(EditCommand),
}

/// The contents of an outbox: the requests not taken yet, in order, how many it
/// holds at most, and the last generation it gave out.
pub struct Queue<T> {
    pub items: Seq<T>,
    pub cap: int,
    pub generation: int,
}

impl<T> Queue<T> {
    /// An outbox with nothing in it.
    pub open spec fn empty(cap: int) -> Queue<T> {
        Queue { items: Seq::empty(), cap, generation: 0 }
    }

    /// The queue once an item was offered: a full queue takes none.
    pub open spec fn put(self, item: T) -> Queue<T> {
        if self.items.len() < self.cap {
            Queue { items: self.items.push(item), ..self }
        } else {
            self
        }
    }

    /// The queue once a generation was drawn.
    pub open spec fn drawn(self) -> Queue<T> {
        Queue {
            generation: if self.generation < u64::MAX {
                self.generation + 1
            } else {
                self.generation
            },
            ..self
        }
    }
}

/// A bounded queue of requests to the shell, with a counter that tells their
/// generations apart.
#[derive(Debug)]
pub struct Outbox<T> {
    items: Vec<T>,
    cap: usize,
    generation: u64,
}

impl<T> View for Outbox<T> {
    type V = Queue<T>;

    closed spec fn view(&self) -> Queue<T> {
        Queue { items: self.items@, cap: self.cap as int, generation: self.generation as int }
    }
}

impl<T> Outbox<T> {
    pub fn new(cap: usize) -> (r: Outbox<T>)
        ensures
            r@ == Queue::<T>::empty(cap as int),
    {
        Outbox { items: Vec::new(), cap, generation: 0 }
    }

    pub fn len(&self) -> (r: usize)
        ensures
            r == self@.items.len(),
    {
        self.items.len()
    }

    /// Offers a request; a full outbox hands it back.
    pub fn push(&mut self, item: T) -> (r: Result<(), T>)
        ensures
            final(self)@ == old(self)@.put(item),
            r is Ok <==> old(self)@.items.len() < old(self)@.cap,
            r matches Err(back) ==> back == item,
    {
        if self.items.len() < self.cap {
            self.items.push(item);
            Ok(())
        } else {
            Err(item)
        }
    }

    /// Draws the next generation.
    pub fn next_generation(&mut self) -> (r: u64)
        ensures
            final(self)@ == old(self)@.drawn(),
            r == final(self)@.generation,
    {
        self.generation = self.generation.saturating_add(1);
        self.generation
    }

    /// Hands out every request in order and leaves none.
    pub fn drain(&mut self) -> (r: Vec<T>)
        ensures
            r@ == old(self)@.items,
            final(self)@ == (Queue { items: Seq::empty(), ..old(self)@ }),
    {
        let mut out: Vec<T> = Vec::new();
        out.append(&mut self.items);
        out
    }

    /// Puts other requests in place of those that wait.
    pub fn replace(&mut self, items: Vec<T>)
        ensures
            final(self)@ == (Queue { items: items@, ..old(self)@ }),
    {
        self.items = items;
    }

    /// A request by its place.
    pub fn get(&self, index: usize) -> (r: Option<&T>)
        ensures
            r == if index < self@.items.len() {
                Some(&self@.items[index as int])
            } else {
                None
            },
    {
        if index < self.items.len() {
            Some(&self.items[index])
        } else {
            None
        }
    }
}

/// The first place of an item in a list from one place on.
pub open spec fn place_from<T>(list: Seq<T>, item: T, from: int) -> Option<int>
    decreases list.len() - from,
{
    if from < 0 || from >= list.len() {
        None
    } else if list[from] == item {
        Some(from)
    } else {
        place_from(list, item, from + 1)
    }
}

/// The first place of an item in a list, or the start where it is not there.
pub open spec fn place_or_start<T>(list: Seq<T>, item: T) -> int {
    match place_from(list, item, 0) {
        Some(place) => place,
        None => 0,
    }
}

/// A place on a ring of `len`, moved by `delta`.
pub open spec fn ring_step(index: int, len: int, delta: int) -> int {
    if len <= 0 {
        0
    } else {
        (index + delta) % len
    }
}

/// Moves an index round a ring; on an empty ring it is zero.
pub fn move_index(index: usize, len: usize, delta: i32) -> (r: usize)
    ensures
        r == ring_step(index as int, len as int, delta as int),
        len > 0 ==> r < len,
{
    if len == 0 {
        return 0;
    }
    let n: i128 = len as i128;
    let base: i128 = index as i128 % n;
    let magnitude: i128 = if delta >= 0 {
        delta as i128
    } else {
        -(delta as i128)
    };
    let offset: i128 = magnitude % n;
    let sum: i128 = if delta >= 0 {
        base + offset
    } else {
        base + (n - offset)
    };
    let r: usize = (sum % n) as usize;
    proof {
        let i = index as int;
        let d = delta as int;
        let m = n as int;
        if delta >= 0 {
            lemma_add_mod_noop(i, d, m);
        } else {
            lemma_add_mod_noop(i, d, m);
            let low = (-d) % m;
            assert(d % m == (m - low) % m) by {
                let q = (-d) / m;
                assert(-d == q * m + low) by {
                    vstd::arithmetic::div_mod::lemma_fundamental_div_mod(-d, m);
                    assert(m * q == q * m) by (nonlinear_arith);
                }
                lemma_mod_add_multiples_vanish(m - low, m);
                let k = -(q + 1);
                assert(d == (m - low) + m * k) by (nonlinear_arith)
                    requires
                        -d == q * m + low,
                        k == -(q + 1),
                ;
                vstd::arithmetic::div_mod::lemma_mod_multiples_vanish(k, m - low, m);
            }
            lemma_add_mod_noop(i % m, m - low, m);
            lemma_add_mod_noop(i, d, m);
            lemma_small_mod((i % m) as nat, m as nat);
        }
    }
    r
}

/// A ring step forward and one back end where they started.
pub proof fn ring_steps_cancel(index: int, len: int, delta: int)
    requires
        0 <= index < len,
    ensures
        ring_step(ring_step(index, len, delta), len, -delta) == index,
{
    lemma_add_mod_noop(index + delta, -delta, len);
    lemma_add_mod_noop((index + delta) % len, -delta, len);
    vstd::arithmetic::div_mod::lemma_mod_twice(index + delta, len);
    lemma_small_mod(index as nat, len as nat);
}

/// A scroll offset moved and kept between zero and a limit.
pub open spec fn scroll_step(offset: int, limit: int, delta: int) -> int {
    let moved = if offset + delta < 0 {
        0
    } else {
        offset + delta
    };
    if moved > limit {
        limit
    } else {
        moved
    }
}

/// Moves a scroll offset within its limit.
pub fn scroll_by(offset: usize, limit: usize, delta: i32) -> (r: usize)
    ensures
        r == scroll_step(offset as int, limit as int, delta as int),
        r <= limit,
{
    let moved: i128 = offset as i128 + delta as i128;
    if moved < 0 {
        0
    } else if moved > limit as i128 {
        limit
    } else {
        moved as usize
    }
}

/// The caret keys that Control gives.
pub open spec fn control_edit(code: KeyCode) -> Option<EditCommand> {
    match code {
        KeyCode::Char('a') => Some(EditCommand::StartOfLine),
        KeyCode::Char('e') => Some(EditCommand::EndOfLine),
        KeyCode::Char('k') => Some(EditCommand::KillToEndOfLine),
        _ => None,
    }
}

/// The caret keys of a field.
pub open spec fn arrow_edit(code: KeyCode) -> Option<EditCommand> {
    match code {
        KeyCode::Left => Some(EditCommand::MoveLeft),
        KeyCode::Right => Some(EditCommand::MoveRight),
        KeyCode::Up => Some(EditCommand::MoveUp),
        KeyCode::Down => Some(EditCommand::MoveDown),
        _ => None,
    }
}

pub fn control_edit_for(code: KeyCode) -> (r: Option<EditCommand>)
    ensures
        r == control_edit(code),
{
    match code {
        KeyCode::Char('a') => Some(EditCommand::StartOfLine),
        KeyCode::Char('e') => Some(EditCommand::EndOfLine),
        KeyCode::Char('k') => Some(EditCommand::KillToEndOfLine),
        _ => None,
    }
}

pub fn arrow_edit_for(code: KeyCode) -> (r: Option<EditCommand>)
    ensures
        r == arrow_edit(code),
{
    match code {
        KeyCode::Left => Some(EditCommand::MoveLeft),
        KeyCode::Right => Some(EditCommand::MoveRight),
        KeyCode::Up => Some(EditCommand::MoveUp),
        KeyCode::Down => Some(EditCommand::MoveDown),
        _ => None,
    }
}

/// A step forward on a ring goes to the next place, and from the last to the
/// first; a step back goes to the one before, and from the first to the last.
pub proof fn ring_goes_round(index: int, len: int)
    requires
        0 <= index < len,
    ensures
        ring_step(index, len, 1) == if index + 1 < len {
            index + 1
        } else {
            0
        },
        ring_step(index, len, -1) == if index > 0 {
            index - 1
        } else {
            len - 1
        },
        ring_step(index, len, 0) == index,
{
    assert((index + 1) % len == if index + 1 < len {
        index + 1
    } else {
        0
    }) by (nonlinear_arith)
        requires
            0 <= index < len,
    ;
    assert((index + -1) % len == if index > 0 {
        index - 1
    } else {
        len - 1
    }) by (nonlinear_arith)
        requires
            0 <= index < len,
    ;
    assert((index + 0) % len == index) by (nonlinear_arith)
        requires
            0 <= index < len,
    ;
}

/// In a list where nothing stands twice, each item is found in its own place.
pub proof fn distinct_item_is_found<T>(list: Seq<T>, k: int)
    requires
        0 <= k < list.len(),
        forall|i: int, j: int| 0 <= i < j < list.len() ==> list[i] != list[j],
    ensures
        place_or_start(list, list[k]) == k,
{
    place_is_found(list, k, 0);
}

proof fn place_is_found<T>(list: Seq<T>, k: int, from: int)
    requires
        0 <= from <= k < list.len(),
        forall|i: int, j: int| 0 <= i < j < list.len() ==> list[i] != list[j],
    ensures
        place_from(list, list[k], from) == Some(k),
    decreases k - from,
{
    if from < k {
        place_is_found(list, k, from + 1);
    }
}

/// An item that is found stands where it is found; one that is in the list is
/// found.
pub proof fn found_item_is_there<T>(list: Seq<T>, item: T)
    requires
        list.contains(item),
    ensures
        0 <= place_or_start(list, item) < list.len(),
        list[place_or_start(list, item)] == item,
{
    let k = choose|k: int| 0 <= k < list.len() && list[k] == item;
    item_is_found(list, item, k, 0);
}

proof fn item_is_found<T>(list: Seq<T>, item: T, k: int, from: int)
    requires
        0 <= from <= k < list.len(),
        list[k] == item,
    ensures
        place_from(list, item, from) matches Some(place) && from <= place <= k && list[place]
            == item,
    decreases k - from,
{
    if list[from] != item {
        item_is_found(list, item, k, from + 1);
    }
}

/// A queue takes a request behind all others while it has room, and else keeps
/// what it has; a generation that is drawn was never drawn before.
pub proof fn queue_takes_requests_in_turn<T>(queue: Queue<T>, item: T)
    ensures
        queue.items.len() < queue.cap ==> queue.put(item).items == queue.items.push(item),
        queue.items.len() >= queue.cap ==> queue.put(item) == queue,
        queue.put(item).cap == queue.cap,
        queue.put(item).generation == queue.generation,
        queue.generation < u64::MAX ==> queue.drawn().generation == queue.generation + 1,
        queue.drawn().items == queue.items,
{
}

/// The editing keys: Control with a, e and k, and the arrows.
pub proof fn editing_keys_are_known()
    ensures
        control_edit(KeyCode::Char('a')) == Some(EditCommand::StartOfLine),
        control_edit(KeyCode::Char('e')) == Some(EditCommand::EndOfLine),
        control_edit(KeyCode::Char('k')) == Some(EditCommand::KillToEndOfLine),
        arrow_edit(KeyCode::Left) == Some(EditCommand::MoveLeft),
        arrow_edit(KeyCode::Right) == Some(EditCommand::MoveRight),
        arrow_edit(KeyCode::Up) == Some(EditCommand::MoveUp),
        arrow_edit(KeyCode::Down) == Some(EditCommand::MoveDown),
{
}

/// A scroll goes as far as it is asked to, and stops at both ends.
pub proof fn scroll_stops_at_the_ends(offset: int, limit: int, delta: int)
    requires
        0 <= limit,
    ensures
        0 <= offset + delta <= limit ==> scroll_step(offset, limit, delta) == offset + delta,
        offset + delta < 0 ==> scroll_step(offset, limit, delta) == 0,
        offset + delta > limit ==> scroll_step(offset, limit, delta) == limit,
{
}

} // verus!
