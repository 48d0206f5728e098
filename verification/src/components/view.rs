//! The View layer: making a blank view, cloning or renaming the one that is
//! shown, and choosing the sources it is made of.
//!
//! The layer asks for the change and keeps its draft; a change that was made
//! closes it, and a refusal is shown beside the draft.

use crate::component::{
    arrow_edit, control_edit, control_edit_for, place_from, place_or_start, ring_step, CommandId,
    EditCommand, Edited, Event, Outbox, Outcome, Queue, Step, Surface, ViewEvent,
};
use crate::components::source::SourceItem;
use crate::geometry::{greatest, least, Rect};
use crate::input::{is_typed_char, KeyCode, KeyEvent, MouseEventKind};
use crate::text::{copy_texts, same, some_text, texts, trim, trimmed};
use vstd::prelude::*;

pub mod frame;
pub mod laws;
pub mod render;
pub mod shown;

verus! {

/// The most requests that wait to be taken.
pub const VIEW_OUTBOX_CAP: usize = 8;

/// The longest name of a view, in bytes.
pub const VIEW_NAME_MAX_BYTES: usize = 128;

/// The most sources of a view.
pub const VIEW_MAX_SOURCES: usize = 32;

#[derive(Clone, Copy, Debug, PartialEq, Eq, Structural)]
pub enum ViewDialogMode {
    Blank,
    Clone,
    Rename,
    Sources,
}

/// The modes in the order of the header.
pub open spec fn view_modes() -> Seq<ViewDialogMode> {
    seq![
        ViewDialogMode::Blank,
        ViewDialogMode::Clone,
        ViewDialogMode::Rename,
        ViewDialogMode::Sources,
    ]
}

/// The place of a mode in the header.
pub open spec fn mode_place(mode: ViewDialogMode) -> int {
    match mode {
        ViewDialogMode::Blank => 0,
        ViewDialogMode::Clone => 1,
        ViewDialogMode::Rename => 2,
        ViewDialogMode::Sources => 3,
    }
}

impl ViewDialogMode {
    /// The place in the header.
    pub fn place(self) -> (r: usize)
        ensures
            r == mode_place(self),
            view_modes()[r as int] == self,
    {
        match self {
            ViewDialogMode::Blank => 0,
            ViewDialogMode::Clone => 1,
            ViewDialogMode::Rename => 2,
            ViewDialogMode::Sources => 3,
        }
    }

    /// The mode at a place of the header.
    pub fn at(place: usize) -> (r: Option<ViewDialogMode>)
        ensures
            r == if place < 4 {
                Some(view_modes()[place as int])
            } else {
                None
            },
    {
        match place {
            0 => Some(ViewDialogMode::Blank),
            1 => Some(ViewDialogMode::Clone),
            2 => Some(ViewDialogMode::Rename),
            3 => Some(ViewDialogMode::Sources),
            _ => None,
        }
    }
}

/// What has the focus. The header is one stop, whatever its mode.
#[derive(Clone, Copy, Debug, PartialEq, Eq, Structural)]
pub enum ViewDialogControl {
    Tabs,
    Input,
    Sources,
    Apply,
}

/// Everything the layer draws that can be clicked.
#[derive(Clone, Copy, Debug, PartialEq, Eq, Structural)]
pub enum ViewHit {
    Tab(ViewDialogMode),
    Control(ViewDialogControl),
    Source(usize),
    Body,
}

/// A change of the views.
#[derive(Debug)]
pub struct ViewMutationRequest {
    pub source_ids: Vec<String>,
    pub mode: ViewDialogMode,
    pub source_id: String,
    pub view_id: String,
    pub name: String,
}

/// A change by what it says.
pub struct ViewAsk {
    pub source_ids: Seq<Seq<char>>,
    pub mode: ViewDialogMode,
    pub source_id: Seq<char>,
    pub view_id: Seq<char>,
    pub name: Seq<char>,
}

/// What a request says.
pub open spec fn ask_of(request: ViewMutationRequest) -> ViewAsk {
    ViewAsk {
        source_ids: texts(request.source_ids@),
        mode: request.mode,
        source_id: request.source_id@,
        view_id: request.view_id@,
        name: request.name@,
    }
}

/// What the requests say, in order.
pub open spec fn asks(items: Seq<ViewMutationRequest>) -> Seq<ViewAsk> {
    items.map_values(|request: ViewMutationRequest| ask_of(request))
}

/// The view that is shown: its name, the source that owns it, and the sources
/// it is made of.
#[derive(Debug)]
pub struct ViewInfo {
    pub id: String,
    pub name: String,
    pub source_id: String,
    pub source_ids: Vec<String>,
}

/// Where the last frame drew what can be clicked.
#[derive(Debug)]
pub struct ViewGeometry {
    pub body: Rect,
    pub sources: Vec<(Rect, usize)>,
    pub tabs: Vec<(Rect, ViewDialogMode)>,
    pub controls: Vec<(Rect, ViewDialogControl)>,
}

impl ViewGeometry {
    /// Nothing was drawn.
    pub open spec fn blank(self) -> bool {
        &&& self.body == Rect { x: 0, y: 0, width: 0, height: 0 }
        &&& self.sources@.len() == 0
        &&& self.tabs@.len() == 0
        &&& self.controls@.len() == 0
    }
}

impl Default for ViewGeometry {
    fn default() -> (r: ViewGeometry)
        ensures
            r.blank(),
    {
        ViewGeometry {
            body: Rect::zero(),
            sources: Vec::new(),
            tabs: Vec::new(),
            controls: Vec::new(),
        }
    }
}

#[derive(Debug)]
pub struct ViewDialog {
    open: bool,
    source_ids: Vec<String>,
    selected_source: usize,
    mode: ViewDialogMode,
    control: ViewDialogControl,
    draft: String,
    cursor: usize,
    error: Option<String>,
    geometry: ViewGeometry,
    surface: Surface,
    pub outbox: Outbox<ViewMutationRequest>,
}

/// The state of the layer.
#[verifier::ext_equal]
pub struct ViewModel {
    pub open: bool,
    pub source_ids: Seq<Seq<char>>,
    pub selected: int,
    pub mode: ViewDialogMode,
    pub control: ViewDialogControl,
    pub draft: Seq<char>,
    pub cursor: int,
    pub error: Option<Seq<char>>,
    pub geometry: ViewGeometry,
    pub surface: Surface,
    pub queue: Queue<ViewAsk>,
}

/// What the layer reads of the world around it.
#[derive(Clone, Copy, Debug)]
pub struct ViewContext<'a> {
    pub view: &'a Option<ViewInfo>,
    pub sources: &'a Vec<SourceItem>,
}

/// What the layer reads, by what it says.
pub struct ViewRead {
    pub view: Option<ViewFacts>,
    pub sources: Seq<Seq<char>>,
}

/// A view by what it says.
pub struct ViewFacts {
    pub id: Seq<char>,
    pub name: Seq<char>,
    pub source_id: Seq<char>,
    pub source_ids: Seq<Seq<char>>,
}

/// The identities of the sources.
pub open spec fn source_list(sources: Seq<SourceItem>) -> Seq<Seq<char>> {
    sources.map_values(|source: SourceItem| source.id@)
}

impl ViewContext<'_> {
    pub open spec fn read(self) -> ViewRead {
        ViewRead {
            view: match *self.view {
                Some(view) => Some(
                    ViewFacts {
                        id: view.id@,
                        name: view.name@,
                        source_id: view.source_id@,
                        source_ids: texts(view.source_ids@),
                    },
                ),
                None => None,
            },
            sources: source_list(self.sources@),
        }
    }
}

/// A list with two of its places exchanged.
pub open spec fn exchanged(list: Seq<Seq<char>>, i: int, j: int) -> Seq<Seq<char>> {
    list.update(i, list[j]).update(j, list[i])
}

/// The name that a mode starts from.
pub open spec fn first_draft(mode: ViewDialogMode, name: Seq<char>) -> Seq<char> {
    match mode {
        ViewDialogMode::Blank => "New view"@,
        ViewDialogMode::Clone => "Copy of "@ + name,
        _ => name,
    }
}

impl ViewModel {
    /// The name field takes text.
    pub open spec fn editing(self) -> bool {
        self.mode != ViewDialogMode::Sources && self.control == ViewDialogControl::Input
    }

    /// The order of the focus: the header, the body of the mode, and Apply.
    pub open spec fn controls(self) -> Seq<ViewDialogControl> {
        seq![
            ViewDialogControl::Tabs,
            body_control(self.mode),
            ViewDialogControl::Apply,
        ]
    }

    pub open spec fn failed(self, message: Seq<char>) -> ViewModel {
        ViewModel { error: Some(message), ..self }
    }

    /// A mode starts anew from the view that is shown.
    pub open spec fn seeded(self, mode: ViewDialogMode, read: ViewRead) -> ViewModel {
        match read.view {
            None => self,
            Some(view) => ViewModel {
                mode,
                control: body_control(mode),
                error: None,
                draft: first_draft(mode, view.name),
                cursor: first_draft(mode, view.name).len() as int,
                ..self
            },
        }
    }

    /// The header moves to another mode and keeps the focus.
    pub open spec fn tab_moved(self, delta: int, read: ViewRead) -> ViewModel {
        ViewModel {
            control: ViewDialogControl::Tabs,
            ..self.seeded(view_modes()[ring_step(mode_place(self.mode), 4, delta)], read)
        }
    }

    pub open spec fn source_moved(self, delta: int, read: ViewRead) -> ViewModel {
        if self.mode == ViewDialogMode::Sources && read.sources.len() > 0 {
            ViewModel {
                selected: least(greatest(self.selected + delta, 0), read.sources.len() - 1),
                ..self
            }
        } else {
            self
        }
    }

    /// The selected source becomes one of the view's, or is one no longer; the
    /// one that owns the view stays.
    pub open spec fn source_toggled(self, read: ViewRead) -> ViewModel {
        if self.mode != ViewDialogMode::Sources || self.selected >= read.sources.len() {
            self
        } else {
            let id = read.sources[self.selected];
            if read.view is Some && read.view->0.source_id == id {
                self.failed("the owning source stays in this view"@)
            } else {
                match place_from(self.source_ids, id, 0) {
                    Some(place) => ViewModel {
                        source_ids: self.source_ids.remove(place),
                        error: None,
                        ..self
                    },
                    None => if self.source_ids.len() < VIEW_MAX_SOURCES {
                        ViewModel { source_ids: self.source_ids.push(id), error: None, ..self }
                    } else {
                        self
                    },
                }
            }
        }
    }

    /// The selected source changes places with its neighbour.
    pub open spec fn source_reordered(self, delta: int, read: ViewRead) -> ViewModel {
        if self.mode != ViewDialogMode::Sources || self.selected >= read.sources.len() {
            self
        } else {
            match place_from(self.source_ids, read.sources[self.selected], 0) {
                None => self,
                Some(place) => ViewModel {
                    source_ids: exchanged(
                        self.source_ids,
                        place,
                        least(greatest(place + delta, 0), self.source_ids.len() - 1),
                    ),
                    ..self
                },
            }
        }
    }

    /// The change is asked for, unless its name is blank or too many wait.
    pub open spec fn submitted(self, read: ViewRead) -> ViewModel {
        match read.view {
            None => self,
            Some(view) => if trimmed(self.draft).len() == 0 {
                self.failed("view name cannot be empty"@)
            } else if self.queue.items.len() >= self.queue.cap {
                self.failed("view request queue is full"@)
            } else {
                ViewModel {
                    queue: self.queue.put(
                        ViewAsk {
                            source_ids: self.source_ids,
                            mode: self.mode,
                            source_id: view.source_id,
                            view_id: view.id,
                            name: trimmed(self.draft),
                        },
                    ),
                    ..self
                }
            },
        }
    }

    pub open spec fn activated(self, read: ViewRead) -> ViewModel {
        if self.control == ViewDialogControl::Tabs {
            self
        } else {
            self.submitted(read)
        }
    }

    pub open spec fn edit_step(self, command: EditCommand) -> Step {
        if self.editing() {
            Step::Edit(command)
        } else {
            Step::Done(Outcome::Ignored)
        }
    }

    /// The name was edited.
    pub open spec fn edited(self, value: Seq<char>, cursor: int, changed: bool) -> ViewModel {
        ViewModel {
            draft: value,
            cursor,
            error: if changed {
                None
            } else {
                self.error
            },
            ..self
        }
    }

    pub open spec fn focus_moved(self, delta: int) -> ViewModel {
        let list = self.controls();
        ViewModel {
            control: list[ring_step(place_or_start(list, self.control), 3, delta)],
            ..self
        }
    }

    /// Up and Down.
    pub open spec fn after_vertical(self, code: KeyCode, alt: bool, read: ViewRead) -> (
        ViewModel,
        Step,
    ) {
        let delta: int = if code == KeyCode::Up {
            -1
        } else {
            1
        };
        if alt {
            (self.source_reordered(delta, read), Step::Done(Outcome::Consumed))
        } else if self.editing() {
            (self, self.edit_step(arrow_edit(code)->0))
        } else {
            (self.source_moved(delta, read), Step::Done(Outcome::Consumed))
        }
    }

    /// Left and Right.
    pub open spec fn after_horizontal(self, code: KeyCode, read: ViewRead) -> (ViewModel, Step) {
        if self.control == ViewDialogControl::Tabs {
            (
                self.tab_moved(
                    if code == KeyCode::Left {
                        -1
                    } else {
                        1
                    },
                    read,
                ),
                Step::Done(Outcome::Consumed),
            )
        } else {
            (self, self.edit_step(arrow_edit(code)->0))
        }
    }

    /// A character.
    pub open spec fn after_char(self, ch: char, key: KeyEvent, read: ViewRead) -> (ViewModel, Step) {
        let done = Step::Done(Outcome::Consumed);
        if key.modifiers.alt && ch == 'm' {
            (self.seeded(ViewDialogMode::Sources, read), done)
        } else if key.modifiers.alt && ch == 'd' {
            (self.seeded(ViewDialogMode::Clone, read), done)
        } else if ch == ' ' && self.control == ViewDialogControl::Tabs {
            (self, done)
        } else if ch == ' ' && self.mode == ViewDialogMode::Sources {
            (self.source_toggled(read), done)
        } else if key.modifiers.plain() {
            (self, self.edit_step(EditCommand::Insert(ch)))
        } else {
            (self, Step::Done(Outcome::Ignored))
        }
    }

    pub open spec fn after_key(self, key: KeyEvent, read: ViewRead) -> (ViewModel, Step) {
        let done = Step::Done(Outcome::Consumed);
        let ignored = Step::Done(Outcome::Ignored);
        if !key.spec_is_active() {
            (self, ignored)
        } else if key.modifiers.control {
            match control_edit(key.code) {
                Some(command) => (self, self.edit_step(command)),
                None => (self, ignored),
            }
        } else {
            match key.code {
                KeyCode::Up | KeyCode::Down => self.after_vertical(
                    key.code,
                    key.modifiers.alt,
                    read,
                ),
                KeyCode::Left | KeyCode::Right => self.after_horizontal(key.code, read),
                KeyCode::Tab => (
                    self.focus_moved(
                        if key.modifiers.shift {
                            -1
                        } else {
                            1
                        },
                    ),
                    done,
                ),
                KeyCode::BackTab => (self.focus_moved(-1), done),
                KeyCode::Enter => (self.activated(read), done),
                KeyCode::Backspace => (self, self.edit_step(EditCommand::Backspace)),
                KeyCode::Char(ch) => self.after_char(ch, key, read),
                _ => (self, ignored),
            }
        }
    }

    pub open spec fn after_mouse(
        self,
        kind: MouseEventKind,
        hit: Option<ViewHit>,
        read: ViewRead,
    ) -> (ViewModel, Outcome) {
        match kind {
            MouseEventKind::LeftDown => (
                match hit {
                    Some(ViewHit::Tab(mode)) => self.seeded(mode, read),
                    Some(ViewHit::Control(control)) => {
                        let there = if self.controls().contains(control) {
                            ViewModel { control, ..self }
                        } else {
                            self
                        };
                        if control == ViewDialogControl::Apply {
                            there.activated(read)
                        } else {
                            there
                        }
                    },
                    Some(ViewHit::Source(index)) => ViewModel { selected: index as int, ..self },
                    _ => self,
                },
                Outcome::Consumed,
            ),
            MouseEventKind::ScrollUp => (self.source_moved(-1, read), Outcome::Consumed),
            MouseEventKind::ScrollDown => (self.source_moved(1, read), Outcome::Consumed),
            MouseEventKind::Other => (self, Outcome::Ignored),
        }
    }

    pub open spec fn after_event(self, event: Event<ViewHit>, read: ViewRead) -> (ViewModel, Step) {
        match event {
            Event::Key(key) => self.after_key(key, read),
            Event::Paste(_) => (self, self.edit_step(EditCommand::InsertPasted)),
            Event::Mouse { kind, hit } => {
                let (after, outcome) = self.after_mouse(kind, hit, read);
                (after, Step::Done(outcome))
            },
            Event::Dismiss | Event::View(ViewEvent::SourcesChanged) => (
                ViewModel { open: false, ..self },
                Step::Done(Outcome::Close),
            ),
            Event::Command(id) => match command_mode(id) {
                Some(mode) => (self.seeded(mode, read), Step::Done(Outcome::Consumed)),
                None => (self, Step::Done(Outcome::Ignored)),
            },
            _ => (self, Step::Done(Outcome::Ignored)),
        }
    }

    /// The layer opens over the view that is shown, if one is.
    pub open spec fn opened(self, mode: ViewDialogMode, read: ViewRead, geometry: ViewGeometry) -> ViewModel {
        match read.view {
            None => self,
            Some(view) => ViewModel {
                open: true,
                selected: 0,
                source_ids: view.source_ids,
                geometry,
                ..self
            }.seeded(mode, read),
        }
    }

    /// A button or a segment of the header is pressed by its place.
    pub open spec fn pressed(self, index: int, read: ViewRead) -> (ViewModel, Outcome) {
        if index == 0 {
            (self.submitted(read), Outcome::Consumed)
        } else if index <= 4 {
            (self.seeded(view_modes()[index - 1], read), Outcome::Consumed)
        } else {
            (self, Outcome::Ignored)
        }
    }
}

/// What the body of a mode is.
pub open spec fn body_control(mode: ViewDialogMode) -> ViewDialogControl {
    if mode == ViewDialogMode::Sources {
        ViewDialogControl::Sources
    } else {
        ViewDialogControl::Input
    }
}

/// The mode that a command chooses.
pub open spec fn command_mode(id: CommandId) -> Option<ViewDialogMode> {
    match id {
        CommandId::ViewBlank => Some(ViewDialogMode::Blank),
        CommandId::ViewClone => Some(ViewDialogMode::Clone),
        CommandId::ViewRename => Some(ViewDialogMode::Rename),
        CommandId::ViewSources => Some(ViewDialogMode::Sources),
        _ => None,
    }
}

/// Finds the mode that a command chooses.
pub fn view_command_mode(id: CommandId) -> (r: Option<ViewDialogMode>)
    ensures
        r == command_mode(id),
{
    match id {
        CommandId::ViewBlank => Some(ViewDialogMode::Blank),
        CommandId::ViewClone => Some(ViewDialogMode::Clone),
        CommandId::ViewRename => Some(ViewDialogMode::Rename),
        CommandId::ViewSources => Some(ViewDialogMode::Sources),
        _ => None,
    }
}

fn find_text(list: &Vec<String>, id: &str) -> (r: Option<usize>)
    ensures
        r matches Some(place) ==> place_from(texts(list@), id@, 0) == Some(place as int) && place
            < list@.len(),
        r is None ==> place_from(texts(list@), id@, 0) is None,
{
    let ghost all = texts(list@);
    let mut i: usize = 0;
    while i < list.len()
        invariant
            i <= list@.len(),
            all == texts(list@),
            place_from(all, id@, 0) == place_from(all, id@, i as int),
        decreases list.len() - i,
    {
        assert(all[i as int] == list@[i as int]@);
        if same(list[i].as_str(), id) {
            return Some(i);
        }
        i += 1;
    }
    None
}

impl Default for ViewDialog {
    fn default() -> (r: ViewDialog)
        ensures
            r.model().geometry.blank(),
            r.model() == ViewModel::initial(r.model().geometry),
    {
        let r = ViewDialog {
            open: false,
            source_ids: Vec::new(),
            selected_source: 0,
            mode: ViewDialogMode::Clone,
            control: ViewDialogControl::Input,
            draft: String::new(),
            cursor: 0,
            error: None,
            geometry: ViewGeometry::default(),
            surface: Surface::default(),
            outbox: Outbox::new(VIEW_OUTBOX_CAP),
        };
        assert(texts(r.source_ids@) =~= seq![]);
        assert(asks(r.outbox@.items) =~= seq![]);
        assert(r.model().queue =~= Queue::<ViewAsk>::empty(VIEW_OUTBOX_CAP as int));
        r
    }
}

impl ViewModel {
    /// A layer that was never opened.
    pub open spec fn initial(geometry: ViewGeometry) -> ViewModel {
        ViewModel {
            open: false,
            source_ids: Seq::empty(),
            selected: 0,
            mode: ViewDialogMode::Clone,
            control: ViewDialogControl::Input,
            draft: Seq::empty(),
            cursor: 0,
            error: None,
            geometry,
            surface: Surface::nothing(),
            queue: Queue::empty(VIEW_OUTBOX_CAP as int),
        }
    }
}

impl ViewDialog {
    pub closed spec fn model(&self) -> ViewModel {
        ViewModel {
            open: self.open,
            source_ids: texts(self.source_ids@),
            selected: self.selected_source as int,
            mode: self.mode,
            control: self.control,
            draft: self.draft@,
            cursor: self.cursor as int,
            error: some_text(self.error),
            geometry: self.geometry,
            surface: self.surface,
            queue: Queue {
                items: asks(self.outbox@.items),
                cap: self.outbox@.cap,
                generation: self.outbox@.generation,
            },
        }
    }

    pub fn is_open(&self) -> (r: bool)
        ensures
            r == self.model().open,
    {
        self.open
    }

    pub fn mode(&self) -> (r: ViewDialogMode)
        ensures
            r == self.model().mode,
    {
        self.mode
    }

    pub fn control(&self) -> (r: ViewDialogControl)
        ensures
            r == self.model().control,
    {
        self.control
    }

    pub fn draft(&self) -> (r: &str)
        ensures
            r@ == self.model().draft,
    {
        self.draft.as_str()
    }

    pub fn cursor(&self) -> (r: usize)
        ensures
            r == self.model().cursor,
    {
        self.cursor
    }

    pub fn error(&self) -> (r: Option<&str>)
        ensures
            r is Some <==> self.model().error is Some,
            r matches Some(error) ==> self.model().error == Some(error@),
    {
        match &self.error {
            Some(error) => Some(error.as_str()),
            None => None,
        }
    }

    pub fn selected_source(&self) -> (r: usize)
        ensures
            r == self.model().selected,
    {
        self.selected_source
    }

    pub fn source_ids(&self) -> (r: &Vec<String>)
        ensures
            texts(r@) == self.model().source_ids,
    {
        &self.source_ids
    }

    pub fn source_rects(&self) -> (r: &Vec<(Rect, usize)>)
        ensures
            *r == self.model().geometry.sources,
    {
        &self.geometry.sources
    }

    pub fn control_rects(&self) -> (r: &Vec<(Rect, ViewDialogControl)>)
        ensures
            *r == self.model().geometry.controls,
    {
        &self.geometry.controls
    }

    pub fn tab_rects(&self) -> (r: &Vec<(Rect, ViewDialogMode)>)
        ensures
            *r == self.model().geometry.tabs,
    {
        &self.geometry.tabs
    }

    /// Hands out the requests that wait.
    pub fn take_requests(&mut self) -> (r: Vec<ViewMutationRequest>)
        ensures
            asks(r@) == old(self).model().queue.items,
            final(self).model() == (ViewModel {
                queue: Queue { items: Seq::empty(), ..old(self).model().queue },
                ..old(self).model()
            }),
    {
        let r = self.outbox.drain();
        assert(asks(self.outbox@.items) =~= seq![]);
        assert(self.model().queue =~= (Queue { items: Seq::empty(), ..old(self).model().queue }));
        r
    }

    /// A change was refused: the draft stays, and the reason is shown.
    pub fn fail(&mut self, message: String)
        ensures
            final(self).model() == if old(self).model().open {
                old(self).model().failed(message@)
            } else {
                old(self).model()
            },
    {
        if self.open {
            self.error = Some(message);
        }
    }

    fn say(&mut self, message: &str)
        ensures
            final(self).model() == old(self).model().failed(message@),
    {
        self.error = Some(message.to_owned());
    }

    fn text_editing(&self) -> (r: bool)
        ensures
            r == self.model().editing(),
    {
        self.mode != ViewDialogMode::Sources && self.control == ViewDialogControl::Input
    }

    fn seed(&mut self, mode: ViewDialogMode, ctx: ViewContext<'_>)
        ensures
            final(self).model() == old(self).model().seeded(mode, ctx.read()),
    {
        if let Some(view) = ctx.view {
            self.mode = mode;
            self.control = if mode == ViewDialogMode::Sources {
                ViewDialogControl::Sources
            } else {
                ViewDialogControl::Input
            };
            self.error = None;
            self.draft = match mode {
                ViewDialogMode::Blank => "New view".to_owned(),
                ViewDialogMode::Clone => {
                    let mut text = "Copy of ".to_owned();
                    text.append(view.name.as_str());
                    text
                },
                _ => view.name.clone(),
            };
            self.cursor = self.draft.as_str().unicode_len();
        }
    }

    fn move_tab(&mut self, back: bool, ctx: ViewContext<'_>)
        ensures
            final(self).model() == old(self).model().tab_moved(
                if back {
                    -1
                } else {
                    1
                },
                ctx.read(),
            ),
    {
        let next = match self.mode {
            ViewDialogMode::Blank => if back {
                ViewDialogMode::Sources
            } else {
                ViewDialogMode::Clone
            },
            ViewDialogMode::Clone => if back {
                ViewDialogMode::Blank
            } else {
                ViewDialogMode::Rename
            },
            ViewDialogMode::Rename => if back {
                ViewDialogMode::Clone
            } else {
                ViewDialogMode::Sources
            },
            ViewDialogMode::Sources => if back {
                ViewDialogMode::Rename
            } else {
                ViewDialogMode::Blank
            },
        };
        self.seed(next, ctx);
        self.control = ViewDialogControl::Tabs;
    }

    fn move_source(&mut self, up: bool, ctx: ViewContext<'_>)
        ensures
            final(self).model() == old(self).model().source_moved(
                if up {
                    -1
                } else {
                    1
                },
                ctx.read(),
            ),
    {
        if self.mode == ViewDialogMode::Sources && ctx.sources.len() > 0 {
            let last: usize = ctx.sources.len() - 1;
            if up {
                let next: usize = self.selected_source.saturating_sub(1);
                self.selected_source = if next < last {
                    next
                } else {
                    last
                };
            } else {
                self.selected_source = if self.selected_source < last {
                    self.selected_source + 1
                } else {
                    last
                };
            }
        }
    }

    fn toggle_source(&mut self, ctx: ViewContext<'_>)
        ensures
            final(self).model() == old(self).model().source_toggled(ctx.read()),
    {
        if self.mode != ViewDialogMode::Sources || self.selected_source >= ctx.sources.len() {
            return;
        }
        let id = ctx.sources[self.selected_source].id.as_str();
        assert(ctx.read().sources[self.selected_source as int] == id@);
        let owns = match ctx.view {
            Some(view) => same(view.source_id.as_str(), id),
            None => false,
        };
        let ghost before = self.source_ids@;
        if owns {
            self.say("the owning source stays in this view");
            return;
        }
        match find_text(&self.source_ids, id) {
            Some(place) => {
                self.source_ids.remove(place);
                self.error = None;
                assert(texts(self.source_ids@) =~= texts(before).remove(place as int));
            },
            None => {
                if self.source_ids.len() < VIEW_MAX_SOURCES {
                    self.source_ids.push(id.to_owned());
                    self.error = None;
                    assert(texts(self.source_ids@) =~= texts(before).push(id@));
                }
            },
        }
    }

    fn reorder_source(&mut self, up: bool, ctx: ViewContext<'_>)
        ensures
            final(self).model() == old(self).model().source_reordered(
                if up {
                    -1
                } else {
                    1
                },
                ctx.read(),
            ),
    {
        if self.mode != ViewDialogMode::Sources || self.selected_source >= ctx.sources.len() {
            return;
        }
        let id = ctx.sources[self.selected_source].id.as_str();
        assert(ctx.read().sources[self.selected_source as int] == id@);
        if let Some(place) = find_text(&self.source_ids, id) {
            let ghost before = texts(self.source_ids@);
            let target: usize = if up {
                place.saturating_sub(1)
            } else if place < self.source_ids.len() - 1 {
                place + 1
            } else {
                place
            };
            let moved = self.source_ids.remove(place);
            self.source_ids.insert(target, moved);
            assert(texts(self.source_ids@) =~= exchanged(before, place as int, target as int));
        }
    }

    fn submit(&mut self, ctx: ViewContext<'_>)
        ensures
            final(self).model() == old(self).model().submitted(ctx.read()),
    {
        let view = match ctx.view {
            Some(view) => view,
            None => {
                return;
            },
        };
        let name = trim(self.draft.as_str());
        if name.as_str().is_empty() {
            self.say("view name cannot be empty");
            return;
        }
        let request = ViewMutationRequest {
            source_ids: copy_texts(&self.source_ids),
            mode: self.mode,
            source_id: view.source_id.clone(),
            view_id: view.id.clone(),
            name,
        };
        let ghost before = self.outbox@.items;
        let ghost ask = ask_of(request);
        let refused = self.outbox.push(request).is_err();
        proof {
            assert(asks(before.push(request)) =~= asks(before).push(ask));
            assert(self.model().queue =~= old(self).model().queue.put(ask));
        }
        if refused {
            self.say("view request queue is full");
        }
    }

    fn activate(&mut self, ctx: ViewContext<'_>)
        ensures
            final(self).model() == old(self).model().activated(ctx.read()),
    {
        if self.control != ViewDialogControl::Tabs {
            self.submit(ctx);
        }
    }

    fn edit(&self, command: EditCommand) -> (r: Step)
        ensures
            r == self.model().edit_step(command),
    {
        if self.text_editing() {
            Step::Edit(command)
        } else {
            Step::Done(Outcome::Ignored)
        }
    }

    /// The name was edited; what changed nothing is not taken.
    pub fn edited(&mut self, edited: Edited) -> (r: Outcome)
        ensures
            final(self).model() == old(self).model().edited(
                edited.value@,
                edited.cursor as int,
                edited.changed,
            ),
            r == if edited.changed || edited.moved {
                Outcome::Consumed
            } else {
                Outcome::Ignored
            },
    {
        self.draft = edited.value;
        self.cursor = edited.cursor;
        if edited.changed {
            self.error = None;
        }
        if edited.changed || edited.moved {
            Outcome::Consumed
        } else {
            Outcome::Ignored
        }
    }

    fn move_focus(&mut self, back: bool)
        ensures
            final(self).model() == old(self).model().focus_moved(
                if back {
                    -1
                } else {
                    1
                },
            ),
    {
        proof {
            reveal_with_fuel(place_from, 4);
        }
        let body = if self.mode == ViewDialogMode::Sources {
            ViewDialogControl::Sources
        } else {
            ViewDialogControl::Input
        };
        self.control = if self.control == ViewDialogControl::Apply {
            if back {
                body
            } else {
                ViewDialogControl::Tabs
            }
        } else if self.control == body {
            if back {
                ViewDialogControl::Tabs
            } else {
                ViewDialogControl::Apply
            }
        } else {
            if back {
                ViewDialogControl::Apply
            } else {
                body
            }
        };
    }

    fn char_key(&mut self, ch: char, key: KeyEvent, ctx: ViewContext<'_>) -> (r: Step)
        requires
            key.code == KeyCode::Char(ch),
        ensures
            (final(self).model(), r) == old(self).model().after_char(ch, key, ctx.read()),
    {
        let done = Step::Done(Outcome::Consumed);
        if key.modifiers.alt && ch == 'm' {
            self.seed(ViewDialogMode::Sources, ctx);
            done
        } else if key.modifiers.alt && ch == 'd' {
            self.seed(ViewDialogMode::Clone, ctx);
            done
        } else if ch == ' ' && self.control == ViewDialogControl::Tabs {
            done
        } else if ch == ' ' && self.mode == ViewDialogMode::Sources {
            self.toggle_source(ctx);
            done
        } else if is_typed_char(&key) {
            self.edit(EditCommand::Insert(ch))
        } else {
            Step::Done(Outcome::Ignored)
        }
    }

    fn vertical_key(&mut self, up: bool, alt: bool, ctx: ViewContext<'_>) -> (r: Step)
        ensures
            (final(self).model(), r) == old(self).model().after_vertical(
                if up {
                    KeyCode::Up
                } else {
                    KeyCode::Down
                },
                alt,
                ctx.read(),
            ),
    {
        if alt {
            self.reorder_source(up, ctx);
        } else if self.text_editing() {
            return Step::Edit(
                if up {
                    EditCommand::MoveUp
                } else {
                    EditCommand::MoveDown
                },
            );
        } else {
            self.move_source(up, ctx);
        }
        Step::Done(Outcome::Consumed)
    }

    fn horizontal_key(&mut self, back: bool, ctx: ViewContext<'_>) -> (r: Step)
        ensures
            (final(self).model(), r) == old(self).model().after_horizontal(
                if back {
                    KeyCode::Left
                } else {
                    KeyCode::Right
                },
                ctx.read(),
            ),
    {
        if self.control == ViewDialogControl::Tabs {
            self.move_tab(back, ctx);
            return Step::Done(Outcome::Consumed);
        }
        self.edit(
            if back {
                EditCommand::MoveLeft
            } else {
                EditCommand::MoveRight
            },
        )
    }

    pub fn key(&mut self, key: KeyEvent, ctx: ViewContext<'_>) -> (r: Step)
        ensures
            (final(self).model(), r) == old(self).model().after_key(key, ctx.read()),
    {
        if !key.is_active() {
            return Step::Done(Outcome::Ignored);
        }
        if key.modifiers.control {
            return match control_edit_for(key.code) {
                Some(command) => self.edit(command),
                None => Step::Done(Outcome::Ignored),
            };
        }
        match key.code {
            KeyCode::Up => self.vertical_key(true, key.modifiers.alt, ctx),
            KeyCode::Down => self.vertical_key(false, key.modifiers.alt, ctx),
            KeyCode::Left => self.horizontal_key(true, ctx),
            KeyCode::Right => self.horizontal_key(false, ctx),
            KeyCode::Tab => {
                self.move_focus(key.modifiers.shift);
                Step::Done(Outcome::Consumed)
            },
            KeyCode::BackTab => {
                self.move_focus(true);
                Step::Done(Outcome::Consumed)
            },
            KeyCode::Enter => {
                self.activate(ctx);
                Step::Done(Outcome::Consumed)
            },
            KeyCode::Backspace => self.edit(EditCommand::Backspace),
            KeyCode::Char(ch) => self.char_key(ch, key, ctx),
            _ => Step::Done(Outcome::Ignored),
        }
    }

    pub fn mouse(&mut self, kind: MouseEventKind, hit: Option<ViewHit>, ctx: ViewContext<'_>) -> (r:
        Outcome)
        ensures
            (final(self).model(), r) == old(self).model().after_mouse(kind, hit, ctx.read()),
    {
        match kind {
            MouseEventKind::LeftDown => match hit {
                Some(ViewHit::Tab(mode)) => self.seed(mode, ctx),
                Some(ViewHit::Control(control)) => {
                    let sources = self.mode == ViewDialogMode::Sources;
                    let listed = match control {
                        ViewDialogControl::Tabs | ViewDialogControl::Apply => true,
                        ViewDialogControl::Sources => sources,
                        ViewDialogControl::Input => !sources,
                    };
                    proof {
                        let list = self.model().controls();
                        assert(list[0] == ViewDialogControl::Tabs);
                        assert(list[1] == body_control(self.mode));
                        assert(list[2] == ViewDialogControl::Apply);
                        assert(listed == list.contains(control));
                    }
                    if listed {
                        self.control = control;
                    }
                    if control == ViewDialogControl::Apply {
                        self.activate(ctx);
                    }
                },
                Some(ViewHit::Source(index)) => {
                    self.selected_source = index;
                },
                _ => {},
            },
            MouseEventKind::ScrollUp => self.move_source(true, ctx),
            MouseEventKind::ScrollDown => self.move_source(false, ctx),
            MouseEventKind::Other => {
                return Outcome::Ignored;
            },
        }
        Outcome::Consumed
    }

    pub fn handle(&mut self, event: Event<ViewHit>, ctx: ViewContext<'_>) -> (r: Step)
        ensures
            (final(self).model(), r) == old(self).model().after_event(event, ctx.read()),
    {
        match event {
            Event::Key(key) => self.key(key, ctx),
            Event::Paste(_) => self.edit(EditCommand::InsertPasted),
            Event::Mouse { kind, hit } => Step::Done(self.mouse(kind, hit, ctx)),
            Event::Dismiss | Event::View(ViewEvent::SourcesChanged) => {
                self.open = false;
                Step::Done(Outcome::Close)
            },
            Event::Command(id) => match view_command_mode(id) {
                Some(mode) => {
                    self.seed(mode, ctx);
                    Step::Done(Outcome::Consumed)
                },
                None => Step::Done(Outcome::Ignored),
            },
            _ => Step::Done(Outcome::Ignored),
        }
    }

    /// Opens the layer in a mode.
    pub fn open(&mut self, mode: ViewDialogMode, ctx: ViewContext<'_>)
        ensures
            ctx.read().view is Some ==> final(self).model().geometry.blank(),
            final(self).model() == old(self).model().opened(
                mode,
                ctx.read(),
                final(self).model().geometry,
            ),
    {
        if let Some(view) = ctx.view {
            self.open = true;
            self.selected_source = 0;
            self.source_ids = copy_texts(&view.source_ids);
            self.geometry = ViewGeometry::default();
            self.seed(mode, ctx);
        }
    }

    /// Presses the button or the segment at a place.
    pub fn press_action(&mut self, index: usize, ctx: ViewContext<'_>) -> (r: Outcome)
        ensures
            (final(self).model(), r) == old(self).model().pressed(index as int, ctx.read()),
    {
        if index == 0 {
            self.submit(ctx);
            return Outcome::Consumed;
        }
        match ViewDialogMode::at(index - 1) {
            Some(mode) => {
                self.seed(mode, ctx);
                Outcome::Consumed
            },
            None => Outcome::Ignored,
        }
    }
}

} // verus!
