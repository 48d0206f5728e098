//! The Union layer: picking the views that a union is made of.
//!
//! The draft is a [`UnionDialog`]; this layer is its list, its keys and its two
//! buttons.

use crate::component::{ring_step, Event, MessageState, Outcome, Surface};
use crate::components::union::{removal_undoes_adding, UnionDialog, UnionDraft};
use crate::dialog_layout::{find_region, region_at, DialogSpec};
use crate::geometry::{greatest, least, max16, minus, Rect};
use crate::input::{KeyCode, KeyEvent, MouseEventKind};
use crate::text::{copy_texts, decimal, decimal_text, same, some_text, texts};
use vstd::prelude::*;

pub mod laws;
pub mod render;

verus! {

/// What the user cannot find out from the list itself.
pub const UNION_HELP: &'static str =
    "Up/Down move \u{b7} Space toggles a view \u{b7} Enter creates \u{b7} Esc closes. Ties break by list order; equal times keep input order.";

/// The cell whose value a new union is filtered by.
#[derive(Debug, PartialEq, Eq)]
pub struct SharedKeyUnionOrigin {
    pub origin_view_id: String,
    pub row_id: u64,
    pub field: String,
}

impl SharedKeyUnionOrigin {
    fn copy(&self) -> (r: SharedKeyUnionOrigin)
        ensures
            r == *self,
    {
        SharedKeyUnionOrigin {
            origin_view_id: self.origin_view_id.clone(),
            row_id: self.row_id,
            field: self.field.clone(),
        }
    }
}

/// How the layer is opened.
#[derive(Debug, PartialEq, Eq)]
pub enum UnionOpen {
    Plain,
    SharedKey(SharedKeyUnionOrigin),
}

/// Everything the layer draws that can be clicked.
#[derive(Clone, Copy, Debug, PartialEq, Eq, Structural)]
pub enum UnionHit {
    Input(usize),
    Button(usize),
    Body,
}

/// What has the focus: the list, or one of the two buttons.
#[derive(Clone, Copy, Debug, PartialEq, Eq, Structural)]
pub enum UnionFocus {
    Inputs,
    Create,
    Cancel,
}

/// A view that can be an input.
#[derive(Debug, PartialEq, Eq)]
pub struct UnionCandidate {
    pub id: String,
    pub name: String,
}

/// A union that is to be made.
#[derive(Debug, PartialEq, Eq)]
pub enum UnionDialogRequest {
    Create { inputs: Vec<String>, shared_key: Option<SharedKeyUnionOrigin> },
}

/// A request by what it says.
pub struct UnionAsk {
    pub inputs: Seq<Seq<char>>,
    pub shared_key: Option<SharedKeyUnionOrigin>,
}

/// What the requests say, in order.
pub open spec fn asks(requests: Seq<UnionDialogRequest>) -> Seq<UnionAsk> {
    requests.map_values(
        |request: UnionDialogRequest|
            match request {
                UnionDialogRequest::Create { inputs, shared_key } => UnionAsk {
                    inputs: texts(inputs@),
                    shared_key,
                },
            },
    )
}

/// Where the last frame drew what can be clicked.
#[derive(Debug)]
pub struct UnionGeometry {
    pub body: Rect,
    pub inputs: Vec<(Rect, usize)>,
    pub buttons: Vec<(Rect, usize)>,
}

impl UnionGeometry {
    /// Nothing was drawn.
    pub open spec fn blank(self) -> bool {
        &&& self.body == Rect { x: 0, y: 0, width: 0, height: 0 }
        &&& self.inputs@.len() == 0
        &&& self.buttons@.len() == 0
    }
}

impl Default for UnionGeometry {
    fn default() -> (r: UnionGeometry)
        ensures
            r.blank(),
    {
        UnionGeometry { body: Rect::zero(), inputs: Vec::new(), buttons: Vec::new() }
    }
}

#[derive(Debug)]
pub struct UnionDialogComponent {
    draft: UnionDialog,
    highlighted: usize,
    scroll: usize,
    focus: UnionFocus,
    geometry: UnionGeometry,
    surface: Surface,
    outbox: Vec<UnionDialogRequest>,
    shared_key: Option<SharedKeyUnionOrigin>,
    submitted: bool,
}

/// The state of the layer.
#[verifier::ext_equal]
pub struct UnionModel {
    pub draft: UnionDraft,
    pub highlighted: int,
    pub scroll: int,
    pub focus: UnionFocus,
    pub geometry: UnionGeometry,
    pub surface: Surface,
    pub outbox: Seq<UnionAsk>,
    pub shared_key: Option<SharedKeyUnionOrigin>,
    pub submitted: bool,
}

/// The identities of the views that can be inputs.
pub open spec fn ids(candidates: Seq<UnionCandidate>) -> Seq<Seq<char>> {
    candidates.map_values(|candidate: UnionCandidate| candidate.id@)
}

/// The place of a view in a list, from one place on.
pub open spec fn id_place(list: Seq<Seq<char>>, id: Seq<char>, from: int) -> Option<int>
    decreases list.len() - from,
{
    if from < 0 || from >= list.len() {
        None
    } else if list[from] == id {
        Some(from)
    } else {
        id_place(list, id, from + 1)
    }
}

/// How many of the first `n` views are inputs.
pub open spec fn chosen_count(list: Seq<Seq<char>>, inputs: Seq<Seq<char>>, n: int) -> int
    decreases n,
{
    if n <= 0 {
        0
    } else {
        chosen_count(list, inputs, n - 1) + (if inputs.contains(list[n - 1]) {
            1int
        } else {
            0int
        })
    }
}

/// The order of the focus.
pub open spec fn focus_order() -> Seq<UnionFocus> {
    seq![UnionFocus::Inputs, UnionFocus::Create, UnionFocus::Cancel]
}

/// The place of a focus in its order.
pub open spec fn focus_place(focus: UnionFocus) -> int {
    match focus {
        UnionFocus::Inputs => 0,
        UnionFocus::Create => 1,
        UnionFocus::Cancel => 2,
    }
}

impl UnionModel {
    /// The highlighted view becomes an input, or is one no longer.
    pub open spec fn toggled(self, list: Seq<Seq<char>>) -> UnionModel {
        if self.highlighted >= list.len() {
            self
        } else {
            let id = list[self.highlighted];
            UnionModel {
                draft: if self.draft.inputs.contains(id) {
                    self.draft.removed(id)
                } else {
                    match self.draft.refusal(id) {
                        Some(message) => self.draft.rejected(message),
                        None => self.draft.added(id),
                    }
                },
                ..self
            }
        }
    }

    /// A union is asked for, once.
    pub open spec fn created(self) -> UnionModel {
        if self.submitted {
            self
        } else {
            match self.draft.fault(""@) {
                Some(message) => UnionModel { draft: self.draft.rejected(message), ..self },
                None => UnionModel {
                    outbox: self.outbox.push(
                        UnionAsk { inputs: self.draft.inputs, shared_key: self.shared_key },
                    ),
                    submitted: true,
                    ..self
                },
            }
        }
    }

    /// A union could not be made: the draft stays, and can be tried again.
    pub open spec fn create_failed(self, message: Seq<char>) -> UnionModel {
        UnionModel { submitted: false, draft: self.draft.rejected(message), ..self }
    }

    pub open spec fn highlight_moved(self, count: int, delta: int) -> UnionModel {
        UnionModel {
            highlighted: if count == 0 {
                0
            } else {
                least(greatest(self.highlighted + delta, 0), count - 1)
            },
            ..self
        }
    }

    pub open spec fn focus_moved(self, delta: int) -> UnionModel {
        UnionModel {
            focus: focus_order()[ring_step(focus_place(self.focus), 3, delta)],
            ..self
        }
    }

    pub open spec fn after_key(self, key: KeyEvent, list: Seq<Seq<char>>) -> (UnionModel, Outcome) {
        if !key.spec_is_active() {
            (self, Outcome::Ignored)
        } else {
            match key.code {
                KeyCode::Up => (self.highlight_moved(list.len() as int, -1), Outcome::Consumed),
                KeyCode::Down => (self.highlight_moved(list.len() as int, 1), Outcome::Consumed),
                KeyCode::Char(ch) => if ch == ' ' {
                    (self.toggled(list), Outcome::Consumed)
                } else {
                    (self, Outcome::Ignored)
                },
                KeyCode::Tab => (self.focus_moved(1), Outcome::Consumed),
                KeyCode::BackTab => (self.focus_moved(-1), Outcome::Consumed),
                KeyCode::Enter => if self.focus == UnionFocus::Cancel {
                    (self, Outcome::Close)
                } else {
                    (self.created(), Outcome::Consumed)
                },
                _ => (self, Outcome::Ignored),
            }
        }
    }

    pub open spec fn after_mouse(
        self,
        kind: MouseEventKind,
        hit: Option<UnionHit>,
        list: Seq<Seq<char>>,
    ) -> (UnionModel, Outcome) {
        match kind {
            MouseEventKind::LeftDown => match hit {
                Some(UnionHit::Input(index)) => (
                    UnionModel {
                        highlighted: index as int,
                        focus: UnionFocus::Inputs,
                        ..self
                    }.toggled(list),
                    Outcome::Consumed,
                ),
                Some(UnionHit::Button(index)) => if index == 0 {
                    (self.created(), Outcome::Consumed)
                } else {
                    (self, Outcome::Close)
                },
                _ => (self, Outcome::Consumed),
            },
            _ => (self, Outcome::Ignored),
        }
    }

    pub open spec fn after_event(self, event: Event<UnionHit>, list: Seq<Seq<char>>) -> (
        UnionModel,
        Outcome,
    ) {
        match event {
            Event::Key(key) => self.after_key(key, list),
            Event::Mouse { kind, hit } => self.after_mouse(kind, hit, list),
            Event::Dismiss => (self, Outcome::Close),
            _ => (self, Outcome::Ignored),
        }
    }

    /// A new draft, in which the view it starts from is an input already.
    pub open spec fn opened(
        params: UnionOpen,
        active: Option<Seq<char>>,
        list: Seq<Seq<char>>,
        geometry: UnionGeometry,
    ) -> UnionModel {
        let origin = match params {
            UnionOpen::Plain => active,
            UnionOpen::SharedKey(origin) => Some(origin.origin_view_id@),
        };
        let empty = UnionDraft {
            inputs: Seq::empty(),
            name: Seq::empty(),
            error: None,
            pending: None,
        };
        UnionModel {
            draft: match origin {
                Some(id) => empty.added(id),
                None => empty,
            },
            highlighted: match origin {
                Some(id) => match id_place(list, id, 0) {
                    Some(place) => place,
                    None => 0,
                },
                None => 0,
            },
            scroll: 0,
            focus: UnionFocus::Inputs,
            geometry,
            surface: Surface::nothing(),
            outbox: Seq::empty(),
            shared_key: match params {
                UnionOpen::Plain => None,
                UnionOpen::SharedKey(origin) => Some(origin),
            },
            submitted: false,
        }
    }

    /// The message row: the last refusal, or how many views are chosen.
    pub open spec fn message(self, list: Seq<Seq<char>>) -> (MessageState, Seq<char>) {
        let count = chosen_count(list, self.draft.inputs, list.len() as int);
        match self.draft.error {
            Some(error) => (MessageState::Error, error),
            None => if count >= 2 {
                (
                    MessageState::Ready,
                    decimal(count as nat) + " of "@ + decimal(list.len())
                        + " views selected \u{b7} ties break by list order"@ + (
                    if self.shared_key is Some {
                        " \u{b7} filtered by the selected enriched key"@
                    } else {
                        ""@
                    }),
                )
            } else {
                (
                    MessageState::Disabled,
                    "select at least two views ("@ + decimal(count as nat) + " of "@ + decimal(
                        list.len(),
                    ) + " views selected)"@,
                )
            },
        }
    }

    /// What a point of the last frame stands for.
    pub open spec fn at(self, column: int, row: int) -> Option<UnionHit> {
        match region_at(self.geometry.inputs@, column, row) {
            Some(index) => Some(UnionHit::Input(index)),
            None => match region_at(self.geometry.buttons@, column, row) {
                Some(index) => Some(UnionHit::Button(index)),
                None => if self.geometry.body.covers(column, row) {
                    Some(UnionHit::Body)
                } else {
                    None
                },
            },
        }
    }

    /// The highlight is one of the views that there are.
    pub open spec fn highlight_kept(self, count: int) -> UnionModel {
        UnionModel { highlighted: least(self.highlighted, minus(count, 1)), ..self }
    }

    /// The list is scrolled so that the highlighted view shows.
    pub open spec fn scroll_settled(self, count: int, height: int) -> UnionModel {
        let visible = greatest(height, 1);
        let revealed = if self.highlighted < self.scroll {
            self.highlighted
        } else if self.highlighted >= self.scroll + visible {
            minus(self.highlighted + 1, visible)
        } else {
            self.scroll
        };
        UnionModel { scroll: least(revealed, minus(count, visible)), ..self }
    }

    /// The rows of a frame, each with the place of its view.
    pub open spec fn rows(self, count: int, body: Rect, content: Rect) -> Seq<(Rect, usize)> {
        Seq::new(
            least(minus(count, self.scroll), minus(body.spec_bottom(), body.y as int)) as nat,
            |i: int|
                (
                    Rect::spec_new(content.x, (body.y + i) as u16, content.width, 1),
                    (self.scroll + i) as usize,
                ),
        )
    }
}

fn find_id(candidates: &Vec<UnionCandidate>, id: &str) -> (r: Option<usize>)
    ensures
        r matches Some(place) ==> id_place(ids(candidates@), id@, 0) == Some(place as int),
        r is None ==> id_place(ids(candidates@), id@, 0) is None,
{
    let ghost list = ids(candidates@);
    let mut i: usize = 0;
    while i < candidates.len()
        invariant
            i <= candidates@.len(),
            list == ids(candidates@),
            id_place(list, id@, 0) == id_place(list, id@, i as int),
        decreases candidates.len() - i,
    {
        assert(list[i as int] == candidates@[i as int].id@);
        if same(candidates[i].id.as_str(), id) {
            return Some(i);
        }
        i += 1;
    }
    None
}

fn copy_origin(origin: &Option<SharedKeyUnionOrigin>) -> (r: Option<SharedKeyUnionOrigin>)
    ensures
        r == *origin,
{
    match origin {
        Some(origin) => Some(origin.copy()),
        None => None,
    }
}

impl Default for UnionDialogComponent {
    fn default() -> (r: UnionDialogComponent)
        ensures
            r.model().geometry.blank(),
            r.model() == UnionModel::opened(UnionOpen::Plain, None, seq![], r.model().geometry),
            r.model().draft.valid(),
    {
        let r = UnionDialogComponent {
            draft: UnionDialog::new(),
            highlighted: 0,
            scroll: 0,
            focus: UnionFocus::Inputs,
            geometry: UnionGeometry::default(),
            surface: Surface::default(),
            outbox: Vec::new(),
            shared_key: None,
            submitted: false,
        };
        assert(asks(r.outbox@) =~= seq![]);
        r
    }
}

impl UnionDialogComponent {
    pub closed spec fn model(&self) -> UnionModel {
        UnionModel {
            draft: self.draft@,
            highlighted: self.highlighted as int,
            scroll: self.scroll as int,
            focus: self.focus,
            geometry: self.geometry,
            surface: self.surface,
            outbox: asks(self.outbox@),
            shared_key: self.shared_key,
            submitted: self.submitted,
        }
    }

    /// The draft.
    pub fn draft(&self) -> (r: &UnionDialog)
        ensures
            r@ == self.model().draft,
    {
        &self.draft
    }

    pub fn highlighted(&self) -> (r: usize)
        ensures
            r == self.model().highlighted,
    {
        self.highlighted
    }

    pub fn focus(&self) -> (r: UnionFocus)
        ensures
            r == self.model().focus,
    {
        self.focus
    }

    /// Hands out the requests that wait.
    pub fn take_requests(&mut self) -> (r: Vec<UnionDialogRequest>)
        ensures
            asks(r@) == old(self).model().outbox,
            final(self).model() == (UnionModel { outbox: Seq::empty(), ..old(self).model() }),
    {
        let mut out: Vec<UnionDialogRequest> = Vec::new();
        out.append(&mut self.outbox);
        assert(out@ =~= old(self).outbox@);
        assert(asks(self.outbox@) =~= seq![]);
        out
    }

    /// A union could not be made.
    pub fn create_failed(&mut self, message: String)
        ensures
            final(self).model() == old(self).model().create_failed(message@),
            old(self).model().draft.valid() ==> final(self).model().draft.valid(),
    {
        self.submitted = false;
        self.draft.reject_candidate(message);
    }

    fn toggle_highlighted(&mut self, candidates: &Vec<UnionCandidate>)
        ensures
            final(self).model() == old(self).model().toggled(ids(candidates@)),
            old(self).model().draft.valid() ==> final(self).model().draft.valid(),
    {
        if self.highlighted >= candidates.len() {
            return;
        }
        let id = candidates[self.highlighted].id.clone();
        assert(ids(candidates@)[self.highlighted as int] == id@);
        if !self.draft.remove_input(id.as_str()) {
            if let Err(message) = self.draft.add_input(id) {
                self.draft.reject_candidate(message);
            }
        }
    }

    fn create(&mut self)
        ensures
            final(self).model() == old(self).model().created(),
            old(self).model().draft.valid() ==> final(self).model().draft.valid(),
    {
        if self.submitted {
            return;
        }
        if let Err(message) = self.draft.validate_for_create("") {
            self.draft.reject_candidate(message);
            return;
        }
        let ghost before = self.outbox@;
        let request = UnionDialogRequest::Create {
            inputs: copy_texts(self.draft.inputs()),
            shared_key: copy_origin(&self.shared_key),
        };
        self.outbox.push(request);
        self.submitted = true;
        assert(asks(self.outbox@) =~= asks(before).push(
            UnionAsk { inputs: self.draft@.inputs, shared_key: self.shared_key },
        ));
    }

    fn move_highlight(&mut self, count: usize, up: bool)
        ensures
            final(self).model() == old(self).model().highlight_moved(
                count as int,
                if up {
                    -1
                } else {
                    1
                },
            ),
    {
        if count == 0 {
            self.highlighted = 0;
            return;
        }
        let last: usize = count - 1;
        if up {
            let next: usize = self.highlighted.saturating_sub(1);
            self.highlighted = if next < last {
                next
            } else {
                last
            };
        } else {
            self.highlighted = if self.highlighted < last {
                self.highlighted + 1
            } else {
                last
            };
        }
    }

    fn cycle_focus(&mut self, back: bool)
        ensures
            final(self).model() == old(self).model().focus_moved(
                if back {
                    -1
                } else {
                    1
                },
            ),
    {
        self.focus = match self.focus {
            UnionFocus::Inputs => if back {
                UnionFocus::Cancel
            } else {
                UnionFocus::Create
            },
            UnionFocus::Create => if back {
                UnionFocus::Inputs
            } else {
                UnionFocus::Cancel
            },
            UnionFocus::Cancel => if back {
                UnionFocus::Create
            } else {
                UnionFocus::Inputs
            },
        };
    }

    pub fn key(&mut self, key: KeyEvent, candidates: &Vec<UnionCandidate>) -> (r: Outcome)
        ensures
            (final(self).model(), r) == old(self).model().after_key(key, ids(candidates@)),
            old(self).model().draft.valid() ==> final(self).model().draft.valid(),
    {
        if !key.is_active() {
            return Outcome::Ignored;
        }
        match key.code {
            KeyCode::Up => self.move_highlight(candidates.len(), true),
            KeyCode::Down => self.move_highlight(candidates.len(), false),
            KeyCode::Char(' ') => self.toggle_highlighted(candidates),
            KeyCode::Tab => self.cycle_focus(false),
            KeyCode::BackTab => self.cycle_focus(true),
            KeyCode::Enter => {
                if self.focus == UnionFocus::Cancel {
                    return Outcome::Close;
                }
                self.create();
            },
            _ => {
                return Outcome::Ignored;
            },
        }
        Outcome::Consumed
    }

    pub fn mouse(
        &mut self,
        kind: MouseEventKind,
        hit: Option<UnionHit>,
        candidates: &Vec<UnionCandidate>,
    ) -> (r: Outcome)
        ensures
            (final(self).model(), r) == old(self).model().after_mouse(kind, hit, ids(candidates@)),
            old(self).model().draft.valid() ==> final(self).model().draft.valid(),
    {
        match kind {
            MouseEventKind::LeftDown => match hit {
                Some(UnionHit::Input(index)) => {
                    self.highlighted = index;
                    self.focus = UnionFocus::Inputs;
                    self.toggle_highlighted(candidates);
                    Outcome::Consumed
                },
                Some(UnionHit::Button(index)) => {
                    if index == 0 {
                        self.create();
                        Outcome::Consumed
                    } else {
                        Outcome::Close
                    }
                },
                _ => Outcome::Consumed,
            },
            _ => Outcome::Ignored,
        }
    }

    pub fn handle(&mut self, event: Event<UnionHit>, candidates: &Vec<UnionCandidate>) -> (r:
        Outcome)
        ensures
            (final(self).model(), r) == old(self).model().after_event(event, ids(candidates@)),
            old(self).model().draft.valid() ==> final(self).model().draft.valid(),
    {
        match event {
            Event::Key(key) => self.key(key, candidates),
            Event::Mouse { kind, hit } => self.mouse(kind, hit, candidates),
            Event::Dismiss => Outcome::Close,
            _ => Outcome::Ignored,
        }
    }

    /// Opens the layer over a new draft.
    pub fn open(
        &mut self,
        params: UnionOpen,
        active: &Option<String>,
        candidates: &Vec<UnionCandidate>,
    )
        ensures
            final(self).model().geometry.blank(),
            final(self).model() == UnionModel::opened(
                params,
                some_text(*active),
                ids(candidates@),
                final(self).model().geometry,
            ),
            final(self).model().draft.valid(),
    {
        self.draft = UnionDialog::new();
        self.shared_key = match params {
            UnionOpen::Plain => None,
            UnionOpen::SharedKey(origin) => Some(origin),
        };
        let origin: Option<String> = match &self.shared_key {
            Some(origin) => Some(origin.origin_view_id.clone()),
            None => match active {
                Some(id) => Some(id.clone()),
                None => None,
            },
        };
        self.highlighted = 0;
        if let Some(id) = origin {
            if let Some(place) = find_id(candidates, id.as_str()) {
                self.highlighted = place;
            }
            let _ = self.draft.add_input(id);
        }
        self.scroll = 0;
        self.focus = UnionFocus::Inputs;
        self.geometry = UnionGeometry::default();
        self.surface = Surface::default();
        self.outbox = Vec::new();
        self.submitted = false;
        assert(asks(self.outbox@) =~= seq![]);
    }

    pub fn surface(&self) -> (r: Surface)
        ensures
            r == self.model().surface,
    {
        self.surface
    }

    pub fn hit(&self, column: u16, row: u16) -> (r: Option<UnionHit>)
        ensures
            r == self.model().at(column as int, row as int),
    {
        if let Some(index) = find_region(&self.geometry.inputs, column, row) {
            return Some(UnionHit::Input(index));
        }
        if let Some(index) = find_region(&self.geometry.buttons, column, row) {
            return Some(UnionHit::Button(index));
        }
        if self.geometry.body.contains(column, row) {
            Some(UnionHit::Body)
        } else {
            None
        }
    }

    /// The labels of the buttons in drawn order.
    pub fn action_labels(&self) -> (r: Vec<&'static str>)
        ensures
            r@ == union_labels(),
    {
        let labels = vec!["&Create union", "Cancel"];
        assert(labels@ =~= union_labels());
        labels
    }

    /// Presses the button at a place of the row.
    pub fn press_action(&mut self, index: usize) -> (r: Outcome)
        ensures
            (final(self).model(), r) == if index == 0 {
                (old(self).model().created(), Outcome::Consumed)
            } else if index == 1 {
                (old(self).model(), Outcome::Close)
            } else {
                (old(self).model(), Outcome::Ignored)
            },
            old(self).model().draft.valid() ==> final(self).model().draft.valid(),
    {
        match index {
            0 => {
                self.create();
                Outcome::Consumed
            },
            1 => Outcome::Close,
            _ => Outcome::Ignored,
        }
    }

    fn is_input(&self, id: &str) -> (r: bool)
        ensures
            r == self.model().draft.inputs.contains(id@),
    {
        let inputs = self.draft.inputs();
        let ghost all = texts(inputs@);
        let mut i: usize = 0;
        while i < inputs.len()
            invariant
                i <= inputs@.len(),
                all == texts(inputs@),
                all == self.model().draft.inputs,
                forall|j: int| 0 <= j < i ==> all[j] != id@,
            decreases inputs.len() - i,
        {
            assert(all[i as int] == inputs@[i as int]@);
            if same(inputs[i].as_str(), id) {
                return true;
            }
            i += 1;
        }
        false
    }

    fn count_chosen(&self, candidates: &Vec<UnionCandidate>) -> (r: usize)
        ensures
            r == chosen_count(
                ids(candidates@),
                self.model().draft.inputs,
                candidates@.len() as int,
            ),
    {
        let ghost list = ids(candidates@);
        let mut count: usize = 0;
        let mut i: usize = 0;
        while i < candidates.len()
            invariant
                i <= candidates@.len(),
                count <= i,
                list == ids(candidates@),
                count == chosen_count(list, self.model().draft.inputs, i as int),
            decreases candidates.len() - i,
        {
            assert(list[i as int] == candidates@[i as int].id@);
            if self.is_input(candidates[i].id.as_str()) {
                count += 1;
            }
            i += 1;
        }
        count
    }

    /// The message row.
    pub fn message(&self, candidates: &Vec<UnionCandidate>) -> (r: (MessageState, String))
        ensures
            (r.0, r.1@) == self.model().message(ids(candidates@)),
    {
        if let Some(error) = self.draft.error() {
            return (MessageState::Error, error.to_owned());
        }
        let count: usize = self.count_chosen(candidates);
        if count >= 2 {
            let mut text = decimal_text(count as u64);
            text.append(" of ");
            text.append(decimal_text(candidates.len() as u64).as_str());
            text.append(" views selected \u{b7} ties break by list order");
            text.append(
                if self.shared_key.is_some() {
                    " \u{b7} filtered by the selected enriched key"
                } else {
                    ""
                },
            );
            (MessageState::Ready, text)
        } else {
            let mut text = "select at least two views (".to_owned();
            text.append(decimal_text(count as u64).as_str());
            text.append(" of ");
            text.append(decimal_text(candidates.len() as u64).as_str());
            text.append(" views selected)");
            (MessageState::Disabled, text)
        }
    }

    /// The text of a row.
    pub fn row_text(&self, candidate: &UnionCandidate) -> (r: String)
        ensures
            r@ == (if self.model().draft.inputs.contains(candidate.id@) {
                "[x]"@
            } else {
                "[ ]"@
            }) + " "@ + candidate.name@,
    {
        let mut text = (if self.is_input(candidate.id.as_str()) {
            "[x]"
        } else {
            "[ ]"
        }).to_owned();
        text.append(" ");
        text.append(candidate.name.as_str());
        text
    }

    /// The button that has the focus.
    pub fn focused_button(&self) -> (r: Option<usize>)
        ensures
            r == self.model().focused_button(),
    {
        match self.focus {
            UnionFocus::Inputs => None,
            UnionFocus::Create => Some(0),
            UnionFocus::Cancel => Some(1),
        }
    }

    /// Begins a frame of so many views: the highlight is one of them, and
    /// nothing but the body can be clicked yet.
    pub fn begin_frame(&mut self, count: usize, popup: Rect, interior: Rect, body: Rect) -> (r:
        Surface)
        ensures
            r == (Surface {
                popup,
                interior,
                caret: None,
                scrollable: count > body.height,
                text_focus: false,
            }),
            final(self).model().geometry.body == body,
            final(self).model().geometry.inputs@.len() == 0,
            final(self).model().geometry.buttons@.len() == 0,
            final(self).model() == (UnionModel {
                geometry: final(self).model().geometry,
                surface: r,
                ..old(self).model().highlight_kept(count as int)
            }),
    {
        let last: usize = count.saturating_sub(1);
        if self.highlighted > last {
            self.highlighted = last;
        }
        self.geometry = UnionGeometry { body, inputs: Vec::new(), buttons: Vec::new() };
        self.surface = Surface {
            popup,
            interior,
            caret: None,
            scrollable: count > body.height as usize,
            text_focus: false,
        };
        self.surface
    }

    fn settle_scroll(&mut self, count: usize, height: u16)
        ensures
            final(self).model() == old(self).model().scroll_settled(count as int, height as int),
    {
        let visible: usize = max16(height, 1) as usize;
        if self.highlighted < self.scroll {
            self.scroll = self.highlighted;
        } else if self.highlighted - self.scroll >= visible {
            self.scroll = self.highlighted - (visible - 1);
        }
        let limit: usize = count.saturating_sub(visible);
        if self.scroll > limit {
            self.scroll = limit;
        }
    }

    /// Lays the rows of a frame and scrolls the highlighted one into it.
    pub fn lay_rows(&mut self, count: usize, content: Rect) -> (r: Vec<(Rect, usize)>)
        ensures
            final(self).model() == old(self).model().scroll_settled(
                count as int,
                old(self).model().geometry.body.height as int,
            ),
            r@ == final(self).model().rows(
                count as int,
                old(self).model().geometry.body,
                content,
            ),
    {
        let body = self.geometry.body;
        self.settle_scroll(count, body.height);
        let rows: u16 = body.bottom() - body.y;
        let mut out: Vec<(Rect, usize)> = Vec::new();
        let mut i: u16 = 0;
        while i < rows && self.scroll < count && (i as usize) < count - self.scroll
            invariant
                i <= rows,
                body.y + rows == body.spec_bottom(),
                body.spec_bottom() <= 65535,
                self.scroll < count ==> i <= count - self.scroll,
                self.scroll >= count ==> i == 0,
                out@ =~= self.model().rows(count as int, body, content).take(i as int),
            decreases rows - i,
        {
            out.push((Rect::new(content.x, body.y + i, content.width, 1), self.scroll + i as usize));
            i += 1;
        }
        assert(out@ =~= self.model().rows(count as int, body, content));
        out
    }

    /// Remembers what a frame drew.
    pub fn record(&mut self, inputs: Vec<(Rect, usize)>, buttons: Vec<(Rect, usize)>)
        ensures
            final(self).model().geometry.body == old(self).model().geometry.body,
            final(self).model().geometry.inputs@ == inputs@,
            final(self).model().geometry.buttons@ == buttons@,
            final(self).model() == (UnionModel {
                geometry: final(self).model().geometry,
                ..old(self).model()
            }),
    {
        let body = self.geometry.body;
        self.geometry = UnionGeometry { body, inputs, buttons };
    }
}

/// A union that is on its way is not asked for again until it has failed.
pub proof fn union_is_asked_for_once(m: UnionModel, message: Seq<char>)
    ensures
        m.created().created().outbox == m.created().outbox,
        m.created().submitted ==> m.created().created() == m.created(),
        !m.create_failed(message).submitted,
        m.create_failed(message).draft.inputs == m.draft.inputs,
        m.create_failed(message).draft.error == Some(message),
{
}

/// No union of fewer than two views is asked for.
pub proof fn union_has_two_views(m: UnionModel)
    requires
        !m.submitted,
        m.draft.inputs.len() < 2,
    ensures
        m.created().outbox == m.outbox,
        m.created().draft.error is Some,
{
}

/// Choosing a view and taking the choice back leaves the inputs as they were.
pub proof fn toggling_twice_is_nothing(m: UnionModel, list: Seq<Seq<char>>)
    requires
        0 <= m.highlighted < list.len(),
        m.draft.refusal(list[m.highlighted]) is None,
    ensures
        m.toggled(list).draft.inputs == m.draft.inputs.push(list[m.highlighted]),
        m.toggled(list).toggled(list).draft.inputs == m.draft.inputs,
{
    removal_undoes_adding(m.draft, list[m.highlighted]);
}

/// The highlighted view is among the rows that a frame shows.
pub proof fn highlight_is_shown(m: UnionModel, count: int, body: Rect, content: Rect)
    requires
        body.valid(),
        body.height > 0,
        0 < count <= usize::MAX,
        m.highlighted >= 0,
        m.scroll >= 0,
    ensures
        ({
            let there = m.highlight_kept(count).scroll_settled(count, body.height as int);
            exists|i: int|
                0 <= i < there.rows(count, body, content).len() && (#[trigger] there.rows(
                    count,
                    body,
                    content,
                )[i]).1 == there.highlighted
        }),
{
    let there = m.highlight_kept(count).scroll_settled(count, body.height as int);
    let i = there.highlighted - there.scroll;
    assert(there.rows(count, body, content)[i].1 == there.highlighted);
}

/// The buttons of the layer.
pub open spec fn union_labels() -> Seq<&'static str> {
    seq!["&Create union", "Cancel"]
}

impl UnionModel {
    /// The button that has the focus.
    pub open spec fn focused_button(self) -> Option<usize> {
        match self.focus {
            UnionFocus::Inputs => None,
            UnionFocus::Create => Some(0usize),
            UnionFocus::Cancel => Some(1usize),
        }
    }
}

/// The rows that the layer asks for: one for each view, and what the message, the
/// help and the buttons take.
pub fn union_spec(candidates: usize, message: u16, help: u16, actions: u16) -> (r: DialogSpec)
    ensures
        r == (DialogSpec {
            header: 0,
            body: (if candidates == 0 {
                1
            } else if candidates <= 65535 {
                candidates as int
            } else {
                4
            }) as u16,
            message,
            help,
            actions,
        }),
{
    let body: u16 = if candidates == 0 {
        1
    } else if candidates <= 65535 {
        candidates as u16
    } else {
        4
    };
    DialogSpec { header: 0, body, message, help, actions }
}

} // verus!
