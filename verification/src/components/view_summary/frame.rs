//! The dialog that shows a view's summary.

use super::{
    all_rows, applies, owner_of, row_label, SummaryEntry, SummaryRow, ViewState, SUMMARY_ROWS,
};
use crate::component::{Event, MessageState, Open, Outcome, Surface};
use crate::dialog_layout::{find_region, region_at, DialogSpec};
use crate::geometry::{greatest, least, minus, sat16, Rect};
use crate::input::{KeyCode, KeyEvent, MouseEventKind};
use crate::text::{decimal, decimal_text, push_spaces, same, spaces, texts};
use crate::width::{display_width, width_of};
use vstd::prelude::*;

verus! {

/// The columns of the labels.
pub const SUMMARY_LABEL_WIDTH: usize = 10;

/// The label of the one button.
pub const OPEN_LABEL: &'static str = "&Open";

/// What the user cannot find out from the list itself.
pub const SUMMARY_HELP: &'static str = "Rows follow the order the view evaluates them.";

/// What has the focus: the list, or the one button.
#[derive(Clone, Copy, Debug, PartialEq, Eq, Structural)]
pub enum SummaryControl {
    List,
    Open,
}

/// Everything the layer draws that can be clicked.
#[derive(Clone, Copy, Debug, PartialEq, Eq, Structural)]
pub enum SummaryHit {
    Row(usize),
    Control(SummaryControl),
    Body,
}

/// Where the last frame drew what can be clicked.
#[derive(Debug)]
pub struct SummaryGeometry {
    pub body: Rect,
    pub rows: Vec<(Rect, usize)>,
    pub controls: Vec<(Rect, SummaryControl)>,
}

impl SummaryGeometry {
    /// Nothing was drawn.
    pub open spec fn blank(self) -> bool {
        &&& self.body == Rect { x: 0, y: 0, width: 0, height: 0 }
        &&& self.rows@.len() == 0
        &&& self.controls@.len() == 0
    }
}

impl Default for SummaryGeometry {
    fn default() -> (r: SummaryGeometry)
        ensures
            r.blank(),
    {
        SummaryGeometry { body: Rect::zero(), rows: Vec::new(), controls: Vec::new() }
    }
}

#[derive(Debug)]
pub struct ViewSummaryDialog {
    open: bool,
    selected: usize,
    control: SummaryControl,
    geometry: SummaryGeometry,
    surface: Surface,
}

/// The state of the layer.
#[verifier::ext_equal]
pub struct SummaryModel {
    pub open: bool,
    pub selected: int,
    pub control: SummaryControl,
    pub geometry: SummaryGeometry,
    pub surface: Surface,
}

/// How the layer answers, and which step of the enrichment is to be selected in
/// the dialog that it hands over to.
#[derive(Debug, PartialEq, Eq)]
pub struct SummaryStep {
    pub outcome: Outcome,
    pub enrichment_step: Option<usize>,
}

/// The first step of the enrichment whose results are out of date.
pub open spec fn stale_step(state: ViewState, from: int) -> Option<usize>
    decreases state.enrichments@.len() - from,
{
    if from < 0 || from >= state.enrichments@.len() {
        None
    } else if texts(state.stale_steps@).contains(state.enrichments@[from].source@) {
        Some(from as usize)
    } else {
        stale_step(state, from + 1)
    }
}

fn find_stale_step(state: &ViewState) -> (r: Option<usize>)
    ensures
        r == stale_step(*state, 0),
{
    let ghost stale = texts(state.stale_steps@);
    let mut i: usize = 0;
    while i < state.enrichments.len()
        invariant
            i <= state.enrichments@.len(),
            stale == texts(state.stale_steps@),
            stale_step(*state, 0) == stale_step(*state, i as int),
        decreases state.enrichments.len() - i,
    {
        let source = state.enrichments[i].source.as_str();
        let mut j: usize = 0;
        while j < state.stale_steps.len()
            invariant
                i < state.enrichments@.len(),
                j <= state.stale_steps@.len(),
                source@ == state.enrichments@[i as int].source@,
                stale == texts(state.stale_steps@),
                stale_step(*state, 0) == stale_step(*state, i as int),
                forall|k: int| 0 <= k < j ==> stale[k] != source@,
            decreases state.stale_steps.len() - j,
        {
            assert(stale[j as int] == state.stale_steps@[j as int]@);
            if same(state.stale_steps[j].as_str(), source) {
                return Some(i);
            }
            j += 1;
        }
        i += 1;
    }
    None
}

impl SummaryModel {
    pub open spec fn row(self) -> SummaryRow {
        all_rows()[least(self.selected, SUMMARY_ROWS - 1)]
    }

    pub open spec fn moved(self, delta: int) -> SummaryModel {
        SummaryModel {
            selected: least(greatest(self.selected + delta, 0), SUMMARY_ROWS - 1),
            ..self
        }
    }

    /// The selected row hands over to the dialog that it belongs to.
    pub open spec fn handed_over(self, state: Option<ViewState>) -> (SummaryModel, SummaryStep) {
        match state {
            None => (
                self,
                SummaryStep { outcome: Outcome::Consumed, enrichment_step: None },
            ),
            Some(state) => (
                SummaryModel { open: false, ..self },
                SummaryStep {
                    outcome: Outcome::Replace(state.owner_of(self.row())),
                    enrichment_step: if self.row() == SummaryRow::Readiness
                        && state.stale_steps@.len() > 0 {
                        stale_step(state, 0)
                    } else {
                        None
                    },
                },
            ),
        }
    }

    pub open spec fn focus_moved(self) -> SummaryModel {
        SummaryModel {
            control: match self.control {
                SummaryControl::List => SummaryControl::Open,
                SummaryControl::Open => SummaryControl::List,
            },
            ..self
        }
    }

    pub open spec fn after_key(self, key: KeyEvent, state: Option<ViewState>) -> (
        SummaryModel,
        SummaryStep,
    ) {
        let done = SummaryStep { outcome: Outcome::Consumed, enrichment_step: None };
        let ignored = SummaryStep { outcome: Outcome::Ignored, enrichment_step: None };
        if !key.spec_is_active() {
            (self, ignored)
        } else {
            match key.code {
                KeyCode::Up => (self.moved(-1), done),
                KeyCode::Down => (self.moved(1), done),
                KeyCode::Tab | KeyCode::BackTab => (self.focus_moved(), done),
                KeyCode::Enter => self.handed_over(state),
                _ => (self, ignored),
            }
        }
    }

    pub open spec fn after_mouse(
        self,
        kind: MouseEventKind,
        hit: Option<SummaryHit>,
        state: Option<ViewState>,
    ) -> (SummaryModel, SummaryStep) {
        let done = SummaryStep { outcome: Outcome::Consumed, enrichment_step: None };
        match kind {
            MouseEventKind::LeftDown => match hit {
                Some(SummaryHit::Row(index)) => (
                    SummaryModel {
                        selected: least(index as int, SUMMARY_ROWS - 1),
                        control: SummaryControl::List,
                        ..self
                    },
                    done,
                ),
                Some(SummaryHit::Control(SummaryControl::Open)) => self.handed_over(state),
                Some(SummaryHit::Control(SummaryControl::List)) => (
                    SummaryModel { control: SummaryControl::List, ..self },
                    done,
                ),
                _ => (self, done),
            },
            MouseEventKind::ScrollUp => (self.moved(-1), done),
            MouseEventKind::ScrollDown => (self.moved(1), done),
            MouseEventKind::Other => (
                self,
                SummaryStep { outcome: Outcome::Ignored, enrichment_step: None },
            ),
        }
    }

    pub open spec fn after_event(self, event: Event<SummaryHit>, state: Option<ViewState>) -> (
        SummaryModel,
        SummaryStep,
    ) {
        match event {
            Event::Key(key) => self.after_key(key, state),
            Event::Mouse { kind, hit } => self.after_mouse(kind, hit, state),
            Event::Dismiss => (
                SummaryModel { open: false, ..self },
                SummaryStep { outcome: Outcome::Close, enrichment_step: None },
            ),
            Event::View(_) => (
                self,
                SummaryStep { outcome: Outcome::Consumed, enrichment_step: None },
            ),
            _ => (self, SummaryStep { outcome: Outcome::Ignored, enrichment_step: None }),
        }
    }

    pub open spec fn opened(geometry: SummaryGeometry) -> SummaryModel {
        SummaryModel {
            open: true,
            selected: 0,
            control: SummaryControl::List,
            geometry,
            surface: Surface::nothing(),
        }
    }

    /// What a point of the last frame stands for.
    pub open spec fn at(self, column: int, row: int) -> Option<SummaryHit> {
        match region_at(self.geometry.controls@, column, row) {
            Some(control) => Some(SummaryHit::Control(control)),
            None => match region_at(self.geometry.rows@, column, row) {
                Some(index) => Some(SummaryHit::Row(index)),
                None => if self.geometry.body.covers(column, row) {
                    Some(SummaryHit::Body)
                } else {
                    None
                },
            },
        }
    }

    /// The row that is drawn as selected, of so many.
    pub open spec fn drawn(self, total: int) -> int {
        least(self.selected, minus(total, 1))
    }

    /// The first row that shows, so that the selected one does.
    pub open spec fn first_row(self, total: int, visible: int) -> int {
        least(minus(self.drawn(total), minus(visible, 1)), minus(total, least(visible, total)))
    }

    /// The rows that show, each with its place.
    pub open spec fn rows(self, total: int, viewport: Rect) -> Seq<(Rect, usize)> {
        let first = self.first_row(total, viewport.height as int);
        Seq::new(
            least(minus(total, first), viewport.height as int) as nat,
            |i: int|
                (
                    Rect::spec_new(
                        viewport.x,
                        sat16(viewport.y + i) as u16,
                        viewport.width,
                        1,
                    ),
                    (first + i) as usize,
                ),
        )
    }
}

/// How many of the first `n` entries are operations.
pub open spec fn operations(entries: Seq<SummaryEntry>, n: int) -> int
    decreases n,
{
    if n <= 0 {
        0
    } else {
        operations(entries, n - 1) + (if applies(entries[n - 1].row) {
            1int
        } else {
            0int
        })
    }
}

/// How many of the first `n` entries are operations that are applied.
pub open spec fn applied_operations(entries: Seq<SummaryEntry>, n: int) -> int
    decreases n,
{
    if n <= 0 {
        0
    } else {
        applied_operations(entries, n - 1) + (if applies(entries[n - 1].row)
            && entries[n - 1].applied {
            1int
        } else {
            0int
        })
    }
}

/// The first readiness among the entries says something else than ready.
pub open spec fn is_behind(entries: Seq<SummaryEntry>, from: int) -> bool
    decreases entries.len() - from,
{
    if from < 0 || from >= entries.len() {
        false
    } else if entries[from].row == SummaryRow::Readiness {
        entries[from].value@ != "ready"@
    } else {
        is_behind(entries, from + 1)
    }
}

/// The message row: how many operations are applied, and whether they are
/// current.
pub open spec fn summary_message(entries: Seq<SummaryEntry>) -> (MessageState, Seq<char>) {
    let n = entries.len() as int;
    let count = decimal(applied_operations(entries, n) as nat) + " of "@ + decimal(
        operations(entries, n) as nat,
    ) + " operations applied"@;
    if is_behind(entries, 0) {
        (MessageState::Updating, count + " \u{b7} not all of them are current"@)
    } else if applied_operations(entries, n) == 0 {
        (
            MessageState::Ready,
            "no operation applied \u{b7} every record of the sources is shown"@,
        )
    } else {
        (MessageState::Applied, count)
    }
}

fn count_operations(entries: &Vec<SummaryEntry>) -> (r: (usize, usize))
    ensures
        r.0 == operations(entries@, entries@.len() as int),
        r.1 == applied_operations(entries@, entries@.len() as int),
{
    let mut all: usize = 0;
    let mut applied: usize = 0;
    let mut i: usize = 0;
    while i < entries.len()
        invariant
            i <= entries@.len(),
            all <= i,
            applied <= i,
            all == operations(entries@, i as int),
            applied == applied_operations(entries@, i as int),
        decreases entries.len() - i,
    {
        let entry = &entries[i];
        if entry.row.is_operation() {
            all += 1;
            if entry.applied {
                applied += 1;
            }
        }
        i += 1;
    }
    (all, applied)
}

fn find_behind(entries: &Vec<SummaryEntry>) -> (r: bool)
    ensures
        r == is_behind(entries@, 0),
{
    let mut i: usize = 0;
    while i < entries.len()
        invariant
            i <= entries@.len(),
            is_behind(entries@, 0) == is_behind(entries@, i as int),
        decreases entries.len() - i,
    {
        if entries[i].row == SummaryRow::Readiness {
            return !same(entries[i].value.as_str(), "ready");
        }
        i += 1;
    }
    false
}

/// Says how many operations are applied.
pub fn message_of(entries: &Vec<SummaryEntry>) -> (r: (MessageState, String))
    ensures
        (r.0, r.1@) == summary_message(entries@),
{
    let (all, applied) = count_operations(entries);
    let mut count = decimal_text(applied as u64);
    count.append(" of ");
    count.append(decimal_text(all as u64).as_str());
    count.append(" operations applied");
    if find_behind(entries) {
        count.append(" \u{b7} not all of them are current");
        (MessageState::Updating, count)
    } else if applied == 0 {
        (
            MessageState::Ready,
            "no operation applied \u{b7} every record of the sources is shown".to_owned(),
        )
    } else {
        (MessageState::Applied, count)
    }
}

/// The text of a row.
pub open spec fn entry_text(entry: SummaryEntry, chosen: bool, ascii: bool) -> Seq<char> {
    let label = row_label(entry.row);
    (if !chosen {
        "  "@
    } else if ascii {
        "> "@
    } else {
        "\u{203a} "@
    }) + label + spaces(minus(SUMMARY_LABEL_WIDTH as int, display_width(label) as int)) + (
    if ascii {
        " . "@
    } else {
        " \u{b7} "@
    }) + entry.value@
}

/// Writes a row.
pub fn row_text(entry: &SummaryEntry, chosen: bool, ascii: bool) -> (r: String)
    ensures
        r@ == entry_text(*entry, chosen, ascii),
{
    let label = entry.row.label();
    let mut text = (if !chosen {
        "  "
    } else if ascii {
        "> "
    } else {
        "\u{203a} "
    }).to_owned();
    text.append(label);
    push_spaces(&mut text, SUMMARY_LABEL_WIDTH.saturating_sub(width_of(label)));
    text.append(
        if ascii {
            " . "
        } else {
            " \u{b7} "
        },
    );
    text.append(entry.value.as_str());
    text
}

impl Default for ViewSummaryDialog {
    fn default() -> (r: ViewSummaryDialog)
        ensures
            r.model().geometry.blank(),
            r.model() == (SummaryModel {
                open: false,
                ..SummaryModel::opened(r.model().geometry)
            }),
    {
        ViewSummaryDialog {
            open: false,
            selected: 0,
            control: SummaryControl::List,
            geometry: SummaryGeometry::default(),
            surface: Surface::default(),
        }
    }
}

/// What may be applied to a view that may be shown.
pub open spec fn shown(state: Option<&ViewState>) -> Option<ViewState> {
    match state {
        Some(state) => Some(*state),
        None => None,
    }
}

impl ViewSummaryDialog {
    pub closed spec fn model(&self) -> SummaryModel {
        SummaryModel {
            open: self.open,
            selected: self.selected as int,
            control: self.control,
            geometry: self.geometry,
            surface: self.surface,
        }
    }

    pub fn is_open(&self) -> (r: bool)
        ensures
            r == self.model().open,
    {
        self.open
    }

    pub fn selected(&self) -> (r: usize)
        ensures
            r == self.model().selected,
    {
        self.selected
    }

    pub fn selected_row(&self) -> (r: SummaryRow)
        ensures
            r == self.model().row(),
    {
        let rows = SummaryRow::all();
        let last: usize = SUMMARY_ROWS - 1;
        if self.selected < last {
            rows[self.selected]
        } else {
            rows[last]
        }
    }

    pub fn control(&self) -> (r: SummaryControl)
        ensures
            r == self.model().control,
    {
        self.control
    }

    /// The control that Enter presses.
    pub fn default_control() -> (r: SummaryControl)
        ensures
            r == SummaryControl::Open,
    {
        SummaryControl::Open
    }

    fn move_selection(&mut self, up: bool)
        ensures
            final(self).model() == old(self).model().moved(
                if up {
                    -1
                } else {
                    1
                },
            ),
    {
        let last: usize = SUMMARY_ROWS - 1;
        if up {
            let next: usize = self.selected.saturating_sub(1);
            self.selected = if next < last {
                next
            } else {
                last
            };
        } else {
            self.selected = if self.selected < last {
                self.selected + 1
            } else {
                last
            };
        }
    }

    fn open_selected(&mut self, state: Option<&ViewState>) -> (r: SummaryStep)
        ensures
            (final(self).model(), r) == old(self).model().handed_over(shown(state)),
    {
        let state = match state {
            Some(state) => state,
            None => {
                return SummaryStep { outcome: Outcome::Consumed, enrichment_step: None };
            },
        };
        let row = self.selected_row();
        let open: Open = owner_of(state, row);
        let enrichment_step = if row == SummaryRow::Readiness && state.stale_steps.len() > 0 {
            find_stale_step(state)
        } else {
            None
        };
        self.open = false;
        SummaryStep { outcome: Outcome::Replace(open), enrichment_step }
    }

    fn move_focus(&mut self)
        ensures
            final(self).model() == old(self).model().focus_moved(),
    {
        self.control = match self.control {
            SummaryControl::List => SummaryControl::Open,
            SummaryControl::Open => SummaryControl::List,
        };
    }

    pub fn key(&mut self, key: KeyEvent, state: Option<&ViewState>) -> (r: SummaryStep)
        ensures
            (final(self).model(), r) == old(self).model().after_key(key, shown(state)),
    {
        if !key.is_active() {
            return SummaryStep { outcome: Outcome::Ignored, enrichment_step: None };
        }
        match key.code {
            KeyCode::Up => self.move_selection(true),
            KeyCode::Down => self.move_selection(false),
            KeyCode::Tab | KeyCode::BackTab => self.move_focus(),
            KeyCode::Enter => {
                return self.open_selected(state);
            },
            _ => {
                return SummaryStep { outcome: Outcome::Ignored, enrichment_step: None };
            },
        }
        SummaryStep { outcome: Outcome::Consumed, enrichment_step: None }
    }

    pub fn mouse(
        &mut self,
        kind: MouseEventKind,
        hit: Option<SummaryHit>,
        state: Option<&ViewState>,
    ) -> (r: SummaryStep)
        ensures
            (final(self).model(), r) == old(self).model().after_mouse(kind, hit, shown(state)),
    {
        match kind {
            MouseEventKind::LeftDown => match hit {
                Some(SummaryHit::Row(index)) => {
                    let last: usize = SUMMARY_ROWS - 1;
                    self.selected = if index < last {
                        index
                    } else {
                        last
                    };
                    self.control = SummaryControl::List;
                },
                Some(SummaryHit::Control(SummaryControl::Open)) => {
                    return self.open_selected(state);
                },
                Some(SummaryHit::Control(SummaryControl::List)) => {
                    self.control = SummaryControl::List;
                },
                _ => {},
            },
            MouseEventKind::ScrollUp => self.move_selection(true),
            MouseEventKind::ScrollDown => self.move_selection(false),
            MouseEventKind::Other => {
                return SummaryStep { outcome: Outcome::Ignored, enrichment_step: None };
            },
        }
        SummaryStep { outcome: Outcome::Consumed, enrichment_step: None }
    }

    pub fn handle(&mut self, event: Event<SummaryHit>, state: Option<&ViewState>) -> (r: SummaryStep)
        ensures
            (final(self).model(), r) == old(self).model().after_event(event, shown(state)),
    {
        match event {
            Event::Key(key) => self.key(key, state),
            Event::Mouse { kind, hit } => self.mouse(kind, hit, state),
            Event::Dismiss => {
                self.open = false;
                SummaryStep { outcome: Outcome::Close, enrichment_step: None }
            },
            Event::View(_) => SummaryStep { outcome: Outcome::Consumed, enrichment_step: None },
            _ => SummaryStep { outcome: Outcome::Ignored, enrichment_step: None },
        }
    }

    pub fn open(&mut self)
        ensures
            final(self).model().geometry.blank(),
            final(self).model() == SummaryModel::opened(final(self).model().geometry),
    {
        self.open = true;
        self.selected = 0;
        self.control = SummaryControl::List;
        self.geometry = SummaryGeometry::default();
        self.surface = Surface::default();
    }

    pub fn action_labels(&self) -> (r: Vec<&'static str>)
        ensures
            r@ == seq![OPEN_LABEL],
    {
        let labels = vec![OPEN_LABEL];
        assert(labels@ =~= seq![OPEN_LABEL]);
        labels
    }

    /// Presses the button at a place of the row.
    pub fn press_action(&mut self, index: usize, state: Option<&ViewState>) -> (r: SummaryStep)
        ensures
            (final(self).model(), r) == if index == 0 {
                old(self).model().handed_over(shown(state))
            } else {
                (
                    old(self).model(),
                    SummaryStep { outcome: Outcome::Ignored, enrichment_step: None },
                )
            },
    {
        if index == 0 {
            self.open_selected(state)
        } else {
            SummaryStep { outcome: Outcome::Ignored, enrichment_step: None }
        }
    }

    pub fn surface(&self) -> (r: Surface)
        ensures
            r == self.model().surface,
    {
        self.surface
    }

    pub fn hit(&self, column: u16, row: u16) -> (r: Option<SummaryHit>)
        ensures
            r == self.model().at(column as int, row as int),
    {
        if let Some(control) = find_region(&self.geometry.controls, column, row) {
            return Some(SummaryHit::Control(control));
        }
        if let Some(index) = find_region(&self.geometry.rows, column, row) {
            return Some(SummaryHit::Row(index));
        }
        if self.geometry.body.contains(column, row) {
            Some(SummaryHit::Body)
        } else {
            None
        }
    }

    /// The title, with the name of the view that is shown.
    pub fn title(&self, view: &Option<String>) -> (r: String)
        ensures
            r@ == match *view {
                Some(name) => "View summary \u{b7} "@ + name@,
                None => "View summary"@,
            },
    {
        match view {
            Some(name) => {
                let mut text = "View summary \u{b7} ".to_owned();
                text.append(name.as_str());
                text
            },
            None => "View summary".to_owned(),
        }
    }

    /// The row that is drawn as selected.
    pub fn drawn(&self, total: usize) -> (r: usize)
        ensures
            r == self.model().drawn(total as int),
    {
        let last: usize = total.saturating_sub(1);
        if self.selected < last {
            self.selected
        } else {
            last
        }
    }

    /// Which of how many rows is selected.
    pub fn count(&self, total: usize) -> (r: String)
        requires
            total > 0,
        ensures
            r@ == decimal((self.model().drawn(total as int) + 1) as nat) + " of "@ + decimal(
                total as nat,
            ),
    {
        let mut text = decimal_text((self.drawn(total) + 1) as u64);
        text.append(" of ");
        text.append(decimal_text(total as u64).as_str());
        text
    }

    /// Lays the rows that show.
    pub fn lay_rows(&self, total: usize, viewport: Rect) -> (r: Vec<(Rect, usize)>)
        ensures
            r@ == self.model().rows(total as int, viewport),
    {
        let visible: usize = viewport.height as usize;
        let limit: usize = total.saturating_sub(visible);
        let back: usize = self.drawn(total).saturating_sub(visible.saturating_sub(1));
        let first: usize = if back < limit {
            back
        } else {
            limit
        };
        let mut out: Vec<(Rect, usize)> = Vec::new();
        let mut i: u16 = 0;
        while i < viewport.height && (i as usize) < total - first
            invariant
                first <= total,
                first == self.model().first_row(total as int, viewport.height as int),
                i <= viewport.height,
                i <= total - first,
                out@ =~= self.model().rows(total as int, viewport).take(i as int),
            decreases viewport.height - i,
        {
            out.push(
                (
                    Rect::new(viewport.x, viewport.y.saturating_add(i), viewport.width, 1),
                    first + i as usize,
                ),
            );
            i += 1;
        }
        assert(out@ =~= self.model().rows(total as int, viewport));
        out
    }

    /// Remembers a frame.
    pub fn record(&mut self, geometry: SummaryGeometry, popup: Rect, interior: Rect) -> (r: Surface)
        ensures
            r == (Surface { popup, interior, caret: None, scrollable: true, text_focus: false }),
            final(self).model() == (SummaryModel { geometry, surface: r, ..old(self).model() }),
    {
        self.surface = Surface {
            popup,
            interior,
            caret: None,
            scrollable: true,
            text_focus: false,
        };
        self.geometry = geometry;
        self.surface
    }
}

/// Whatever is done, the selected row is one of the list.
pub proof fn selection_is_a_row(
    m: SummaryModel,
    event: Event<SummaryHit>,
    state: Option<ViewState>,
)
    requires
        0 <= m.selected < SUMMARY_ROWS,
    ensures
        0 <= m.after_event(event, state).0.selected < SUMMARY_ROWS,
        all_rows()[m.selected] == m.row(),
{
}

/// The selected row is among those that a frame shows.
pub proof fn selected_row_is_shown(m: SummaryModel, total: int, viewport: Rect)
    requires
        0 <= m.selected,
        0 < total <= usize::MAX,
        viewport.height > 0,
    ensures
        exists|i: int|
            0 <= i < m.rows(total, viewport).len() && (#[trigger] m.rows(total, viewport)[i]).1
                == m.drawn(total),
{
    let i = m.drawn(total) - m.first_row(total, viewport.height as int);
    assert(m.rows(total, viewport)[i].1 == m.drawn(total));
}

/// A row that hands over closes the summary: it is not there to come back to.
pub proof fn handing_over_closes(m: SummaryModel, state: ViewState)
    ensures
        !m.handed_over(Some(state)).0.open,
        m.handed_over(Some(state)).1.outcome == Outcome::Replace(state.owner_of(m.row())),
{
}

proof fn counts_are_ordered(entries: Seq<SummaryEntry>, n: int)
    ensures
        0 <= applied_operations(entries, n) <= operations(entries, n),
    decreases n,
{
    if n > 0 {
        counts_are_ordered(entries, n - 1);
    }
}

/// Of a full summary eight rows are operations.
pub proof fn eight_rows_are_operations(entries: Seq<SummaryEntry>)
    requires
        entries.len() == all_rows().len(),
        forall|i: int| 0 <= i < entries.len() ==> (#[trigger] entries[i]).row == all_rows()[i],
    ensures
        operations(entries, entries.len() as int) == 8,
        applied_operations(entries, entries.len() as int) <= 8,
{
    reveal_with_fuel(operations, 12);
    counts_are_ordered(entries, entries.len() as int);
    assert forall|i: int| 0 <= i < 11 implies (#[trigger] entries[i]).row == all_rows()[i] by {}
}

/// The rows that the layer asks for: a heading and a row for each entry, and what
/// the message, the help and the button take.
pub fn summary_spec(entries: usize, message: u16, help: u16, actions: u16) -> (r: DialogSpec)
    ensures
        r == (DialogSpec {
            header: 0,
            body: (if entries == 0 || entries > 65535 {
                2
            } else {
                sat16(entries + 1)
            }) as u16,
            message,
            help,
            actions,
        }),
{
    let rows: u16 = if entries == 0 || entries > 65535 {
        1
    } else {
        entries as u16
    };
    DialogSpec { header: 0, body: rows.saturating_add(1), message, help, actions }
}

} // verus!
