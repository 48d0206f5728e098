//! The Time window layer: which timestamp a view is filtered by, and between
//! which bounds.
//!
//! The drafts belong to the view, so that an invalid draft leaves the applied
//! window alone and reopening the layer shows what was typed last. What only
//! the shell can do - formatting and parsing instants, submitting a window - is
//! asked for by a step, and its result is handed back.

use crate::component::{
    arrow_edit, arrow_edit_for, control_edit, control_edit_for, move_index, place_from,
    place_or_start, ring_step, scroll_by, scroll_step, Action, CommandId, EditCommand, Edited,
    Event, Outbox, Outcome, Queue, Surface,
};
use crate::geometry::Rect;
use crate::input::{KeyCode, KeyEvent, MouseEventKind};
use crate::text::{
    byte_count, byte_len, char_bytes, chars_of, control_char, copy_texts, has_control,
    is_control_char, parse_i64, same, signed, some_text, text_of, texts,
};
use vstd::prelude::*;

pub mod frame;
pub mod laws;
pub mod render;
pub mod shown;
pub mod layout;

verus! {

/// The most requests that wait to be taken.
pub const TIME_OUTBOX_CAP: usize = 8;

/// Half the width of a window round a record: thirty seconds in nanoseconds.
pub const HALF_WINDOW_NANOS: i64 = 30_000_000_000;

/// The bytes a part of a bound holds.
pub const SEGMENT_BYTES: usize = 32;

/// The bytes a pasted bound holds.
pub const PASTE_BYTES: usize = 64;

/// The timestamp that a window goes by.
#[derive(Clone, Copy, Debug, PartialEq, Eq, Structural)]
pub enum TimeBasis {
    Capture,
    Event,
    Extracted,
    /// A field that was chosen and accepted.
    Selected,
}

/// The windows to choose from.
#[derive(Clone, Copy, Debug, PartialEq, Eq, Structural)]
pub enum TimeWindowChoice {
    All,
    Absolute,
    Recent(u64),
    AroundSelected,
}

/// A half-open range of instants.
#[derive(Clone, Copy, Debug, PartialEq, Eq, Structural)]
pub struct CaptureTimeRange {
    pub start_unix_nanos: i64,
    pub end_unix_nanos: i64,
}

/// How a window follows the clock.
#[derive(Clone, Copy, Debug, PartialEq, Eq, Structural)]
pub enum CaptureTimePolicy {
    Absolute(CaptureTimeRange),
    Recent { seconds: u64 },
}

/// One way to read a field as a timestamp.
#[derive(Debug)]
pub struct TimeReading {
    pub token: String,
    pub label: String,
    pub reading: String,
    /// Why it cannot be applied.
    pub blocked: Option<String>,
    pub assumptions: Vec<String>,
    pub coverage_percent: Option<u8>,
}

/// A field that holds timestamps: how the recognizer reads it, and how else it
/// could be read.
#[derive(Debug)]
pub struct TimeFieldCandidate {
    pub main: TimeReading,
    pub alternatives: Vec<TimeReading>,
}

/// What the recognizer found.
#[derive(Debug)]
pub struct TimeRecognition {
    pub candidates: Vec<TimeFieldCandidate>,
    pub sampled_records: usize,
    pub anchored_selected_nanos: Option<i64>,
}

/// One way to read a field, by what it says.
#[verifier::ext_equal]
pub struct ReadingModel {
    pub token: Seq<char>,
    pub label: Seq<char>,
    pub reading: Seq<char>,
    pub blocked: Option<Seq<char>>,
    pub assumptions: Seq<Seq<char>>,
    pub coverage: Option<u8>,
}

/// A field that holds timestamps, by what it says.
#[verifier::ext_equal]
pub struct CandidateModel {
    pub main: ReadingModel,
    pub alternatives: Seq<ReadingModel>,
}

impl TimeReading {
    pub open spec fn model(self) -> ReadingModel {
        ReadingModel {
            token: self.token@,
            label: self.label@,
            reading: self.reading@,
            blocked: some_text(self.blocked),
            assumptions: texts(self.assumptions@),
            coverage: self.coverage_percent,
        }
    }

    fn copy(&self) -> (r: TimeReading)
        ensures
            r.model() == self.model(),
    {
        let blocked = match &self.blocked {
            Some(reason) => Some(reason.clone()),
            None => None,
        };
        TimeReading {
            token: self.token.clone(),
            label: self.label.clone(),
            reading: self.reading.clone(),
            blocked,
            assumptions: copy_texts(&self.assumptions),
            coverage_percent: self.coverage_percent,
        }
    }
}

/// What readings say.
pub open spec fn readings(list: Seq<TimeReading>) -> Seq<ReadingModel> {
    list.map_values(|reading: TimeReading| reading.model())
}

impl TimeFieldCandidate {
    pub open spec fn model(self) -> CandidateModel {
        CandidateModel { main: self.main.model(), alternatives: readings(self.alternatives@) }
    }

    fn copy(&self) -> (r: TimeFieldCandidate)
        ensures
            r.model() == self.model(),
    {
        let mut alternatives: Vec<TimeReading> = Vec::new();
        let mut i: usize = 0;
        while i < self.alternatives.len()
            invariant
                i <= self.alternatives@.len(),
                alternatives@.len() == i,
                forall|j: int|
                    0 <= j < i ==> (#[trigger] alternatives@[j]).model()
                        == self.alternatives@[j].model(),
            decreases self.alternatives.len() - i,
        {
            alternatives.push(self.alternatives[i].copy());
            i += 1;
        }
        assert(readings(alternatives@) =~= readings(self.alternatives@));
        TimeFieldCandidate { main: self.main.copy(), alternatives }
    }

    /// The first reading that is not blocked: the recognizer's own, or else the
    /// first of the others.
    pub fn first_usable(&self) -> (r: Option<usize>)
        ensures
            match r {
                Some(place) => self.model().first_usable(0) == Some(place as int),
                None => self.model().first_usable(0) is None,
            },
            r matches Some(place) ==> place <= self.alternatives@.len(),
    {
        if self.main.blocked.is_none() {
            return Some(0);
        }
        let mut i: usize = 0;
        while i < self.alternatives.len()
            invariant
                i <= self.alternatives@.len(),
                self.model().first_usable(0) == self.model().first_usable(i + 1),
            decreases self.alternatives.len() - i,
        {
            assert(self.model().reading_at(i + 1) == Some(self.alternatives@[i as int].model()));
            if self.alternatives[i].blocked.is_none() {
                return Some(i + 1);
            }
            i += 1;
        }
        None
    }
}

impl CandidateModel {
    /// Reading `index`: the recognizer's own first, then the others.
    pub open spec fn reading_at(self, index: int) -> Option<ReadingModel> {
        if index == 0 {
            Some(self.main)
        } else if 0 < index <= self.alternatives.len() {
            Some(self.alternatives[index - 1])
        } else {
            None
        }
    }

    pub open spec fn first_usable(self, from: int) -> Option<int>
        decreases self.alternatives.len() + 1 - from,
    {
        if from < 0 || from > self.alternatives.len() {
            None
        } else if self.reading_at(from)->0.blocked is None {
            Some(from)
        } else {
            self.first_usable(from + 1)
        }
    }
}

/// What a view holds of its time window: what is typed and what is applied.
#[derive(Debug)]
pub struct TimeView {
    pub view_id: String,
    pub selected: Option<String>,
    pub time_start_draft: String,
    pub time_end_draft: String,
    pub time_recent_draft: String,
    pub time_start_date_draft: String,
    pub time_start_clock_draft: String,
    pub time_start_zone_draft: String,
    pub time_end_date_draft: String,
    pub time_end_clock_draft: String,
    pub time_end_zone_draft: String,
    pub time_structured_draft_present: bool,
    pub time_window_draft: TimeWindowChoice,
    pub time_basis_draft: TimeBasis,
    pub time_field_draft: Option<String>,
    pub time_draft_touched: bool,
    pub time_error: Option<String>,
    /// The drafts were edited since the shell last looked.
    pub time_edit_marked: bool,
    pub applied_time_basis: TimeBasis,
    pub applied_time_field: Option<String>,
    pub applied_capture_time_policy: Option<CaptureTimePolicy>,
    pub applied_capture_time: Option<CaptureTimeRange>,
    pub update_pending: bool,
}

/// A bound in its three parts.
#[verifier::ext_equal]
pub struct BoundModel {
    pub date: Seq<char>,
    pub clock: Seq<char>,
    pub zone: Seq<char>,
}

impl BoundModel {
    /// A bound in one text.
    pub open spec fn whole(self) -> Seq<char> {
        self.date + "T"@ + self.clock + self.zone
    }

    pub open spec fn blank() -> BoundModel {
        BoundModel { date: Seq::empty(), clock: Seq::empty(), zone: Seq::empty() }
    }
}

/// A bound in its three parts.
#[derive(Debug)]
pub struct TimeBound {
    pub date: String,
    pub clock: String,
    pub zone: String,
}

impl TimeBound {
    pub open spec fn model(self) -> BoundModel {
        BoundModel { date: self.date@, clock: self.clock@, zone: self.zone@ }
    }
}

/// What a view holds of its time window.
#[verifier::ext_equal]
pub struct ViewModel {
    pub view_id: Seq<char>,
    pub selected: Option<Seq<char>>,
    pub start_draft: Seq<char>,
    pub end_draft: Seq<char>,
    pub recent_draft: Seq<char>,
    pub start: BoundModel,
    pub end: BoundModel,
    pub structured: bool,
    pub window: TimeWindowChoice,
    pub basis: TimeBasis,
    pub field: Option<Seq<char>>,
    pub touched: bool,
    pub error: Option<Seq<char>>,
    pub marked: bool,
    pub applied_basis: TimeBasis,
    pub applied_field: Option<Seq<char>>,
    pub applied_policy: Option<CaptureTimePolicy>,
    pub applied_range: Option<CaptureTimeRange>,
    pub update_pending: bool,
}

impl TimeView {
    pub open spec fn model(self) -> ViewModel {
        ViewModel {
            view_id: self.view_id@,
            selected: some_text(self.selected),
            start_draft: self.time_start_draft@,
            end_draft: self.time_end_draft@,
            recent_draft: self.time_recent_draft@,
            start: BoundModel {
                date: self.time_start_date_draft@,
                clock: self.time_start_clock_draft@,
                zone: self.time_start_zone_draft@,
            },
            end: BoundModel {
                date: self.time_end_date_draft@,
                clock: self.time_end_clock_draft@,
                zone: self.time_end_zone_draft@,
            },
            structured: self.time_structured_draft_present,
            window: self.time_window_draft,
            basis: self.time_basis_draft,
            field: some_text(self.time_field_draft),
            touched: self.time_draft_touched,
            error: some_text(self.time_error),
            marked: self.time_edit_marked,
            applied_basis: self.applied_time_basis,
            applied_field: some_text(self.applied_time_field),
            applied_policy: self.applied_capture_time_policy,
            applied_range: self.applied_capture_time,
            update_pending: self.update_pending,
        }
    }
}

impl ViewModel {
    /// The parts of both bounds are kept, and the bounds made of them.
    pub open spec fn with_bounds(self, start: BoundModel, end: BoundModel) -> ViewModel {
        ViewModel {
            start_draft: start.whole(),
            end_draft: end.whole(),
            start,
            end,
            structured: true,
            ..self
        }
    }
}

fn store_time_drafts(view: &mut TimeView, start: TimeBound, end: TimeBound)
    ensures
        final(view).model() == old(view).model().with_bounds(start.model(), end.model()),
{
    view.time_start_draft = whole_bound(&start);
    view.time_end_draft = whole_bound(&end);
    view.time_start_date_draft = start.date;
    view.time_start_clock_draft = start.clock;
    view.time_start_zone_draft = start.zone;
    view.time_end_date_draft = end.date;
    view.time_end_clock_draft = end.clock;
    view.time_end_zone_draft = end.zone;
    view.time_structured_draft_present = true;
}

fn whole_bound(bound: &TimeBound) -> (r: String)
    ensures
        r@ == bound.model().whole(),
{
    let mut text = bound.date.clone();
    text.append("T");
    text.append(bound.clock.as_str());
    text.append(bound.zone.as_str());
    text
}

/// The view that is shown, where there is one.
pub open spec fn some_view(view: Option<TimeView>) -> Option<ViewModel> {
    match view {
        Some(view) => Some(view.model()),
        None => None,
    }
}

/// The view that is shown, with an error.
pub open spec fn view_failed(view: Option<ViewModel>, why: Seq<char>) -> Option<ViewModel> {
    match view {
        Some(view) => Some(ViewModel { error: Some(why), ..view }),
        None => None,
    }
}

fn fail_view(view: &mut Option<TimeView>, why: &str)
    ensures
        some_view(*final(view)) == view_failed(some_view(*old(view)), why@),
{
    if let Some(state) = view {
        state.time_error = Some(why.to_owned());
    }
}

/// The controls of the layer.
#[derive(Clone, Copy, Debug, PartialEq, Eq, Structural)]
pub enum TimeControl {
    Basis,
    Window,
    StartDate,
    StartClock,
    StartZone,
    StartZoneMenu,
    EndDate,
    EndClock,
    EndZone,
    EndZoneMenu,
    Reading,
    AcceptField,
    Apply,
    Clear,
    Recognize,
    ScrollUp,
    ScrollDown,
}

/// A control, where it is there.
pub open spec fn one_if(there: bool, control: TimeControl) -> Seq<TimeControl> {
    if there {
        seq![control]
    } else {
        seq![]
    }
}

/// The controls in the order of the focus: the confirmation of a field directly
/// under the basis it qualifies, a zone only where it is typed, and the scroll
/// controls only where the form overflows.
pub open spec fn focus_order(
    has_overflow: bool,
    start_custom: bool,
    end_custom: bool,
    confirming: bool,
) -> Seq<TimeControl> {
    seq![TimeControl::Basis] + one_if(confirming, TimeControl::Reading) + one_if(
        confirming,
        TimeControl::AcceptField,
    ) + seq![TimeControl::Window, TimeControl::StartDate, TimeControl::StartClock] + one_if(
        start_custom,
        TimeControl::StartZone,
    ) + seq![TimeControl::StartZoneMenu, TimeControl::EndDate, TimeControl::EndClock] + one_if(
        end_custom,
        TimeControl::EndZone,
    ) + seq![
        TimeControl::EndZoneMenu,
        TimeControl::Apply,
        TimeControl::Clear,
        TimeControl::Recognize,
    ] + one_if(has_overflow, TimeControl::ScrollUp) + one_if(has_overflow, TimeControl::ScrollDown)
}

fn push_if(list: &mut Vec<TimeControl>, there: bool, control: TimeControl)
    ensures
        final(list)@ == old(list)@ + one_if(there, control),
{
    if there {
        list.push(control);
    }
    assert(list@ =~= old(list)@ + one_if(there, control));
}

impl TimeControl {
    pub fn focusable(
        has_overflow: bool,
        start_custom: bool,
        end_custom: bool,
        confirming_field: bool,
    ) -> (r: Vec<TimeControl>)
        ensures
            r@ == focus_order(has_overflow, start_custom, end_custom, confirming_field),
            r@.len() > 0,
    {
        let mut controls: Vec<TimeControl> = Vec::new();
        controls.push(TimeControl::Basis);
        assert(controls@ =~= seq![TimeControl::Basis]);
        push_if(&mut controls, confirming_field, TimeControl::Reading);
        push_if(&mut controls, confirming_field, TimeControl::AcceptField);
        let ghost head = controls@;
        controls.push(TimeControl::Window);
        controls.push(TimeControl::StartDate);
        controls.push(TimeControl::StartClock);
        assert(controls@ =~= head + seq![
            TimeControl::Window,
            TimeControl::StartDate,
            TimeControl::StartClock,
        ]);
        push_if(&mut controls, start_custom, TimeControl::StartZone);
        let ghost starts = controls@;
        controls.push(TimeControl::StartZoneMenu);
        controls.push(TimeControl::EndDate);
        controls.push(TimeControl::EndClock);
        assert(controls@ =~= starts + seq![
            TimeControl::StartZoneMenu,
            TimeControl::EndDate,
            TimeControl::EndClock,
        ]);
        push_if(&mut controls, end_custom, TimeControl::EndZone);
        let ghost ends = controls@;
        controls.push(TimeControl::EndZoneMenu);
        controls.push(TimeControl::Apply);
        controls.push(TimeControl::Clear);
        controls.push(TimeControl::Recognize);
        assert(controls@ =~= ends + seq![
            TimeControl::EndZoneMenu,
            TimeControl::Apply,
            TimeControl::Clear,
            TimeControl::Recognize,
        ]);
        push_if(&mut controls, has_overflow, TimeControl::ScrollUp);
        push_if(&mut controls, has_overflow, TimeControl::ScrollDown);
        controls
    }

    /// Whether the control belongs to the end bound.
    pub open spec fn is_end(self) -> bool {
        self == TimeControl::EndDate || self == TimeControl::EndClock || self
            == TimeControl::EndZone || self == TimeControl::EndZoneMenu
    }

    /// Whether the control is a part of a bound.
    pub open spec fn is_segment(self) -> bool {
        self == TimeControl::StartDate || self == TimeControl::StartClock || self
            == TimeControl::StartZone || self == TimeControl::EndDate || self
            == TimeControl::EndClock || self == TimeControl::EndZone
    }

    fn ends(self) -> (r: bool)
        ensures
            r == self.is_end(),
    {
        match self {
            TimeControl::EndDate
            | TimeControl::EndClock
            | TimeControl::EndZone
            | TimeControl::EndZoneMenu => true,
            _ => false,
        }
    }

    fn segment(self) -> (r: bool)
        ensures
            r == self.is_segment(),
    {
        match self {
            TimeControl::StartDate
            | TimeControl::StartClock
            | TimeControl::StartZone
            | TimeControl::EndDate
            | TimeControl::EndClock
            | TimeControl::EndZone => true,
            _ => false,
        }
    }
}

/// The lists that hang on controls.
#[derive(Clone, Copy, Debug, PartialEq, Eq, Structural)]
pub enum TimeDropdown {
    Basis,
    Window,
    StartZone,
    EndZone,
    /// Readings of the field that awaits confirmation.
    Reading,
}

/// What the layer asks the shell to do, or how it answers.
#[derive(Debug, PartialEq, Eq)]
pub enum TimeStep {
    Done(Outcome),
    /// Apply a command to the part that has the focus.
    Edit(EditCommand),
    /// Divide the pasted bound into its parts.
    SplitPaste,
    /// Write two instants as bounds; a submission goes on afterwards.
    Around { start: i64, end: i64, submit: bool },
    /// Parse the view's drafts.
    Parse,
    /// Resolve the last seconds against the clock.
    Resolve(u64),
    /// Submit a window to the view.
    Submit {
        window: Option<CaptureTimeRange>,
        policy: Option<CaptureTimePolicy>,
        basis: TimeBasis,
    },
}

/// The layer's own data.
#[derive(Debug)]
pub struct TimeState {
    pub focus: TimeControl,
    pub dropdown: Option<TimeDropdown>,
    pub window: TimeWindowChoice,
    pub scroll: usize,
    pub reveal_focus: bool,
    pub has_overflow: bool,
    pub dropdown_scroll: usize,
    pub segment_cursor: usize,
    pub start: TimeBound,
    pub end: TimeBound,
    pub start_zone_custom: bool,
    pub end_zone_custom: bool,
    pub highlighted: usize,
    pub window_choices: Vec<TimeWindowChoice>,
    pub anchored_row: Option<String>,
    pub anchored_capture_nanos: Option<i64>,
    pub anchored_event_nanos: Option<i64>,
    pub anchored_extracted_nanos: Option<i64>,
    pub anchored_selected_nanos: Option<i64>,
    pub basis: TimeBasis,
    /// The accepted field, where the basis is one.
    pub field_token: Option<String>,
    pub field_label: String,
    pub recognition: TimeRecognition,
    pub recognition_generation: u64,
    /// A field that was picked and needs an assumption accepted first. Nothing
    /// is applied while this is set.
    pub pending_field: Option<TimeFieldCandidate>,
    /// Which reading of it is offered: the recognizer's own first.
    pub pending_reading: usize,
    /// Why the last pick could not be taken.
    pub field_error: Option<String>,
}

/// What a recognizer is asked.
#[derive(Debug)]
pub struct TimeRecognitionRequest {
    pub generation: u64,
    pub view_id: String,
    pub token: Option<String>,
    pub anchored_row: Option<String>,
}

/// What a recognizer is asked, by what it says.
#[verifier::ext_equal]
pub struct TimeAsk {
    pub generation: u64,
    pub view_id: Seq<char>,
    pub token: Option<Seq<char>>,
    pub anchored_row: Option<Seq<char>>,
}

impl TimeRecognitionRequest {
    pub open spec fn ask(self) -> TimeAsk {
        TimeAsk {
            generation: self.generation,
            view_id: self.view_id@,
            token: some_text(self.token),
            anchored_row: some_text(self.anchored_row),
        }
    }
}

/// Everything the layer draws that can be clicked.
#[derive(Clone, Copy, Debug, PartialEq, Eq, Structural)]
pub enum TimeHit {
    Control(TimeControl),
    /// A row of the open list.
    Choice(usize),
}

/// Where the last frame drew what can be clicked.
#[derive(Debug)]
pub struct TimeGeometry {
    pub controls: Vec<(Rect, TimeControl)>,
    pub choices: Vec<(Rect, usize)>,
}

#[derive(Debug)]
pub struct TimeDialog {
    open: bool,
    state: TimeState,
    geometry: TimeGeometry,
    surface: Surface,
    pub outbox: Outbox<TimeRecognitionRequest>,
}

/// What candidates say.
pub open spec fn candidates(list: Seq<TimeFieldCandidate>) -> Seq<CandidateModel> {
    list.map_values(|candidate: TimeFieldCandidate| candidate.model())
}

/// The layer's own data.
#[verifier::ext_equal]
pub struct TimeModel {
    pub open: bool,
    pub focus: TimeControl,
    pub dropdown: Option<TimeDropdown>,
    pub window: TimeWindowChoice,
    pub scroll: int,
    pub reveal_focus: bool,
    pub has_overflow: bool,
    pub dropdown_scroll: int,
    pub segment_cursor: int,
    pub start: BoundModel,
    pub end: BoundModel,
    pub start_zone_custom: bool,
    pub end_zone_custom: bool,
    pub highlighted: int,
    pub window_choices: Seq<TimeWindowChoice>,
    pub anchored_row: Option<Seq<char>>,
    pub anchored_capture: Option<i64>,
    pub anchored_event: Option<i64>,
    pub anchored_extracted: Option<i64>,
    pub anchored_selected: Option<i64>,
    pub basis: TimeBasis,
    pub field_token: Option<Seq<char>>,
    pub field_label: Seq<char>,
    pub candidates: Seq<CandidateModel>,
    pub sampled_records: int,
    pub recognized_nanos: Option<i64>,
    pub recognition_generation: int,
    pub pending_field: Option<CandidateModel>,
    pub pending_reading: int,
    pub field_error: Option<Seq<char>>,
    pub geometry: TimeGeometry,
    pub surface: Surface,
    pub queue: Queue<TimeAsk>,
}

impl TimeDialog {
    pub closed spec fn model(&self) -> TimeModel {
        TimeModel {
            open: self.open,
            focus: self.state.focus,
            dropdown: self.state.dropdown,
            window: self.state.window,
            scroll: self.state.scroll as int,
            reveal_focus: self.state.reveal_focus,
            has_overflow: self.state.has_overflow,
            dropdown_scroll: self.state.dropdown_scroll as int,
            segment_cursor: self.state.segment_cursor as int,
            start: self.state.start.model(),
            end: self.state.end.model(),
            start_zone_custom: self.state.start_zone_custom,
            end_zone_custom: self.state.end_zone_custom,
            highlighted: self.state.highlighted as int,
            window_choices: self.state.window_choices@,
            anchored_row: some_text(self.state.anchored_row),
            anchored_capture: self.state.anchored_capture_nanos,
            anchored_event: self.state.anchored_event_nanos,
            anchored_extracted: self.state.anchored_extracted_nanos,
            anchored_selected: self.state.anchored_selected_nanos,
            basis: self.state.basis,
            field_token: some_text(self.state.field_token),
            field_label: self.state.field_label@,
            candidates: candidates(self.state.recognition.candidates@),
            sampled_records: self.state.recognition.sampled_records as int,
            recognized_nanos: self.state.recognition.anchored_selected_nanos,
            recognition_generation: self.state.recognition_generation as int,
            pending_field: some_candidate(self.state.pending_field),
            pending_reading: self.state.pending_reading as int,
            field_error: some_text(self.state.field_error),
            geometry: self.geometry,
            surface: self.surface,
            queue: Queue {
                items: self.outbox@.items.map_values(|r: TimeRecognitionRequest| r.ask()),
                cap: self.outbox@.cap,
                generation: self.outbox@.generation,
            },
        }
    }
}

/// A candidate that may be missing.
pub open spec fn some_candidate(candidate: Option<TimeFieldCandidate>) -> Option<CandidateModel> {
    match candidate {
        Some(candidate) => Some(candidate.model()),
        None => None,
    }
}

impl TimeModel {
    /// The part of a bound that a control stands for.
    pub open spec fn segment(self, control: TimeControl) -> Seq<char> {
        match control {
            TimeControl::StartDate => self.start.date,
            TimeControl::StartClock => self.start.clock,
            TimeControl::StartZone => self.start.zone,
            TimeControl::EndDate => self.end.date,
            TimeControl::EndClock => self.end.clock,
            TimeControl::EndZone => self.end.zone,
            _ => Seq::empty(),
        }
    }

    pub open spec fn with_segment(self, control: TimeControl, value: Seq<char>) -> TimeModel {
        match control {
            TimeControl::StartDate => TimeModel {
                start: BoundModel { date: value, ..self.start },
                ..self
            },
            TimeControl::StartClock => TimeModel {
                start: BoundModel { clock: value, ..self.start },
                ..self
            },
            TimeControl::StartZone => TimeModel {
                start: BoundModel { zone: value, ..self.start },
                ..self
            },
            TimeControl::EndDate => TimeModel {
                end: BoundModel { date: value, ..self.end },
                ..self
            },
            TimeControl::EndClock => TimeModel {
                end: BoundModel { clock: value, ..self.end },
                ..self
            },
            TimeControl::EndZone => TimeModel {
                end: BoundModel { zone: value, ..self.end },
                ..self
            },
            _ => self,
        }
    }

    /// Whether a part of a bound takes text: a zone only where it is typed.
    pub open spec fn takes_text(self, control: TimeControl) -> bool {
        &&& control.is_segment()
        &&& control == TimeControl::StartZone ==> self.start_zone_custom
        &&& control == TimeControl::EndZone ==> self.end_zone_custom
    }

    /// The part that is being edited: none while a list is open.
    pub open spec fn editing(self) -> Option<TimeControl> {
        if self.dropdown is None && self.takes_text(self.focus) {
            Some(self.focus)
        } else {
            None
        }
    }

    /// The caret, brought into the part that has the focus.
    pub open spec fn caret(self) -> int {
        let end = self.segment(self.focus).len() as int;
        if self.segment_cursor <= end {
            self.segment_cursor
        } else {
            end
        }
    }

    /// The reading that awaits confirmation.
    pub open spec fn pending(self) -> Option<ReadingModel> {
        match self.pending_field {
            Some(candidate) => candidate.reading_at(self.pending_reading),
            None => None,
        }
    }

    /// How many readings are on offer.
    pub open spec fn reading_count(self) -> int {
        match self.pending_field {
            Some(candidate) => candidate.alternatives.len() as int + 1,
            None => 0,
        }
    }

    /// The instant of the opening record in the current basis.
    pub open spec fn anchor(self) -> Option<i64> {
        match self.basis {
            TimeBasis::Capture => self.anchored_capture,
            TimeBasis::Event => self.anchored_event,
            TimeBasis::Extracted => self.anchored_extracted,
            TimeBasis::Selected => self.anchored_selected,
        }
    }

    pub open spec fn focus_list(self) -> Seq<TimeControl> {
        focus_order(
            self.has_overflow,
            self.start_zone_custom,
            self.end_zone_custom,
            self.pending_field is Some,
        )
    }

    pub open spec fn at_control(self, control: TimeControl) -> TimeModel {
        TimeModel {
            focus: control,
            segment_cursor: usize::MAX as int,
            reveal_focus: true,
            ..self
        }
    }

    pub open spec fn focus_moved(self, delta: int) -> TimeModel {
        let list = self.focus_list();
        TimeModel { dropdown: None, ..self }.at_control(
            list[ring_step(place_or_start(list, self.focus), list.len() as int, delta)],
        )
    }

    pub open spec fn focused(self, control: TimeControl) -> TimeModel {
        TimeModel { dropdown: None, ..self.at_control(control) }
    }

    pub open spec fn field_switched(self) -> TimeModel {
        self.at_control(
            if self.focus.is_end() {
                TimeControl::StartDate
            } else {
                TimeControl::EndDate
            },
        )
    }

    pub open spec fn body_scrolled(self, delta: int) -> TimeModel {
        TimeModel {
            scroll: scroll_step(self.scroll, usize::MAX as int, delta),
            reveal_focus: false,
            ..self
        }
    }

    pub open spec fn cursor_moved(self, delta: int) -> TimeModel {
        TimeModel {
            segment_cursor: scroll_step(
                self.caret(),
                self.segment(self.focus).len() as int,
                delta,
            ),
            ..self
        }
    }

    /// A character is typed into the part that has the focus, or the one before
    /// the caret is deleted. Control characters and a full part take none.
    pub open spec fn typed(self, input: Option<char>) -> (TimeModel, bool) {
        let value = self.segment(self.focus);
        let at = self.caret();
        if !self.takes_text(self.focus) {
            (self, false)
        } else {
            match input {
                Some(ch) => if !is_control_char(ch) && byte_count(value) + char_bytes(ch)
                    <= SEGMENT_BYTES {
                    (
                        TimeModel {
                            segment_cursor: at + 1,
                            window: TimeWindowChoice::Absolute,
                            ..self.with_segment(self.focus, value.insert(at, ch))
                        },
                        true,
                    )
                } else {
                    (self, false)
                },
                None => if at > 0 {
                    (
                        TimeModel {
                            segment_cursor: at - 1,
                            window: TimeWindowChoice::Absolute,
                            ..self.with_segment(self.focus, value.remove(at - 1))
                        },
                        true,
                    )
                } else {
                    (self, false)
                },
            }
        }
    }

    /// The first `n` characters of a text are typed.
    pub open spec fn all_typed(self, text: Seq<char>, n: int) -> TimeModel
        decreases n,
    {
        if n <= 0 {
            self
        } else {
            self.all_typed(text, n - 1).typed(Some(text[n - 1])).0
        }
    }

    /// The bound of a control is replaced by another.
    pub open spec fn bound_replaced(self, bound: BoundModel, zones: Seq<Seq<char>>) -> TimeModel {
        if self.focus.is_end() {
            TimeModel {
                end: bound,
                end_zone_custom: !zones.contains(bound.zone),
                segment_cursor: usize::MAX as int,
                ..self
            }
        } else {
            TimeModel {
                start: bound,
                start_zone_custom: !zones.contains(bound.zone),
                focus: TimeControl::StartDate,
                segment_cursor: usize::MAX as int,
                ..self
            }
        }
    }

    /// The list that a control opens.
    pub open spec fn list_of(control: TimeControl) -> Option<TimeDropdown> {
        match control {
            TimeControl::Basis => Some(TimeDropdown::Basis),
            TimeControl::Window => Some(TimeDropdown::Window),
            TimeControl::StartZoneMenu => Some(TimeDropdown::StartZone),
            TimeControl::EndZoneMenu => Some(TimeDropdown::EndZone),
            TimeControl::Reading => Some(TimeDropdown::Reading),
            _ => None,
        }
    }

    /// The place of the accepted field among the candidates.
    pub open spec fn field_place(self, from: int) -> Option<int>
        decreases self.candidates.len() - from,
    {
        if from < 0 || from >= self.candidates.len() {
            None
        } else if self.field_token == Some(self.candidates[from].main.token) {
            Some(from)
        } else {
            self.field_place(from + 1)
        }
    }

    /// The row of a list that stands for what is set: the basis or the accepted
    /// field, the offered reading, the window, or the zone, which is the last
    /// row where it is typed.
    pub open spec fn set_row(self, dropdown: TimeDropdown, zones: Seq<Seq<char>>) -> int {
        match dropdown {
            TimeDropdown::Basis => match self.basis {
                TimeBasis::Capture => 0,
                TimeBasis::Event => 1,
                TimeBasis::Extracted => 2,
                TimeBasis::Selected => match self.field_place(0) {
                    Some(place) => place + 3,
                    None => 0,
                },
            },
            TimeDropdown::Reading => self.pending_reading,
            TimeDropdown::Window => place_or_start(self.window_choices, self.window),
            TimeDropdown::StartZone => zone_row(zones, self.start.zone, 0),
            TimeDropdown::EndZone => zone_row(zones, self.end.zone, 0),
        }
    }

    /// The rows of a list.
    pub open spec fn row_count(self, dropdown: TimeDropdown, zones: int) -> int {
        match dropdown {
            TimeDropdown::Basis => self.candidates.len() as int + 3,
            TimeDropdown::Reading => if self.reading_count() == 0 {
                1
            } else {
                self.reading_count()
            },
            TimeDropdown::Window => self.window_choices.len() as int,
            _ => zones + 1,
        }
    }

    /// Up and down move in the open list, and scroll the form where a scroll
    /// control has the focus.
    pub open spec fn choice_moved(self, delta: int, zones: int) -> TimeModel {
        match self.dropdown {
            Some(dropdown) => TimeModel {
                highlighted: ring_step(
                    self.highlighted,
                    self.row_count(dropdown, zones),
                    delta,
                ),
                ..self
            },
            None => if self.focus == TimeControl::ScrollUp || self.focus
                == TimeControl::ScrollDown {
                self.body_scrolled(delta)
            } else {
                self
            },
        }
    }
}

/// The row of a zone: its preset, or the row behind all presets.
pub open spec fn zone_row(zones: Seq<Seq<char>>, zone: Seq<char>, from: int) -> int
    decreases zones.len() - from,
{
    if from < 0 || from >= zones.len() {
        zones.len() as int
    } else if zones[from] == zone {
        from
    } else {
        zone_row(zones, zone, from + 1)
    }
}

/// A zone of the list: how it is shown and how it is written.
#[derive(Debug)]
pub struct ZoneChoice {
    pub label: String,
    pub token: String,
}

/// How the zones of the list are written.
pub open spec fn zone_tokens(zones: Seq<ZoneChoice>) -> Seq<Seq<char>> {
    zones.map_values(|zone: ZoneChoice| zone.token@)
}

/// How many preset zones the list offers before the typed one.
pub fn time_zone_choice_count(zones: &Vec<ZoneChoice>) -> (r: usize)
    ensures
        r == zones@.len(),
{
    zones.len()
}

/// How the zones to choose from are shown.
pub open spec fn zone_labels(zones: Seq<ZoneChoice>) -> Seq<Seq<char>> {
    zones.map_values(|zone: ZoneChoice| zone.label@)
}

pub(crate) fn find_zone(zones: &Vec<ZoneChoice>, zone: &str) -> (r: usize)
    ensures
        r == zone_row(zone_tokens(zones@), zone@, 0),
        r < zones@.len() <==> zone_tokens(zones@).contains(zone@),
        r <= zones@.len(),
{
    let ghost tokens = zone_tokens(zones@);
    let mut i: usize = 0;
    while i < zones.len()
        invariant
            i <= zones@.len(),
            tokens == zone_tokens(zones@),
            zone_row(tokens, zone@, 0) == zone_row(tokens, zone@, i as int),
            forall|j: int| 0 <= j < i ==> tokens[j] != zone@,
        decreases zones.len() - i,
    {
        assert(tokens[i as int] == zones@[i as int].token@);
        if same(zones[i].token.as_str(), zone) {
            assert(tokens.contains(zone@));
            return i;
        }
        i += 1;
    }
    i
}

fn is_time_zone_preset(value: &str, zones: &Vec<ZoneChoice>) -> (r: bool)
    ensures
        r == zone_tokens(zones@).contains(value@),
{
    find_zone(zones, value) < zones.len()
}

/// The windows to choose from: the fixed ones, and one of another length where
/// that is set.
pub open spec fn window_list(current: TimeWindowChoice) -> Seq<TimeWindowChoice> {
    let fixed = seq![
        TimeWindowChoice::All,
        TimeWindowChoice::Absolute,
        TimeWindowChoice::Recent(300),
        TimeWindowChoice::Recent(900),
        TimeWindowChoice::Recent(3600),
    ];
    let last = seq![TimeWindowChoice::AroundSelected];
    match current {
        TimeWindowChoice::Recent(seconds) => if seconds == 300 || seconds == 900 || seconds
            == 3600 {
            fixed + last
        } else {
            fixed + seq![current] + last
        },
        _ => fixed + last,
    }
}

fn time_window_choices(current: TimeWindowChoice) -> (r: Vec<TimeWindowChoice>)
    ensures
        r@ == window_list(current),
{
    let mut values: Vec<TimeWindowChoice> = Vec::new();
    values.push(TimeWindowChoice::All);
    values.push(TimeWindowChoice::Absolute);
    values.push(TimeWindowChoice::Recent(300));
    values.push(TimeWindowChoice::Recent(900));
    values.push(TimeWindowChoice::Recent(3600));
    if let TimeWindowChoice::Recent(seconds) = current {
        if seconds != 300 && seconds != 900 && seconds != 3600 {
            values.push(current);
        }
    }
    values.push(TimeWindowChoice::AroundSelected);
    assert(values@ =~= window_list(current));
    values
}

/// The layer and the view it works on.
#[verifier::ext_equal]
pub struct TimeWorld {
    pub d: TimeModel,
    pub v: Option<ViewModel>,
}

/// A window round an instant.
pub open spec fn around(center: int) -> (int, int) {
    (
        if center - HALF_WINDOW_NANOS < i64::MIN {
            i64::MIN as int
        } else {
            center - HALF_WINDOW_NANOS
        },
        if center + HALF_WINDOW_NANOS > i64::MAX {
            i64::MAX as int
        } else {
            center + HALF_WINDOW_NANOS
        },
    )
}

impl TimeWorld {
    pub open spec fn failed(self, why: Seq<char>) -> TimeWorld {
        TimeWorld { d: self.d, v: view_failed(self.v, why) }
    }

    /// An edit of the bounds is kept with the view, as an absolute window that
    /// was touched.
    pub open spec fn bounds_kept(self) -> TimeWorld {
        TimeWorld {
            d: self.d,
            v: match self.v {
                Some(view) => Some(
                    ViewModel {
                        window: TimeWindowChoice::Absolute,
                        marked: true,
                        error: None,
                        touched: true,
                        ..view.with_bounds(self.d.start, self.d.end)
                    },
                ),
                None => None,
            },
        }
    }

    pub open spec fn char_typed(self, input: Option<char>) -> TimeWorld {
        let (typed, changed) = self.d.typed(input);
        if changed {
            TimeWorld { d: typed, v: self.v }.bounds_kept()
        } else {
            self
        }
    }

    /// The part that has the focus was edited by a command.
    pub open spec fn edited(self, value: Seq<char>, cursor: int, changed: bool) -> TimeWorld {
        if self.d.editing() is None {
            self
        } else {
            let placed = TimeModel { segment_cursor: cursor, ..self.d };
            if changed {
                TimeWorld {
                    d: TimeModel {
                        window: TimeWindowChoice::Absolute,
                        ..placed.with_segment(self.d.focus, value)
                    },
                    v: self.v,
                }.bounds_kept()
            } else {
                TimeWorld { d: placed, v: self.v }
            }
        }
    }

    /// Another basis: what was accepted or awaited of a field is given up with
    /// the basis that gave it meaning.
    pub open spec fn basis_set(self, basis: TimeBasis) -> TimeWorld {
        TimeWorld {
            d: TimeModel {
                basis,
                field_token: None,
                field_label: Seq::empty(),
                pending_field: None,
                pending_reading: 0,
                field_error: None,
                ..self.d
            },
            v: match self.v {
                Some(view) => Some(
                    ViewModel {
                        marked: true,
                        error: None,
                        basis,
                        field: None,
                        touched: true,
                        ..view
                    },
                ),
                None => None,
            },
        }
    }

    /// The reading that awaits confirmation is accepted, unless it is blocked.
    pub open spec fn field_accepted(self) -> TimeWorld {
        match self.d.pending() {
            None => self,
            Some(reading) => if reading.blocked is Some {
                TimeWorld { d: TimeModel { field_error: reading.blocked, ..self.d }, v: self.v }
            } else {
                TimeWorld {
                    d: TimeModel {
                        basis: TimeBasis::Selected,
                        field_token: Some(reading.token),
                        field_label: reading.label,
                        pending_field: None,
                        pending_reading: 0,
                        field_error: None,
                        focus: TimeControl::Basis,
                        reveal_focus: true,
                        ..self.d
                    },
                    v: match self.v {
                        Some(view) => Some(
                            ViewModel {
                                marked: true,
                                error: None,
                                basis: TimeBasis::Selected,
                                field: Some(reading.token),
                                touched: true,
                                ..view
                            },
                        ),
                        None => None,
                    },
                }
            },
        }
    }

    /// A field is picked. One that no reading can rescue changes nothing but
    /// says why; a reading that rests on no assumption is accepted at once; any
    /// other waits to be confirmed.
    pub open spec fn field_chosen(self, candidate: CandidateModel) -> TimeWorld {
        match candidate.first_usable(0) {
            None => TimeWorld {
                d: TimeModel {
                    dropdown: None,
                    pending_field: None,
                    field_error: candidate.main.blocked,
                    ..self.d
                },
                v: self.v,
            },
            Some(usable) => {
                let waiting = TimeWorld {
                    d: TimeModel {
                        dropdown: None,
                        pending_reading: usable,
                        field_error: None,
                        pending_field: Some(candidate),
                        focus: TimeControl::AcceptField,
                        reveal_focus: true,
                        ..self.d
                    },
                    v: self.v,
                };
                if candidate.reading_at(usable)->0.assumptions.len() == 0 {
                    waiting.field_accepted()
                } else {
                    waiting
                }
            },
        }
    }

    pub open spec fn window_set(self, window: TimeWindowChoice) -> TimeWorld {
        TimeWorld {
            d: TimeModel { window, ..self.d },
            v: match self.v {
                Some(view) => Some(
                    ViewModel { marked: true, error: None, window, touched: true, ..view },
                ),
                None => None,
            },
        }
    }

    /// What is missing of the opening record.
    pub open spec fn missing_text(basis: TimeBasis) -> Seq<char> {
        match basis {
            TimeBasis::Capture => "selected record has no capture timestamp"@,
            TimeBasis::Extracted => "selected record has no valid extracted timestamp_utc"@,
            TimeBasis::Event => "selected record has no recognized event timestamp"@,
            TimeBasis::Selected => "selected record has no value in the chosen field"@,
        }
    }

    /// The window goes round the opening record, where that has an instant in
    /// the basis.
    pub open spec fn around_asked(self, submit: bool) -> (TimeWorld, TimeStep) {
        let turned = TimeWorld {
            d: TimeModel { window: TimeWindowChoice::AroundSelected, ..self.d },
            v: match self.v {
                Some(view) => Some(
                    ViewModel {
                        marked: true,
                        window: TimeWindowChoice::AroundSelected,
                        touched: true,
                        ..view
                    },
                ),
                None => None,
            },
        };
        match self.d.anchor() {
            None => (
                turned.failed(TimeWorld::missing_text(self.d.basis)),
                TimeStep::Done(Outcome::Consumed),
            ),
            Some(center) => {
                let (start, end) = around(center as int);
                (
                    turned,
                    TimeStep::Around { start: start as i64, end: end as i64, submit },
                )
            },
        }
    }

    /// The bounds round the opening record are written.
    pub open spec fn around_written(
        self,
        start: BoundModel,
        end: BoundModel,
        zones: Seq<Seq<char>>,
    ) -> TimeWorld {
        TimeWorld {
            d: TimeModel {
                start,
                end,
                start_zone_custom: !zones.contains(start.zone),
                end_zone_custom: !zones.contains(end.zone),
                ..self.d
            },
            v: match self.v {
                Some(view) => Some(
                    ViewModel { error: None, touched: true, ..view.with_bounds(start, end) },
                ),
                None => None,
            },
        }
    }

    /// A window is submitted where there is a view.
    pub open spec fn submitting(
        self,
        window: Option<CaptureTimeRange>,
        policy: Option<CaptureTimePolicy>,
    ) -> TimeStep {
        if self.v is Some {
            TimeStep::Submit { window, policy, basis: self.d.basis }
        } else {
            TimeStep::Done(Outcome::Consumed)
        }
    }

    pub open spec fn cleared(self) -> (TimeWorld, TimeStep) {
        let after = TimeWorld {
            d: TimeModel {
                start: BoundModel::blank(),
                end: BoundModel::blank(),
                start_zone_custom: true,
                end_zone_custom: true,
                window: TimeWindowChoice::All,
                ..self.d
            },
            v: match self.v {
                Some(view) => Some(
                    ViewModel {
                        start_draft: Seq::empty(),
                        end_draft: Seq::empty(),
                        recent_draft: Seq::empty(),
                        start: BoundModel::blank(),
                        end: BoundModel::blank(),
                        structured: true,
                        marked: true,
                        touched: true,
                        window: TimeWindowChoice::All,
                        ..view
                    },
                ),
                None => None,
            },
        };
        (after, after.submitting(None, None))
    }

    /// The window that is set is submitted, each kind in its way.
    pub open spec fn submitted(self) -> (TimeWorld, TimeStep) {
        let marked = TimeWorld {
            d: self.d,
            v: match self.v {
                Some(view) => Some(ViewModel { marked: true, ..view }),
                None => None,
            },
        };
        match self.d.window {
            TimeWindowChoice::All => marked.cleared(),
            TimeWindowChoice::Recent(seconds) => (marked, TimeStep::Resolve(seconds)),
            TimeWindowChoice::AroundSelected => if self.d.anchor() is None {
                (
                    marked.failed("opening record has no timestamp in the chosen basis"@),
                    TimeStep::Done(Outcome::Consumed),
                )
            } else {
                marked.around_asked(true)
            },
            TimeWindowChoice::Absolute => (marked, marked.parsing()),
        }
    }

    /// Drafts are parsed where there is a view.
    pub open spec fn parsing(self) -> TimeStep {
        if self.v is Some {
            TimeStep::Parse
        } else {
            TimeStep::Done(Outcome::Consumed)
        }
    }

    /// The row of the open list is taken.
    pub open spec fn chosen(self, zones: Seq<Seq<char>>) -> (TimeWorld, TimeStep) {
        let row = self.d.highlighted;
        let done = TimeStep::Done(Outcome::Consumed);
        let closed = TimeWorld { d: TimeModel { dropdown: None, ..self.d }, v: self.v };
        match self.d.dropdown {
            None => (closed, done),
            Some(TimeDropdown::Basis) => if row == 0 {
                (closed.basis_set(TimeBasis::Capture), done)
            } else if row == 1 {
                (closed.basis_set(TimeBasis::Event), done)
            } else if row == 2 {
                (closed.basis_set(TimeBasis::Extracted), done)
            } else if row - 3 < self.d.candidates.len() {
                (closed.field_chosen(self.d.candidates[row - 3]), done)
            } else {
                (closed, done)
            },
            Some(TimeDropdown::Reading) => (closed.reading_chosen(row), done),
            Some(TimeDropdown::Window) => if row >= self.d.window_choices.len() {
                (closed, done)
            } else if self.d.window_choices[row] == TimeWindowChoice::AroundSelected {
                if self.d.anchor() is None {
                    (
                        closed.failed(
                            "Around selected is unavailable: the opening record has no timestamp in this basis"@,
                        ),
                        done,
                    )
                } else {
                    closed.around_asked(false)
                }
            } else {
                (closed.window_set(self.d.window_choices[row]), done)
            },
            _ => if row < zones.len() {
                (closed.zone_chosen(zones[row]), done)
            } else {
                (closed.zone_typed(), done)
            },
        }
    }

    pub open spec fn reading_chosen(self, row: int) -> TimeWorld {
        let last = if self.d.reading_count() == 0 {
            0
        } else {
            self.d.reading_count() - 1
        };
        TimeWorld {
            d: TimeModel {
                pending_reading: if row <= last {
                    row
                } else {
                    last
                },
                field_error: None,
                focus: TimeControl::AcceptField,
                reveal_focus: true,
                ..self.d
            },
            v: self.v,
        }
    }

    /// A preset zone is taken for the bound whose zone has the focus.
    pub open spec fn zone_chosen(self, zone: Seq<char>) -> TimeWorld {
        match self.d.focus {
            TimeControl::StartZone | TimeControl::StartZoneMenu => self.with(
                TimeModel {
                    start: BoundModel { zone, ..self.d.start },
                    start_zone_custom: false,
                    window: TimeWindowChoice::Absolute,
                    ..self.d
                },
            ).bounds_kept(),
            TimeControl::EndZone | TimeControl::EndZoneMenu => self.with(
                TimeModel {
                    end: BoundModel { zone, ..self.d.end },
                    end_zone_custom: false,
                    window: TimeWindowChoice::Absolute,
                    ..self.d
                },
            ).bounds_kept(),
            _ => self,
        }
    }

    /// The zone whose menu has the focus is typed from here on.
    pub open spec fn zone_typed(self) -> TimeWorld {
        let cursor = usize::MAX as int;
        TimeWorld {
            d: match self.d.focus {
                TimeControl::StartZone | TimeControl::StartZoneMenu => TimeModel {
                    start_zone_custom: true,
                    focus: TimeControl::StartZone,
                    segment_cursor: cursor,
                    ..self.d
                },
                TimeControl::EndZone | TimeControl::EndZoneMenu => TimeModel {
                    end_zone_custom: true,
                    focus: TimeControl::EndZone,
                    segment_cursor: cursor,
                    ..self.d
                },
                _ => TimeModel { segment_cursor: cursor, ..self.d },
            },
            v: self.v,
        }
    }

    /// Enter: an open list takes its row, a control with a list opens it on the
    /// row that is set, and any other does its work.
    pub open spec fn entered(self, zones: Seq<Seq<char>>) -> (TimeWorld, TimeStep) {
        let done = TimeStep::Done(Outcome::Consumed);
        let closed = TimeWorld { d: TimeModel { highlighted: 0, ..self.d }, v: self.v };
        if self.d.dropdown is Some {
            self.chosen(zones)
        } else {
            match TimeModel::list_of(self.d.focus) {
                Some(list) => (
                    TimeWorld {
                        d: TimeModel {
                            dropdown: Some(list),
                            highlighted: self.d.set_row(list, zones),
                            ..self.d
                        },
                        v: self.v,
                    },
                    done,
                ),
                None => match self.d.focus {
                    TimeControl::AcceptField => (closed.field_accepted(), done),
                    TimeControl::Apply => closed.submitted(),
                    TimeControl::Clear => closed.cleared(),
                    TimeControl::Recognize => closed.recognized(),
                    TimeControl::ScrollUp => (
                        TimeWorld { d: closed.d.body_scrolled(-1), v: self.v },
                        done,
                    ),
                    TimeControl::ScrollDown => (
                        TimeWorld { d: closed.d.body_scrolled(1), v: self.v },
                        done,
                    ),
                    _ => (closed, done),
                },
            }
        }
    }

    /// The shell's timestamp assistant takes over.
    pub open spec fn recognized(self) -> (TimeWorld, TimeStep) {
        (
            TimeWorld { d: TimeModel { open: false, ..self.d }, v: self.v },
            TimeStep::Done(Outcome::Legacy(Action::OpenTimestampAssistant)),
        )
    }

    pub open spec fn with(self, d: TimeModel) -> TimeWorld {
        TimeWorld { d, v: self.v }
    }

    /// The keys with Alt.
    pub open spec fn after_alt(self, ch: char) -> Option<(TimeWorld, TimeStep)> {
        let done = TimeStep::Done(Outcome::Consumed);
        if ch == 't' {
            Some(self.recognized())
        } else if ch == 'a' {
            Some(self.around_asked(false))
        } else if ch == 'p' {
            Some((self.basis_set(TimeBasis::Capture), done))
        } else if ch == 'e' {
            Some((self.basis_set(TimeBasis::Event), done))
        } else if ch == 'u' {
            Some((self.basis_set(TimeBasis::Extracted), done))
        } else if ch == 'c' {
            Some(self.cleared())
        } else if ch == '5' {
            Some((self, TimeStep::Resolve(300)))
        } else if ch == 'm' {
            Some((self, TimeStep::Resolve(900)))
        } else if ch == 'h' {
            Some((self, TimeStep::Resolve(3600)))
        } else {
            None
        }
    }

    pub open spec fn edit_step(self, command: EditCommand) -> (TimeWorld, TimeStep) {
        if self.d.editing() is Some {
            (self, TimeStep::Edit(command))
        } else {
            (self, TimeStep::Done(Outcome::Consumed))
        }
    }

    /// A key: the caret keys of Control first, then the arrows of a part that
    /// takes text, then the layer's own.
    pub open spec fn after_key(self, key: KeyEvent, zones: Seq<Seq<char>>) -> (TimeWorld, TimeStep) {
        let done = TimeStep::Done(Outcome::Consumed);
        if !key.spec_is_active() {
            (self, TimeStep::Done(Outcome::Ignored))
        } else if key.modifiers.control && control_edit(key.code) is Some {
            self.edit_step(control_edit(key.code)->0)
        } else if self.d.editing() is Some && key.modifiers.spec_is_empty() && arrow_edit(
            key.code,
        ) is Some {
            self.edit_step(arrow_edit(key.code)->0)
        } else {
            match key.code {
                KeyCode::Tab => (
                    self.with(
                        self.d.focus_moved(
                            if key.modifiers.shift {
                                -1
                            } else {
                                1
                            },
                        ),
                    ),
                    done,
                ),
                KeyCode::BackTab => (self.with(self.d.focus_moved(-1)), done),
                KeyCode::Up => (self.with(self.d.choice_moved(-1, zones.len() as int)), done),
                KeyCode::Down => (self.with(self.d.choice_moved(1, zones.len() as int)), done),
                KeyCode::Left => (self.with(self.d.cursor_moved(-1)), done),
                KeyCode::Right => (self.with(self.d.cursor_moved(1)), done),
                KeyCode::Enter => self.entered(zones),
                KeyCode::Backspace => (self.char_typed(None), done),
                KeyCode::Char(ch) => if key.modifiers.alt && self.after_alt(ch) is Some {
                    self.after_alt(ch)->0
                } else {
                    (self.char_typed(Some(ch)), done)
                },
                _ => (self, TimeStep::Done(Outcome::Ignored)),
            }
        }
    }

    pub open spec fn after_mouse(
        self,
        kind: MouseEventKind,
        hit: Option<TimeHit>,
        zones: Seq<Seq<char>>,
    ) -> (TimeWorld, TimeStep) {
        let done = TimeStep::Done(Outcome::Consumed);
        match kind {
            MouseEventKind::LeftDown => match hit {
                Some(TimeHit::Choice(index)) => self.with(
                    TimeModel { highlighted: index as int, ..self.d },
                ).chosen(zones),
                Some(TimeHit::Control(control)) => self.with(self.d.focused(control)).entered(
                    zones,
                ),
                None => (self, done),
            },
            MouseEventKind::ScrollUp => (self.with(self.d.body_scrolled(-1)), done),
            MouseEventKind::ScrollDown => (self.with(self.d.body_scrolled(1)), done),
            MouseEventKind::Other => (self, done),
        }
    }

    pub open spec fn after_command(self, id: CommandId) -> (TimeWorld, TimeStep) {
        let done = TimeStep::Done(Outcome::Consumed);
        match id {
            CommandId::TimeClear => self.cleared(),
            CommandId::TimeAroundSelected => self.around_asked(false),
            CommandId::TimeBasisCapture => (self.basis_set(TimeBasis::Capture), done),
            CommandId::TimeBasisEvent => (self.basis_set(TimeBasis::Event), done),
            CommandId::TimeBasisExtracted => (self.basis_set(TimeBasis::Extracted), done),
            CommandId::TimeRecentFive => (self, TimeStep::Resolve(300)),
            CommandId::TimeRecentFifteen => (self, TimeStep::Resolve(900)),
            CommandId::TimeRecentHour => (self, TimeStep::Resolve(3600)),
            _ => (self, TimeStep::Done(Outcome::Ignored)),
        }
    }

    /// A pasted text that a part of a bound cannot take.
    pub open spec fn paste_refused(self, text: Seq<char>) -> bool {
        ||| exists|i: int| 0 <= i < text.len() && is_control_char(#[trigger] text[i])
        ||| byte_count(text) > PASTE_BYTES
        ||| !text.contains('T') && byte_count(self.d.segment(self.d.focus)) + byte_count(text)
            > SEGMENT_BYTES
    }

    /// A paste: a whole bound replaces the one that has the focus; any other
    /// text is typed into the part that has it.
    pub open spec fn pasted(self, text: Seq<char>) -> (TimeWorld, TimeStep) {
        let done = TimeStep::Done(Outcome::Consumed);
        if self.paste_refused(text) {
            (
                self.failed(
                    "Pasted time exceeds the field limit or contains control characters; draft retained"@,
                ),
                done,
            )
        } else if text.contains('T') {
            (self, TimeStep::SplitPaste)
        } else if !self.d.focus.is_segment() {
            (self, done)
        } else {
            (
                self.with(
                    TimeModel {
                        window: TimeWindowChoice::Absolute,
                        ..self.d.all_typed(text, text.len() as int)
                    },
                ).bounds_kept(),
                done,
            )
        }
    }

    /// The pasted bound was divided.
    pub open spec fn paste_split(self, bound: BoundModel, zones: Seq<Seq<char>>) -> TimeWorld {
        self.with(
            TimeModel {
                window: TimeWindowChoice::Absolute,
                ..self.d.bound_replaced(bound, zones)
            },
        ).bounds_kept()
    }

    pub open spec fn dismissed(self) -> (TimeWorld, TimeStep) {
        if self.d.dropdown is Some {
            (
                self.with(TimeModel { dropdown: None, ..self.d }),
                TimeStep::Done(Outcome::Consumed),
            )
        } else {
            (
                self.with(TimeModel { open: false, ..self.d }),
                TimeStep::Done(Outcome::Close),
            )
        }
    }

    pub open spec fn after_event(self, event: Event<TimeHit>, zones: Seq<Seq<char>>) -> (
        TimeWorld,
        TimeStep,
    ) {
        match event {
            Event::Key(key) => self.after_key(key, zones),
            Event::Paste(text) => self.pasted(text@),
            Event::Mouse { kind, hit } => self.after_mouse(kind, hit, zones),
            Event::Dismiss => self.dismissed(),
            Event::Command(id) => self.after_command(id),
            _ => (self, TimeStep::Done(Outcome::Ignored)),
        }
    }

    /// The drafts were parsed.
    pub open spec fn parsed(self, range: Option<CaptureTimeRange>, error: Seq<char>) -> (
        TimeWorld,
        TimeStep,
    ) {
        match range {
            Some(window) => (
                self,
                self.submitting(Some(window), Some(CaptureTimePolicy::Absolute(window))),
            ),
            None => (self.failed(error), TimeStep::Done(Outcome::Consumed)),
        }
    }

    /// The last seconds were resolved; where they could not be, nothing is done.
    pub open spec fn recent_resolved(
        self,
        seconds: u64,
        window: Option<CaptureTimeRange>,
        duration: Seq<char>,
    ) -> (TimeWorld, TimeStep) {
        if window is None {
            (self, TimeStep::Done(Outcome::Consumed))
        } else {
            let after = TimeWorld {
                d: self.d,
                v: match self.v {
                    Some(view) => Some(
                        ViewModel {
                            recent_draft: duration,
                            error: None,
                            touched: true,
                            window: TimeWindowChoice::Recent(seconds),
                            marked: true,
                            ..view
                        },
                    ),
                    None => None,
                },
            };
            (after, after.submitting(window, Some(CaptureTimePolicy::Recent { seconds })))
        }
    }
}

/// How a submission was answered.
#[derive(Clone, Copy, Debug, PartialEq, Eq, Structural)]
pub enum SubmitAnswer {
    Accepted,
    /// The view is never filtered in place: the window forks it.
    DefinitionFixed,
    QueueFull,
}

impl TimeWorld {
    /// A submission was answered: a full queue keeps the draft and says so.
    pub open spec fn answered(self, answer: SubmitAnswer) -> (TimeWorld, Outcome) {
        match answer {
            SubmitAnswer::Accepted => (
                self.with(TimeModel { open: false, ..self.d }),
                Outcome::Close,
            ),
            SubmitAnswer::DefinitionFixed => (
                self.with(TimeModel { open: false, ..self.d }),
                Outcome::Legacy(Action::StageForkedTimeWindow),
            ),
            SubmitAnswer::QueueFull => (
                self.failed("query submission queue is full; last window preserved"@),
                Outcome::Consumed,
            ),
        }
    }
}

/// The layer and its view.
pub open spec fn world(dialog: TimeDialog, view: Option<TimeView>) -> TimeWorld {
    TimeWorld { d: dialog.model(), v: some_view(view) }
}

impl TimeState {
    fn segment(&self, control: TimeControl) -> (r: &str)
        ensures
            r@ == match control {
                TimeControl::StartDate => self.start.date@,
                TimeControl::StartClock => self.start.clock@,
                TimeControl::StartZone => self.start.zone@,
                TimeControl::EndDate => self.end.date@,
                TimeControl::EndClock => self.end.clock@,
                TimeControl::EndZone => self.end.zone@,
                _ => Seq::empty(),
            },
    {
        match control {
            TimeControl::StartDate => self.start.date.as_str(),
            TimeControl::StartClock => self.start.clock.as_str(),
            TimeControl::StartZone => self.start.zone.as_str(),
            TimeControl::EndDate => self.end.date.as_str(),
            TimeControl::EndClock => self.end.clock.as_str(),
            TimeControl::EndZone => self.end.zone.as_str(),
            _ => {
                proof {
                    reveal_strlit("");
                }
                assert(""@ =~= Seq::<char>::empty());
                ""
            },
        }
    }

    /// The reading the confirmation offers.
    pub fn pending_reading(&self) -> (r: Option<&TimeReading>)
        ensures
            match r {
                Some(reading) => self.pending_field is Some && self.pending_field->0.model().reading_at(
                    self.pending_reading as int,
                ) == Some(reading.model()),
                None => self.pending_field is None || self.pending_field->0.model().reading_at(
                    self.pending_reading as int,
                ) is None,
            },
    {
        match &self.pending_field {
            None => None,
            Some(candidate) => if self.pending_reading == 0 {
                Some(&candidate.main)
            } else if self.pending_reading - 1 < candidate.alternatives.len() {
                Some(&candidate.alternatives[self.pending_reading - 1])
            } else {
                None
            },
        }
    }

    /// How many readings are on offer for the field that awaits confirmation.
    pub fn pending_readings(&self) -> (r: usize)
        requires
            self.pending_field is Some ==> self.pending_field->0.alternatives@.len() < usize::MAX,
        ensures
            r == match self.pending_field {
                Some(candidate) => candidate.alternatives@.len() as int + 1,
                None => 0,
            },
    {
        match &self.pending_field {
            Some(candidate) => candidate.alternatives.len() + 1,
            None => 0,
        }
    }
}

impl TimeDialog {
    /// The lists of the layer stay countable.
    pub open spec fn bounded(model: TimeModel) -> bool {
        &&& model.candidates.len() < usize::MAX - 3
        &&& model.pending_field is Some ==> model.pending_field->0.alternatives.len() < usize::MAX
    }

    fn copy_bound(bound: &TimeBound) -> (r: TimeBound)
        ensures
            r.model() == bound.model(),
    {
        TimeBound {
            date: bound.date.clone(),
            clock: bound.clock.clone(),
            zone: bound.zone.clone(),
        }
    }

    /// Keeps an edit of the bounds with the view.
    fn keep_bounds(&self, view: &mut Option<TimeView>)
        ensures
            world(*self, *final(view)) == world(*self, *old(view)).bounds_kept(),
    {
        let start = TimeDialog::copy_bound(&self.state.start);
        let end = TimeDialog::copy_bound(&self.state.end);
        if let Some(state) = view {
            store_time_drafts(state, start, end);
            state.time_window_draft = TimeWindowChoice::Absolute;
            state.time_edit_marked = true;
            state.time_error = None;
            state.time_draft_touched = true;
        }
    }

    fn set_segment(&mut self, control: TimeControl, value: String)
        ensures
            final(self).model() == old(self).model().with_segment(control, value@),
    {
        match control {
            TimeControl::StartDate => {
                self.state.start.date = value;
            },
            TimeControl::StartClock => {
                self.state.start.clock = value;
            },
            TimeControl::StartZone => {
                self.state.start.zone = value;
            },
            TimeControl::EndDate => {
                self.state.end.date = value;
            },
            TimeControl::EndClock => {
                self.state.end.clock = value;
            },
            TimeControl::EndZone => {
                self.state.end.zone = value;
            },
            _ => {},
        }
    }

    fn takes_text(&self) -> (r: bool)
        ensures
            r == self.model().takes_text(self.model().focus),
    {
        match self.state.focus {
            TimeControl::StartDate
            | TimeControl::StartClock
            | TimeControl::EndDate
            | TimeControl::EndClock => true,
            TimeControl::StartZone => self.state.start_zone_custom,
            TimeControl::EndZone => self.state.end_zone_custom,
            _ => false,
        }
    }

    /// The part that takes text, if any.
    pub fn editing_segment(&self) -> (r: Option<TimeControl>)
        ensures
            r == self.model().editing(),
    {
        if self.state.dropdown.is_none() && self.takes_text() {
            Some(self.state.focus)
        } else {
            None
        }
    }

    fn caret(&self) -> (r: usize)
        ensures
            r == self.model().caret(),
            r <= self.model().segment(self.model().focus).len(),
    {
        let end: usize = self.state.segment(self.state.focus).unicode_len();
        if self.state.segment_cursor <= end {
            self.state.segment_cursor
        } else {
            end
        }
    }

    /// Puts other characters in place of the part that has the focus.
    fn put_segment(&mut self, chars: Vec<char>, cursor: usize)
        ensures
            final(self).model() == (TimeModel {
                segment_cursor: cursor as int,
                window: TimeWindowChoice::Absolute,
                ..old(self).model().with_segment(old(self).model().focus, chars@)
            }),
    {
        let text = text_of(&chars, 0, chars.len());
        assert(text@ =~= chars@);
        self.set_segment(self.state.focus, text);
        self.state.segment_cursor = cursor;
        self.state.window = TimeWindowChoice::Absolute;
    }

    fn segment_chars(&self) -> (r: Vec<char>)
        ensures
            r@ == self.model().segment(self.model().focus),
    {
        chars_of(self.state.segment(self.state.focus))
    }

    fn segment_bytes(&self) -> (r: usize)
        ensures
            r == byte_count(self.model().segment(self.model().focus)),
    {
        byte_len(self.state.segment(self.state.focus))
    }

    fn edit_dialog_time_segment(&mut self, input: Option<char>) -> (r: bool)
        ensures
            (final(self).model(), r) == old(self).model().typed(input),
    {
        if !self.takes_text() {
            return false;
        }
        let at: usize = self.caret();
        let mut chars = self.segment_chars();
        match input {
            Some(ch) => {
                let step: usize = if ch as u32 <= 0x7f {
                    1
                } else if ch as u32 <= 0x7ff {
                    2
                } else if ch as u32 <= 0xffff {
                    3
                } else {
                    4
                };
                if control_char(ch) || self.segment_bytes() > SEGMENT_BYTES - step {
                    return false;
                }
                assert(at <= chars.len());
                chars.insert(at, ch);
                assert(at < chars.len());
                self.put_segment(chars, at + 1);
                true
            },
            None => {
                if at == 0 {
                    return false;
                }
                let _ = chars.remove(at - 1);
                self.put_segment(chars, at - 1);
                true
            },
        }
    }

    /// One typed character, or one backspace.
    fn edit_segment(&mut self, input: Option<char>, view: &mut Option<TimeView>)
        ensures
            world(*final(self), *final(view)) == world(*old(self), *old(view)).char_typed(input),
    {
        if !self.edit_dialog_time_segment(input) {
            return;
        }
        self.keep_bounds(view);
    }

    /// What a command to the part that has the focus works on: its text and
    /// caret.
    pub fn edit_target(&self) -> (r: Option<(String, usize)>)
        ensures
            match self.model().editing() {
                None => r is None,
                Some(control) => {
                    &&& r matches Some((value, cursor))
                    &&& value@ == self.model().segment(control)
                    &&& cursor == self.model().caret()
                },
            },
    {
        match self.editing_segment() {
            Some(control) => Some((self.state.segment(control).to_owned(), self.caret())),
            None => None,
        }
    }

    /// Takes over what came of a command to the part that has the focus.
    pub fn apply_edit(&mut self, edited: Edited, view: &mut Option<TimeView>)
        ensures
            world(*final(self), *final(view)) == world(*old(self), *old(view)).edited(
                edited.value@,
                edited.cursor as int,
                edited.changed,
            ),
    {
        if self.editing_segment().is_none() {
            return;
        }
        self.state.segment_cursor = edited.cursor;
        if !edited.changed {
            return;
        }
        self.set_segment(self.state.focus, edited.value);
        self.state.window = TimeWindowChoice::Absolute;
        self.keep_bounds(view);
    }

    pub fn switch_field(&mut self)
        ensures
            final(self).model() == old(self).model().field_switched(),
    {
        self.state.focus = if self.state.focus.ends() {
            TimeControl::StartDate
        } else {
            TimeControl::EndDate
        };
        self.state.segment_cursor = usize::MAX;
        self.state.reveal_focus = true;
    }

    fn move_focus(&mut self, delta: i32)
        ensures
            final(self).model() == old(self).model().focus_moved(delta as int),
    {
        self.state.dropdown = None;
        let controls = TimeControl::focusable(
            self.state.has_overflow,
            self.state.start_zone_custom,
            self.state.end_zone_custom,
            self.state.pending_field.is_some(),
        );
        let at: usize = find_time_control(&controls, self.state.focus);
        let next: usize = move_index(at, controls.len(), delta);
        self.state.focus = controls[next];
        self.state.segment_cursor = usize::MAX;
        self.state.reveal_focus = true;
    }

    fn focus_control(&mut self, control: TimeControl)
        ensures
            final(self).model() == old(self).model().focused(control),
    {
        self.state.focus = control;
        self.state.dropdown = None;
        self.state.segment_cursor = usize::MAX;
        self.state.reveal_focus = true;
    }

    fn set_basis(&mut self, basis: TimeBasis, view: &mut Option<TimeView>)
        ensures
            world(*final(self), *final(view)) == world(*old(self), *old(view)).basis_set(basis),
    {
        self.state.basis = basis;
        self.state.field_token = None;
        self.state.field_label = String::new();
        self.state.pending_field = None;
        self.state.pending_reading = 0;
        self.state.field_error = None;
        if let Some(state) = view {
            state.time_edit_marked = true;
            state.time_error = None;
            state.time_basis_draft = basis;
            state.time_field_draft = None;
            state.time_draft_touched = true;
        }
    }

    fn accept_field(&mut self, view: &mut Option<TimeView>)
        ensures
            world(*final(self), *final(view)) == world(*old(self), *old(view)).field_accepted(),
    {
        let ghost before = self.model();
        let (token, label, blocked) = match self.state.pending_reading() {
            None => return,
            Some(reading) => {
                assert(before.pending() == Some(reading.model()));
                let blocked = match &reading.blocked {
                    Some(reason) => Some(reason.clone()),
                    None => None,
                };
                (reading.token.clone(), reading.label.clone(), blocked)
            },
        };
        if blocked.is_some() {
            self.state.field_error = blocked;
            return;
        }
        self.state.basis = TimeBasis::Selected;
        self.state.field_token = Some(token.clone());
        self.state.field_label = label;
        self.state.pending_field = None;
        self.state.pending_reading = 0;
        self.state.field_error = None;
        self.state.focus = TimeControl::Basis;
        self.state.reveal_focus = true;
        if let Some(state) = view {
            state.time_edit_marked = true;
            state.time_error = None;
            state.time_basis_draft = TimeBasis::Selected;
            state.time_field_draft = Some(token);
            state.time_draft_touched = true;
        }
    }

    fn choose_field(&mut self, index: usize, view: &mut Option<TimeView>)
        requires
            index < old(self).model().candidates.len(),
        ensures
            world(*final(self), *final(view)) == world(*old(self), *old(view)).field_chosen(
                old(self).model().candidates[index as int],
            ),
    {
        let ghost chosen = self.model().candidates[index as int];
        let candidate = self.state.recognition.candidates[index].copy();
        assert(candidate.model() == chosen);
        self.state.dropdown = None;
        let usable: usize = match candidate.first_usable() {
            Some(usable) => usable,
            None => {
                self.state.pending_field = None;
                self.state.field_error = candidate.main.blocked;
                return;
            },
        };
        self.state.pending_reading = usable;
        self.state.field_error = None;
        self.state.pending_field = Some(candidate);
        self.state.focus = TimeControl::AcceptField;
        self.state.reveal_focus = true;
        let clean = match self.state.pending_reading() {
            Some(reading) => {
                assert(reading.model().assumptions.len() == reading.assumptions@.len());
                reading.assumptions.len() == 0
            },
            None => false,
        };
        if clean {
            self.accept_field(view);
        }
    }

    fn move_choice(&mut self, delta: i32, zones: &Vec<ZoneChoice>)
        requires
            TimeDialog::bounded(old(self).model()),
            zones@.len() < usize::MAX,
        ensures
            final(self).model() == old(self).model().choice_moved(delta as int, zones@.len() as int),
    {
        let count: usize = match self.state.dropdown {
            Some(TimeDropdown::Basis) => self.state.recognition.candidates.len() + 3,
            Some(TimeDropdown::Reading) => {
                let shown: usize = self.state.pending_readings();
                if shown == 0 {
                    1
                } else {
                    shown
                }
            },
            Some(TimeDropdown::Window) => self.state.window_choices.len(),
            Some(TimeDropdown::StartZone) | Some(TimeDropdown::EndZone) => zones.len() + 1,
            None => {
                match self.state.focus {
                    TimeControl::ScrollUp | TimeControl::ScrollDown => self.scroll_body(delta),
                    _ => {},
                }
                return;
            },
        };
        self.state.highlighted = move_index(self.state.highlighted, count, delta);
    }

    fn scroll_body(&mut self, delta: i32)
        ensures
            final(self).model() == old(self).model().body_scrolled(delta as int),
    {
        self.state.scroll = scroll_by(self.state.scroll, usize::MAX, delta);
        self.state.reveal_focus = false;
    }

    fn move_cursor(&mut self, delta: i32)
        ensures
            final(self).model() == old(self).model().cursor_moved(delta as int),
    {
        let end: usize = self.state.segment(self.state.focus).unicode_len();
        self.state.segment_cursor = scroll_by(self.caret(), end, delta);
    }

    fn anchor(&self) -> (r: Option<i64>)
        ensures
            r == self.model().anchor(),
    {
        match self.state.basis {
            TimeBasis::Capture => self.state.anchored_capture_nanos,
            TimeBasis::Event => self.state.anchored_event_nanos,
            TimeBasis::Extracted => self.state.anchored_extracted_nanos,
            TimeBasis::Selected => self.state.anchored_selected_nanos,
        }
    }

    fn around_selected(&mut self, view: &mut Option<TimeView>, submit: bool) -> (r: TimeStep)
        ensures
            (world(*final(self), *final(view)), r) == world(*old(self), *old(view)).around_asked(
                submit,
            ),
    {
        self.state.window = TimeWindowChoice::AroundSelected;
        if let Some(state) = view {
            state.time_edit_marked = true;
            state.time_window_draft = TimeWindowChoice::AroundSelected;
            state.time_draft_touched = true;
        }
        let center: i64 = match self.anchor() {
            Some(center) => center,
            None => {
                let why = match self.state.basis {
                    TimeBasis::Capture => "selected record has no capture timestamp",
                    TimeBasis::Extracted => "selected record has no valid extracted timestamp_utc",
                    TimeBasis::Event => "selected record has no recognized event timestamp",
                    TimeBasis::Selected => "selected record has no value in the chosen field",
                };
                fail_view(view, why);
                return TimeStep::Done(Outcome::Consumed);
            },
        };
        let (start, end) = window_around(center);
        TimeStep::Around { start, end, submit }
    }

    /// The bounds round the opening record were written; a submission goes on.
    pub fn around_done(
        &mut self,
        start: TimeBound,
        end: TimeBound,
        submit: bool,
        view: &mut Option<TimeView>,
        zones: &Vec<ZoneChoice>,
    ) -> (r: TimeStep)
        ensures
            world(*final(self), *final(view)) == world(*old(self), *old(view)).around_written(
                start.model(),
                end.model(),
                zone_tokens(zones@),
            ),
            r == if submit {
                world(*final(self), *final(view)).parsing()
            } else {
                TimeStep::Done(Outcome::Consumed)
            },
    {
        self.state.start_zone_custom = !is_time_zone_preset(start.zone.as_str(), zones);
        self.state.end_zone_custom = !is_time_zone_preset(end.zone.as_str(), zones);
        let kept_start = TimeDialog::copy_bound(&start);
        let kept_end = TimeDialog::copy_bound(&end);
        self.state.start = start;
        self.state.end = end;
        if let Some(state) = view {
            store_time_drafts(state, kept_start, kept_end);
            state.time_error = None;
            state.time_draft_touched = true;
        }
        if submit && view.is_some() {
            TimeStep::Parse
        } else {
            TimeStep::Done(Outcome::Consumed)
        }
    }

    fn submit_window(
        &self,
        window: Option<CaptureTimeRange>,
        policy: Option<CaptureTimePolicy>,
        view: &Option<TimeView>,
    ) -> (r: TimeStep)
        ensures
            r == world(*self, *view).submitting(window, policy),
    {
        if view.is_some() {
            TimeStep::Submit { window, policy, basis: self.state.basis }
        } else {
            TimeStep::Done(Outcome::Consumed)
        }
    }

    fn clear(&mut self, view: &mut Option<TimeView>) -> (r: TimeStep)
        ensures
            (world(*final(self), *final(view)), r) == world(*old(self), *old(view)).cleared(),
    {
        if let Some(state) = view {
            state.time_start_draft = String::new();
            state.time_end_draft = String::new();
            state.time_recent_draft = String::new();
            state.time_start_date_draft = String::new();
            state.time_start_clock_draft = String::new();
            state.time_start_zone_draft = String::new();
            state.time_end_date_draft = String::new();
            state.time_end_clock_draft = String::new();
            state.time_end_zone_draft = String::new();
            state.time_structured_draft_present = true;
            state.time_edit_marked = true;
            state.time_draft_touched = true;
            state.time_window_draft = TimeWindowChoice::All;
        }
        self.state.start = TimeBound {
            date: String::new(),
            clock: String::new(),
            zone: String::new(),
        };
        self.state.end = TimeBound {
            date: String::new(),
            clock: String::new(),
            zone: String::new(),
        };
        self.state.start_zone_custom = true;
        self.state.end_zone_custom = true;
        self.state.window = TimeWindowChoice::All;
        self.submit_window(None, None, view)
    }

    fn submit(&mut self, view: &mut Option<TimeView>) -> (r: TimeStep)
        ensures
            (world(*final(self), *final(view)), r) == world(*old(self), *old(view)).submitted(),
    {
        if let Some(state) = view {
            state.time_edit_marked = true;
        }
        match self.state.window {
            TimeWindowChoice::All => self.clear(view),
            TimeWindowChoice::Recent(seconds) => TimeStep::Resolve(seconds),
            TimeWindowChoice::AroundSelected => {
                if self.anchor().is_none() {
                    fail_view(view, "opening record has no timestamp in the chosen basis");
                    return TimeStep::Done(Outcome::Consumed);
                }
                self.around_selected(view, true)
            },
            TimeWindowChoice::Absolute => if view.is_some() {
                TimeStep::Parse
            } else {
                TimeStep::Done(Outcome::Consumed)
            },
        }
    }

    /// The view's drafts were parsed: the window is submitted, or the error is
    /// shown and what is applied stays.
    pub fn submit_parsed(
        &mut self,
        parsed: Result<CaptureTimeRange, String>,
        view: &mut Option<TimeView>,
    ) -> (r: TimeStep)
        ensures
            (world(*final(self), *final(view)), r) == match parsed {
                Ok(window) => world(*old(self), *old(view)).parsed(Some(window), seq![]),
                Err(error) => world(*old(self), *old(view)).parsed(None, error@),
            },
    {
        match parsed {
            Ok(window) => self.submit_window(
                Some(window),
                Some(CaptureTimePolicy::Absolute(window)),
                view,
            ),
            Err(error) => {
                fail_view(view, error.as_str());
                TimeStep::Done(Outcome::Consumed)
            },
        }
    }

    /// The last seconds were resolved against the clock and written in words.
    pub fn set_recent(
        &mut self,
        seconds: u64,
        window: Option<CaptureTimeRange>,
        duration: String,
        view: &mut Option<TimeView>,
    ) -> (r: TimeStep)
        ensures
            (world(*final(self), *final(view)), r) == world(*old(self), *old(view)).recent_resolved(
                seconds,
                window,
                duration@,
            ),
    {
        if window.is_none() {
            return TimeStep::Done(Outcome::Consumed);
        }
        if let Some(state) = view {
            state.time_recent_draft = duration;
            state.time_error = None;
            state.time_draft_touched = true;
            state.time_window_draft = TimeWindowChoice::Recent(seconds);
            state.time_edit_marked = true;
        }
        self.submit_window(window, Some(CaptureTimePolicy::Recent { seconds }), view)
    }

    /// A submission was answered.
    pub fn submit_answered(&mut self, answer: SubmitAnswer, view: &mut Option<TimeView>) -> (r:
        Outcome)
        ensures
            (world(*final(self), *final(view)), r) == world(*old(self), *old(view)).answered(
                answer,
            ),
    {
        match answer {
            SubmitAnswer::Accepted => {
                self.open = false;
                Outcome::Close
            },
            SubmitAnswer::DefinitionFixed => {
                self.open = false;
                Outcome::Legacy(Action::StageForkedTimeWindow)
            },
            SubmitAnswer::QueueFull => {
                fail_view(view, "query submission queue is full; last window preserved");
                Outcome::Consumed
            },
        }
    }

    fn choose_zone(&mut self, zone: String, view: &mut Option<TimeView>)
        ensures
            world(*final(self), *final(view)) == world(*old(self), *old(view)).zone_chosen(zone@),
    {
        match self.state.focus {
            TimeControl::StartZone | TimeControl::StartZoneMenu => {
                self.state.start.zone = zone;
                self.state.start_zone_custom = false;
            },
            TimeControl::EndZone | TimeControl::EndZoneMenu => {
                self.state.end.zone = zone;
                self.state.end_zone_custom = false;
            },
            _ => return,
        }
        self.state.window = TimeWindowChoice::Absolute;
        self.keep_bounds(view);
    }

    fn type_zone(&mut self)
        ensures
            forall|v: Option<ViewModel>| #[trigger]
                (TimeWorld { d: old(self).model(), v }).zone_typed() == (TimeWorld {
                    d: final(self).model(),
                    v,
                }),
    {
        match self.state.focus {
            TimeControl::StartZone | TimeControl::StartZoneMenu => {
                self.state.start_zone_custom = true;
                self.state.focus = TimeControl::StartZone;
            },
            TimeControl::EndZone | TimeControl::EndZoneMenu => {
                self.state.end_zone_custom = true;
                self.state.focus = TimeControl::EndZone;
            },
            _ => {},
        }
        self.state.segment_cursor = usize::MAX;
    }

    fn set_window(&mut self, window: TimeWindowChoice, view: &mut Option<TimeView>)
        ensures
            world(*final(self), *final(view)) == world(*old(self), *old(view)).window_set(window),
    {
        self.state.window = window;
        if let Some(state) = view {
            state.time_edit_marked = true;
            state.time_error = None;
            state.time_window_draft = window;
            state.time_draft_touched = true;
        }
    }

    fn choose_reading(&mut self, row: usize)
        requires
            TimeDialog::bounded(old(self).model()),
        ensures
            forall|v: Option<ViewModel>| #[trigger]
                (TimeWorld { d: old(self).model(), v }).reading_chosen(row as int) == (TimeWorld {
                    d: final(self).model(),
                    v,
                }),
    {
        let shown: usize = self.state.pending_readings();
        let last: usize = if shown == 0 {
            0
        } else {
            shown - 1
        };
        self.state.pending_reading = if row <= last {
            row
        } else {
            last
        };
        self.state.field_error = None;
        self.state.focus = TimeControl::AcceptField;
        self.state.reveal_focus = true;
    }

    fn choose_row(&mut self, view: &mut Option<TimeView>, zones: &Vec<ZoneChoice>) -> (r: TimeStep)
        requires
            TimeDialog::bounded(old(self).model()),
        ensures
            (world(*final(self), *final(view)), r) == world(*old(self), *old(view)).chosen(
                zone_tokens(zones@),
            ),
    {
        let row: usize = self.state.highlighted;
        let dropdown = self.state.dropdown;
        self.state.dropdown = None;
        match dropdown {
            None => {},
            Some(TimeDropdown::Basis) => if row == 0 {
                self.set_basis(TimeBasis::Capture, view);
            } else if row == 1 {
                self.set_basis(TimeBasis::Event, view);
            } else if row == 2 {
                self.set_basis(TimeBasis::Extracted, view);
            } else if row - 3 < self.state.recognition.candidates.len() {
                self.choose_field(row - 3, view);
            },
            Some(TimeDropdown::Reading) => self.choose_reading(row),
            Some(TimeDropdown::Window) => if row < self.state.window_choices.len() {
                let window = self.state.window_choices[row];
                if window == TimeWindowChoice::AroundSelected {
                    if self.anchor().is_none() {
                        fail_view(
                            view,
                            "Around selected is unavailable: the opening record has no timestamp in this basis",
                        );
                    } else {
                        return self.around_selected(view, false);
                    }
                } else {
                    self.set_window(window, view);
                }
            },
            Some(TimeDropdown::StartZone) | Some(TimeDropdown::EndZone) => if row < zones.len() {
                assert(zone_tokens(zones@)[row as int] == zones@[row as int].token@);
                self.choose_zone(zones[row].token.clone(), view);
            } else {
                self.type_zone();
            },
        }
        TimeStep::Done(Outcome::Consumed)
    }

    fn set_row(&self, dropdown: TimeDropdown, zones: &Vec<ZoneChoice>) -> (r: usize)
        requires
            TimeDialog::bounded(self.model()),
        ensures
            r == self.model().set_row(dropdown, zone_tokens(zones@)),
    {
        match dropdown {
            TimeDropdown::Basis => match self.state.basis {
                TimeBasis::Capture => 0,
                TimeBasis::Event => 1,
                TimeBasis::Extracted => 2,
                TimeBasis::Selected => self.field_row(),
            },
            TimeDropdown::Reading => self.state.pending_reading,
            TimeDropdown::Window => self.window_row(),
            TimeDropdown::StartZone => find_zone(zones, self.state.start.zone.as_str()),
            TimeDropdown::EndZone => find_zone(zones, self.state.end.zone.as_str()),
        }
    }

    fn field_row(&self) -> (r: usize)
        requires
            TimeDialog::bounded(self.model()),
        ensures
            r == match self.model().field_place(0) {
                Some(place) => place + 3,
                None => 0,
            },
    {
        let token = match &self.state.field_token {
            Some(token) => token,
            None => {
                proof {
                    no_field_place(self.model(), 0);
                }
                return 0;
            },
        };
        let mut i: usize = 0;
        while i < self.state.recognition.candidates.len()
            invariant
                i <= self.state.recognition.candidates@.len(),
                TimeDialog::bounded(self.model()),
                self.model().candidates == candidates(self.state.recognition.candidates@),
                self.model().field_token == Some(token@),
                self.model().field_place(0) == self.model().field_place(i as int),
            decreases self.state.recognition.candidates.len() - i,
        {
            assert(self.model().candidates[i as int].main.token
                == self.state.recognition.candidates@[i as int].main.token@);
            if same(self.state.recognition.candidates[i].main.token.as_str(), token.as_str()) {
                return i + 3;
            }
            i += 1;
        }
        0
    }

    fn window_row(&self) -> (r: usize)
        ensures
            r == place_or_start(self.model().window_choices, self.model().window),
    {
        let mut i: usize = 0;
        while i < self.state.window_choices.len()
            invariant
                i <= self.state.window_choices@.len(),
                place_from(
                    self.state.window_choices@,
                    self.state.window,
                    0,
                ) == place_from(
                    self.state.window_choices@,
                    self.state.window,
                    i as int,
                ),
            decreases self.state.window_choices.len() - i,
        {
            if self.state.window_choices[i] == self.state.window {
                return i;
            }
            i += 1;
        }
        0
    }

    fn recognize(&mut self) -> (r: TimeStep)
        ensures
            final(self).model() == (TimeModel { open: false, ..old(self).model() }),
            r == TimeStep::Done(Outcome::Legacy(Action::OpenTimestampAssistant)),
    {
        self.open = false;
        TimeStep::Done(Outcome::Legacy(Action::OpenTimestampAssistant))
    }

    fn open_focused(&mut self, view: &mut Option<TimeView>, zones: &Vec<ZoneChoice>) -> (r: TimeStep)
        requires
            TimeDialog::bounded(old(self).model()),
        ensures
            (world(*final(self), *final(view)), r) == world(*old(self), *old(view)).entered(
                zone_tokens(zones@),
            ),
    {
        if self.state.dropdown.is_some() {
            return self.choose_row(view, zones);
        }
        let list = match self.state.focus {
            TimeControl::Basis => Some(TimeDropdown::Basis),
            TimeControl::Window => Some(TimeDropdown::Window),
            TimeControl::StartZoneMenu => Some(TimeDropdown::StartZone),
            TimeControl::EndZoneMenu => Some(TimeDropdown::EndZone),
            TimeControl::Reading => Some(TimeDropdown::Reading),
            _ => None,
        };
        if let Some(list) = list {
            let row: usize = self.set_row(list, zones);
            self.state.dropdown = Some(list);
            self.state.highlighted = row;
            return TimeStep::Done(Outcome::Consumed);
        }
        self.state.highlighted = 0;
        match self.state.focus {
            TimeControl::AcceptField => self.accept_field(view),
            TimeControl::Apply => return self.submit(view),
            TimeControl::Clear => return self.clear(view),
            TimeControl::Recognize => return self.recognize(),
            TimeControl::ScrollUp => self.scroll_body(-1),
            TimeControl::ScrollDown => self.scroll_body(1),
            _ => {},
        }
        TimeStep::Done(Outcome::Consumed)
    }
}

proof fn no_field_place(model: TimeModel, from: int)
    requires
        model.field_token is None,
    ensures
        model.field_place(from) is None,
    decreases model.candidates.len() - from,
{
    if 0 <= from < model.candidates.len() {
        no_field_place(model, from + 1);
    }
}

fn window_around(center: i64) -> (r: (i64, i64))
    ensures
        (r.0 as int, r.1 as int) == around(center as int),
{
    let start: i64 = if center < i64::MIN + HALF_WINDOW_NANOS {
        i64::MIN
    } else {
        center - HALF_WINDOW_NANOS
    };
    let end: i64 = if center > i64::MAX - HALF_WINDOW_NANOS {
        i64::MAX
    } else {
        center + HALF_WINDOW_NANOS
    };
    (start, end)
}

fn find_time_control(list: &Vec<TimeControl>, control: TimeControl) -> (r: usize)
    requires
        list@.len() > 0,
    ensures
        r == place_or_start(list@, control),
        r < list@.len(),
{
    let mut i: usize = 0;
    while i < list.len()
        invariant
            i <= list@.len(),
            place_from(list@, control, 0) == place_from(
                list@,
                control,
                i as int,
            ),
        decreases list.len() - i,
    {
        if list[i] == control {
            return i;
        }
        i += 1;
    }
    0
}

impl TimeDialog {
    fn edit(&self, command: EditCommand) -> (r: TimeStep)
        ensures
            r == if self.model().editing() is Some {
                TimeStep::Edit(command)
            } else {
                TimeStep::Done(Outcome::Consumed)
            },
    {
        if self.editing_segment().is_some() {
            TimeStep::Edit(command)
        } else {
            TimeStep::Done(Outcome::Consumed)
        }
    }

    fn alt_key(&mut self, ch: char, view: &mut Option<TimeView>) -> (r: Option<TimeStep>)
        ensures
            match world(*old(self), *old(view)).after_alt(ch) {
                Some((after, step)) => world(*final(self), *final(view)) == after && r == Some(step),
                None => *final(self) == *old(self) && *final(view) == *old(view) && r is None,
            },
    {
        if ch == 't' {
            return Some(self.recognize());
        }
        if ch == 'a' {
            return Some(self.around_selected(view, false));
        }
        if ch == 'c' {
            return Some(self.clear(view));
        }
        if ch == '5' {
            return Some(TimeStep::Resolve(300));
        }
        if ch == 'm' {
            return Some(TimeStep::Resolve(900));
        }
        if ch == 'h' {
            return Some(TimeStep::Resolve(3600));
        }
        if ch == 'p' {
            self.set_basis(TimeBasis::Capture, view);
        } else if ch == 'e' {
            self.set_basis(TimeBasis::Event, view);
        } else if ch == 'u' {
            self.set_basis(TimeBasis::Extracted, view);
        } else {
            return None;
        }
        Some(TimeStep::Done(Outcome::Consumed))
    }

    #[verifier::rlimit(30)]
    pub fn key(&mut self, key: KeyEvent, view: &mut Option<TimeView>, zones: &Vec<ZoneChoice>) -> (r:
        TimeStep)
        requires
            TimeDialog::bounded(old(self).model()),
            zones@.len() < usize::MAX,
        ensures
            (world(*final(self), *final(view)), r) == world(*old(self), *old(view)).after_key(
                key,
                zone_tokens(zones@),
            ),
    {
        if !key.is_active() {
            return TimeStep::Done(Outcome::Ignored);
        }
        if key.modifiers.control {
            if let Some(command) = control_edit_for(key.code) {
                return self.edit(command);
            }
        }
        if self.editing_segment().is_some() && key.modifiers.is_empty() {
            if let Some(command) = arrow_edit_for(key.code) {
                return self.edit(command);
            }
        }
        assert(zone_tokens(zones@).len() == zones@.len());
        match key.code {
            KeyCode::Tab => self.move_focus(
                if key.modifiers.shift {
                    -1
                } else {
                    1
                },
            ),
            KeyCode::BackTab => self.move_focus(-1),
            KeyCode::Up => self.move_choice(-1, zones),
            KeyCode::Down => self.move_choice(1, zones),
            KeyCode::Left => self.move_cursor(-1),
            KeyCode::Right => self.move_cursor(1),
            KeyCode::Enter => return self.open_focused(view, zones),
            KeyCode::Backspace => self.edit_segment(None, view),
            KeyCode::Char(ch) => {
                if key.modifiers.alt {
                    if let Some(step) = self.alt_key(ch, view) {
                        return step;
                    }
                }
                self.edit_segment(Some(ch), view);
            },
            _ => return TimeStep::Done(Outcome::Ignored),
        }
        TimeStep::Done(Outcome::Consumed)
    }

    pub fn mouse(
        &mut self,
        kind: MouseEventKind,
        hit: Option<TimeHit>,
        view: &mut Option<TimeView>,
        zones: &Vec<ZoneChoice>,
    ) -> (r: TimeStep)
        requires
            TimeDialog::bounded(old(self).model()),
        ensures
            (world(*final(self), *final(view)), r) == world(*old(self), *old(view)).after_mouse(
                kind,
                hit,
                zone_tokens(zones@),
            ),
    {
        match kind {
            MouseEventKind::LeftDown => match hit {
                Some(TimeHit::Choice(index)) => {
                    self.state.highlighted = index;
                    return self.choose_row(view, zones);
                },
                Some(TimeHit::Control(control)) => {
                    self.focus_control(control);
                    return self.open_focused(view, zones);
                },
                None => {},
            },
            MouseEventKind::ScrollUp => self.scroll_body(-1),
            MouseEventKind::ScrollDown => self.scroll_body(1),
            MouseEventKind::Other => {},
        }
        TimeStep::Done(Outcome::Consumed)
    }

    pub fn command(&mut self, id: CommandId, view: &mut Option<TimeView>) -> (r: TimeStep)
        ensures
            (world(*final(self), *final(view)), r) == world(*old(self), *old(view)).after_command(
                id,
            ),
    {
        match id {
            CommandId::TimeClear => return self.clear(view),
            CommandId::TimeAroundSelected => return self.around_selected(view, false),
            CommandId::TimeBasisCapture => self.set_basis(TimeBasis::Capture, view),
            CommandId::TimeBasisEvent => self.set_basis(TimeBasis::Event, view),
            CommandId::TimeBasisExtracted => self.set_basis(TimeBasis::Extracted, view),
            CommandId::TimeRecentFive => return TimeStep::Resolve(300),
            CommandId::TimeRecentFifteen => return TimeStep::Resolve(900),
            CommandId::TimeRecentHour => return TimeStep::Resolve(3600),
            _ => return TimeStep::Done(Outcome::Ignored),
        }
        TimeStep::Done(Outcome::Consumed)
    }

    fn type_all(&mut self, chars: &Vec<char>)
        ensures
            final(self).model() == old(self).model().all_typed(chars@, chars@.len() as int),
    {
        let ghost before = self.model();
        let mut n: usize = 0;
        while n < chars.len()
            invariant
                n <= chars@.len(),
                self.model() == before.all_typed(chars@, n as int),
            decreases chars.len() - n,
        {
            let _ = self.edit_dialog_time_segment(Some(chars[n]));
            n += 1;
        }
    }

    /// A paste; a whole bound comes back divided.
    pub fn paste(&mut self, text: &str, view: &mut Option<TimeView>) -> (r: TimeStep)
        ensures
            (world(*final(self), *final(view)), r) == world(*old(self), *old(view)).pasted(text@),
    {
        let chars = chars_of(text);
        let whole = has_char(&chars, 'T');
        let bytes: usize = byte_len(text);
        let held: usize = self.segment_bytes();
        if has_control(&chars) || bytes > PASTE_BYTES || (!whole && (held > SEGMENT_BYTES || bytes
            > SEGMENT_BYTES - held)) {
            fail_view(
                view,
                "Pasted time exceeds the field limit or contains control characters; draft retained",
            );
            return TimeStep::Done(Outcome::Consumed);
        }
        if whole {
            return TimeStep::SplitPaste;
        }
        if !self.state.focus.segment() {
            return TimeStep::Done(Outcome::Consumed);
        }
        self.type_all(&chars);
        self.state.window = TimeWindowChoice::Absolute;
        self.keep_bounds(view);
        TimeStep::Done(Outcome::Consumed)
    }

    /// The pasted bound was divided into its parts.
    pub fn paste_bound(
        &mut self,
        bound: TimeBound,
        view: &mut Option<TimeView>,
        zones: &Vec<ZoneChoice>,
    )
        ensures
            world(*final(self), *final(view)) == world(*old(self), *old(view)).paste_split(
                bound.model(),
                zone_tokens(zones@),
            ),
    {
        let custom = !is_time_zone_preset(bound.zone.as_str(), zones);
        if self.state.focus.ends() {
            self.state.end = bound;
            self.state.end_zone_custom = custom;
        } else {
            self.state.start = bound;
            self.state.start_zone_custom = custom;
            self.state.focus = TimeControl::StartDate;
        }
        self.state.segment_cursor = usize::MAX;
        self.state.window = TimeWindowChoice::Absolute;
        self.keep_bounds(view);
    }

    pub fn handle(
        &mut self,
        event: Event<TimeHit>,
        view: &mut Option<TimeView>,
        zones: &Vec<ZoneChoice>,
    ) -> (r: TimeStep)
        requires
            TimeDialog::bounded(old(self).model()),
            zones@.len() < usize::MAX,
        ensures
            (world(*final(self), *final(view)), r) == world(*old(self), *old(view)).after_event(
                event,
                zone_tokens(zones@),
            ),
    {
        match event {
            Event::Key(key) => self.key(key, view, zones),
            Event::Paste(text) => self.paste(text.as_str(), view),
            Event::Mouse { kind, hit } => self.mouse(kind, hit, view, zones),
            Event::Dismiss => {
                if self.state.dropdown.is_some() {
                    self.state.dropdown = None;
                    return TimeStep::Done(Outcome::Consumed);
                }
                self.open = false;
                TimeStep::Done(Outcome::Close)
            },
            Event::Command(id) => self.command(id, view),
            Event::View(_) | Event::Resize => TimeStep::Done(Outcome::Ignored),
        }
    }
}

fn has_char(chars: &Vec<char>, ch: char) -> (r: bool)
    ensures
        r == chars@.contains(ch),
{
    let mut i: usize = 0;
    while i < chars.len()
        invariant
            i <= chars@.len(),
            forall|j: int| 0 <= j < i ==> chars@[j] != ch,
        decreases chars.len() - i,
    {
        if chars[i] == ch {
            return true;
        }
        i += 1;
    }
    false
}

/// The record the layer was opened on: its row, and its instants as far as they
/// are known.
#[derive(Debug)]
pub struct TimeAnchor {
    pub row: Option<String>,
    pub capture_nanos: Option<i64>,
    pub event_nanos: Option<i64>,
    pub extracted_nanos: Option<i64>,
}

/// The basis that the layer opens with: the one being edited, else the applied.
pub open spec fn opening_basis(view: Option<ViewModel>) -> TimeBasis {
    match view {
        Some(view) => if view.touched {
            view.basis
        } else {
            view.applied_basis
        },
        None => TimeBasis::Capture,
    }
}

/// The range that fresh drafts are written from: the applied one, else round the
/// opening record, else the last half minute. Drafts that were touched are kept.
pub open spec fn seed_range(view: Option<ViewModel>, anchor: TimeAnchor, now: i64) -> Option<
    CaptureTimeRange,
> {
    let center = match opening_basis(view) {
        TimeBasis::Capture => anchor.capture_nanos,
        TimeBasis::Event => anchor.event_nanos,
        TimeBasis::Extracted => anchor.extracted_nanos,
        TimeBasis::Selected => None,
    };
    if view is Some && view->0.touched {
        None
    } else if view is Some && view->0.applied_range is Some {
        view->0.applied_range
    } else {
        match center {
            Some(center) => Some(
                CaptureTimeRange {
                    start_unix_nanos: around(center as int).0 as i64,
                    end_unix_nanos: around(center as int).1 as i64,
                },
            ),
            None => Some(
                CaptureTimeRange {
                    start_unix_nanos: around(now as int).0 as i64,
                    end_unix_nanos: now,
                },
            ),
        }
    }
}

/// The range to write fresh drafts from, where they are to be written.
pub fn seed_for(view: &Option<TimeView>, anchor: &TimeAnchor, now: i64) -> (r: Option<
    CaptureTimeRange,
>)
    ensures
        r == seed_range(some_view(*view), *anchor, now),
{
    let mut basis = TimeBasis::Capture;
    if let Some(state) = view {
        if state.time_draft_touched {
            return None;
        }
        if state.applied_capture_time.is_some() {
            return state.applied_capture_time;
        }
        basis = state.applied_time_basis;
    }
    let center = match basis {
        TimeBasis::Capture => anchor.capture_nanos,
        TimeBasis::Event => anchor.event_nanos,
        TimeBasis::Extracted => anchor.extracted_nanos,
        TimeBasis::Selected => None,
    };
    match center {
        Some(center) => {
            let (start, end) = window_around(center);
            Some(CaptureTimeRange { start_unix_nanos: start, end_unix_nanos: end })
        },
        None => {
            let (start, _) = window_around(now);
            Some(CaptureTimeRange { start_unix_nanos: start, end_unix_nanos: now })
        },
    }
}

/// The view once its drafts are ready to be shown: fresh ones where they were
/// not touched, and divided into their parts where they were not yet. What was
/// typed is kept, whatever fresh drafts there are.
pub open spec fn view_opened(
    view: ViewModel,
    seed: Option<(Seq<char>, Seq<char>)>,
    start: BoundModel,
    end: BoundModel,
) -> ViewModel {
    let fresh = seed is Some && !view.touched;
    let seeded = match seed {
        Some((start_text, end_text)) => if fresh {
            ViewModel { start_draft: start_text, end_draft: end_text, ..view }
        } else {
            view
        },
        None => view,
    };
    if fresh || !view.structured {
        ViewModel { start, end, structured: true, ..seeded }
    } else {
        seeded
    }
}

/// The window that the layer opens with.
pub open spec fn opening_window(view: Option<ViewModel>) -> TimeWindowChoice {
    match view {
        None => TimeWindowChoice::All,
        Some(view) => if view.touched {
            view.window
        } else {
            match view.applied_policy {
                None => TimeWindowChoice::All,
                Some(CaptureTimePolicy::Absolute(_)) => TimeWindowChoice::Absolute,
                Some(CaptureTimePolicy::Recent { seconds }) => TimeWindowChoice::Recent(seconds),
            }
        },
    }
}

/// The field that the layer opens with.
pub open spec fn opening_field(view: Option<ViewModel>) -> Option<Seq<char>> {
    match view {
        None => None,
        Some(view) => if view.touched {
            view.field
        } else {
            view.applied_field
        },
    }
}

impl TimeWorld {
    /// The layer opens on a record. The drafts of the view are made ready and
    /// shown; a recognition of a new generation is asked for; nothing is
    /// submitted.
    pub open spec fn opened(
        self,
        anchor: TimeAnchor,
        seed: Option<(Seq<char>, Seq<char>)>,
        start: BoundModel,
        end: BoundModel,
        field_label: Seq<char>,
        zones: Seq<Seq<char>>,
        geometry: TimeGeometry,
    ) -> TimeWorld {
        let view = match self.v {
            Some(view) => Some(view_opened(view, seed, start, end)),
            None => None,
        };
        let shown_start = match view {
            Some(view) => view.start,
            None => BoundModel::blank(),
        };
        let shown_end = match view {
            Some(view) => view.end,
            None => BoundModel::blank(),
        };
        let drawn = self.d.queue.drawn();
        let token = opening_field(self.v);
        TimeWorld {
            d: TimeModel {
                open: true,
                focus: TimeControl::Basis,
                dropdown: None,
                window: opening_window(self.v),
                scroll: 0,
                reveal_focus: true,
                has_overflow: false,
                dropdown_scroll: 0,
                segment_cursor: usize::MAX as int,
                start: shown_start,
                end: shown_end,
                start_zone_custom: !zones.contains(shown_start.zone),
                end_zone_custom: !zones.contains(shown_end.zone),
                highlighted: 0,
                window_choices: window_list(opening_window(self.v)),
                anchored_row: some_text(anchor.row),
                anchored_capture: anchor.capture_nanos,
                anchored_event: anchor.event_nanos,
                anchored_extracted: anchor.extracted_nanos,
                anchored_selected: None,
                basis: opening_basis(self.v),
                field_token: token,
                field_label: if token is Some {
                    field_label
                } else {
                    Seq::empty()
                },
                candidates: Seq::empty(),
                sampled_records: 0,
                recognized_nanos: None,
                recognition_generation: drawn.generation,
                pending_field: None,
                pending_reading: 0,
                field_error: None,
                geometry,
                surface: self.d.surface,
                queue: match self.v {
                    Some(view) => drawn.put(
                        TimeAsk {
                            generation: drawn.generation as u64,
                            view_id: view.view_id,
                            token,
                            anchored_row: some_text(anchor.row),
                        },
                    ),
                    None => drawn,
                },
            },
            v: view,
        }
    }
}

fn copy_option(text: &Option<String>) -> (r: Option<String>)
    ensures
        some_text(r) == some_text(*text),
{
    match text {
        Some(text) => Some(text.clone()),
        None => None,
    }
}

impl TimeDialog {
    fn push(&mut self, request: TimeRecognitionRequest)
        ensures
            final(self).model() == (TimeModel {
                queue: old(self).model().queue.put(request.ask()),
                ..old(self).model()
            }),
    {
        let ghost before = self.outbox@.items;
        let _ = self.outbox.push(request);
        proof {
            let f = |r: TimeRecognitionRequest| r.ask();
            assert(before.push(request).map_values(f) =~= before.map_values(f).push(request.ask()));
            assert(self.model().queue =~= old(self).model().queue.put(request.ask()));
        }
    }

    /// Opens the layer on a record. `seed` holds the fresh drafts in words where
    /// they are to be written, and `start` and `end` the parts of the drafts.
    pub fn open(
        &mut self,
        view: &mut Option<TimeView>,
        anchor: TimeAnchor,
        seed: Option<(String, String)>,
        start: TimeBound,
        end: TimeBound,
        field_label: String,
        zones: &Vec<ZoneChoice>,
    )
        ensures
            final(self).model().geometry.controls@.len() == 0,
            final(self).model().geometry.choices@.len() == 0,
            world(*final(self), *final(view)) == world(*old(self), *old(view)).opened(
                anchor,
                match seed {
                    Some((start_text, end_text)) => Some((start_text@, end_text@)),
                    None => None,
                },
                start.model(),
                end.model(),
                field_label@,
                zone_tokens(zones@),
                final(self).model().geometry,
            ),
    {
        let mut basis = TimeBasis::Capture;
        let mut window = TimeWindowChoice::All;
        let mut token: Option<String> = None;
        let mut view_id: Option<String> = None;
        let mut shown_start = TimeBound {
            date: String::new(),
            clock: String::new(),
            zone: String::new(),
        };
        let mut shown_end = TimeBound {
            date: String::new(),
            clock: String::new(),
            zone: String::new(),
        };
        if let Some(state) = view {
            let fresh = seed.is_some() && !state.time_draft_touched;
            if let Some((start_text, end_text)) = seed {
                if fresh {
                    state.time_start_draft = start_text;
                    state.time_end_draft = end_text;
                }
            }
            if fresh || !state.time_structured_draft_present {
                state.time_start_date_draft = start.date;
                state.time_start_clock_draft = start.clock;
                state.time_start_zone_draft = start.zone;
                state.time_end_date_draft = end.date;
                state.time_end_clock_draft = end.clock;
                state.time_end_zone_draft = end.zone;
                state.time_structured_draft_present = true;
            }
            shown_start = TimeBound {
                date: state.time_start_date_draft.clone(),
                clock: state.time_start_clock_draft.clone(),
                zone: state.time_start_zone_draft.clone(),
            };
            shown_end = TimeBound {
                date: state.time_end_date_draft.clone(),
                clock: state.time_end_clock_draft.clone(),
                zone: state.time_end_zone_draft.clone(),
            };
            if state.time_draft_touched {
                basis = state.time_basis_draft;
                window = state.time_window_draft;
                token = copy_option(&state.time_field_draft);
            } else {
                basis = state.applied_time_basis;
                window = match state.applied_capture_time_policy {
                    None => TimeWindowChoice::All,
                    Some(CaptureTimePolicy::Absolute(_)) => TimeWindowChoice::Absolute,
                    Some(CaptureTimePolicy::Recent { seconds }) => TimeWindowChoice::Recent(
                        seconds,
                    ),
                };
                token = copy_option(&state.applied_time_field);
            }
            view_id = Some(state.view_id.clone());
        }
        let generation: u64 = self.outbox.next_generation();
        let row = copy_option(&anchor.row);
        let asked = copy_option(&token);
        self.open = true;
        self.state = TimeState {
            focus: TimeControl::Basis,
            dropdown: None,
            window,
            scroll: 0,
            reveal_focus: true,
            has_overflow: false,
            dropdown_scroll: 0,
            segment_cursor: usize::MAX,
            start_zone_custom: !is_time_zone_preset(shown_start.zone.as_str(), zones),
            start: shown_start,
            end_zone_custom: !is_time_zone_preset(shown_end.zone.as_str(), zones),
            end: shown_end,
            highlighted: 0,
            window_choices: time_window_choices(window),
            anchored_row: anchor.row,
            anchored_capture_nanos: anchor.capture_nanos,
            anchored_event_nanos: anchor.event_nanos,
            anchored_extracted_nanos: anchor.extracted_nanos,
            anchored_selected_nanos: None,
            basis,
            field_label: if token.is_some() {
                field_label
            } else {
                String::new()
            },
            field_token: token,
            recognition: TimeRecognition {
                candidates: Vec::new(),
                sampled_records: 0,
                anchored_selected_nanos: None,
            },
            recognition_generation: generation,
            pending_field: None,
            pending_reading: 0,
            field_error: None,
        };
        self.geometry = TimeGeometry { controls: Vec::new(), choices: Vec::new() };
        assert(self.model().candidates =~= Seq::<CandidateModel>::empty());
        if let Some(view_id) = view_id {
            self.push(
                TimeRecognitionRequest { generation, view_id, token: asked, anchored_row: row },
            );
        }
    }
}

/// The value of the first detail of a name.
pub open spec fn detail(details: Seq<(String, String)>, name: Seq<char>, from: int) -> Option<Seq<char>>
    decreases details.len() - from,
{
    if from < 0 || from >= details.len() {
        None
    } else if details[from].0@ == name {
        Some(details[from].1@)
    } else {
        detail(details, name, from + 1)
    }
}

/// The value of the first detail of a name.
pub fn find_detail(details: &Vec<(String, String)>, name: &str) -> (r: Option<String>)
    ensures
        some_text(r) == detail(details@, name@, 0),
{
    let mut i: usize = 0;
    while i < details.len()
        invariant
            i <= details@.len(),
            detail(details@, name@, 0) == detail(details@, name@, i as int),
        decreases details.len() - i,
    {
        if same(details[i].0.as_str(), name) {
            return Some(details[i].1.clone());
        }
        i += 1;
    }
    None
}

/// The instant of an event by the details of its record.
pub fn event_nanos(details: &Vec<(String, String)>) -> (r: Option<i64>)
    ensures
        r == match detail(details@, "event_time_utc_nanos"@, 0) {
            Some(value) => signed(value),
            None => None,
        },
{
    match find_detail(details, "event_time_utc_nanos") {
        Some(value) => parse_i64(value.as_str()),
        None => None,
    }
}

/// The field that the layer opens with: the one being edited, else the applied.
pub fn field_to_open(view: &Option<TimeView>) -> (r: Option<String>)
    ensures
        some_text(r) == opening_field(some_view(*view)),
{
    match view {
        None => None,
        Some(state) => if state.time_draft_touched {
            copy_option(&state.time_field_draft)
        } else {
            copy_option(&state.applied_time_field)
        },
    }
}

} // verus!
