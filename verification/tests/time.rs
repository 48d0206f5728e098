use lvu::component::{Action, CommandId, EditCommand, Edited, Event, Outcome};
use lvu::components::time::frame::{
    place_choices, reading_row, time_action_labels, time_basis_entries, time_diagnostics,
    time_spec, window_text, zone_text,
};
use lvu::components::time::render::TimeFrame;
use lvu::components::time::{
    event_nanos, field_to_open, find_detail, seed_for, time_zone_choice_count, CaptureTimePolicy,
    CaptureTimeRange, SubmitAnswer, TimeAnchor,
    TimeBasis, TimeBound, TimeControl, TimeDialog, TimeDropdown, TimeFieldCandidate, TimeHit,
    TimeReading, TimeRecognition, TimeStep, TimeView, TimeWindowChoice, ZoneChoice,
};
use lvu::dialog_controls::button_layout;
use lvu::dialog_layout::FrameRegions;
use lvu::geometry::Rect;
use lvu::input::{KeyCode, KeyEvent, KeyEventKind, Modifiers, MouseEventKind};
use lvu::paint::Paint;
use lvu::style::{
    Color, ColorDepth, HeartColors, JsonColors, ReadableColors, SeverityColors, Theme,
};

fn theme() -> Theme {
    let grey = Color::Indexed(0);
    Theme {
        base_fg: grey,
        base_bg: grey,
        muted: grey,
        dialog_bg: grey,
        accent: grey,
        input_fg: grey,
        input_bg: grey,
        cursor: grey,
        selection_fg: grey,
        selection_bg: grey,
        severity: SeverityColors { info: grey, warn: grey, error: grey },
        json: JsonColors {
            string: grey,
            number: grey,
            boolean: grey,
            null: grey,
            punctuation: grey,
        },
        heart: HeartColors { primary: grey, error: grey },
        depth: ColorDepth::TrueColor,
        readable: ReadableColors {
            base_on_dialog: grey,
            accent_on_dialog: grey,
            input_on_input: grey,
            selection_on_selection: grey,
            info_on_dialog: grey,
            warn_on_dialog: grey,
            error_on_dialog: grey,
            dialog_on_accent: grey,
        },
    }
}

const SECOND: i64 = 1_000_000_000;

fn key(code: KeyCode) -> KeyEvent {
    KeyEvent {
        code,
        modifiers: Modifiers { shift: false, control: false, alt: false, other: false },
        kind: KeyEventKind::Press,
    }
}

fn alt(letter: char) -> KeyEvent {
    let mut event = key(KeyCode::Char(letter));
    event.modifiers.alt = true;
    event
}

fn view() -> TimeView {
    TimeView {
        view_id: "v".to_owned(),
        selected: None,
        time_start_draft: String::new(),
        time_end_draft: String::new(),
        time_recent_draft: String::new(),
        time_start_date_draft: String::new(),
        time_start_clock_draft: String::new(),
        time_start_zone_draft: String::new(),
        time_end_date_draft: String::new(),
        time_end_clock_draft: String::new(),
        time_end_zone_draft: String::new(),
        time_structured_draft_present: false,
        time_window_draft: TimeWindowChoice::All,
        time_basis_draft: TimeBasis::Capture,
        time_field_draft: None,
        time_draft_touched: false,
        time_error: None,
        time_edit_marked: false,
        applied_time_basis: TimeBasis::Capture,
        applied_time_field: None,
        applied_capture_time_policy: None,
        applied_capture_time: None,
        update_pending: false,
    }
}

fn zones() -> Vec<ZoneChoice> {
    vec![
        ZoneChoice { label: "UTC".to_owned(), token: "UTC".to_owned() },
        ZoneChoice { label: "Berlin".to_owned(), token: "Europe/Berlin".to_owned() },
    ]
}

fn anchor(capture: Option<i64>) -> TimeAnchor {
    TimeAnchor {
        row: Some("row".to_owned()),
        capture_nanos: capture,
        event_nanos: None,
        extracted_nanos: None,
    }
}

fn bound(date: &str, clock: &str, zone: &str) -> TimeBound {
    TimeBound { date: date.to_owned(), clock: clock.to_owned(), zone: zone.to_owned() }
}

fn opened(capture: Option<i64>) -> (TimeDialog, Option<TimeView>) {
    let mut dialog = TimeDialog::default();
    let mut state = Some(view());
    dialog.open(
        &mut state,
        anchor(capture),
        Some(("start".to_owned(), "end".to_owned())),
        bound("2024-01-02", "03:04:05", "UTC"),
        bound("2024-01-02", "03:05:05", "+02:00"),
        String::new(),
        &zones(),
    );
    (dialog, state)
}

fn reading(token: &str, assumptions: &[&str], blocked: Option<&str>) -> TimeReading {
    TimeReading {
        token: token.to_owned(),
        label: format!("label {token}"),
        reading: format!("reads {token}"),
        blocked: blocked.map(str::to_owned),
        assumptions: assumptions.iter().map(|text| (*text).to_owned()).collect(),
        coverage_percent: None,
    }
}

fn recognized(dialog: &mut TimeDialog, candidates: Vec<TimeFieldCandidate>) {
    let generation = dialog.state().recognition_generation;
    assert!(dialog.complete_recognition(
        generation,
        TimeRecognition { candidates, sampled_records: 10, anchored_selected_nanos: None }
    ));
}

fn focus(dialog: &mut TimeDialog, state: &mut Option<TimeView>, control: TimeControl) {
    for _ in 0..20 {
        if dialog.state().focus == control {
            return;
        }
        dialog.key(key(KeyCode::Tab), state, &zones());
    }
    panic!("the control takes the focus");
}

#[test]
fn time_seed_follows_the_record_or_the_clock() {
    let untouched = Some(view());
    assert_eq!(
        seed_for(&untouched, &anchor(Some(100 * SECOND)), 0),
        Some(CaptureTimeRange { start_unix_nanos: 70 * SECOND, end_unix_nanos: 130 * SECOND })
    );
    assert_eq!(
        seed_for(&untouched, &anchor(None), 100 * SECOND),
        Some(CaptureTimeRange { start_unix_nanos: 70 * SECOND, end_unix_nanos: 100 * SECOND })
    );
    let mut applied = view();
    let range = CaptureTimeRange { start_unix_nanos: 1, end_unix_nanos: 2 };
    applied.applied_capture_time = Some(range);
    assert_eq!(seed_for(&Some(applied), &anchor(None), 0), Some(range));
    let mut touched = view();
    touched.time_draft_touched = true;
    assert_eq!(seed_for(&Some(touched), &anchor(Some(0)), 0), None);
    assert_eq!(
        seed_for(&None, &anchor(Some(i64::MIN)), 0).map(|range| range.start_unix_nanos),
        Some(i64::MIN)
    );
}

#[test]
fn time_opens_with_its_drafts_and_asks_for_readings() {
    let (mut dialog, state) = opened(Some(0));
    assert!(dialog.is_open());
    assert_eq!(dialog.state().window, TimeWindowChoice::All);
    assert!(!dialog.state().start_zone_custom);
    assert!(dialog.state().end_zone_custom);
    let state = state.expect("a view");
    assert_eq!(state.time_start_draft, "start");
    assert_eq!(state.time_end_clock_draft, "03:05:05");
    assert!(!state.time_draft_touched);
    let requests = dialog.outbox.drain();
    assert_eq!(requests.len(), 1);
    assert_eq!(requests[0].view_id, "v");
    assert_eq!(requests[0].anchored_row.as_deref(), Some("row"));
    assert!(!dialog.complete_recognition(
        requests[0].generation + 1,
        TimeRecognition { candidates: Vec::new(), sampled_records: 9, anchored_selected_nanos: None }
    ));
    assert_eq!(dialog.state().recognition.sampled_records, 0);
}

#[test]
fn time_typing_makes_the_window_absolute() {
    let (mut dialog, mut state) = opened(Some(0));
    focus(&mut dialog, &mut state, TimeControl::StartDate);
    assert_eq!(
        dialog.key(key(KeyCode::Char('9')), &mut state, &zones()),
        TimeStep::Done(Outcome::Consumed)
    );
    assert_eq!(dialog.state().start.date, "2024-01-029");
    assert_eq!(dialog.state().window, TimeWindowChoice::Absolute);
    let kept = state.as_ref().expect("a view");
    assert_eq!(kept.time_start_date_draft, "2024-01-029");
    assert!(kept.time_draft_touched);
    dialog.key(key(KeyCode::Backspace), &mut state, &zones());
    assert_eq!(dialog.state().start.date, "2024-01-02");
    assert_eq!(
        dialog.key(key(KeyCode::Left), &mut state, &zones()),
        TimeStep::Edit(EditCommand::MoveLeft)
    );
    dialog.apply_edit(
        Edited { value: "2024-01-02".to_owned(), cursor: 9, changed: false, moved: true },
        &mut state,
    );
    assert_eq!(dialog.state().segment_cursor, 9);
}

#[test]
fn time_invalid_draft_is_kept() {
    let (mut dialog, mut state) = opened(Some(0));
    focus(&mut dialog, &mut state, TimeControl::StartDate);
    dialog.key(key(KeyCode::Char('9')), &mut state, &zones());
    focus(&mut dialog, &mut state, TimeControl::Apply);
    assert_eq!(dialog.key(key(KeyCode::Enter), &mut state, &zones()), TimeStep::Parse);
    let step = dialog.submit_parsed(Err("bad start".to_owned()), &mut state);
    assert_eq!(step, TimeStep::Done(Outcome::Consumed));
    assert_eq!(state.as_ref().expect("a view").time_error.as_deref(), Some("bad start"));
    assert_eq!(dialog.state().start.date, "2024-01-029");
    let range = CaptureTimeRange { start_unix_nanos: 1, end_unix_nanos: 2 };
    assert_eq!(
        dialog.submit_parsed(Ok(range), &mut state),
        TimeStep::Submit {
            window: Some(range),
            policy: Some(CaptureTimePolicy::Absolute(range)),
            basis: TimeBasis::Capture
        }
    );
    assert_eq!(
        dialog.submit_answered(SubmitAnswer::QueueFull, &mut state),
        Outcome::Consumed
    );
    assert_eq!(
        state.as_ref().expect("a view").time_error.as_deref(),
        Some("query submission queue is full; last window preserved")
    );
    assert!(dialog.is_open());
    assert_eq!(
        dialog.submit_answered(SubmitAnswer::DefinitionFixed, &mut state),
        Outcome::Legacy(Action::StageForkedTimeWindow)
    );
    assert!(!dialog.is_open());
}

#[test]
fn time_window_round_the_record() {
    let (mut dialog, mut state) = opened(Some(100 * SECOND));
    assert_eq!(
        dialog.command(CommandId::TimeAroundSelected, &mut state),
        TimeStep::Around { start: 70 * SECOND, end: 130 * SECOND, submit: false }
    );
    dialog.around_done(
        bound("a", "b", "UTC"),
        bound("c", "d", "UTC"),
        false,
        &mut state,
        &zones(),
    );
    assert_eq!(dialog.state().window, TimeWindowChoice::AroundSelected);
    assert_eq!(dialog.state().end.date, "c");
    let (mut dialog, mut state) = opened(None);
    assert_eq!(
        dialog.key(alt('a'), &mut state, &zones()),
        TimeStep::Done(Outcome::Consumed)
    );
    assert_eq!(
        state.expect("a view").time_error.as_deref(),
        Some("selected record has no capture timestamp")
    );
}

#[test]
fn time_recent_and_cleared_windows() {
    let (mut dialog, mut state) = opened(Some(0));
    assert_eq!(dialog.key(alt('m'), &mut state, &zones()), TimeStep::Resolve(900));
    let range = CaptureTimeRange { start_unix_nanos: 1, end_unix_nanos: 2 };
    assert_eq!(
        dialog.set_recent(900, Some(range), "15 minutes".to_owned(), &mut state),
        TimeStep::Submit {
            window: Some(range),
            policy: Some(CaptureTimePolicy::Recent { seconds: 900 }),
            basis: TimeBasis::Capture
        }
    );
    assert_eq!(state.as_ref().expect("a view").time_recent_draft, "15 minutes");
    assert_eq!(
        dialog.key(alt('c'), &mut state, &zones()),
        TimeStep::Submit { window: None, policy: None, basis: TimeBasis::Capture }
    );
    assert_eq!(dialog.state().start.date, "");
    assert_eq!(dialog.state().window, TimeWindowChoice::All);
}

#[test]
fn time_assumption_waits_for_acceptance() {
    let (mut dialog, mut state) = opened(Some(0));
    recognized(
        &mut dialog,
        vec![
            TimeFieldCandidate { main: reading("plain", &[], None), alternatives: Vec::new() },
            TimeFieldCandidate {
                main: reading("ts", &["UTC is assumed"], Some("ambiguous")),
                alternatives: vec![reading("day first", &["day first"], None)],
            },
            TimeFieldCandidate {
                main: reading("never", &[], Some("not a time")),
                alternatives: Vec::new(),
            },
        ],
    );
    assert_eq!(time_basis_entries(dialog.state()).len(), 6);
    dialog.key(key(KeyCode::Enter), &mut state, &zones());
    assert_eq!(dialog.state().dropdown, Some(TimeDropdown::Basis));
    dialog.mouse(MouseEventKind::LeftDown, Some(TimeHit::Choice(4)), &mut state, &zones());
    assert_eq!(dialog.state().basis, TimeBasis::Capture);
    assert_eq!(dialog.state().pending_reading, 1);
    assert_eq!(dialog.state().focus, TimeControl::AcceptField);
    dialog.key(key(KeyCode::Enter), &mut state, &zones());
    assert_eq!(dialog.state().basis, TimeBasis::Selected);
    assert_eq!(dialog.state().field_token.as_deref(), Some("day first"));
    assert_eq!(
        state.as_ref().expect("a view").time_field_draft.as_deref(),
        Some("day first")
    );
    dialog.key(key(KeyCode::Enter), &mut state, &zones());
    dialog.mouse(MouseEventKind::LeftDown, Some(TimeHit::Choice(5)), &mut state, &zones());
    assert_eq!(dialog.state().field_error.as_deref(), Some("not a time"));
    assert_eq!(dialog.state().field_token.as_deref(), Some("day first"));
    dialog.key(key(KeyCode::Enter), &mut state, &zones());
    dialog.mouse(MouseEventKind::LeftDown, Some(TimeHit::Choice(3)), &mut state, &zones());
    assert_eq!(dialog.state().field_token.as_deref(), Some("plain"));
    dialog.command(CommandId::TimeBasisEvent, &mut state);
    assert_eq!(dialog.state().field_token, None);
    assert_eq!(state.expect("a view").time_field_draft, None);
}

#[test]
fn time_lists_close_before_the_layer() {
    let (mut dialog, mut state) = opened(Some(0));
    dialog.key(key(KeyCode::Enter), &mut state, &zones());
    assert_eq!(
        dialog.handle(Event::Dismiss, &mut state, &zones()),
        TimeStep::Done(Outcome::Consumed)
    );
    assert!(dialog.is_open());
    assert_eq!(
        dialog.handle(Event::Dismiss, &mut state, &zones()),
        TimeStep::Done(Outcome::Close)
    );
    assert!(!dialog.is_open());
}

#[test]
fn time_paste_is_bounded() {
    let (mut dialog, mut state) = opened(Some(0));
    focus(&mut dialog, &mut state, TimeControl::StartClock);
    dialog.handle(Event::Paste("1\n".to_owned()), &mut state, &zones());
    assert_eq!(
        state.as_ref().expect("a view").time_error.as_deref(),
        Some("Pasted time exceeds the field limit or contains control characters; draft retained")
    );
    assert_eq!(
        dialog.handle(Event::Paste("2024-05-06T07:08:09Z".to_owned()), &mut state, &zones()),
        TimeStep::SplitPaste
    );
    dialog.paste_bound(bound("2024-05-06", "07:08:09", "UTC"), &mut state, &zones());
    assert_eq!(dialog.state().start.clock, "07:08:09");
    assert_eq!(dialog.state().end.clock, "03:05:05");
    assert_eq!(state.expect("a view").time_error, None);
}

#[test]
fn time_focus_steps_cancel() {
    let (mut dialog, mut state) = opened(Some(0));
    focus(&mut dialog, &mut state, TimeControl::EndClock);
    dialog.key(key(KeyCode::Tab), &mut state, &zones());
    assert_ne!(dialog.state().focus, TimeControl::EndClock);
    dialog.key(key(KeyCode::BackTab), &mut state, &zones());
    assert_eq!(dialog.state().focus, TimeControl::EndClock);
}

#[test]
fn time_words() {
    assert_eq!(window_text(TimeWindowChoice::All, ""), "All time");
    assert_eq!(window_text(TimeWindowChoice::Recent(7), "7 seconds"), "Custom last 7 seconds");
    assert_eq!(zone_text("Europe/Oslo", true), "Europe/Oslo");
    assert_eq!(zone_text("Z", false), "UTC");
    assert_eq!(zone_text("+02:00", false), "UTC+02:00");
    let blocked = reading("x", &[], Some("ambiguous"));
    assert!(reading_row(&blocked).contains("reads x"));
    let details = |value: &str| {
        vec![
            ("other".to_owned(), "5".to_owned()),
            ("event_time_utc_nanos".to_owned(), value.to_owned()),
        ]
    };
    assert_eq!(event_nanos(&details("-12")), Some(-12));
    assert_eq!(event_nanos(&details("noon")), None);
    assert_eq!(event_nanos(&details("9223372036854775808")), None);
    assert_eq!(event_nanos(&Vec::new()), None);
    let dialog = TimeDialog::default();
    assert!(!dialog.commands(true).is_empty());
    let small = place_choices(
        Rect::new(0, 0, 40, 20),
        Rect::new(2, 2, 36, 10),
        Rect::new(13, 2, 20, 1),
        0,
        10,
        3,
        0,
    );
    assert!(small.is_some());
}

#[test]
fn time_frame_records_what_it_drew() {
    let (mut dialog, mut state) = opened(Some(0));
    let body = Rect::new(2, 2, 60, 12);
    let shown = state.take().expect("a view");
    let blank = String::new();
    let none = Vec::new();
    let durations: Vec<String> =
        dialog.state().window_choices.iter().map(|_| "a while".to_owned()).collect();
    let zones = zones();
    let labels = time_action_labels(true);
    assert_eq!(labels, vec!["Apply", "Clear", "Agent Recognize timestamp"]);
    let buttons = button_layout(Rect::new(2, 18, 60, 1), &labels, None);
    let frame = TimeFrame {
        view: &shown,
        area: Rect::new(0, 0, 64, 20),
        regions: FrameRegions {
            popup: Rect::new(0, 0, 64, 20),
            interior: Rect::new(1, 1, 62, 18),
            content: Rect::new(2, 1, 60, 18),
            header: Rect::new(2, 1, 60, 1),
            body,
            message: Rect::new(2, 15, 60, 2),
            help: Rect::new(2, 17, 60, 1),
            actions: Rect::new(2, 18, 60, 1),
        },
        duration: &blank,
        applied_duration: &blank,
        applied_start: &blank,
        applied_end: &blank,
        diagnostics: &none,
        typed: &blank,
        typed_column: 0,
        bases: &none,
        durations: &durations,
        zones: &zones,
        theme: theme(),
        ascii: true,
    };
    let (paints, surface) = dialog.render(frame);
    assert_eq!(surface.popup, Rect::new(0, 0, 64, 20));
    assert!(!paints.is_empty());
    assert!(paints.iter().any(|paint| matches!(paint, Paint::Frame { .. })));
    let basis = dialog
        .control_rects()
        .iter()
        .find(|(_, control)| *control == TimeControl::Basis)
        .expect("the basis is drawn")
        .0;
    assert_eq!(dialog.hit(basis.x, basis.y), Some(TimeHit::Control(TimeControl::Basis)));
    assert_eq!(buttons.len(), 3);
    for ((_, area), control) in buttons.iter().zip([
        TimeControl::Apply,
        TimeControl::Clear,
        TimeControl::Recognize,
    ]) {
        assert_eq!(dialog.hit(area.x, area.y), Some(TimeHit::Control(control)));
    }
    assert_eq!(dialog.hit(63, 19), None);
    dialog.render_nothing();
    assert_eq!(dialog.hit(basis.x, basis.y), None);
}

#[test]
fn time_bounds_are_switched() {
    let (mut dialog, mut state) = opened(Some(0));
    dialog.switch_field();
    assert_eq!(dialog.state().focus, TimeControl::EndDate);
    dialog.switch_field();
    assert_eq!(dialog.state().focus, TimeControl::StartDate);
    assert_eq!(dialog.state().segment_cursor, usize::MAX);
    assert_eq!(time_zone_choice_count(&zones()), 2);
    focus(&mut dialog, &mut state, TimeControl::Window);
    dialog.key(key(KeyCode::Enter), &mut state, &zones());
    dialog.highlight(3);
    dialog.key(key(KeyCode::Enter), &mut state, &zones());
    assert_eq!(dialog.state().window, TimeWindowChoice::Recent(900));
    assert_eq!(
        state.expect("a view").time_window_draft,
        TimeWindowChoice::Recent(900)
    );
}

#[test]
fn time_reopening_shows_what_was_typed() {
    let (mut dialog, mut state) = opened(Some(0));
    focus(&mut dialog, &mut state, TimeControl::StartDate);
    dialog.key(key(KeyCode::Char('9')), &mut state, &zones());
    dialog.handle(Event::Dismiss, &mut state, &zones());
    dialog.open(
        &mut state,
        anchor(Some(0)),
        Some(("fresh".to_owned(), "fresh".to_owned())),
        bound("1999-01-01", "00:00:00", "UTC"),
        bound("1999-01-01", "00:00:00", "UTC"),
        String::new(),
        &zones(),
    );
    assert_eq!(dialog.state().start.date, "2024-01-029");
    assert_eq!(dialog.state().window, TimeWindowChoice::Absolute);
    assert_eq!(
        state.expect("a view").time_start_draft,
        "2024-01-029T03:04:05UTC"
    );
}

#[test]
fn time_lists_are_labelled() {
    let (mut dialog, mut state) = opened(Some(0));
    recognized(
        &mut dialog,
        vec![TimeFieldCandidate {
            main: reading("ts", &["UTC is assumed"], None),
            alternatives: vec![reading("day", &[], Some("ambiguous"))],
        }],
    );
    let bases = vec!["Capture".to_owned(), "Event".to_owned(), "Extracted".to_owned()];
    let durations: Vec<String> =
        dialog.state().window_choices.iter().map(|_| "a while".to_owned()).collect();
    assert!(dialog.list_labels(&bases, &durations, &zones()).is_empty());
    dialog.key(key(KeyCode::Enter), &mut state, &zones());
    assert_eq!(
        dialog.list_labels(&bases, &durations, &zones()),
        vec![
            "Capture",
            "Event",
            "Extracted",
            "label ts \u{b7} reads ts \u{b7} needs an assumption"
        ]
    );
    dialog.mouse(MouseEventKind::LeftDown, Some(TimeHit::Choice(3)), &mut state, &zones());
    focus(&mut dialog, &mut state, TimeControl::Reading);
    dialog.key(key(KeyCode::Enter), &mut state, &zones());
    assert_eq!(
        dialog.list_labels(&bases, &durations, &zones()),
        vec!["reads ts \u{b7} needs an assumption", "reads day \u{b7} blocked"]
    );
    dialog.handle(Event::Dismiss, &mut state, &zones());
    focus(&mut dialog, &mut state, TimeControl::Window);
    dialog.key(key(KeyCode::Enter), &mut state, &zones());
    let labels = dialog.list_labels(&bases, &durations, &zones());
    assert_eq!(labels[0], "All time");
    assert_eq!(labels[2], "Last a while");
    assert_eq!(labels[5], "Around selected");
    dialog.handle(Event::Dismiss, &mut state, &zones());
    focus(&mut dialog, &mut state, TimeControl::EndZoneMenu);
    dialog.key(key(KeyCode::Enter), &mut state, &zones());
    assert_eq!(
        dialog.list_labels(&bases, &durations, &zones()),
        vec!["UTC", "Berlin", "Custom offset\u{2026}"]
    );
}

#[test]
fn time_message_that_overflows_becomes_diagnostics() {
    let wrapped = || vec!["one".to_owned(), "two".to_owned(), "three".to_owned()];
    assert_eq!(time_diagnostics(2, 2, wrapped()), (Vec::new(), 0));
    assert_eq!(time_diagnostics(3, 2, wrapped()), (wrapped(), 5));
    assert_eq!(time_diagnostics(3, 2, Vec::new()), (Vec::new(), 0));
    let spec = time_spec(12, 5, 2, 1, 1);
    assert_eq!((spec.header, spec.body, spec.message, spec.help, spec.actions), (0, 17, 2, 1, 1));
    assert_eq!(time_spec(65535, 5, 2, 1, 1).body, 65535);
    assert_eq!(
        time_action_labels(false),
        vec!["Apply", "Clear", "\u{1f9e0} Recognize timestamp"]
    );
}

#[test]
fn time_opens_with_the_field_being_edited() {
    let (_, mut state) = opened(Some(0));
    let shown = state.as_mut().expect("a view");
    shown.applied_time_field = Some("applied".to_owned());
    shown.time_field_draft = Some("draft".to_owned());
    shown.time_draft_touched = false;
    assert_eq!(field_to_open(&state), Some("applied".to_owned()));
    state.as_mut().expect("a view").time_draft_touched = true;
    assert_eq!(field_to_open(&state), Some("draft".to_owned()));
    assert_eq!(field_to_open(&None), None);
    let details = vec![
        ("a".to_owned(), "1".to_owned()),
        ("b".to_owned(), "2".to_owned()),
        ("b".to_owned(), "3".to_owned()),
    ];
    assert_eq!(find_detail(&details, "b"), Some("2".to_owned()));
    assert_eq!(find_detail(&details, "c"), None);
}
