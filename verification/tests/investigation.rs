use lvu::component::{CommandId, EditCommand, Edited, Event, MessageState, Outcome, Step};
use lvu::components::investigation::frame::{
    caret_cell, flatten_rows, investigation_spec_for, mark_rows, question_top, split_body,
    title_for, wrap_width, SESSION_HELP, START_HELP,
};
use lvu::components::investigation::render::InvestigationFrame;
use lvu::components::investigation::{
    InvestigationControl, InvestigationDialog, InvestigationHit, InvestigationItem,
    InvestigationRequest, InvestigationStage,
};
use lvu::dialog_controls::ActionGeometry;
use lvu::dialog_layout::{ListGeometry, ResolvedDialog};
use lvu::geometry::Rect;
use lvu::input::{KeyCode, KeyEvent, KeyEventKind, Modifiers, MouseEventKind};
use lvu::paint::Paint;
use lvu::style::{
    Color, ColorDepth, HeartColors, JsonColors, ReadableColors, SeverityColors, Style, Theme,
};

fn theme() -> Theme {
    let grey = Color::Indexed(0);
    Theme {
        base_fg: grey,
        base_bg: grey,
        muted: grey,
        dialog_bg: grey,
        accent: grey,
        input_fg: grey,
        input_bg: grey,
        cursor: grey,
        selection_fg: grey,
        selection_bg: grey,
        severity: SeverityColors { info: grey, warn: grey, error: grey },
        json: JsonColors {
            string: grey,
            number: grey,
            boolean: grey,
            null: grey,
            punctuation: grey,
        },
        heart: HeartColors { primary: grey, error: grey },
        depth: ColorDepth::TrueColor,
        readable: ReadableColors {
            base_on_dialog: grey,
            accent_on_dialog: grey,
            input_on_input: grey,
            selection_on_selection: grey,
            info_on_dialog: grey,
            warn_on_dialog: grey,
            error_on_dialog: grey,
            dialog_on_accent: grey,
        },
    }
}

const LIMIT: usize = 3;

fn key(code: KeyCode) -> KeyEvent {
    KeyEvent {
        code,
        modifiers: Modifiers { shift: false, control: false, alt: false, other: false },
        kind: KeyEventKind::Press,
    }
}

fn saved(id: &str) -> InvestigationItem {
    InvestigationItem {
        id: id.to_owned(),
        session_id: format!("session {id}"),
        question: format!("why {id}"),
        snapshot_dir: format!("/snap/{id}"),
        manifest_path: format!("/snap/{id}/manifest"),
    }
}

fn ask(dialog: &mut InvestigationDialog, text: &str) {
    dialog.edited(Edited {
        value: text.to_owned(),
        cursor: text.chars().count(),
        changed: true,
        moved: false,
    });
    dialog.handle(Event::Command(CommandId::InvestigationFollowup), LIMIT);
}

fn stage(dialog: &InvestigationDialog) -> InvestigationStage {
    dialog.state().map(|state| state.stage).expect("open")
}

fn progress(dialog: &InvestigationDialog) -> &str {
    dialog.state().map(|state| state.progress.as_str()).expect("open")
}

fn generation(dialog: &InvestigationDialog) -> u64 {
    dialog.state().map(|state| state.generation).expect("open")
}

#[test]
fn investigation_starts_on_a_fixed_snapshot() {
    let mut dialog = InvestigationDialog::default();
    dialog.configure("local".to_owned(), "plan".to_owned(), "high".to_owned());
    dialog.open(None, 0);
    assert!(!dialog.is_open());
    dialog.open(Some("v".to_owned()), 7);
    assert_eq!(progress(&dialog), "enter a question for a new fixed snapshot");
    assert_eq!(
        dialog.key(key(KeyCode::Enter), LIMIT),
        Step::Edit(EditCommand::Insert('\n'))
    );
    ask(&mut dialog, "what broke?");
    assert_eq!(stage(&dialog), InvestigationStage::Snapshot);
    assert!(dialog.is_working());
    assert_eq!(dialog.question(), (&String::new(), 0));
    let generation = generation(&dialog);
    let requests = dialog.take_requests();
    match &requests[..] {
        [InvestigationRequest::Start {
            generation: asked,
            view_id,
            definition_revision: 7,
            question,
            provider,
            mode,
            thinking,
        }] => {
            assert_eq!(*asked, generation);
            assert_eq!(view_id, "v");
            assert_eq!(question, "what broke?");
            assert_eq!((provider.as_str(), mode.as_str(), thinking.as_str()), ("local", "plan", "high"));
        }
        _ => panic!("one snapshot is started"),
    }
    assert_eq!(
        dialog.state().expect("open").messages,
        vec!["You: what broke?".to_owned()]
    );
    ask(&mut dialog, "again");
    assert!(dialog.take_requests().is_empty());
}

#[test]
fn investigation_without_a_question_resumes_or_refuses() {
    let mut dialog = InvestigationDialog::default();
    dialog.open(Some("v".to_owned()), 0);
    ask(&mut dialog, "  ");
    assert_eq!(stage(&dialog), InvestigationStage::Error);
    assert_eq!(progress(&dialog), "enter a question to start an investigation");
    ask(&mut dialog, "more");
    assert_eq!(progress(&dialog), "session is unavailable; start or resume again");
    dialog.set_saved(vec![saved("a"), saved("b")]);
    dialog.open(Some("v".to_owned()), 0);
    assert!(dialog.state().expect("open").saved_mode);
    assert_eq!(
        progress(&dialog),
        "type a new question, or leave blank to resume the selected investigation"
    );
    dialog.mouse(
        MouseEventKind::LeftDown,
        Some(InvestigationHit::Control(InvestigationControl::Saved)),
        LIMIT,
    );
    dialog.key(key(KeyCode::Down), LIMIT);
    assert_eq!(dialog.state().expect("open").selected, 1);
    dialog.handle(Event::Command(CommandId::ResumeInvestigation), LIMIT);
    assert_eq!(stage(&dialog), InvestigationStage::Resuming);
    assert!(!dialog.state().expect("open").saved_mode);
    assert!(matches!(
        &dialog.take_requests()[..],
        [InvestigationRequest::Resume { item, .. }] if item.id == "b"
    ));
}

#[test]
fn investigation_ready_session_is_listed_first() {
    let mut dialog = InvestigationDialog::default();
    dialog.set_saved((0..70).map(|index| saved(&format!("{index}"))).collect());
    assert_eq!(dialog.saved().len(), 64);
    dialog.open(Some("v".to_owned()), 0);
    let generation = generation(&dialog);
    assert!(!dialog.ready(generation + 1, saved("new")));
    assert!(dialog.ready(generation, saved("new")));
    assert_eq!(dialog.saved().len(), 64);
    assert_eq!(dialog.saved()[0].id, "new");
    assert_eq!(dialog.saved()[1].id, "0");
    let mut again = saved("0");
    again.question = "changed".to_owned();
    assert!(dialog.ready(generation, again));
    assert_eq!(dialog.saved()[1].question, "changed");
    assert_eq!(stage(&dialog), InvestigationStage::Sending);
    assert_eq!(progress(&dialog), "prompt accepted; waiting for local agent");
}

#[test]
fn investigation_turns_and_transcript() {
    let mut dialog = InvestigationDialog::default();
    dialog.open(Some("v".to_owned()), 0);
    let generation = generation(&dialog);
    dialog.ready(generation, saved("a"));
    assert!(!dialog.append_output("other", "x".to_owned(), LIMIT));
    for index in 0..5 {
        assert!(dialog.append_output("session a", format!("line {index}"), LIMIT));
    }
    assert!(dialog.push_event("session a", String::new(), Ok(()), LIMIT));
    assert_eq!(
        dialog.state().expect("open").messages,
        vec!["line 2".to_owned(), "line 3".to_owned(), "line 4".to_owned()]
    );
    assert_eq!(progress(&dialog), "turn complete; type a follow-up to continue");
    ask(&mut dialog, " ");
    assert_eq!(progress(&dialog), "enter a follow-up question");
    ask(&mut dialog, "and then?");
    assert_eq!(progress(&dialog), "sending follow-up to local agent");
    assert!(matches!(
        &dialog.take_requests()[..],
        [InvestigationRequest::Send { session_id, prompt, .. }]
            if session_id == "session a" && prompt == "and then?"
    ));
    assert!(dialog.push_event("session a", "no".to_owned(), Err("lost".to_owned()), LIMIT));
    assert_eq!(stage(&dialog), InvestigationStage::Error);
    assert_eq!(progress(&dialog), "lost");
    dialog.handle(Event::Command(CommandId::NewInvestigation), LIMIT);
    let state = dialog.state().expect("open");
    assert_eq!(state.session_id, None);
    assert!(state.messages.is_empty());
}

#[test]
fn investigation_progress_is_fenced() {
    let mut dialog = InvestigationDialog::default();
    dialog.open(Some("v".to_owned()), 0);
    let old = generation(&dialog);
    dialog.open(Some("v".to_owned()), 0);
    let stage_of = InvestigationStage::StartingSession;
    assert!(!dialog.progress(old, stage_of, "late".to_owned(), None, None, None));
    let now = generation(&dialog);
    assert!(dialog.progress(now, stage_of, "starting".to_owned(), Some("s".to_owned()), None, None));
    assert!(dialog.progress(now, InvestigationStage::Conversation, "on".to_owned(), None, None, None));
    assert_eq!(dialog.state().expect("open").session_id, Some("s".to_owned()));
    assert_eq!(dialog.state().expect("open").focus, InvestigationControl::Prompt);
}

#[test]
fn investigation_closing_cancels_the_turn() {
    let mut dialog = InvestigationDialog::default();
    dialog.open(Some("v".to_owned()), 0);
    assert_eq!(dialog.handle(Event::Dismiss, LIMIT), Step::Done(Outcome::Close));
    assert!(dialog.take_requests().is_empty());
    dialog.open(Some("v".to_owned()), 0);
    let generation = generation(&dialog);
    ask(&mut dialog, "why");
    dialog.handle(Event::Dismiss, LIMIT);
    assert!(matches!(
        dialog.take_requests().last(),
        Some(InvestigationRequest::Cancel { generation: gone }) if *gone == generation
    ));
    assert!(dialog.state().is_none());
    dialog.handle(Event::Dismiss, LIMIT);
    assert!(dialog.take_requests().is_empty());
}

#[test]
fn investigation_queue_has_a_limit() {
    let mut dialog = InvestigationDialog::default();
    for _ in 0..4 {
        dialog.open(Some("v".to_owned()), 0);
        ask(&mut dialog, "why");
    }
    dialog.open(Some("v".to_owned()), 0);
    ask(&mut dialog, "why");
    assert_eq!(stage(&dialog), InvestigationStage::Error);
    assert_eq!(progress(&dialog), "investigation request queue is full");
    assert_eq!(dialog.state().expect("open").input, "why");
}

#[test]
fn investigation_words_and_regions() {
    assert_eq!(title_for(true), "Investigation Agent");
    assert_eq!(title_for(false), "Investigation \u{1f9e0}");
    let spec = investigation_spec_for(90, 1, 2);
    assert_eq!((spec.header, spec.body, spec.message, spec.help, spec.actions), (1, 5, 2, 2, 1));
    let roomy = split_body(Rect::new(0, 0, 40, 20), true, true);
    assert_eq!(roomy.question.height, 3);
    assert!(roomy.provenance.is_some());
    assert!(split_body(Rect::new(0, 0, 40, 20), false, true).provenance.is_none());
    assert_eq!(question_top(0, 3), 0);
    assert_eq!(question_top(4, 3), 2);
    assert_eq!(caret_cell(Rect::new(5, 5, 10, 3), 4, 2, 2), Some((7, 7)));
    assert!(wrap_width(Rect::new(0, 0, 40, 5), 2) >= wrap_width(Rect::new(0, 0, 40, 5), 200));
    assert_eq!(
        mark_rows(&vec!["a".to_owned(), "b".to_owned()], 1),
        vec![("a".to_owned(), false), ("b".to_owned(), true)]
    );
    assert_eq!(
        flatten_rows(&vec![vec!["a".to_owned()], vec!["b".to_owned(), "c".to_owned()]]),
        vec![("a".to_owned(), false), ("b".to_owned(), false), ("c".to_owned(), false)]
    );
}

#[test]
fn investigation_commands_say_what_is_missing() {
    let mut dialog = InvestigationDialog::default();
    let reasons: Vec<_> = dialog.commands().iter().map(|entry| entry.unavailable_reason).collect();
    assert_eq!(
        reasons,
        vec![
            Some("open Investigations first"),
            Some("open Investigations and select a saved session first"),
            Some("open an active investigation and enter a follow-up first")
        ]
    );
    dialog.set_saved(vec![saved("a")]);
    dialog.open(Some("v".to_owned()), 0);
    assert_eq!(dialog.commands()[0].spec.shortcut, Some("Alt-N"));
    assert_eq!(dialog.commands()[1].unavailable_reason, None);
}

#[test]
fn investigation_frame_scrolls_its_transcript() {
    let mut dialog = InvestigationDialog::default();
    dialog.set_saved(vec![saved("a")]);
    dialog.open(Some("v".to_owned()), 0);
    let generation = generation(&dialog);
    dialog.ready(generation, saved("a"));
    dialog.append_output("session a", "hello".to_owned(), LIMIT);
    dialog.push_event("session a", String::new(), Ok(()), LIMIT);
    let state = dialog.state().expect("open");
    assert_eq!(state.message().0, MessageState::Ready);
    assert_eq!(state.help(), SESSION_HELP);
    assert_ne!(state.help(), START_HELP);
    assert_eq!(
        state.provenance(),
        Some("Session: session a \u{b7} Snapshot: /snap/a".to_owned())
    );
    assert_eq!(
        state.pane_content(true, "", true),
        (
            "Saved investigations",
            "1 saved".to_owned(),
            vec!["> session a \u{2014} why a".to_owned()]
        )
    );
    assert_eq!(
        state.pane_content(false, "", true),
        ("Transcript", "1 message".to_owned(), vec!["hello".to_owned()])
    );
    let resolved = ResolvedDialog {
        frame: Rect::new(0, 0, 60, 20),
        interior: Rect::new(1, 1, 58, 18),
        header: Rect::new(2, 1, 56, 1),
        body: Rect::new(2, 2, 56, 10),
        message: Rect::new(2, 13, 56, 2),
        help: Rect::new(2, 15, 56, 1),
        content_width: 56,
        compact: true,
        actions: ActionGeometry {
            band: Rect::new(2, 17, 56, 1),
            buttons: vec![(0, Rect::new(2, 17, 8, 1))],
            overflow: Vec::new(),
            more: None,
            default: Some(0),
        },
    };
    let list = ListGeometry {
        heading: Rect::new(2, 7, 40, 1),
        count: Rect::new(48, 7, 10, 1),
        viewport: Rect::new(4, 8, 50, 2),
        scrollbar: Some(Rect::new(57, 8, 1, 2)),
        first_row: 0,
        row_rects: vec![Rect::new(4, 8, 50, 1), Rect::new(4, 9, 50, 1)],
    };
    let modes = vec![Rect::new(2, 1, 5, 1), Rect::new(9, 1, 7, 1)];
    let question = vec!["".to_owned()];
    let wrapped = vec![
        vec!["one".to_owned(), "two".to_owned()],
        vec!["three".to_owned()],
        vec!["four".to_owned()],
    ];
    let frame = || InvestigationFrame {
        resolved: &resolved,
        modes: &modes,
        list: &list,
        question: &question,
        cursor_row: 0,
        cursor_col: 0,
        wrapped: &wrapped,
        theme: theme(),
        ascii: true,
    };
    for control in [InvestigationControl::ModeNew, InvestigationControl::Prompt] {
        let hit = Some(InvestigationHit::Control(control));
        dialog.mouse(MouseEventKind::LeftDown, hit, LIMIT);
        if control == InvestigationControl::ModeNew {
            dialog.key(key(KeyCode::Enter), LIMIT);
        }
    }
    assert!(!dialog.state().expect("open").shows_saved());
    let (paints, surface) = dialog.render(frame());
    assert!(surface.text_focus);
    assert!(paints.iter().any(|paint| matches!(
        paint,
        Paint::Frame { title } if title == "Investigation Agent"
    )));
    assert!(paints.iter().any(|paint| matches!(
        paint,
        Paint::Caret { style, .. }
            if *style == Style::plain().fg(theme().input_fg).bg(theme().cursor)
    )));
    assert_eq!(dialog.hit(10, 1), Some(InvestigationHit::Control(InvestigationControl::Saved)));
    assert_eq!(dialog.hit(3, 17), Some(InvestigationHit::Control(InvestigationControl::Submit)));
    assert_eq!(dialog.hit(5, 9), Some(InvestigationHit::Body));
    let limit = dialog.state().expect("open").review_scroll_limit;
    assert_eq!(limit, 2);
    for _ in 0..9 {
        dialog.mouse(MouseEventKind::ScrollDown, Some(InvestigationHit::Body), LIMIT);
    }
    assert_eq!(dialog.state().expect("open").review_scroll, 2);
    dialog.mouse(MouseEventKind::ScrollUp, Some(InvestigationHit::Body), LIMIT);
    assert_eq!(dialog.state().expect("open").review_scroll, 1);
    dialog.render_unfit();
    assert_eq!(dialog.state().expect("open").review_scroll_limit, 0);
    assert_eq!(dialog.hit(5, 9), None);
}
