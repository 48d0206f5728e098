use lvu::component::{
    CommandId, EditCommand, Edited, Event, MessageState, Outcome, Step, ViewEvent,
};
use lvu::components::discovery::{
    discovery_display_rows, discovery_now, filtered_at, filtered_discovery_indices,
    hidden_older_unavailable, DiscoveryAvailability, DiscoveryDialogState, DiscoveryDisplayRow,
    DiscoveryItem, DiscoverySection,
};
use lvu::components::source::frame::{
    assemble_pane, discovery_count, discovery_detail, field_label_width, shown_candidates, find_selection, older_label, review_lines, settle_scroll,
    source_spec_for, split_existing, status_lines,
};
use lvu::components::source::render::SourceFrame;
use lvu::components::source::{
    AgentChoice, DiscoveryUiRequest, SourceAiPreview, SourceAiRequest, SourceAiStage,
    SourceContext, SourceControl, SourceDialog, SourceDialogMode, SourceHit, SourceItem,
    SourceKind, SourceLaunchRequest, SourceManagementRequest, SourceOpen, SourceProposal,
};
use lvu::dialog_controls::ActionGeometry;
use lvu::dialog_layout::{ListGeometry, ResolvedDialog};
use lvu::geometry::Rect;
use lvu::input::{KeyCode, KeyEvent, KeyEventKind, Modifiers, MouseEventKind};
use lvu::paint::Paint;
use lvu::style::{
    Color, ColorDepth, HeartColors, JsonColors, ReadableColors, SeverityColors, Theme,
};

fn theme() -> Theme {
    let grey = Color::Indexed(0);
    Theme {
        base_fg: grey,
        base_bg: grey,
        muted: grey,
        dialog_bg: grey,
        accent: grey,
        input_fg: grey,
        input_bg: grey,
        cursor: grey,
        selection_fg: grey,
        selection_bg: grey,
        severity: SeverityColors { info: grey, warn: grey, error: grey },
        json: JsonColors {
            string: grey,
            number: grey,
            boolean: grey,
            null: grey,
            punctuation: grey,
        },
        heart: HeartColors { primary: grey, error: grey },
        depth: ColorDepth::TrueColor,
        readable: ReadableColors {
            base_on_dialog: grey,
            accent_on_dialog: grey,
            input_on_input: grey,
            selection_on_selection: grey,
            info_on_dialog: grey,
            warn_on_dialog: grey,
            error_on_dialog: grey,
            dialog_on_accent: grey,
        },
    }
}

const DAY: i64 = 86_400;

fn key(code: KeyCode) -> KeyEvent {
    KeyEvent {
        code,
        modifiers: Modifiers { shift: false, control: false, alt: false, other: false },
        kind: KeyEventKind::Press,
    }
}

fn found(name: &str, rank: u8, activity: Option<i64>) -> DiscoveryItem {
    DiscoveryItem {
        key: format!("key {name}"),
        label: name.to_owned(),
        detail: String::new(),
        status: String::new(),
        section: DiscoverySection { rank },
        availability: DiscoveryAvailability::Available,
        recent_activity: activity,
    }
}

fn gone(name: &str, activity: Option<i64>) -> DiscoveryItem {
    let mut item = found(name, 2, activity);
    item.availability = DiscoveryAvailability::NotAvailable;
    item
}

#[test]
fn discovery_orders_by_group_activity_and_name() {
    let mut state = DiscoveryDialogState::default();
    state.items = vec![
        found("zeta", 1, Some(5)),
        found("Alpha", 1, Some(5)),
        found("late", 1, Some(9)),
        found("never", 1, None),
        found("first", 0, None),
    ];
    assert_eq!(filtered_at(&state, 10), vec![4, 2, 1, 0, 3]);
    state.query = "LA".to_owned();
    assert_eq!(filtered_at(&state, 10), vec![2]);
    state.items[3].detail = "has Lard".to_owned();
    assert_eq!(filtered_at(&state, 10), vec![2, 3]);
}

#[test]
fn discovery_hides_what_is_long_gone() {
    let now = 100 * DAY;
    let mut state = DiscoveryDialogState::default();
    state.items = vec![
        gone("old", Some(now - 14 * DAY - 1)),
        gone("edge", Some(now - 14 * DAY)),
        gone("unknown", None),
        found("live", 0, Some(0)),
    ];
    assert_eq!(filtered_at(&state, now), vec![3, 1, 2]);
    assert_eq!(hidden_older_unavailable(&state, now), 1);
    let rows = discovery_display_rows(&state, &filtered_at(&state, now), now);
    assert_eq!(
        rows,
        vec![
            DiscoveryDisplayRow::OlderUnavailable(1),
            DiscoveryDisplayRow::Heading(DiscoverySection { rank: 0 }),
            DiscoveryDisplayRow::Candidate { item: 3, selection: 0 },
            DiscoveryDisplayRow::Heading(DiscoverySection { rank: 2 }),
            DiscoveryDisplayRow::Candidate { item: 1, selection: 1 },
            DiscoveryDisplayRow::Candidate { item: 2, selection: 2 }
        ]
    );
    assert_eq!(find_selection(&rows, 1), Some(4));
    state.show_older_unavailable = true;
    assert_eq!(filtered_at(&state, now), vec![3, 1, 0, 2]);
    let rows = discovery_display_rows(&state, &filtered_at(&state, now), now);
    assert_eq!(rows[0], DiscoveryDisplayRow::OlderUnavailable(0));
    state.show_older_unavailable = false;
    state.query = "old".to_owned();
    assert_eq!(filtered_at(&state, now), vec![0]);
    assert_eq!(hidden_older_unavailable(&state, now), 0);
}

#[test]
fn discovery_reads_the_clock() {
    let now = discovery_now();
    assert!(now > 1_600_000_000);
    let mut state = DiscoveryDialogState::default();
    state.items = vec![gone("old", Some(now - 30 * DAY)), gone("new", Some(now - DAY))];
    assert_eq!(filtered_discovery_indices(&state), vec![1]);
}

struct Shell {
    sources: Vec<SourceItem>,
    agent: AgentChoice,
    clock: u64,
    now: i64,
}

impl Shell {
    fn new(names: &[&str]) -> Shell {
        Shell {
            sources: names
                .iter()
                .map(|name| SourceItem {
                    id: format!("id {name}"),
                    name: (*name).to_owned(),
                    health: "running".to_owned(),
                })
                .collect(),
            agent: AgentChoice {
                provider: "local".to_owned(),
                mode: "plan".to_owned(),
                thinking: "low".to_owned(),
            },
            clock: 1000,
            now: 0,
        }
    }

    fn ctx(&self) -> SourceContext<'_> {
        SourceContext {
            sources: &self.sources,
            agent: &self.agent,
            editor_bytes: 16,
            prompt_bytes: 8,
            clock: self.clock,
            now: self.now,
        }
    }

    fn open(&self, params: SourceOpen) -> SourceDialog {
        let mut dialog = SourceDialog::default();
        dialog.open(params, &self.sources);
        dialog
    }
}

fn typed(dialog: &mut SourceDialog, value: &str, clock: u64) {
    dialog.apply_edit(
        Edited {
            value: value.to_owned(),
            cursor: value.chars().count(),
            changed: true,
            moved: false,
        },
        clock,
    );
}

#[test]
fn source_starts_what_was_typed() {
    let shell = Shell::new(&[]);
    let mut dialog = shell.open(SourceOpen::Existing);
    assert_eq!(dialog.state().mode, SourceDialogMode::Manual);
    dialog.key(key(KeyCode::Enter), shell.ctx());
    assert_eq!(
        dialog.message(),
        (MessageState::Error, "enter a file path or shell command".to_owned())
    );
    assert_eq!(
        dialog.key(key(KeyCode::Char('x')), shell.ctx()),
        Step::Edit(EditCommand::Insert('x'))
    );
    dialog.command(CommandId::SourceCommandMode);
    typed(&mut dialog, "tail -f x", shell.clock);
    dialog.key(key(KeyCode::Enter), shell.ctx());
    assert_eq!(dialog.state().error.as_deref(), Some("starting source\u{2026}"));
    let launches = dialog.take_launches();
    assert_eq!(launches.len(), 1);
    assert_eq!(launches[0].kind, SourceKind::Command);
    assert_eq!(launches[0].text, "tail -f x");
    assert!(dialog.launch_matches(&launches[0]));
    assert!(dialog.fail_launch(&launches[0], "no such file"));
    assert_eq!(dialog.state().draft, "tail -f x");
    for _ in 0..9 {
        dialog.press_action(0, shell.ctx());
    }
    assert_eq!(dialog.state().error.as_deref(), Some("source launch queue is full"));
    assert_eq!(dialog.take_launches().len(), 8);
}

#[test]
fn source_paths_are_completed_after_a_pause() {
    let shell = Shell::new(&[]);
    let mut dialog = shell.open(SourceOpen::Add);
    typed(&mut dialog, "/var/", 1000);
    assert!(dialog.take_path_completions(1034).is_empty());
    typed(&mut dialog, "/var/l", 1020);
    let asked = dialog.take_path_completions(1055);
    assert_eq!(asked.len(), 1);
    assert_eq!(asked[0].draft, "/var/l");
    assert_eq!(dialog.active_path_completion_generation(), Some(asked[0].generation));
    let paths = vec!["/var/log/".to_owned(), "/var/lib".to_owned()];
    let generation = asked[0].generation;
    assert!(!dialog.complete_path(generation + 1, "/var/l", Vec::new(), None));
    assert!(dialog.complete_path(generation, "/var/l", paths, None));
    assert_eq!(dialog.state().path_completion.candidates.len(), 2);
    dialog.key(key(KeyCode::Down), shell.ctx());
    assert_eq!(dialog.state().path_completion.selected, 1);
    assert_eq!(dialog.handle(Event::Dismiss, shell.ctx()), Step::Done(Outcome::Consumed));
    assert!(dialog.state().path_completion.candidates.is_empty());
    assert!(dialog.is_open());
}

#[test]
fn source_paste_stops_at_the_bound() {
    let shell = Shell::new(&[]);
    let mut dialog = shell.open(SourceOpen::Add);
    dialog.handle(Event::Paste("0123456789abcde\u{e9}".to_owned()), shell.ctx());
    assert_eq!(dialog.state().draft, "0123456789abcde");
    dialog.handle(Event::Paste("fg".to_owned()), shell.ctx());
    assert_eq!(dialog.state().draft, "0123456789abcdef");
}

#[test]
fn source_removal_is_confirmed() {
    let shell = Shell::new(&["one", "two"]);
    let mut dialog = shell.open(SourceOpen::Existing);
    assert_eq!(dialog.state().mode, SourceDialogMode::Existing);
    dialog.key(key(KeyCode::Delete), shell.ctx());
    assert!(dialog.state().confirm_remove);
    assert_eq!(
        dialog.message().1,
        "press Remove or Delete again to confirm; captured data stays on disk"
    );
    dialog.key(key(KeyCode::Down), shell.ctx());
    assert!(!dialog.state().confirm_remove);
    dialog.key(key(KeyCode::Delete), shell.ctx());
    dialog.key(key(KeyCode::Delete), shell.ctx());
    dialog.key(key(KeyCode::Char('R')), shell.ctx());
    let asked = dialog.take_management();
    assert!(matches!(
        &asked[..],
        [
            SourceManagementRequest::Remove { source_id: removed },
            SourceManagementRequest::Restart { source_id: restarted }
        ] if removed == "id two" && restarted == "id two"
    ));
    let empty = Shell::new(&[]);
    dialog.handle(Event::View(ViewEvent::SourceRemoved), empty.ctx());
    assert_eq!(dialog.state().mode, SourceDialogMode::Manual);
}

#[test]
fn source_scan_and_selection() {
    let shell = Shell::new(&[]);
    let mut dialog = shell.open(SourceOpen::Add);
    dialog.command(CommandId::DiscoverSources);
    assert_eq!(dialog.state().mode, SourceDialogMode::Discovery);
    assert_eq!(
        dialog.message(),
        (
            MessageState::Updating,
            "selecting a candidate never starts capture \u{b7} scanning, 0 so far".to_owned()
        )
    );
    assert!(matches!(
        &dialog.take_discovery()[..],
        [DiscoveryUiRequest::Scan { generation: 1 }]
    ));
    assert!(dialog.discovery_matches(1));
    assert!(!dialog.discovery_matches(2));
    dialog.complete_discovery(7, vec![found("late", 0, None)], "late".to_owned());
    assert!(dialog.state().discovery.items.is_empty());
    dialog.key(key(KeyCode::Enter), shell.ctx());
    assert_eq!(
        dialog.state().error.as_deref(),
        Some("no matching discovered source to start")
    );
    dialog.complete_discovery(1, vec![found("b", 0, None), found("a", 0, None)], "2".to_owned());
    dialog.key(key(KeyCode::Down), shell.ctx());
    dialog.key(key(KeyCode::Enter), shell.ctx());
    assert!(matches!(
        &dialog.take_discovery()[..],
        [DiscoveryUiRequest::Select { generation: 1, key }] if key == "key b"
    ));
    dialog.press_action(1, shell.ctx());
    assert!(matches!(
        &dialog.take_discovery()[..],
        [DiscoveryUiRequest::Scan { generation: 2 }]
    ));
    assert!(!dialog.discovery_matches(1));
}

fn proposal(name: &str) -> SourceProposal {
    SourceProposal {
        name: name.to_owned(),
        kind: "command".to_owned(),
        launch: "run".to_owned(),
        effective_path_or_cwd: "/".to_owned(),
        restart: "never".to_owned(),
        environment: Vec::new(),
    }
}

#[test]
fn source_proposal_is_applied_once() {
    let shell = Shell::new(&[]);
    let mut dialog = shell.open(SourceOpen::Add);
    dialog.command(CommandId::AskAiSource);
    dialog.press_action(0, shell.ctx());
    assert_eq!(dialog.state().ai.progress, "describe the source to follow");
    assert_eq!(
        dialog.message(),
        (
            MessageState::Error,
            "describe the source to follow \u{b7} the preview never executes".to_owned()
        )
    );
    typed(&mut dialog, "nginx", shell.clock);
    dialog.press_action(0, shell.ctx());
    let generation = match &dialog.take_ai()[..] {
        [SourceAiRequest::Start { generation, instruction, provider, .. }] => {
            assert_eq!(instruction, "nginx");
            assert_eq!(provider, "local");
            *generation
        }
        _ => panic!("a proposal is asked for"),
    };
    assert_eq!(dialog.action_labels(), vec!["Wor&king\u{2026}".to_owned()]);
    let preview = SourceAiPreview {
        sources: vec![proposal("one"), proposal("two")],
        explanation: "both log".to_owned(),
    };
    let lines = review_lines(&Some(preview), &Some("s".to_owned()));
    assert_eq!(lines[0], "Source 1 of 2: one");
    assert_eq!(lines[lines.len() - 2], "Why: both log");
    assert_eq!(lines[lines.len() - 1], "Local session: s");
    let preview = SourceAiPreview {
        sources: vec![proposal("one"), proposal("two")],
        explanation: "both log".to_owned(),
    };
    assert!(!dialog.finish_ai(generation + 1, Err("late".to_owned())));
    assert!(dialog.finish_ai(generation, Ok(preview)));
    assert_eq!(dialog.painted_labels(), vec!["Start 2 &reviewed sources".to_owned()]);
    dialog.press_action(0, shell.ctx());
    dialog.press_action(0, shell.ctx());
    assert_eq!(dialog.state().ai.stage, SourceAiStage::Applying);
    assert_eq!(dialog.state().ai.progress, "starting 2 reviewed sources\u{2026}");
    assert!(matches!(
        &dialog.take_ai()[..],
        [SourceAiRequest::Apply { generation: applied }] if *applied == generation
    ));
    assert_eq!(dialog.handle(Event::Dismiss, shell.ctx()), Step::Done(Outcome::Close));
    assert!(matches!(
        &dialog.take_ai()[..],
        [SourceAiRequest::Cancel { generation: cancelled }] if *cancelled == generation
    ));
}

#[test]
fn source_returns_to_its_list() {
    let shell = Shell::new(&["one"]);
    let mut dialog = shell.open(SourceOpen::Existing);
    dialog.mouse(
        MouseEventKind::LeftDown,
        Some(SourceHit::Control(SourceControl::Add)),
        shell.ctx(),
    );
    assert_eq!(dialog.state().mode, SourceDialogMode::Manual);
    assert_eq!(dialog.handle(Event::Dismiss, shell.ctx()), Step::Done(Outcome::Consumed));
    assert_eq!(dialog.state().mode, SourceDialogMode::Existing);
    assert_eq!(dialog.handle(Event::Dismiss, shell.ctx()), Step::Done(Outcome::Close));
    assert!(!dialog.is_open());
}

#[test]
fn source_words_and_regions() {
    assert_eq!(older_label(0), "Hide older unavailable sources \u{b7} Alt-U");
    assert_eq!(older_label(3), "Show 3 older unavailable sources \u{b7} Alt-U");
    assert_eq!(discovery_count(1, 0), "none");
    assert_eq!(discovery_count(1, 4), "1 of 4");
    let (list, details) = split_existing(Rect::new(0, 0, 10, 9));
    assert_eq!((list.height, details.y, details.height), (4, 4, 5));
    let shell = Shell::new(&["one"]);
    assert_eq!(
        status_lines(&shell.sources, 0),
        vec!["Name: one".to_owned(), "Source ID: id one".to_owned(), "Status: running".to_owned()]
    );
    assert_eq!(status_lines(&shell.sources, 1), vec!["No source selected".to_owned()]);
    let pane = settle_scroll(10, 4, 9);
    assert_eq!((pane.limit, pane.scroll), (6, 6));
    assert_eq!(
        assemble_pane(
            &vec!["".to_owned(), "ab".to_owned()],
            &vec![Vec::new(), vec!["a".to_owned(), "b".to_owned()]]
        ),
        vec!["".to_owned(), "a".to_owned(), "b".to_owned()]
    );
    assert_eq!(source_spec_for(90).message, 2);
    let dialog = SourceDialog::default();
    assert_eq!(dialog.commands().len(), 4);
    assert_eq!(dialog.commands()[0].spec.shortcut, None);
}

#[test]
fn source_frame_records_the_sources_drawn() {
    let shell = Shell::new(&["one", "two", "three"]);
    let mut dialog = shell.open(SourceOpen::Existing);
    dialog.key(key(KeyCode::Down), shell.ctx());
    let resolved = ResolvedDialog {
        frame: Rect::new(0, 0, 70, 20),
        interior: Rect::new(1, 1, 68, 18),
        header: Rect::zero(),
        body: Rect::new(2, 1, 66, 10),
        message: Rect::new(2, 12, 66, 2),
        help: Rect::zero(),
        content_width: 66,
        compact: true,
        actions: ActionGeometry {
            band: Rect::new(2, 17, 66, 1),
            buttons: vec![(0, Rect::new(2, 17, 14, 1)), (2, Rect::new(20, 17, 10, 1))],
            overflow: Vec::new(),
            more: None,
            default: Some(1),
        },
    };
    let list = ListGeometry {
        heading: Rect::new(2, 1, 50, 1),
        count: Rect::new(60, 1, 6, 1),
        viewport: Rect::new(4, 2, 60, 2),
        scrollbar: None,
        first_row: 1,
        row_rects: vec![Rect::new(4, 2, 60, 1), Rect::new(4, 3, 60, 1)],
    };
    let pane = ListGeometry {
        heading: Rect::new(2, 6, 50, 1),
        count: Rect::new(60, 6, 6, 1),
        viewport: Rect::new(4, 7, 60, 2),
        scrollbar: Some(Rect::new(66, 7, 1, 2)),
        first_row: 0,
        row_rects: vec![Rect::new(4, 7, 60, 1), Rect::new(4, 8, 60, 1)],
    };
    let none = Vec::new();
    let lines = dialog.pane_text(&shell.sources, 0);
    assert_eq!(lines, status_lines(&shell.sources, 1));
    let wrapped: Vec<Vec<String>> = lines.iter().map(|line| vec![line.clone()]).collect();
    let groups = Vec::new();
    let frame = SourceFrame {
        resolved: &resolved,
        modes: &none,
        kinds: &none,
        sources: &shell.sources,
        now: 0,
        list: &list,
        list_first: 1,
        list_rows: 2,
        pane: &pane,
        wrapped: &wrapped,
        probe_rows: 2,
        probe_first: 0,
        groups: &groups,
        caret: None,
        theme: theme(),
        ascii: true,
    };
    let (paints, surface) = dialog.render(frame);
    assert!(surface.scrollable);
    assert!(paints.iter().any(|paint| matches!(
        paint,
        Paint::Text { text, area, .. }
            if text == "> two  running" && *area == Rect::new(4, 2, 60, 1)
    )));
    assert_eq!(dialog.hit(5, 3), Some(SourceHit::Existing(2)));
    assert_eq!(dialog.hit(3, 17), Some(SourceHit::Control(SourceControl::Add)));
    assert_eq!(dialog.hit(21, 17), Some(SourceHit::Control(SourceControl::Remove)));
    assert_eq!(dialog.state().existing_scroll_limit, 1);
    dialog.mouse(MouseEventKind::ScrollDown, Some(SourceHit::Scroll), shell.ctx());
    dialog.mouse(MouseEventKind::ScrollDown, Some(SourceHit::Scroll), shell.ctx());
    assert_eq!(dialog.state().existing_scroll, 1);
    dialog.render_unfit();
    assert_eq!(dialog.hit(5, 3), None);
}

#[test]
fn source_failed_batch_is_kept_for_review() {
    let shell = Shell::new(&[]);
    let mut dialog = shell.open(SourceOpen::Add);
    dialog.command(CommandId::AskAiSource);
    typed(&mut dialog, "nginx", shell.clock);
    dialog.press_action(0, shell.ctx());
    let generation = dialog.state().ai.generation;
    let session = Some("s".to_owned());
    let stage = SourceAiStage::Proposing;
    assert!(!dialog.update_ai_progress(generation + 1, stage, "late".to_owned(), None));
    assert!(dialog.update_ai_progress(generation, stage, "asking".to_owned(), session));
    assert!(dialog.update_ai_progress(generation, stage, "still".to_owned(), None));
    assert_eq!(dialog.state().ai.session_id.as_deref(), Some("s"));
    assert_eq!(dialog.state().ai.progress, "still");
    let preview =
        SourceAiPreview { sources: vec![proposal("one")], explanation: String::new() };
    assert!(dialog.finish_ai(generation, Ok(preview)));
    assert_eq!(
        dialog.state().ai.progress,
        "Review only \u{2014} explicit confirmation starts this source"
    );
    dialog.press_action(0, shell.ctx());
    assert!(dialog.ai_launch_matches(generation));
    assert!(!dialog.retain_ai_batch(generation + 1, "other".to_owned()));
    assert!(dialog.retain_ai_batch(generation, "0 of 1 started".to_owned()));
    assert!(dialog.state().ai.preview.is_some());
    dialog.take_ai();
    dialog.press_action(0, shell.ctx());
    assert!(matches!(
        &dialog.take_ai()[..],
        [SourceAiRequest::Apply { generation: again }] if *again == generation
    ));
    dialog.close();
    assert!(!dialog.ai_launch_matches(generation));
    dialog.open(SourceOpen::Add, &shell.sources);
    assert!(dialog.state().ai.preview.is_none());
    assert_eq!(dialog.state().ai.stage, SourceAiStage::Input);
}

#[test]
fn source_refused_launch_is_reopened() {
    let mut dialog = SourceDialog::default();
    let request =
        SourceLaunchRequest { kind: SourceKind::Command, text: "tail x".to_owned() };
    assert!(!dialog.fail_launch(&request, "refused"));
    dialog.open_on_failure(request, "refused".to_owned());
    assert!(dialog.is_open());
    assert_eq!(dialog.state().kind, SourceKind::Command);
    assert_eq!(dialog.state().draft, "tail x");
    assert_eq!(dialog.state().error.as_deref(), Some("refused"));
    let other = SourceLaunchRequest { kind: SourceKind::File, text: "tail x".to_owned() };
    assert!(dialog.fail_launch(&other, "another"));
    assert_eq!(dialog.state().error.as_deref(), Some("refused"));
}

#[test]
fn source_failed_scan_is_reported_to_its_own_list() {
    let mut dialog = SourceDialog::default();
    dialog.open_at_startup();
    assert!(dialog.surface().text_focus);
    dialog.fail_discovery(0, "not listed".to_owned());
    assert_eq!(dialog.state().error, None);
    dialog.command(CommandId::DiscoverSources);
    dialog.fail_discovery(2, "late".to_owned());
    assert_eq!(dialog.state().error, None);
    dialog.fail_discovery(1, "gone".to_owned());
    assert_eq!(dialog.state().error.as_deref(), Some("gone"));
    let mut item = found("web", 0, None);
    item.detail = "on port 80".to_owned();
    assert_eq!(discovery_detail(Some(&item)), "web \u{b7} on port 80");
    assert_eq!(discovery_detail(None), "No candidate selected");
}

#[test]
fn source_panes_say_what_they_hold() {
    let shell = Shell::new(&[]);
    let mut dialog = shell.open(SourceOpen::Add);
    assert_eq!(
        dialog.preview_text(),
        vec!["A reviewed source definition appears here; nothing runs until you start it."]
    );
    assert_eq!(dialog.report(&Vec::new()), "No candidate selected\n");
    dialog.command(CommandId::DiscoverSources);
    let mut item = found("web", 0, None);
    item.detail = "nginx".to_owned();
    dialog.complete_discovery(1, vec![item], "1 found".to_owned());
    assert_eq!(dialog.report(&vec![0]), "web \u{b7} nginx\n1 found");
    let rows = vec![
        DiscoveryDisplayRow::Heading(DiscoverySection { rank: 0 }),
        DiscoveryDisplayRow::Candidate { item: 0, selection: 0 },
        DiscoveryDisplayRow::Candidate { item: 1, selection: 1 },
    ];
    assert_eq!(shown_candidates(&rows, 0, 2), 1);
    assert_eq!(shown_candidates(&rows, 1, 9), 2);
    assert_eq!(field_label_width(SourceDialogMode::Manual), 7);
    assert_eq!(field_label_width(SourceDialogMode::Discovery), 6);
    assert_eq!(field_label_width(SourceDialogMode::Ai), 8);
}
