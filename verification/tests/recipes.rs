use lvu::component::{
    Action, CommandId, EditCommand, Edited, Event, LayerId, MessageState, Open, Outcome,
    RecipeDialogMode,
};
use lvu::components::recipes::frame::{
    assemble_notes, help_text, menu_width, note_width, place_columns, recipe_command_shortcut, recipe_date,
    recipe_summary, recipes_spec_for, split_sections,
};
use lvu::components::recipes::render::RecipesFrame;
use lvu::components::recipes::{
    RecipeConfig, RecipeDialogControl, RecipeHit, RecipeItem, RecipeOutcome, RecipeRequest, RecipeRequestMeta,
    RecipeStep, RecipeSuggestion, RecipesContext, RecipesDialog, RecipesOpen,
};
use lvu::components::time::{CaptureTimePolicy, CaptureTimeRange};
use lvu::dialog_controls::ActionGeometry;
use lvu::dialog_layout::{AnchoredGeometry, ListGeometry, ResolvedDialog};
use lvu::geometry::Rect;
use lvu::input::{KeyCode, KeyEvent, KeyEventKind, Modifiers, MouseEventKind};
use lvu::paint::Paint;
use lvu::style::{
    Color, ColorDepth, HeartColors, JsonColors, ReadableColors, SeverityColors, Theme,
};

fn theme() -> Theme {
    let grey = Color::Indexed(0);
    Theme {
        base_fg: grey,
        base_bg: grey,
        muted: grey,
        dialog_bg: grey,
        accent: grey,
        input_fg: grey,
        input_bg: grey,
        cursor: grey,
        selection_fg: grey,
        selection_bg: grey,
        severity: SeverityColors { info: grey, warn: grey, error: grey },
        json: JsonColors {
            string: grey,
            number: grey,
            boolean: grey,
            null: grey,
            punctuation: grey,
        },
        heart: HeartColors { primary: grey, error: grey },
        depth: ColorDepth::TrueColor,
        readable: ReadableColors {
            base_on_dialog: grey,
            accent_on_dialog: grey,
            input_on_input: grey,
            selection_on_selection: grey,
            info_on_dialog: grey,
            warn_on_dialog: grey,
            error_on_dialog: grey,
            dialog_on_accent: grey,
        },
    }
}

fn key(code: KeyCode) -> KeyEvent {
    KeyEvent {
        code,
        modifiers: Modifiers { shift: false, control: false, alt: false, other: false },
        kind: KeyEventKind::Press,
    }
}

fn alt(letter: char) -> KeyEvent {
    let mut event = key(KeyCode::Char(letter));
    event.modifiers.alt = true;
    event
}

fn config() -> RecipeConfig {
    RecipeConfig {
        search: String::new(),
        advanced: String::new(),
        enrichment: String::new(),
        enrichments: Vec::new(),
        grouping: String::new(),
        pinned_columns: Vec::new(),
        capture_time_policy: None,
    }
}

fn item(id: &str) -> RecipeItem {
    RecipeItem {
        id: id.to_owned(),
        name: format!("recipe {id}"),
        revision: format!("r-{id}"),
        config: config(),
        incompatibility: None,
        saved_at_unix_nanos: None,
    }
}

fn suggestion(id: &str) -> RecipeSuggestion {
    RecipeSuggestion {
        recipe_id: id.to_owned(),
        evidence: vec!["same host".to_owned(), "same path".to_owned()],
        missing_fields: vec!["level".to_owned()],
    }
}

struct Shell {
    view: Option<String>,
    source: Option<String>,
    applied: RecipeConfig,
    overflow: Vec<usize>,
}

impl Shell {
    fn new() -> Shell {
        Shell {
            view: Some("v".to_owned()),
            source: Some("s".to_owned()),
            applied: config(),
            overflow: Vec::new(),
        }
    }

    fn ctx(&self) -> RecipesContext<'_> {
        RecipesContext {
            view_id: &self.view,
            source_id: &self.source,
            applied: &self.applied,
            overflow: &self.overflow,
            max_bytes: 64,
        }
    }
}

fn list_meta(dialog: &mut RecipesDialog) -> RecipeRequestMeta {
    let requests = dialog.take_requests();
    match requests.last() {
        Some(RecipeRequest::List { meta }) => *meta,
        _ => panic!("a list was asked for"),
    }
}

fn loaded(ids: &[&str], suggested: &[&str]) -> RecipesDialog {
    let mut dialog = RecipesDialog::default();
    dialog.open(RecipesOpen::Browse);
    let meta = list_meta(&mut dialog);
    let items = ids.iter().map(|id| item(id)).collect();
    let suggestions = suggested.iter().map(|id| suggestion(id)).collect();
    assert!(dialog.set_recipes(meta, items, suggestions, None));
    dialog
}

fn typed(dialog: &mut RecipesDialog, value: &str) {
    dialog.edited(Edited {
        value: value.to_owned(),
        cursor: value.chars().count(),
        changed: true,
        moved: false,
    });
}

#[test]
fn recipes_open_by_asking_for_the_list() {
    let mut dialog = RecipesDialog::default();
    assert!(!dialog.is_open());
    dialog.open(RecipesOpen::Browse);
    assert_eq!(dialog.state().status, "loading recipes\u{2026}");
    assert_eq!(dialog.message().0, MessageState::Updating);
    assert_eq!(dialog.state().pending_request_id, Some(2));
    let meta = list_meta(&mut dialog);
    assert_eq!(meta, RecipeRequestMeta { request_id: 2, dialog_id: 1, dialog_revision: 0 });
    assert!(dialog.set_recipes(meta, vec![item("a"), item("b")], Vec::new(), None));
    assert_eq!(
        dialog.message(),
        (MessageState::Applied, "2 saved recipes".to_owned())
    );
    assert!(!dialog.set_recipes(meta, Vec::new(), Vec::new(), None));
    assert_eq!(dialog.state().items.len(), 2);
}

#[test]
fn recipe_lists_are_cut_short() {
    let mut dialog = RecipesDialog::default();
    dialog.open(RecipesOpen::Browse);
    let meta = list_meta(&mut dialog);
    let items: Vec<RecipeItem> = (0..200).map(|index| item(&format!("{index}"))).collect();
    let suggestions = (0..20).map(|index| suggestion(&format!("{index}"))).collect();
    assert!(dialog.set_recipes(meta, items, suggestions, Some("list failed".to_owned())));
    assert_eq!(dialog.state().items.len(), 128);
    assert_eq!(dialog.state().suggestions.len(), 16);
    assert_eq!(dialog.message(), (MessageState::Error, "list failed".to_owned()));
}

#[test]
fn recipe_answers_go_stale_when_the_user_acts() {
    let shell = Shell::new();
    let mut dialog = RecipesDialog::default();
    dialog.open(RecipesOpen::Browse);
    let meta = list_meta(&mut dialog);
    dialog.key(key(KeyCode::Down), shell.ctx());
    assert!(!dialog.set_recipes(meta, vec![item("a")], Vec::new(), None));
    dialog.open(RecipesOpen::Browse);
    assert!(!dialog.failed(meta, "late"));
    assert_eq!(dialog.state().status, "loading recipes\u{2026}");
}

#[test]
fn recipe_is_applied_with_its_suggestion() {
    let shell = Shell::new();
    let mut dialog = loaded(&["a", "b"], &["b"]);
    let step = dialog.key(key(KeyCode::Enter), shell.ctx());
    assert_eq!(step, RecipeStep::Apply { item: 0, accepted: None });
    assert_eq!(dialog.apply_answered(false), Outcome::Consumed);
    assert_eq!(
        dialog.message(),
        (MessageState::Error, "query queue is full; recipe draft was preserved".to_owned())
    );
    assert!(dialog.is_open());
    dialog.key(key(KeyCode::Down), shell.ctx());
    match dialog.press_action(0, shell.ctx()) {
        RecipeStep::Apply { item: 1, accepted: Some(outcome) } => {
            assert!(outcome.accepted);
            assert_eq!(outcome.recipe_id, "b");
            assert_eq!(outcome.revision, "r-b");
            assert_eq!(outcome.source_id, "s");
        }
        _ => panic!("the suggested recipe is applied"),
    }
    assert_eq!(dialog.apply_answered(true), Outcome::Close);
    assert!(!dialog.is_open());
}

#[test]
fn recipe_that_cannot_apply_says_why() {
    let shell = Shell::new();
    let mut dialog = RecipesDialog::default();
    dialog.open(RecipesOpen::Browse);
    let meta = list_meta(&mut dialog);
    let mut broken = item("a");
    broken.incompatibility = Some("needs a newer version".to_owned());
    dialog.set_recipes(meta, vec![broken], Vec::new(), None);
    let step = dialog.key(key(KeyCode::Enter), shell.ctx());
    assert_eq!(step, RecipeStep::Done(Outcome::Consumed));
    assert_eq!(dialog.state().status, "needs a newer version");
    assert_eq!(
        dialog.notes(),
        vec![("Cannot apply: needs a newer version".to_owned(), true)]
    );
}

#[test]
fn rejected_suggestion_keeps_its_recipe() {
    let shell = Shell::new();
    let mut dialog = loaded(&["a"], &["a"]);
    assert_eq!(
        dialog.notes(),
        vec![
            ("Suggested because: same host; same path".to_owned(), false),
            ("Not observed in the sampled rows: level".to_owned(), true)
        ]
    );
    assert_eq!(
        dialog.key(alt('a'), shell.ctx()),
        RecipeStep::Done(Outcome::Legacy(Action::AdaptRecipe { item: 0, suggestion: 0 }))
    );
    dialog.key(key(KeyCode::Char('x')), shell.ctx());
    assert_eq!(dialog.state().status, "suggestion rejected; recipe remains available");
    assert_eq!(dialog.state().items.len(), 1);
    assert!(dialog.state().suggestions.is_empty());
    let requests = dialog.take_requests();
    assert!(matches!(
        &requests[..],
        [RecipeRequest::Outcome(outcome)] if !outcome.accepted && outcome.recipe_id == "a"
    ));
}

#[test]
fn recipe_is_saved_under_its_trimmed_name() {
    let mut shell = Shell::new();
    shell.applied.search = "error".to_owned();
    let mut dialog = loaded(&["a"], &[]);
    assert_eq!(dialog.key(alt('s'), shell.ctx()), RecipeStep::Done(Outcome::Consumed));
    assert_eq!(dialog.state().mode, RecipeDialogMode::Save);
    assert_eq!(dialog.state().control, RecipeDialogControl::Input);
    dialog.key(key(KeyCode::Enter), shell.ctx());
    assert_eq!(dialog.state().status, "enter a recipe name or select a recipe");
    assert_eq!(
        dialog.key(key(KeyCode::Char('n')), shell.ctx()),
        RecipeStep::Edit(EditCommand::Insert('n'))
    );
    typed(&mut dialog, " night ");
    dialog.key(key(KeyCode::Enter), shell.ctx());
    assert_eq!(dialog.state().status, "saving recipe\u{2026}");
    let requests = dialog.take_requests();
    let meta = match &requests[..] {
        [RecipeRequest::Save { update: None, meta, name, view_id, config }] => {
            assert_eq!(name, "night");
            assert_eq!(view_id, "v");
            assert_eq!(config.search, "error");
            *meta
        }
        _ => panic!("one recipe is saved"),
    };
    assert!(dialog.failed(meta, "disk trouble"));
    assert_eq!(dialog.state().name, " night ");
    assert!(!dialog.saved(meta, "late".to_owned()));
    dialog.key(key(KeyCode::Enter), shell.ctx());
    let requests = dialog.take_requests();
    let meta = match &requests[..] {
        [RecipeRequest::Save { meta, .. }] => *meta,
        _ => panic!("one recipe is saved"),
    };
    assert!(dialog.saved(meta, "saved".to_owned()));
    assert_eq!(dialog.state().mode, RecipeDialogMode::Browse);
    assert_eq!(dialog.state().status, "saved");
    list_meta(&mut dialog);
}

#[test]
fn recipe_revision_updates_and_exports() {
    let shell = Shell::new();
    let mut dialog = loaded(&["a"], &[]);
    dialog.command(CommandId::RecipeUpdate, shell.ctx());
    assert_eq!(dialog.state().name, "recipe a");
    assert_eq!(dialog.cursor(), 8);
    dialog.press_action(0, shell.ctx());
    assert!(matches!(
        &dialog.take_requests()[..],
        [RecipeRequest::Save { update: Some((id, revision)), .. }]
            if id == "a" && revision == "r-a"
    ));
    dialog.command(CommandId::RecipeExport, shell.ctx());
    assert_eq!(dialog.state().name, "");
    typed(&mut dialog, "out.toml");
    assert_eq!(dialog.notes(), vec![("Selected: recipe a \u{b7} r-a".to_owned(), false)]);
    dialog.key(key(KeyCode::Enter), shell.ctx());
    assert_eq!(dialog.state().status, "exporting reviewed revision\u{2026}");
    let requests = dialog.take_requests();
    match &requests[..] {
        [RecipeRequest::Export { meta, path, recipe_id, revision }] => {
            assert_eq!(path, "out.toml");
            assert_eq!(recipe_id, "a");
            assert_eq!(revision, "r-a");
            assert!(dialog.exported(*meta, "written".to_owned()));
        }
        _ => panic!("one revision is exported"),
    }
    assert_eq!(dialog.state().status, "written");
    let mut empty = loaded(&[], &[]);
    empty.command(CommandId::RecipeUpdate, shell.ctx());
    assert_eq!(empty.state().status, "select a loaded recipe first");
    empty.command(CommandId::RecipeExport, shell.ctx());
    typed(&mut empty, "out.toml");
    empty.key(key(KeyCode::Enter), shell.ctx());
    assert_eq!(empty.state().status, "select a saved recipe before exporting");
    empty.command(CommandId::RecipeImport, shell.ctx());
    empty.key(key(KeyCode::Enter), shell.ctx());
    assert_eq!(empty.state().status, "importing for review\u{2026}");
}

#[test]
fn recipe_history_replaces_the_list_and_returns() {
    let shell = Shell::new();
    let mut dialog = loaded(&["a"], &[]);
    assert_eq!(dialog.layer(), LayerId::Recipes);
    let id = dialog.state().id;
    let step = dialog.command(CommandId::RecipeHistory, shell.ctx());
    assert_eq!(
        step,
        RecipeStep::Done(Outcome::Replace(Open::RecipeHistory {
            recipe_id: "a".to_owned(),
            recipe_name: "recipe a".to_owned()
        }))
    );
    dialog.open(RecipesOpen::History {
        recipe_id: "a".to_owned(),
        recipe_name: "recipe a".to_owned(),
    });
    assert_eq!(dialog.layer(), LayerId::RecipeHistory);
    assert_eq!(dialog.title(), "Recipes \u{203a} recipe a history");
    assert_eq!(dialog.state().id, id);
    let requests = dialog.take_requests();
    match &requests[..] {
        [RecipeRequest::History { meta, recipe_id }] => {
            assert_eq!(recipe_id, "a");
            assert!(dialog.set_recipes(*meta, vec![item("a")], Vec::new(), None));
        }
        _ => panic!("the revisions are asked for"),
    }
    assert_eq!(dialog.state().status, "1 revisions (newest first; at most 100)");
    assert_eq!(
        dialog.key(alt('e'), shell.ctx()),
        RecipeStep::Done(Outcome::Replace(Open::Recipes { mode: RecipeDialogMode::Export }))
    );
    dialog.open(RecipesOpen::Mode(RecipeDialogMode::Export));
    assert_eq!(dialog.state().id, id);
    assert_eq!(dialog.state().items.len(), 1);
}

#[test]
fn recipe_queue_has_a_limit() {
    let shell = Shell::new();
    let mut dialog = loaded(&["a"], &[]);
    for _ in 0..9 {
        dialog.key(alt('g'), shell.ctx());
    }
    dialog.key(alt('s'), shell.ctx());
    assert_eq!(dialog.state().status, "recipe request queue is full");
    assert_eq!(dialog.take_requests().len(), 8);
}

#[test]
fn recipe_menu_closes_before_the_layer() {
    let mut shell = Shell::new();
    let mut dialog = loaded(&["a"], &[]);
    let more = dialog.actions(true).len() - 1;
    assert_eq!(dialog.actions(true)[more].0, "More v");
    dialog.press_action(more, shell.ctx());
    assert!(dialog.state().menu_open);
    assert!(dialog.action_labels(true).is_empty());
    dialog.key(key(KeyCode::Up), shell.ctx());
    assert_eq!(dialog.state().menu_selected, 2);
    assert_eq!(
        dialog.handle(Event::Dismiss, shell.ctx()),
        RecipeStep::Done(Outcome::Consumed)
    );
    assert!(dialog.is_open());
    shell.overflow = vec![1, 4];
    assert_eq!(
        dialog.more_menu_controls(&shell.overflow),
        vec![
            RecipeDialogControl::Save,
            RecipeDialogControl::Mode(RecipeDialogMode::Import),
            RecipeDialogControl::Mode(RecipeDialogMode::Export),
            RecipeDialogControl::Refresh
        ]
    );
    dialog.press_action(more, shell.ctx());
    dialog.mouse(MouseEventKind::LeftDown, Some(RecipeHit::Menu(0)), shell.ctx());
    assert_eq!(dialog.state().mode, RecipeDialogMode::Save);
    assert_eq!(
        dialog.handle(Event::Dismiss, shell.ctx()),
        RecipeStep::Done(Outcome::Close)
    );
}

#[test]
fn recipe_paste_is_one_bounded_line() {
    let shell = Shell::new();
    let mut dialog = loaded(&["a"], &[]);
    assert_eq!(
        dialog.handle(Event::Paste("x".to_owned()), shell.ctx()),
        RecipeStep::Done(Outcome::Consumed)
    );
    dialog.key(alt('i'), shell.ctx());
    dialog.handle(Event::Paste("a\nb".to_owned()), shell.ctx());
    assert_eq!(dialog.state().status, "recipe name/path must be a bounded single line");
    dialog.handle(Event::Paste("y".repeat(65)), shell.ctx());
    assert_eq!(dialog.state().status, "recipe name/path must be a bounded single line");
    assert_eq!(
        dialog.handle(Event::Paste("y".repeat(64)), shell.ctx()),
        RecipeStep::Edit(EditCommand::InsertPasted)
    );
}

#[test]
fn recipe_focus_goes_round() {
    let shell = Shell::new();
    let mut dialog = loaded(&["a"], &["a"]);
    let mut seen = Vec::new();
    for _ in 0..9 {
        seen.push(dialog.state().control);
        dialog.key(key(KeyCode::Tab), shell.ctx());
    }
    assert_eq!(
        seen,
        vec![
            RecipeDialogControl::List,
            RecipeDialogControl::Input,
            RecipeDialogControl::Apply,
            RecipeDialogControl::Adapt,
            RecipeDialogControl::Reject,
            RecipeDialogControl::Save,
            RecipeDialogControl::Update,
            RecipeDialogControl::History,
            RecipeDialogControl::More
        ]
    );
    assert_eq!(dialog.state().control, RecipeDialogControl::List);
    dialog.key(key(KeyCode::BackTab), shell.ctx());
    assert_eq!(dialog.state().control, RecipeDialogControl::More);
}

#[test]
fn recipe_summary_names_what_is_restored() {
    let mut c = config();
    assert_eq!(recipe_summary(&c), "no filters");
    c.search = "a \"b\"".to_owned();
    c.advanced = "x".to_owned();
    c.enrichment = "e".to_owned();
    c.grouping = "g".to_owned();
    c.pinned_columns = vec!["p".to_owned(), "q".to_owned()];
    c.capture_time_policy = Some(CaptureTimePolicy::Recent { seconds: 60 });
    assert_eq!(
        recipe_summary(&c),
        "search=\"a \\\"b\\\"\" \u{b7} advanced filter \u{b7} 1 enrichment \u{b7} grouping \u{b7} 2 pinned \u{b7} rolling window"
    );
    let mut c = config();
    c.enrichments = vec!["e".to_owned(), "f".to_owned()];
    c.capture_time_policy =
        Some(CaptureTimePolicy::Absolute(CaptureTimeRange { start_unix_nanos: 0, end_unix_nanos: 1 }));
    assert_eq!(recipe_summary(&c), "2 enrichments \u{b7} fixed window");
}

#[test]
fn recipe_sections_and_columns() {
    let body = Rect::new(0, 0, 60, 10);
    let roomy = split_sections(body, true, 2, false);
    assert_eq!(roomy.list, Rect::new(0, 0, 60, 5));
    assert_eq!((roomy.notes, roomy.notes_y), (2, 6));
    assert_eq!((roomy.field_rows, roomy.field_y), (1, 9));
    let tiny = split_sections(Rect::new(0, 0, 60, 1), true, 2, true);
    assert_eq!((tiny.list.height, tiny.field_rows, tiny.field_y), (0, 1, 0));
    let tiny = split_sections(Rect::new(0, 0, 60, 1), true, 2, false);
    assert_eq!((tiny.list.height, tiny.field_rows), (1, 0));
    let columns = place_columns(Rect::new(0, 3, 60, 1));
    assert_eq!(columns.name, Rect::new(0, 3, 22, 1));
    assert_eq!(columns.summary, Some(Rect::new(24, 3, 24, 1)));
    assert_eq!(columns.date, Some(Rect::new(50, 3, 10, 1)));
    let narrow = place_columns(Rect::new(0, 3, 30, 1));
    assert_eq!(narrow.summary, Some(Rect::new(24, 3, 6, 1)));
    assert_eq!(narrow.date, None);
    assert_eq!(recipe_date(None, "2024-01-01"), "\u{2014}");
    assert_eq!(recipe_date(Some(0), "1970-01-01"), "1970-01-01");
    assert_eq!(menu_width(&vec!["ab".to_owned()]), 12);
    assert_eq!(menu_width(&vec!["a longer label".to_owned()]), 18);
    let notes = assemble_notes(
        &vec![("ab cd".to_owned(), true), ("e".to_owned(), false)],
        &vec![vec!["ab".to_owned(), "cd".to_owned()], vec!["e".to_owned()]],
    );
    assert_eq!(
        notes,
        vec![("ab".to_owned(), true), ("cd".to_owned(), true), ("e".to_owned(), false)]
    );
    assert_eq!((note_width(90), note_width(4)), (84, 1));
    let spec = recipes_spec_for(6, 20, true);
    assert_eq!((spec.body, spec.message, spec.help, spec.actions), (2, 0, 0, 2));
    let spec = recipes_spec_for(40, 90, true);
    assert_eq!((spec.body, spec.message, spec.help, spec.actions), (3, 2, 2, 1));
}

#[test]
fn recipe_words() {
    assert_eq!(
        help_text(RecipeDialogMode::Browse),
        "Apply restores a recipe's filters and enrichments."
    );
    assert_eq!(recipe_command_shortcut(CommandId::RecipeRejectSuggestion), Some("x"));
    assert_eq!(recipe_command_shortcut(CommandId::Other), None);
    let mut dialog = RecipesDialog::default();
    let entries = dialog.commands();
    assert_eq!(entries.len(), 10);
    assert_eq!(entries[0].spec.name, "Browse recipes");
    assert_eq!(entries[0].unavailable_reason, Some("open Recipes first"));
    dialog.open_for_test();
    assert_eq!(dialog.commands()[0].spec.shortcut, Some("Alt-B"));
    assert_eq!(dialog.commands()[0].unavailable_reason, None);
}

#[test]
fn recipe_frame_records_what_it_drew() {
    let shell = Shell::new();
    let mut dialog = loaded(&["a", "b", "c"], &["b"]);
    dialog.key(key(KeyCode::Down), shell.ctx());
    let count = dialog.actions(true).len();
    dialog.press_action(count - 1, shell.ctx());
    let resolved = ResolvedDialog {
        frame: Rect::new(0, 0, 70, 20),
        interior: Rect::new(1, 1, 68, 18),
        header: Rect::zero(),
        body: Rect::new(2, 1, 66, 10),
        message: Rect::new(2, 12, 66, 2),
        help: Rect::new(2, 14, 66, 2),
        content_width: 66,
        compact: true,
        actions: ActionGeometry {
            band: Rect::new(2, 17, 66, 1),
            buttons: vec![
                (0, Rect::new(2, 17, 9, 1)),
                (count - 1, Rect::new(30, 17, 10, 1)),
            ],
            overflow: Vec::new(),
            more: None,
            default: Some(0),
        },
    };
    let list = ListGeometry {
        heading: Rect::new(2, 1, 50, 1),
        count: Rect::new(60, 1, 6, 1),
        viewport: Rect::new(4, 2, 60, 2),
        scrollbar: Some(Rect::new(66, 2, 1, 2)),
        first_row: 1,
        row_rects: vec![Rect::new(4, 2, 60, 1), Rect::new(4, 3, 60, 1)],
    };
    let wrapped: Vec<Vec<String>> =
        dialog.notes().iter().map(|(text, _)| vec![text.clone()]).collect();
    let dates = vec!["d0".to_owned(), "d1".to_owned(), "d2".to_owned()];
    let standing =
        vec!["Import".to_owned(), "Export".to_owned(), "Refresh".to_owned()];
    let menu = AnchoredGeometry {
        popup: Rect::new(30, 12, 14, 5),
        viewport: Rect::new(31, 13, 12, 3),
        scrollbar: None,
        first_item: 0,
    };
    let frame = RecipesFrame {
        resolved: &resolved,
        list: &list,
        wrapped: &wrapped,
        dates: &dates,
        input: Rect::new(15, 10, 40, 1),
        caret: None,
        menu: Some(menu),
        standing: &standing,
        theme: theme(),
        ascii: true,
    };
    let (paints, surface) = dialog.render(frame);
    assert!(surface.scrollable);
    assert!(paints.iter().any(|paint| matches!(
        paint,
        Paint::Text { text, area, .. }
            if text == "> \u{2605} recipe b" && *area == Rect::new(4, 2, 22, 1)
    )));
    assert!(paints.iter().any(|paint| matches!(
        paint,
        Paint::Text { text, .. } if text == "2 of 3"
    )));
    assert_eq!(
        dialog.row_rects(),
        &vec![(Rect::new(4, 2, 60, 1), 1), (Rect::new(4, 3, 60, 1), 2)]
    );
    assert_eq!(dialog.menu_rects().len(), 3);
    assert_eq!(dialog.hit(31, 14), Some(RecipeHit::Menu(1)));
    assert_eq!(dialog.hit(5, 3), Some(RecipeHit::Row(2)));
    assert_eq!(dialog.hit(3, 17), Some(RecipeHit::Control(RecipeDialogControl::Apply)));
    assert_eq!(dialog.hit(31, 17), Some(RecipeHit::Control(RecipeDialogControl::More)));
    assert_eq!(dialog.hit(0, 0), None);
    dialog.render_unfit();
    assert_eq!(dialog.hit(5, 3), None);
}

#[test]
fn recipe_outcome_is_recorded_after_the_layer_closed() {
    let mut dialog = RecipesDialog::default();
    dialog.record_outcome(RecipeOutcome {
        source_id: "s".to_owned(),
        recipe_id: "a".to_owned(),
        revision: "r".to_owned(),
        accepted: true,
    });
    assert!(matches!(
        &dialog.take_requests()[..],
        [RecipeRequest::Outcome(outcome)] if outcome.accepted && outcome.recipe_id == "a"
    ));
}
