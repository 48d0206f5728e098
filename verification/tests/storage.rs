use lvu::component::{CommandId, Event, MessageState, Outcome};
use lvu::components::storage::render::StorageFrame;
use lvu::components::storage::{
    caption_row, cleanup_command, diagnostics_panes, entry_columns, entry_count, entry_status,
    entry_text, storage_spec_for, summary_figures, StorageCategory, StorageDialog, StorageEntry,
    StorageFigures, StorageHit, StorageRequest, StorageRequestKind, StorageSnapshot,
};
use lvu::dialog_controls::{ActionGeometry, ButtonRole};
use lvu::dialog_layout::{AnchoredGeometry, ListGeometry, ResolvedDialog, ScrollViewport};
use lvu::geometry::Rect;
use lvu::input::{KeyCode, KeyEvent, KeyEventKind, Modifiers, MouseEventKind};
use lvu::paint::Paint;
use lvu::style::{
    Color, ColorDepth, HeartColors, JsonColors, ReadableColors, SeverityColors, Theme,
};

fn theme() -> Theme {
    let grey = Color::Indexed(0);
    Theme {
        base_fg: grey,
        base_bg: grey,
        muted: grey,
        dialog_bg: grey,
        accent: grey,
        input_fg: grey,
        input_bg: grey,
        cursor: grey,
        selection_fg: grey,
        selection_bg: grey,
        severity: SeverityColors { info: grey, warn: grey, error: grey },
        json: JsonColors {
            string: grey,
            number: grey,
            boolean: grey,
            null: grey,
            punctuation: grey,
        },
        heart: HeartColors { primary: grey, error: grey },
        depth: ColorDepth::TrueColor,
        readable: ReadableColors {
            base_on_dialog: grey,
            accent_on_dialog: grey,
            input_on_input: grey,
            selection_on_selection: grey,
            info_on_dialog: grey,
            warn_on_dialog: grey,
            error_on_dialog: grey,
            dialog_on_accent: grey,
        },
    }
}

fn key(code: KeyCode) -> KeyEvent {
    KeyEvent {
        code,
        modifiers: Modifiers { shift: false, control: false, alt: false, other: false },
        kind: KeyEventKind::Press,
    }
}

fn snapshot(entries: usize, reclaimable: u64) -> StorageSnapshot {
    let mut snapshot = StorageSnapshot::default();
    for index in 0..entries {
        snapshot.entries.push(StorageEntry {
            category: StorageCategory::Derived,
            bytes: 10,
            label: format!("entry {index}"),
            status: "in use".to_owned(),
            reclaimable: 0,
        });
    }
    snapshot.reclaimable_bytes = reclaimable;
    snapshot
}

fn scanned(entries: usize, reclaimable: u64) -> StorageDialog {
    let mut dialog = StorageDialog::default();
    dialog.open();
    let requests = dialog.outbox.drain();
    assert_eq!(
        requests,
        vec![StorageRequest { generation: 1, kind: StorageRequestKind::Scan }]
    );
    assert!(dialog.complete(1, snapshot(entries, reclaimable), "scanned".to_owned(), true));
    dialog
}

#[test]
fn storage_cleanup_takes_two_presses() {
    let mut dialog = scanned(2, 4096);
    assert_eq!(dialog.action_labels(), vec!["&Refresh", "Preview &cleanup"]);
    assert_eq!(dialog.press_action(1, "4 KiB"), Outcome::Consumed);
    assert!(dialog.confirm_clear());
    assert_eq!(
        dialog.status(),
        "clear 4 KiB of unused recomputable derived indexes? press c again"
    );
    assert_eq!(dialog.action_labels()[1], "Confirm &cleanup");
    assert_eq!(dialog.action_role(1), ButtonRole::Destructive);
    assert!(dialog.outbox.drain().is_empty());
    dialog.press_action(1, "4 KiB");
    assert_eq!(
        dialog.outbox.drain(),
        vec![StorageRequest { generation: 1, kind: StorageRequestKind::ClearUnusedDerived }]
    );
    assert_eq!(dialog.status(), "clearing unused derived indexes\u{2026}");
    dialog.press_action(1, "4 KiB");
    assert_eq!(dialog.status(), "wait for the current storage scan");
    assert!(dialog.outbox.drain().is_empty());
}

#[test]
fn storage_moving_withdraws_the_confirmation() {
    let mut dialog = scanned(2, 1);
    dialog.handle(Event::Command(CommandId::StorageClear), "1 B");
    assert!(dialog.confirm_clear());
    dialog.key(key(KeyCode::Up), "1 B");
    assert_eq!(dialog.selected(), 1);
    assert!(!dialog.confirm_clear());
    dialog.key(key(KeyCode::Char('j')), "1 B");
    assert_eq!(dialog.selected(), 0);
}

#[test]
fn storage_has_nothing_to_clear() {
    let mut dialog = scanned(1, 0);
    dialog.press_action(1, "0 B");
    assert_eq!(dialog.status(), "no unused derived indexes are reclaimable");
    assert_eq!(dialog.press_action(2, "0 B"), Outcome::Ignored);
}

#[test]
fn storage_scan_fences_the_old_one() {
    let mut dialog = StorageDialog::default();
    assert!(!dialog.complete(0, snapshot(1, 0), "late".to_owned(), true));
    dialog.open();
    assert_eq!(dialog.status(), "scanning application-owned storage\u{2026}");
    dialog.key(key(KeyCode::Enter), "");
    assert_eq!(dialog.status(), "refreshing storage usage\u{2026}");
    assert_eq!(
        dialog.outbox.drain(),
        vec![
            StorageRequest { generation: 1, kind: StorageRequestKind::Scan },
            StorageRequest { generation: 1, kind: StorageRequestKind::Cancel },
            StorageRequest { generation: 2, kind: StorageRequestKind::Scan }
        ]
    );
    assert!(!dialog.complete(1, snapshot(1, 0), "late".to_owned(), true));
    assert!(dialog.complete(2, snapshot(3, 0), "partial".to_owned(), false));
    for _ in 0..2 {
        dialog.key(key(KeyCode::Down), "");
    }
    assert_eq!(dialog.selected(), 2);
    assert!(dialog.complete(2, snapshot(1, 0), "done".to_owned(), true));
    assert_eq!(dialog.selected(), 0);
    assert_eq!(dialog.handle(Event::Dismiss, ""), Outcome::Close);
    assert!(dialog.outbox.drain().is_empty());
    assert!(!dialog.is_open());
}

#[test]
fn storage_closing_cancels_a_scan() {
    let mut dialog = StorageDialog::default();
    dialog.open();
    dialog.outbox.drain();
    assert_eq!(dialog.handle(Event::Dismiss, ""), Outcome::Close);
    assert_eq!(
        dialog.outbox.drain(),
        vec![StorageRequest { generation: 1, kind: StorageRequestKind::Cancel }]
    );
}

#[test]
fn storage_command_waits_for_the_preview() {
    let mut dialog = scanned(1, 1);
    assert_eq!(
        dialog.commands()[0].unavailable_reason,
        Some("confirm cleanup in Storage preview first")
    );
    dialog.press_action(1, "1 B");
    assert_eq!(dialog.commands()[0].unavailable_reason, None);
    assert_eq!(dialog.commands()[0].spec.shortcut, Some("Alt-C"));
    assert_eq!(cleanup_command().id, CommandId::StorageClear);
}

#[test]
fn storage_rows_and_figures() {
    let entry = StorageEntry {
        category: StorageCategory::Capture,
        bytes: 3,
        label: "host".to_owned(),
        status: "live".to_owned(),
        reclaimable: 0,
    };
    let text = entry_text(&entry, "3 B", true, true, 10);
    assert_eq!(text, "> capture        3 B  host      ");
    assert_eq!(entry_status(&entry), "live");
    let (name, status) = entry_columns(80);
    assert_eq!((name, status), (29, 29));
    assert_eq!(entry_columns(60), (38, 0));
    assert_eq!(entry_count(3, 5, "9 B"), "2 of 5 \u{b7} 9 B reclaimable");
    assert_eq!(caption_row(Rect::new(0, 0, 80, 0), 80), None);
    let figures = StorageFigures {
        row_cache: "1 B".to_owned(),
        row_cache_limit: "2 B".to_owned(),
        query_index: "3 B".to_owned(),
        query_index_limit: "4 B".to_owned(),
        total: "5 B".to_owned(),
        total_limit: "6 B".to_owned(),
        per_source_limit: "7 B".to_owned(),
    };
    assert_eq!(
        summary_figures(&figures),
        vec![
            ("Row cache", "1 B of 2 B".to_owned()),
            ("Membership", "3 B of 4 B".to_owned()),
            ("Derived disk", "5 B of 6 B".to_owned()),
            ("Per source", "7 B cap".to_owned())
        ]
    );
    let (heading, viewport) = diagnostics_panes(Rect::new(0, 4, 20, 3));
    assert_eq!(heading, Rect::new(0, 4, 20, 1));
    assert_eq!(viewport.y, 5);
    let spec = storage_spec_for(80, &["&Refresh", "Preview &cleanup"]);
    assert_eq!((spec.header, spec.body, spec.message, spec.help, spec.actions), (0, 3, 2, 0, 1));
}

#[test]
fn storage_diagnostics_wrap_and_scroll() {
    let mut dialog = StorageDialog::default();
    dialog.open();
    let mut found = snapshot(0, 0);
    found.errors = vec!["aaaa bbbb".to_owned(), "cccc".to_owned()];
    dialog.complete(1, found, "done".to_owned(), true);
    assert_eq!(
        dialog.diagnostics(Rect::new(0, 0, 4, 2)),
        ("aaaa bbbb\ncccc".to_owned(), 1, 0)
    );
    assert_eq!(dialog.diagnostics_scroll(5, 2), (3, 0));
    assert_eq!(
        dialog.message(),
        (
            MessageState::Error,
            "2 problems in the last scan \u{b7} details below".to_owned()
        )
    );
}

#[test]
fn storage_frame_records_what_it_drew() {
    let mut dialog = scanned(2, 0);
    let resolved = ResolvedDialog {
        frame: Rect::new(0, 0, 80, 24),
        interior: Rect::new(1, 1, 78, 22),
        header: Rect::zero(),
        body: Rect::new(2, 1, 76, 14),
        message: Rect::new(2, 16, 76, 2),
        help: Rect::zero(),
        content_width: 76,
        compact: false,
        actions: ActionGeometry {
            band: Rect::new(2, 19, 76, 1),
            buttons: vec![(0, Rect::new(2, 19, 11, 1))],
            overflow: vec![1],
            more: Some(Rect::new(15, 19, 10, 1)),
            default: Some(0),
        },
    };
    let list = ListGeometry {
        heading: Rect::new(2, 5, 60, 1),
        count: Rect::new(64, 5, 10, 1),
        viewport: Rect::new(4, 6, 70, 2),
        scrollbar: None,
        first_row: 0,
        row_rects: vec![Rect::new(4, 6, 70, 1), Rect::new(4, 7, 70, 1)],
    };
    let figures = StorageFigures {
        row_cache: "1 B".to_owned(),
        row_cache_limit: "2 B".to_owned(),
        query_index: "3 B".to_owned(),
        query_index_limit: "4 B".to_owned(),
        total: "5 B".to_owned(),
        total_limit: "6 B".to_owned(),
        per_source_limit: "7 B".to_owned(),
    };
    let count = "2 entries".to_owned();
    let sizes = vec!["10 B".to_owned(), "10 B".to_owned()];
    let statuses = vec!["in use".to_owned(), "in use".to_owned()];
    let menu = AnchoredGeometry {
        popup: Rect::new(15, 16, 20, 3),
        viewport: Rect::new(16, 17, 18, 1),
        scrollbar: None,
        first_item: 0,
    };
    let frame = |menu| StorageFrame {
        resolved: &resolved,
        figures: &figures,
        list: &list,
        count: &count,
        sizes: &sizes,
        statuses: &statuses,
        scrolled: ScrollViewport { viewport: Rect::zero(), scrollbar: None, first_row: 0 },
        menu,
        theme: theme(),
        ascii: true,
    };
    let (paints, surface) = dialog.render(frame(None));
    assert!(!surface.text_focus);
    assert!(paints.iter().any(|paint| matches!(
        paint,
        Paint::Frame { title } if title == "Storage"
    )));
    assert_eq!(dialog.row_rects(), &[(Rect::new(4, 6, 70, 1), 0), (Rect::new(4, 7, 70, 1), 1)][..]);
    assert_eq!(dialog.hit(5, 7), Some(StorageHit::Row(1)));
    assert_eq!(dialog.hit(3, 19), Some(StorageHit::Refresh));
    assert_eq!(dialog.hit(16, 19), Some(StorageHit::More));
    assert_eq!(dialog.hit(3, 1), Some(StorageHit::Body));
    dialog.mouse(MouseEventKind::LeftDown, Some(StorageHit::More), "");
    let (_, _) = dialog.render(frame(Some(menu)));
    assert_eq!(dialog.hit(17, 17), Some(StorageHit::Menu(1)));
    assert_eq!(dialog.handle(Event::Dismiss, ""), Outcome::Consumed);
    assert!(dialog.is_open());
    assert_eq!(dialog.message().0, MessageState::Scanned);
}

#[test]
fn storage_menu_is_as_wide_as_its_longest_label() {
    let mut dialog = scanned(1, 4096);
    assert_eq!(dialog.menu_width(&vec![0]), 12);
    assert_eq!(dialog.menu_width(&vec![0, 1]), 20);
    assert_eq!(dialog.menu_width(&Vec::new()), 12);
    assert_eq!(dialog.menu_width(&vec![7]), 12);
    assert_eq!((dialog.menu_row(0), dialog.menu_row(2)), (0, 0));
    dialog.press_action(1, "4 KiB");
    assert_eq!(dialog.menu_width(&vec![1]), 20);
}
