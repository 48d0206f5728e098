use lvu::component::{
    CommandId, EditCommand, Edited, Event, MessageState, Open, Outcome, Step, ViewEvent,
};
use lvu::components::source::SourceItem;
use lvu::components::time::{CaptureTimePolicy, CaptureTimeRange, TimeBasis};
use lvu::components::union_dialog::render::UnionFrame;
use lvu::components::union_dialog::{
    union_spec, SharedKeyUnionOrigin, UnionCandidate, UnionDialogComponent, UnionDialogRequest, UnionFocus,
    UnionHit, UnionOpen,
};
use lvu::components::view::frame::{
    place_name_field, view_apply_label, view_command_shortcut, view_mnemonic_targets,
};
use lvu::components::view::render::ViewFrame;
use lvu::components::view::{
    view_command_mode, ViewContext, ViewDialog, ViewDialogControl, ViewDialogMode, ViewHit,
    ViewInfo,
};
use lvu::components::view_summary::frame::{
    message_of, row_text, summary_spec, SummaryControl, SummaryHit, ViewSummaryDialog,
};
use lvu::components::view_summary::render::SummaryFrame;
use lvu::components::view_summary::{
    applied_text, colour_value, enrichment_value, fold_value, order_value, readiness_value,
    summary_rows, time_value, AppliedSetting, ColorRule, EnrichmentStage, GroupingSpec,
    SummaryRow, ViewOrder, ViewRole, ViewState,
};
use lvu::dialog_controls::button_layout;
use lvu::dialog_layout::{DialogSpec, FrameRegions, PaneGeometry};
use lvu::geometry::Rect;
use lvu::input::{KeyCode, KeyEvent, KeyEventKind, Modifiers, MouseEventKind};
use lvu::paint::{Fit, Paint};
use lvu::style::{
    Color, ColorDepth, HeartColors, JsonColors, ReadableColors, SeverityColors, Theme,
};

fn theme() -> Theme {
    let grey = Color::Indexed(0);
    Theme {
        base_fg: grey,
        base_bg: grey,
        muted: grey,
        dialog_bg: grey,
        accent: grey,
        input_fg: grey,
        input_bg: grey,
        cursor: grey,
        selection_fg: grey,
        selection_bg: grey,
        severity: SeverityColors { info: grey, warn: grey, error: grey },
        json: JsonColors {
            string: grey,
            number: grey,
            boolean: grey,
            null: grey,
            punctuation: grey,
        },
        heart: HeartColors { primary: grey, error: grey },
        depth: ColorDepth::TrueColor,
        readable: ReadableColors {
            base_on_dialog: grey,
            accent_on_dialog: grey,
            input_on_input: grey,
            selection_on_selection: Color::Indexed(9),
            info_on_dialog: grey,
            warn_on_dialog: grey,
            error_on_dialog: grey,
            dialog_on_accent: grey,
        },
    }
}

fn key(code: KeyCode) -> KeyEvent {
    KeyEvent {
        code,
        modifiers: Modifiers { shift: false, control: false, alt: false, other: false },
        kind: KeyEventKind::Press,
    }
}

fn alt(code: KeyCode) -> KeyEvent {
    let mut event = key(code);
    event.modifiers.alt = true;
    event
}

fn source(id: &str, name: &str) -> SourceItem {
    SourceItem { id: id.to_owned(), name: name.to_owned(), health: "ok".to_owned() }
}

fn regions() -> FrameRegions {
    FrameRegions {
        popup: Rect::new(0, 0, 40, 12),
        interior: Rect::new(1, 1, 38, 10),
        content: Rect::new(2, 1, 36, 10),
        header: Rect::new(2, 1, 36, 1),
        body: Rect::new(2, 2, 36, 4),
        message: Rect::new(2, 6, 36, 1),
        help: Rect::new(2, 7, 36, 1),
        actions: Rect::new(2, 9, 36, 1),
    }
}

fn pane() -> PaneGeometry {
    PaneGeometry {
        heading: Rect::new(2, 2, 30, 1),
        count: Rect::new(32, 2, 6, 1),
        viewport: Rect::new(4, 3, 34, 3),
        scrollbar: None,
    }
}

fn view() -> Option<ViewInfo> {
    Some(ViewInfo {
        id: "v".to_owned(),
        name: "Errors".to_owned(),
        source_id: "s1".to_owned(),
        source_ids: vec!["s1".to_owned()],
    })
}

#[test]
fn view_modes_start_from_the_view() {
    let view = view();
    let sources = vec![source("s1", "one"), source("s2", "two")];
    let ctx = ViewContext { view: &view, sources: &sources };
    let mut dialog = ViewDialog::default();
    dialog.open(ViewDialogMode::Clone, ctx);
    assert!(dialog.is_open());
    assert_eq!(dialog.draft(), "Copy of Errors");
    assert_eq!(dialog.control(), ViewDialogControl::Input);
    assert_eq!(dialog.handle(Event::Command(CommandId::ViewBlank), ctx), Step::Done(Outcome::Consumed));
    assert_eq!(dialog.draft(), "New view");
    assert_eq!(dialog.press_action(3, ctx), Outcome::Consumed);
    assert_eq!(dialog.mode(), ViewDialogMode::Rename);
    assert_eq!(dialog.draft(), "Errors");
    dialog.key(alt(KeyCode::Char('m')), ctx);
    assert_eq!(dialog.mode(), ViewDialogMode::Sources);
    assert_eq!(dialog.control(), ViewDialogControl::Sources);
    assert_eq!(dialog.press_action(9, ctx), Outcome::Ignored);
}

#[test]
fn view_does_not_open_without_a_view() {
    let none: Option<ViewInfo> = None;
    let sources = Vec::new();
    let mut dialog = ViewDialog::default();
    dialog.open(ViewDialogMode::Clone, ViewContext { view: &none, sources: &sources });
    assert!(!dialog.is_open());
}

#[test]
fn view_header_moves_and_keeps_the_keys() {
    let view = view();
    let sources = Vec::new();
    let ctx = ViewContext { view: &view, sources: &sources };
    let mut dialog = ViewDialog::default();
    dialog.open(ViewDialogMode::Blank, ctx);
    dialog.key(key(KeyCode::BackTab), ctx);
    assert_eq!(dialog.control(), ViewDialogControl::Tabs);
    dialog.key(key(KeyCode::Left), ctx);
    assert_eq!(dialog.mode(), ViewDialogMode::Sources);
    assert_eq!(dialog.control(), ViewDialogControl::Tabs);
    dialog.key(key(KeyCode::Right), ctx);
    assert_eq!(dialog.mode(), ViewDialogMode::Blank);
    assert_eq!(dialog.key(key(KeyCode::Enter), ctx), Step::Done(Outcome::Consumed));
    assert!(dialog.take_requests().is_empty());
}

#[test]
fn view_owner_stays_and_others_come_and_go() {
    let view = view();
    let sources = vec![source("s1", "one"), source("s2", "two")];
    let ctx = ViewContext { view: &view, sources: &sources };
    let mut dialog = ViewDialog::default();
    dialog.open(ViewDialogMode::Sources, ctx);
    dialog.key(key(KeyCode::Char(' ')), ctx);
    assert_eq!(dialog.error(), Some("the owning source stays in this view"));
    assert_eq!(dialog.source_ids().len(), 1);
    dialog.key(key(KeyCode::Down), ctx);
    dialog.key(key(KeyCode::Char(' ')), ctx);
    assert_eq!(dialog.source_ids(), &vec!["s1".to_owned(), "s2".to_owned()]);
    assert_eq!(dialog.error(), None);
    dialog.key(alt(KeyCode::Up), ctx);
    assert_eq!(dialog.source_ids(), &vec!["s2".to_owned(), "s1".to_owned()]);
    dialog.key(alt(KeyCode::Up), ctx);
    assert_eq!(dialog.source_ids(), &vec!["s2".to_owned(), "s1".to_owned()]);
    dialog.key(key(KeyCode::Char(' ')), ctx);
    assert_eq!(dialog.source_ids(), &vec!["s1".to_owned()]);
    dialog.mouse(MouseEventKind::ScrollDown, None, ctx);
    assert_eq!(dialog.selected_source(), 1);
}

#[test]
fn view_change_is_asked_for_under_a_name() {
    let view = view();
    let sources = Vec::new();
    let ctx = ViewContext { view: &view, sources: &sources };
    let mut dialog = ViewDialog::default();
    dialog.open(ViewDialogMode::Rename, ctx);
    let edited = |value: &str| Edited {
        value: value.to_owned(),
        cursor: value.chars().count(),
        changed: true,
        moved: false,
    };
    assert_eq!(dialog.key(key(KeyCode::Char('x')), ctx), Step::Edit(EditCommand::Insert('x')));
    assert_eq!(dialog.edited(edited("   ")), Outcome::Consumed);
    dialog.key(key(KeyCode::Enter), ctx);
    assert_eq!(dialog.error(), Some("view name cannot be empty"));
    assert_eq!(dialog.draft(), "   ");
    dialog.edited(edited(" Fresh "));
    assert_eq!(dialog.error(), None);
    dialog.key(key(KeyCode::Enter), ctx);
    let requests = dialog.take_requests();
    assert_eq!(requests.len(), 1);
    assert_eq!(requests[0].name, "Fresh");
    assert_eq!(requests[0].view_id, "v");
    assert_eq!(requests[0].mode, ViewDialogMode::Rename);
    dialog.fail("taken".to_owned());
    assert_eq!(dialog.error(), Some("taken"));
    assert_eq!(dialog.draft(), " Fresh ");
    for _ in 0..8 {
        dialog.key(key(KeyCode::Enter), ctx);
    }
    dialog.key(key(KeyCode::Enter), ctx);
    assert_eq!(dialog.error(), Some("view request queue is full"));
    assert_eq!(
        dialog.handle(Event::View(ViewEvent::SourcesChanged), ctx),
        Step::Done(Outcome::Close)
    );
    assert!(!dialog.is_open());
}

#[test]
fn view_labels_and_shortcuts() {
    assert_eq!(view_apply_label(ViewDialogMode::Sources), "Apply membership");
    assert_eq!(view_apply_label(ViewDialogMode::Clone), "Apply");
    assert_eq!(
        view_mnemonic_targets(ViewDialogMode::Blank),
        vec!["Apply", "New &blank", "&Clone", "&Rename", "&Sources"]
    );
    assert_eq!(view_command_mode(CommandId::ViewClone), Some(ViewDialogMode::Clone));
    assert_eq!(view_command_mode(CommandId::Other), None);
    assert_eq!(view_command_shortcut(CommandId::ViewSources), Some("Alt-S"));
    assert_eq!(place_name_field(Rect::new(2, 0, 20, 5), 3), Rect::new(8, 3, 14, 1));
    let dialog = ViewDialog::default();
    let entries = dialog.commands();
    assert_eq!(entries.len(), 4);
    assert_eq!(entries[0].unavailable_reason, Some("open Manage views first"));
    assert_eq!(entries[0].spec.shortcut, None);
}

#[test]
fn view_frame_shows_the_selected_source() {
    let view = view();
    let sources: Vec<SourceItem> =
        (0..6).map(|index| source(&format!("s{index}"), &format!("name{index}"))).collect();
    let ctx = ViewContext { view: &view, sources: &sources };
    let mut dialog = ViewDialog::default();
    dialog.open(ViewDialogMode::Sources, ctx);
    for _ in 0..4 {
        dialog.key(key(KeyCode::Down), ctx);
    }
    let tabs = vec![Rect::new(2, 1, 5, 1), Rect::new(8, 1, 5, 1)];
    let frame = ViewFrame {
        ctx,
        regions: regions(),
        tabs: &tabs,
        pane: pane(),
        caret: None,
        theme: theme(),
        ascii: true,
    };
    let (paints, surface) = dialog.render(frame);
    assert!(!surface.text_focus);
    assert_eq!(
        dialog.source_rects().iter().map(|(_, index)| *index).collect::<Vec<_>>(),
        vec![2, 3, 4]
    );
    assert!(paints.iter().any(|paint| matches!(
        paint,
        Paint::Text { text, fit: Fit::Clipped, .. } if text == "> [ ]    name4"
    )));
    assert!(paints.iter().any(|paint| matches!(
        paint,
        Paint::Text { text, right: true, .. } if text == "5 of 6"
    )));
    assert_eq!(dialog.hit(9, 1), Some(ViewHit::Tab(ViewDialogMode::Clone)));
    assert_eq!(dialog.hit(4, 5), Some(ViewHit::Source(4)));
    assert_eq!(dialog.hit(3, 9), Some(ViewHit::Control(ViewDialogControl::Apply)));
    assert_eq!(dialog.hit(2, 2), Some(ViewHit::Body));
    assert_eq!(dialog.hit(39, 11), None);
}

fn candidates() -> Vec<UnionCandidate> {
    ["a", "b", "c"]
        .iter()
        .map(|id| UnionCandidate { id: (*id).to_owned(), name: format!("view {id}") })
        .collect()
}

#[test]
fn union_layer_starts_from_the_active_view() {
    let views = candidates();
    let mut layer = UnionDialogComponent::default();
    layer.open(UnionOpen::Plain, &Some("b".to_owned()), &views);
    assert_eq!(layer.draft().inputs(), &vec!["b".to_owned()]);
    assert_eq!(layer.highlighted(), 1);
    assert_eq!(
        layer.message(&views),
        (
            MessageState::Disabled,
            "select at least two views (1 of 3 views selected)".to_owned()
        )
    );
}

#[test]
fn union_layer_asks_once_and_can_try_again() {
    let views = candidates();
    let mut layer = UnionDialogComponent::default();
    let origin = SharedKeyUnionOrigin {
        origin_view_id: "a".to_owned(),
        row_id: 7,
        field: "trace".to_owned(),
    };
    layer.open(UnionOpen::SharedKey(origin), &None, &views);
    assert_eq!(layer.key(key(KeyCode::Enter), &views), Outcome::Consumed);
    assert_eq!(
        layer.message(&views),
        (MessageState::Error, "a union needs at least two input views".to_owned())
    );
    layer.key(key(KeyCode::Down), &views);
    layer.key(key(KeyCode::Char(' ')), &views);
    assert_eq!(
        layer.message(&views),
        (
            MessageState::Ready,
            "2 of 3 views selected \u{b7} ties break by list order \u{b7} filtered by the selected enriched key"
                .to_owned()
        )
    );
    layer.key(key(KeyCode::Enter), &views);
    layer.key(key(KeyCode::Enter), &views);
    let requests = layer.take_requests();
    assert_eq!(requests.len(), 1);
    let UnionDialogRequest::Create { inputs, shared_key } = &requests[0];
    assert_eq!(inputs, &vec!["a".to_owned(), "b".to_owned()]);
    assert_eq!(shared_key.as_ref().map(|origin| origin.row_id), Some(7));
    layer.create_failed("no".to_owned());
    assert_eq!(layer.draft().error(), Some("no"));
    layer.press_action(0);
    assert_eq!(layer.take_requests().len(), 1);
    assert_eq!(layer.press_action(1), Outcome::Close);
    assert_eq!(layer.press_action(2), Outcome::Ignored);
}

#[test]
fn union_layer_toggles_with_space_and_the_mouse() {
    let views = candidates();
    let mut layer = UnionDialogComponent::default();
    layer.open(UnionOpen::Plain, &None, &views);
    assert!(layer.draft().inputs().is_empty());
    layer.key(key(KeyCode::Char(' ')), &views);
    layer.key(key(KeyCode::Char(' ')), &views);
    assert!(layer.draft().inputs().is_empty());
    layer.mouse(MouseEventKind::LeftDown, Some(UnionHit::Input(2)), &views);
    assert_eq!(layer.highlighted(), 2);
    assert_eq!(layer.draft().inputs(), &vec!["c".to_owned()]);
    layer.key(key(KeyCode::Down), &views);
    assert_eq!(layer.highlighted(), 2);
    layer.key(key(KeyCode::BackTab), &views);
    assert_eq!(layer.focus(), UnionFocus::Cancel);
    assert_eq!(layer.key(key(KeyCode::Enter), &views), Outcome::Close);
    layer.key(key(KeyCode::Tab), &views);
    assert_eq!(layer.focus(), UnionFocus::Inputs);
}

#[test]
fn union_frame_shows_the_highlighted_view() {
    let views: Vec<UnionCandidate> = (0..9)
        .map(|index| UnionCandidate { id: format!("v{index}"), name: format!("view {index}") })
        .collect();
    let mut layer = UnionDialogComponent::default();
    layer.open(UnionOpen::Plain, &Some("v6".to_owned()), &views);
    let labels = layer.action_labels();
    let buttons = button_layout(regions().actions, &labels, None);
    let frame = UnionFrame { candidates: &views, regions: regions(), theme: theme() };
    let (paints, surface) = layer.render(frame);
    assert!(surface.scrollable);
    assert!(paints.iter().any(|paint| matches!(
        paint,
        Paint::Text { text, style, .. }
            if text == "[x] view 6" && style.fg == Some(Color::Indexed(9))
    )));
    assert_eq!(layer.hit(3, 2), Some(UnionHit::Input(3)));
    assert_eq!(layer.hit(3, 5), Some(UnionHit::Input(6)));
    assert_eq!(buttons.len(), 2);
    for (index, area) in buttons {
        assert_eq!(layer.hit(area.x, area.y), Some(UnionHit::Button(index)));
    }
    assert_eq!(layer.hit(0, 0), None);
}

fn setting(applied: &str) -> AppliedSetting {
    AppliedSetting { applied: applied.to_owned(), pending: false }
}

fn state() -> ViewState {
    ViewState {
        role: ViewRole::Canonical,
        source_id: "s1".to_owned(),
        source_ids: vec!["s1".to_owned()],
        search: setting(""),
        advanced: setting(""),
        enrichment: setting(""),
        grouping: setting(""),
        grouping_spec: None,
        pinned_columns: Vec::new(),
        color_field: None,
        color_rules: Vec::new(),
        enrichments: Vec::new(),
        capture_time_policy: None,
        capture_time: None,
        duration: String::new(),
        time_basis: TimeBasis::Capture,
        time_basis_label: "Capture".to_owned(),
        time_field: None,
        time_update_pending: false,
        fold_enabled: false,
        fold_lookback: 0,
        fold_minimum_run: 0,
        fold_default_run: 3,
        fold_key_column: None,
        fold_key_label: "pattern".to_owned(),
        fold_normalisation: "Numbers".to_owned(),
        applied_query_revision: 1,
        desired_query_revision: 1,
        stale_steps: Vec::new(),
    }
}

#[test]
fn summary_of_a_plain_view_applies_nothing() {
    let sources = vec![source("s1", "one")];
    let plain = state();
    let rows = summary_rows(Some(&plain), &sources, &None, false);
    assert_eq!(rows.len(), 11);
    assert_eq!(rows[0].value, "All events of one \u{b7} fixed");
    assert_eq!(rows[1].value, "one");
    assert_eq!(rows[10].value, "ready");
    for row in &rows {
        assert_eq!(row.applied, !row.row.is_operation());
        if row.row.is_operation() {
            assert_eq!(row.value, "\u{2014}");
        }
    }
    assert_eq!(
        message_of(&rows),
        (
            MessageState::Ready,
            "no operation applied \u{b7} every record of the sources is shown".to_owned()
        )
    );
    assert!(summary_rows(None, &sources, &None, false).is_empty());
    assert_eq!(summary_rows(Some(&plain), &sources, &None, true)[2].value, "-");
}

#[test]
fn summary_rows_have_their_labels_in_order() {
    let labels: Vec<&str> = SummaryRow::all().iter().map(|row| row.label()).collect();
    assert_eq!(
        labels,
        vec![
            "View", "Sources", "Time", "Enrichment", "Search", "Advanced", "Grouping", "Fold",
            "Columns", "Colour", "Readiness"
        ]
    );
}

#[test]
fn summary_values_are_worded_as_their_dialogs_word_them() {
    let mut s = state();
    s.role = ViewRole::Derived;
    s.source_ids = vec!["s1".to_owned(), "gone".to_owned()];
    s.search = setting(" a\nb ");
    s.grouping = setting("x");
    s.pinned_columns = vec!["p".to_owned(), "q".to_owned()];
    let sources = vec![source("s1", "one")];
    let order = Some(ViewOrder {
        basis: "Event".to_owned(),
        interleaved: true,
        sources: 3,
        out_of_order: 2,
        fully_ordered: false,
    });
    let rows = summary_rows(Some(&s), &sources, &order, false);
    assert_eq!(rows[0].value, "derived from one");
    assert_eq!(
        rows[1].value,
        "one, gone (merged, event \u{b7} merged \u{b7} 2 of 3 sources arrive out of order)"
    );
    assert_eq!(rows[4].value, "a \u{23ce} b");
    assert_eq!(rows[6].value, "Unsupported grouping version");
    assert_eq!(rows[8].value, "pinned: p, q");
    s.grouping_spec = Some(GroupingSpec::Run { column: "c".to_owned() });
    assert_eq!(summary_rows(Some(&s), &sources, &order, false)[6].value, "Run on c");
    s.grouping_spec = Some(GroupingSpec::Filter { column: "c".to_owned() });
    assert_eq!(summary_rows(Some(&s), &sources, &order, false)[6].value, "Starts on c non-null");
    s.grouping_spec = Some(GroupingSpec::Custom);
    assert_eq!(summary_rows(Some(&s), &sources, &order, false)[6].value, "x");
    s.grouping_spec = Some(GroupingSpec::Auto);
    assert_eq!(summary_rows(Some(&s), &sources, &order, false)[6].value, "Auto");
}

#[test]
fn summary_order_is_named_by_how_rows_arrive() {
    let order = |interleaved, sources, fully_ordered| {
        Some(ViewOrder {
            basis: "CAPTURE".to_owned(),
            interleaved,
            sources,
            out_of_order: 0,
            fully_ordered,
        })
    };
    assert_eq!(order_value(&None), "capture (arrival)");
    assert_eq!(order_value(&order(false, 2, false)), "capture \u{b7} source order");
    assert_eq!(order_value(&order(true, 1, false)), "capture (arrival)");
    assert_eq!(order_value(&order(true, 2, true)), "capture \u{b7} merged");
}

#[test]
fn summary_time_colour_and_fold() {
    let mut s = state();
    assert_eq!(time_value(&s), None);
    s.capture_time_policy = Some(CaptureTimePolicy::Recent { seconds: 300 });
    s.duration = "5 minutes".to_owned();
    assert_eq!(
        time_value(&s),
        Some("rolling last 5 minutes \u{b7} basis: Capture".to_owned())
    );
    s.capture_time_policy = Some(CaptureTimePolicy::Absolute(CaptureTimeRange {
        start_unix_nanos: 1,
        end_unix_nanos: 2,
    }));
    assert_eq!(time_value(&s), Some("absolute pending \u{b7} basis: Capture".to_owned()));
    s.capture_time = Some(("A".to_owned(), "B".to_owned()));
    s.time_basis = TimeBasis::Selected;
    s.time_field = Some("ts".to_owned());
    assert_eq!(time_value(&s), Some("absolute A .. B \u{b7} basis: field ts".to_owned()));
    s.capture_time_policy = None;
    assert_eq!(time_value(&s), Some("all times \u{b7} basis: field ts".to_owned()));
    assert_eq!(colour_value(&s, false), None);
    s.color_field = Some("level".to_owned());
    s.color_rules.push(ColorRule { predicate: "a\nb".to_owned(), color: "Red".to_owned() });
    assert_eq!(
        colour_value(&s, true),
        Some("by level \u{b7} 1 rule: 1 a \u{23ce} b -> Red".to_owned())
    );
    assert_eq!(fold_value(&s), None);
    s.fold_enabled = true;
    assert_eq!(
        fold_value(&s),
        Some("by pattern \u{b7} adjacent \u{b7} min 3 \u{b7} numbers".to_owned())
    );
    s.fold_lookback = 4;
    s.fold_minimum_run = 5;
    s.fold_key_column = Some("k".to_owned());
    assert_eq!(
        fold_value(&s),
        Some("by pattern \u{b7} lookback 4 rows \u{b7} min 5".to_owned())
    );
    assert_eq!(applied_text("  "), None);
}

#[test]
fn summary_enrichment_and_readiness() {
    let mut s = state();
    assert_eq!(enrichment_value(&s, false), None);
    s.enrichments.push(EnrichmentStage {
        source: "x = 1".to_owned(),
        command: false,
        published: false,
    });
    s.enrichments.push(EnrichmentStage { source: "jq".to_owned(), command: true, published: false });
    s.enrichments.push(EnrichmentStage { source: "yq".to_owned(), command: true, published: true });
    assert_eq!(
        enrichment_value(&s, true),
        Some("3 steps: x = 1, $ jq \u{b7} unrun, $ yq \u{b7} results published".to_owned())
    );
    assert_eq!(readiness_value(&s), "ready");
    s.stale_steps = vec!["jq".to_owned()];
    assert_eq!(readiness_value(&s), "1 command step unrun: jq");
    s.time_update_pending = true;
    assert_eq!(
        readiness_value(&s),
        "time window updating \u{b7} the last applied window stays active"
    );
    s.desired_query_revision = 2;
    assert_eq!(
        readiness_value(&s),
        "query pending \u{b7} the last applied definition stays active"
    );
}

#[test]
fn summary_hands_over_to_the_owner_of_a_row() {
    let mut s = state();
    s.pinned_columns = vec!["p".to_owned()];
    s.enrichments.push(EnrichmentStage { source: "a".to_owned(), command: false, published: false });
    s.enrichments.push(EnrichmentStage { source: "jq".to_owned(), command: true, published: false });
    s.stale_steps = vec!["jq".to_owned()];
    let mut dialog = ViewSummaryDialog::default();
    dialog.open();
    assert_eq!(dialog.selected_row(), SummaryRow::Role);
    for _ in 0..20 {
        dialog.key(key(KeyCode::Down), Some(&s));
    }
    assert_eq!(dialog.selected_row(), SummaryRow::Readiness);
    let step = dialog.key(key(KeyCode::Enter), Some(&s));
    assert_eq!(step.outcome, Outcome::Replace(Open::Enrichment));
    assert_eq!(step.enrichment_step, Some(1));
    assert!(!dialog.is_open());
    dialog.open();
    dialog.mouse(MouseEventKind::LeftDown, Some(SummaryHit::Row(8)), Some(&s));
    let step = dialog.press_action(0, Some(&s));
    assert_eq!(
        step.outcome,
        Outcome::Replace(Open::FieldColumn { column: "p".to_owned() })
    );
    dialog.open();
    assert_eq!(dialog.key(key(KeyCode::Enter), None).outcome, Outcome::Consumed);
    assert!(dialog.is_open());
    dialog.key(key(KeyCode::Tab), None);
    assert_eq!(dialog.control(), SummaryControl::Open);
    assert_eq!(dialog.handle(Event::Dismiss, None).outcome, Outcome::Close);
}

#[test]
fn summary_frame_counts_what_is_applied() {
    let mut s = state();
    s.search = setting("x");
    s.stale_steps = vec!["jq".to_owned()];
    let sources = vec![source("s1", "one")];
    let entries = summary_rows(Some(&s), &sources, &None, true);
    assert_eq!(
        message_of(&entries),
        (
            MessageState::Updating,
            "1 of 8 operations applied \u{b7} not all of them are current".to_owned()
        )
    );
    assert_eq!(row_text(&entries[4], true, true), "> Search     . x");
    let mut dialog = ViewSummaryDialog::default();
    dialog.open();
    for _ in 0..4 {
        dialog.key(key(KeyCode::Down), Some(&s));
    }
    let name = Some("Errors".to_owned());
    let frame = SummaryFrame {
        view: &name,
        entries: &entries,
        regions: regions(),
        pane: pane(),
        active: true,
        theme: theme(),
        ascii: true,
    };
    let (paints, _) = dialog.render(frame);
    assert!(paints.iter().any(|paint| matches!(
        paint,
        Paint::Frame { title } if title == "View summary \u{b7} Errors"
    )));
    assert_eq!(dialog.hit(4, 5), Some(SummaryHit::Row(4)));
    assert_eq!(dialog.hit(3, 9), Some(SummaryHit::Control(SummaryControl::Open)));
}

#[test]
fn view_layers_ask_for_their_rows() {
    let body = |spec: DialogSpec| (spec.header, spec.body, spec.message, spec.help, spec.actions);
    assert_eq!(body(summary_spec(8, 1, 2, 3)), (0, 9, 1, 2, 3));
    assert_eq!(body(summary_spec(0, 1, 2, 3)), (0, 2, 1, 2, 3));
    assert_eq!(summary_spec(65535, 1, 2, 3).body, 65535);
    assert_eq!(summary_spec(65536, 1, 2, 3).body, 2);
    assert_eq!(body(union_spec(5, 1, 2, 3)), (0, 5, 1, 2, 3));
    assert_eq!(union_spec(0, 1, 2, 3).body, 1);
    assert_eq!(union_spec(65536, 1, 2, 3).body, 4);
    let dialog = ViewDialog::default();
    assert_eq!(body(dialog.spec_for(3, 1, 2, 3)), (1, dialog.body_rows(3), 1, 2, 3));
}
