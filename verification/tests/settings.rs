use lvu::component::{EditCommand, Edited, Event, MessageState, Outcome, Step};
use lvu::components::settings::frame::{
    detail_width, more_is_needed, name_theme, place_field, place_toggles, settings_choices,
    settings_focus_row, settings_spec_for, stacks_labels, toggle_text, wrap_value,
};
use lvu::components::settings::render::SettingsFrame;
use lvu::components::settings::{
    settings_restart_status, Appearance, SettingsContext, SettingsControl, SettingsDialog,
    SettingsField, SettingsHit, SettingsInput, SettingsStatus, SettingsValues, ThemeId,
};
use lvu::components::time::ZoneChoice;
use lvu::dialog_controls::ActionGeometry;
use lvu::dialog_layout::{content_estimate, rows_in_view, ResolvedDialog, ScrollViewport};
use lvu::geometry::Rect;
use lvu::input::{KeyCode, KeyEvent, KeyEventKind, Modifiers, MouseEventKind};
use lvu::paint::Paint;
use lvu::style::{
    Color, ColorDepth, HeartColors, JsonColors, ReadableColors, SeverityColors, Theme,
};

fn theme() -> Theme {
    let grey = Color::Indexed(0);
    Theme {
        base_fg: grey,
        base_bg: grey,
        muted: grey,
        dialog_bg: grey,
        accent: grey,
        input_fg: grey,
        input_bg: grey,
        cursor: grey,
        selection_fg: grey,
        selection_bg: grey,
        severity: SeverityColors { info: grey, warn: grey, error: grey },
        json: JsonColors {
            string: grey,
            number: grey,
            boolean: grey,
            null: grey,
            punctuation: grey,
        },
        heart: HeartColors { primary: grey, error: grey },
        depth: ColorDepth::TrueColor,
        readable: ReadableColors {
            base_on_dialog: grey,
            accent_on_dialog: grey,
            input_on_input: grey,
            selection_on_selection: grey,
            info_on_dialog: grey,
            warn_on_dialog: grey,
            error_on_dialog: grey,
            dialog_on_accent: grey,
        },
    }
}

fn key(code: KeyCode) -> KeyEvent {
    KeyEvent {
        code,
        modifiers: Modifiers { shift: false, control: false, alt: false, other: false },
        kind: KeyEventKind::Press,
    }
}

fn values() -> SettingsValues {
    SettingsValues {
        provider: "local".to_owned(),
        mode: "plan".to_owned(),
        thinking: "low".to_owned(),
        theme: ThemeId { index: 0 },
        display_zone: "UTC".to_owned(),
        delight_enabled: true,
        reduced_motion: false,
        ascii: false,
        rows_mib: "64".to_owned(),
        membership_mib: "32".to_owned(),
        disk_total_mib: "512".to_owned(),
        index_per_source_mib: "128".to_owned(),
    }
}

fn context() -> SettingsContext {
    SettingsContext {
        saved: values(),
        effective_provider: "local".to_owned(),
        provider_source: "file".to_owned(),
        effective_mode: "plan".to_owned(),
        mode_source: "file".to_owned(),
        effective_thinking: "low".to_owned(),
        thinking_source: "file".to_owned(),
        effective_theme: ThemeId { index: 0 },
        effective_delight_enabled: true,
        delight_source: "file".to_owned(),
        effective_reduced_motion: false,
        reduced_motion_source: "file".to_owned(),
        effective_ascii: false,
        ascii_source: "file".to_owned(),
        effective_display_zone: "UTC".to_owned(),
        display_zone_source: "file".to_owned(),
        applied_rows_mib: 64,
        applied_membership_mib: 32,
        applied_disk_total_mib: 512,
        applied_index_per_source_mib: 128,
        settings_path: "/s".to_owned(),
        data_path: "/d".to_owned(),
        cache_path: "/c".to_owned(),
        capture_path: "/p".to_owned(),
    }
}

fn appearance() -> Appearance {
    Appearance {
        theme_id: ThemeId { index: 0 },
        delight_enabled: true,
        reduced_motion: false,
        ascii: false,
        display_zone: "UTC".to_owned(),
    }
}

fn zones() -> Vec<ZoneChoice> {
    vec![
        ZoneChoice { label: "UTC".to_owned(), token: "UTC".to_owned() },
        ZoneChoice { label: "Berlin".to_owned(), token: "Europe/Berlin".to_owned() },
    ]
}

struct Shell {
    zones: Vec<ZoneChoice>,
    zone_error: Option<String>,
    appearance: Appearance,
    dialog: SettingsDialog,
}

impl Shell {
    fn new() -> Shell {
        let mut shell = Shell {
            zones: zones(),
            zone_error: None,
            appearance: appearance(),
            dialog: SettingsDialog::default(),
        };
        assert!(!shell.dialog.is_configured());
        shell.dialog.configure(context());
        shell.dialog.open(&shell.zones);
        shell
    }

    fn press(&mut self, code: KeyCode) -> Step {
        let input =
            SettingsInput { zones: &self.zones, themes: 3, zone_error: &self.zone_error };
        self.dialog.key(key(code), &mut self.appearance, input)
    }

    fn click(&mut self, hit: SettingsHit) {
        let input =
            SettingsInput { zones: &self.zones, themes: 3, zone_error: &self.zone_error };
        self.dialog.mouse(MouseEventKind::LeftDown, Some(hit), &mut self.appearance, input);
    }

    fn dismiss(&mut self) -> Step {
        let input =
            SettingsInput { zones: &self.zones, themes: 3, zone_error: &self.zone_error };
        self.dialog.handle(Event::Dismiss, &mut self.appearance, input)
    }

    fn edit(&mut self, value: &str) {
        let edited = Edited {
            value: value.to_owned(),
            cursor: value.chars().count(),
            changed: true,
            moved: false,
        };
        self.dialog.apply_edit(edited, &self.zone_error, &mut self.appearance);
    }

    fn focus(&mut self, control: SettingsControl) {
        for _ in 0..20 {
            if self.dialog.state().expect("open").focus == control {
                return;
            }
            self.press(KeyCode::Tab);
        }
        panic!("the control takes the focus");
    }

    fn status(&self) -> (SettingsStatus, String) {
        let state = self.dialog.state().expect("open");
        (state.status_kind, state.status.clone())
    }
}

#[test]
fn settings_do_not_open_before_they_are_known() {
    let mut dialog = SettingsDialog::default();
    dialog.open(&zones());
    assert!(!dialog.is_open());
    assert!(dialog.state().is_none());
}

#[test]
fn settings_save_is_sent_once() {
    let mut shell = Shell::new();
    assert_eq!(
        shell.status(),
        (
            SettingsStatus::Saved,
            "Saved settings loaded; cache-limit changes apply after restart".to_owned()
        )
    );
    assert_eq!(shell.press(KeyCode::Char('x')), Step::Edit(EditCommand::Insert('x')));
    shell.edit("localx");
    assert_eq!(shell.status().0, SettingsStatus::Pending);
    shell.press(KeyCode::Enter);
    assert_eq!(shell.status().1, "saving global settings\u{2026}");
    assert_eq!(shell.dialog.state().expect("open").save_label(), "Saving\u{2026}");
    shell.press(KeyCode::Enter);
    assert_eq!(shell.status().1, "settings save already pending");
    let requests = shell.dialog.outbox.drain();
    assert_eq!(requests.len(), 1);
    assert_eq!(requests[0].generation, 1);
    assert_eq!(requests[0].values.provider, "localx");
    assert!(shell.dialog.fail_save(1, "no room"));
    assert_eq!(shell.status(), (SettingsStatus::Error, "save failed: no room".to_owned()));
    assert_eq!(
        shell.dialog.state().expect("open").message(),
        (MessageState::Error, "save failed: no room".to_owned())
    );
    assert!(!shell.dialog.fail_save(2, "other"));
}

#[test]
fn settings_queue_has_a_limit() {
    let mut shell = Shell::new();
    for _ in 0..2 {
        shell.press(KeyCode::Enter);
        shell.dismiss();
        let zones = zones();
        shell.dialog.open(&zones);
    }
    shell.press(KeyCode::Enter);
    assert_eq!(shell.status().1, "settings save queue is full; retry shortly");
    assert_eq!(shell.dialog.outbox.drain().len(), 2);
}

#[test]
fn settings_toggle_previews_and_rolls_back() {
    let mut shell = Shell::new();
    shell.focus(SettingsControl::Field(SettingsField::Ascii));
    shell.press(KeyCode::Char(' '));
    assert!(shell.appearance.ascii);
    assert_eq!(shell.status().0, SettingsStatus::Pending);
    shell.press(KeyCode::Enter);
    assert!(!shell.appearance.ascii);
    shell.click(SettingsHit::Control(SettingsControl::Field(SettingsField::ReducedMotion)));
    assert!(shell.appearance.reduced_motion);
    assert_eq!(shell.dismiss(), Step::Done(Outcome::Close));
    assert!(!shell.appearance.reduced_motion);
    assert!(shell.dialog.state().is_none());
}

#[test]
fn settings_lists_own_the_keys_and_close_first() {
    let mut shell = Shell::new();
    shell.click(SettingsHit::Control(SettingsControl::Field(SettingsField::Theme)));
    assert_eq!(
        shell.dialog.state().expect("open").dropdown,
        Some(SettingsField::Theme)
    );
    shell.press(KeyCode::Up);
    assert_eq!(shell.dialog.state().expect("open").choice_selected, 2);
    shell.press(KeyCode::Char('x'));
    shell.press(KeyCode::Enter);
    assert_eq!(shell.appearance.theme_id, ThemeId { index: 2 });
    shell.press(KeyCode::Enter);
    assert_eq!(shell.dismiss(), Step::Done(Outcome::Consumed));
    assert_eq!(shell.dialog.state().expect("open").dropdown, None);
}

#[test]
fn settings_invalid_zone_stays_a_draft() {
    let mut shell = Shell::new();
    shell.focus(SettingsControl::Field(SettingsField::DisplayZone));
    shell.press(KeyCode::Enter);
    shell.click(SettingsHit::Choice(1));
    assert_eq!(shell.appearance.display_zone, "Europe/Berlin");
    shell.press(KeyCode::Enter);
    shell.click(SettingsHit::Choice(2));
    assert!(shell.dialog.state().expect("open").zone_custom);
    assert_eq!(shell.dialog.state().expect("open").draft.display_zone, "");
    shell.zone_error = Some("unknown zone".to_owned());
    shell.edit("Mars");
    assert_eq!(shell.status(), (SettingsStatus::Error, "unknown zone".to_owned()));
    assert_eq!(shell.appearance.display_zone, "Europe/Berlin");
    assert_eq!(shell.dialog.state().expect("open").draft.display_zone, "Mars");
    shell.press(KeyCode::Enter);
    assert!(shell.dialog.outbox.drain().is_empty());
    shell.focus(SettingsControl::Field(SettingsField::Ascii));
    shell.press(KeyCode::Char(' '));
    assert_eq!(shell.appearance.display_zone, "Europe/Berlin");
    shell.zone_error = None;
    shell.focus(SettingsControl::Field(SettingsField::DisplayZone));
    shell.edit("+02:00");
    assert_eq!(shell.appearance.display_zone, "+02:00");
}

#[test]
fn settings_older_save_keeps_the_newer_draft() {
    let mut shell = Shell::new();
    shell.press(KeyCode::Enter);
    shell.dismiss();
    let zones = zones();
    shell.dialog.open(&zones);
    shell.edit("newer");
    let mut saved = context();
    saved.saved.provider = "older".to_owned();
    let completion = shell.dialog.complete_save(1, saved);
    assert_eq!(completion.notice.as_deref(), Some(settings_restart_status(&context()).as_str()));
    assert_eq!(shell.dialog.state().expect("open").draft.provider, "newer");
    let mut saved = context();
    saved.saved.provider = "newest".to_owned();
    saved.effective_ascii = true;
    let completion = shell.dialog.complete_save(2, saved);
    assert_eq!(completion.notice, None);
    assert!(completion.appearance.ascii);
    assert_eq!(shell.dialog.state().expect("open").draft.provider, "newest");
    assert_eq!(shell.status().0, SettingsStatus::Saved);
}

#[test]
fn settings_restart_is_named_when_limits_wait() {
    let mut waiting = context();
    waiting.saved.rows_mib = "65".to_owned();
    assert_ne!(settings_restart_status(&waiting), settings_restart_status(&context()));
}

#[test]
fn settings_rows_and_words() {
    assert_eq!(toggle_text(true, "ASCII"), "[x] ASCII");
    assert_eq!(toggle_text(false, "ASCII"), "[ ] ASCII");
    assert_eq!(
        wrap_value("abcdef", 4),
        vec!["abcd".to_owned(), "ef".to_owned()]
    );
    assert_eq!(
        place_field(Rect::new(2, 3, 60, 1)),
        Some(Rect::new(20, 3, 42, 1))
    );
    let toggles = place_toggles(Rect::new(0, 0, 80, 1), 2);
    assert_eq!(
        toggles.iter().map(|(_, control)| *control).collect::<Vec<_>>(),
        vec![
            SettingsControl::Field(SettingsField::Delight),
            SettingsControl::Field(SettingsField::ReducedMotion),
            SettingsControl::Field(SettingsField::Ascii)
        ]
    );
    assert_eq!(
        settings_focus_row(SettingsControl::Field(SettingsField::Thinking), true, true),
        6
    );
    assert_eq!(
        settings_choices(SettingsField::DisplayZone, &Vec::new(), &zones()).len(),
        3
    );
    let spec = settings_spec_for(90, "Save", true);
    assert_eq!((spec.header, spec.body, spec.message, spec.help, spec.actions), (0, 3, 2, 2, 1));
}

#[test]
fn settings_frame_records_what_it_drew() {
    let mut shell = Shell::new();
    let resolved = ResolvedDialog {
        frame: Rect::new(0, 0, 80, 30),
        interior: Rect::new(1, 1, 78, 28),
        header: Rect::zero(),
        body: Rect::new(2, 1, 76, 20),
        message: Rect::new(2, 22, 76, 2),
        help: Rect::new(2, 24, 76, 2),
        content_width: 76,
        compact: false,
        actions: ActionGeometry {
            band: Rect::new(2, 27, 76, 1),
            buttons: vec![(0, Rect::new(2, 27, 8, 1))],
            overflow: Vec::new(),
            more: None,
            default: Some(0),
        },
    };
    let themes = vec!["Dark".to_owned(), "Bright".to_owned()];
    let zone_label = "UTC".to_owned();
    let effective_zone = "UTC".to_owned();
    let zones = Vec::new();
    let frame = SettingsFrame {
        resolved: &resolved,
        policy_width: 80,
        roomy: true,
        scroll: ScrollViewport {
            viewport: Rect::new(2, 1, 76, 40),
            scrollbar: None,
            first_row: 0,
        },
        themes: &themes,
        zones: &zones,
        zone_label: &zone_label,
        effective_zone: &effective_zone,
        caret: Some((20, 2)),
        menu: None,
        gutter: 2,
        theme: theme(),
        ascii: true,
    };
    let (paints, surface) = shell.dialog.render(frame);
    assert!(surface.text_focus);
    assert!(!surface.scrollable);
    assert!(paints.iter().any(|paint| matches!(
        paint,
        Paint::Frame { title } if title == "Settings"
    )));
    assert!(paints.iter().any(|paint| matches!(
        paint,
        Paint::Text { text, .. } if text == "[ ] ASCII" || text.contains("ASCII")
    )));
    for (area, control) in shell.dialog.control_rects() {
        assert_eq!(
            shell.dialog.hit(area.x, area.y),
            Some(SettingsHit::Control(*control))
        );
    }
    assert_eq!(
        shell.dialog.hit(3, 27),
        Some(SettingsHit::Control(SettingsControl::Save))
    );
    shell.dialog.render_unfit();
    assert_eq!(shell.dialog.hit(3, 27), None);
}

#[test]
fn settings_rows_are_placed_in_their_window() {
    assert_eq!((content_estimate(90), content_estimate(3)), (86, 1));
    assert_eq!((detail_width(90), detail_width(3)), (83, 1));
    assert!(more_is_needed(20, Some(Rect::new(0, 0, 80, 19))));
    assert!(!more_is_needed(20, Some(Rect::new(0, 0, 80, 20))));
    assert!(more_is_needed(20, None));
    let scroll = ScrollViewport {
        viewport: Rect::new(2, 5, 40, 2),
        scrollbar: Some(Rect::new(41, 5, 1, 2)),
        first_row: 1,
    };
    assert_eq!(
        rows_in_view(scroll, 4),
        vec![None, Some(Rect::new(2, 5, 39, 1)), Some(Rect::new(2, 6, 39, 1)), None]
    );
}

#[test]
fn settings_name_what_is_in_effect() {
    let themes = vec!["Dark".to_owned(), "Bright".to_owned()];
    assert_eq!(name_theme(&themes, ThemeId { index: 1 }), "Bright");
    assert_eq!(name_theme(&themes, ThemeId { index: 2 }), "");
    let shell = Shell::new();
    let state = shell.dialog.state().expect("open");
    let broken: Vec<String> = state
        .detail_lines("Agent", "Dark", "UTC")
        .iter()
        .flat_map(|line| wrap_value(line, detail_width(40)))
        .collect();
    assert_eq!(state.details(40, &themes, "UTC", true), broken);
    assert!(state.list_rows(&themes, &Vec::new()).is_empty());
    assert!(stacks_labels(20));
    assert!(!stacks_labels(76));
}
