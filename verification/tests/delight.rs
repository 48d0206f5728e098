use lvu::delight::art::{decode, decode_all, frame, heart_cell, ArtCell};
use lvu::delight::{
    activity_label, bounded_label, compact_title, footer_badge, is_animated, pulse_phase,
    truncate_width, ActivityState, DelightConfig, FooterDelight, FooterPlan, InputDisposition,
    Progress, StartupDelight, TitlePlan, MAX_STARTUP_DURATION, STARTUP_ANIMATION_TICK,
};
use lvu::geometry::Rect;
use lvu::style::{
    Color, ColorDepth, HeartColors, JsonColors, ReadableColors, SeverityColors, Style, Theme,
};

fn theme() -> Theme {
    let grey = Color::Indexed(0);
    Theme {
        base_fg: Color::Indexed(1),
        base_bg: Color::Indexed(2),
        muted: Color::Indexed(3),
        dialog_bg: grey,
        accent: grey,
        input_fg: grey,
        input_bg: grey,
        cursor: grey,
        selection_fg: grey,
        selection_bg: grey,
        severity: SeverityColors { info: grey, warn: grey, error: grey },
        json: JsonColors {
            string: grey,
            number: grey,
            boolean: grey,
            null: grey,
            punctuation: grey,
        },
        heart: HeartColors { primary: Color::Indexed(4), error: Color::Indexed(5) },
        depth: ColorDepth::TrueColor,
        readable: ReadableColors {
            base_on_dialog: grey,
            accent_on_dialog: grey,
            input_on_input: grey,
            selection_on_selection: grey,
            info_on_dialog: grey,
            warn_on_dialog: grey,
            error_on_dialog: grey,
            dialog_on_accent: grey,
        },
    }
}

#[test]
fn startup_duration_is_bounded() {
    assert_eq!(DelightConfig::default().startup_duration(), MAX_STARTUP_DURATION);
    assert_eq!(DelightConfig::new(true, false, false, 250).startup_duration(), 250);
    assert_eq!(DelightConfig::new(true, false, false, 9000).startup_duration(), 600);
}

#[test]
fn any_key_dismisses_the_title_for_good() {
    let config = DelightConfig::default();
    let mut title = StartupDelight::new();
    assert!(title.is_visible(0, config));
    assert!(title.is_visible(1_000_000, config));
    assert_eq!(title.observe_input(), InputDisposition::DismissedAndConsumed);
    assert!(!title.is_visible(0, config));
    let mut other = StartupDelight::new();
    assert_eq!(other.observe_escape(), InputDisposition::DismissedAndConsumed);
    assert!(!other.is_visible(0, config));
    let mut passed = StartupDelight::new();
    passed.dismiss();
    assert!(!passed.is_visible(0, config));
    let off = DelightConfig::new(false, false, false, 0);
    assert!(!StartupDelight::new().is_visible(0, off));
}

#[test]
fn only_a_moving_title_is_drawn_again() {
    assert_eq!(
        StartupDelight::redraw_interval(DelightConfig::default()),
        Some(STARTUP_ANIMATION_TICK)
    );
    for config in [
        DelightConfig::new(false, false, false, 0),
        DelightConfig::new(true, true, false, 0),
        DelightConfig::new(true, false, true, 0),
    ] {
        assert_eq!(StartupDelight::redraw_interval(config), None);
    }
}

#[test]
fn title_picture_is_centred() {
    let title = StartupDelight::new();
    let plan = title.plan(Rect::new(0, 0, 100, 30), 345, DelightConfig::default(), theme());
    match plan {
        TitlePlan::Picture { large, frame, left, top, caption } => {
            assert!(!large);
            assert_eq!(frame, 3);
            assert_eq!((left, top), (10, 4));
            assert_eq!(caption, Rect::new(0, 29, 100, 1));
        }
        other => panic!("{other:?}"),
    }
    match title.plan(Rect::new(0, 0, 120, 40), 1100, DelightConfig::default(), theme()) {
        TitlePlan::Picture { large, frame, left, top, .. } => {
            assert!(large);
            assert_eq!((frame, left, top), (0, 0, 0));
        }
        other => panic!("{other:?}"),
    }
}

#[test]
fn small_title_is_words_alone() {
    let title = StartupDelight::new();
    match title.plan(Rect::new(2, 1, 40, 10), 0, DelightConfig::default(), theme()) {
        TitlePlan::Words { lines, area } => {
            assert_eq!(lines.len(), 3);
            assert_eq!(lines[0].text, "\u{25c6}\u{2665}\u{25c6}");
            assert_eq!(lines[1].text, "LOVE YOU LOG TIME");
            assert_eq!(lines[2].text, "PRESS ANY KEY");
            assert_eq!(area, Rect::new(2, 4, 40, 3));
        }
        other => panic!("{other:?}"),
    }
    let ascii = DelightConfig::new(true, false, true, 0);
    let lines = compact_title(Rect::new(0, 0, 6, 1), ascii, theme());
    assert_eq!(lines.len(), 1);
    assert_eq!(lines[0].text, "LOVE \u{2026}");
    assert!(matches!(
        title.plan(Rect::new(0, 0, 0, 10), 0, ascii, theme()),
        TitlePlan::Nothing
    ));
}

#[test]
fn text_is_cut_to_its_columns() {
    assert_eq!(truncate_width("abc", 0), "");
    assert_eq!(truncate_width("abc", 3), "abc");
    assert_eq!(truncate_width("abcd", 3), "ab\u{2026}");
    assert_eq!(truncate_width("\u{4e2d}\u{4e2d}\u{4e2d}", 4), "\u{4e2d}\u{2026}");
    assert_eq!(bounded_label("  hello  "), "hello");
    assert_eq!(bounded_label(&"x".repeat(200)).chars().count(), 96);
}

#[test]
fn heart_beats_only_while_something_moves() {
    let config = DelightConfig::default();
    let still = DelightConfig::new(true, true, false, 0);
    let active = ActivityState::Active { label: "x" };
    assert!(is_animated(active, config));
    assert!(!is_animated(active, still));
    assert!(!is_animated(ActivityState::Idle, config));
    assert!(!is_animated(ActivityState::Error { label: "x" }, config));
    let beats: Vec<bool> = (0..8).map(|step| pulse_phase(step * 125)).collect();
    assert_eq!(beats, vec![true, false, true, false, false, false, false, false]);
    assert!(pulse_phase(1000));
}

#[test]
fn activity_is_said_where_it_is_measured() {
    assert_eq!(activity_label(ActivityState::Idle), "");
    assert_eq!(activity_label(ActivityState::Active { label: "scan" }), "");
    assert_eq!(
        activity_label(ActivityState::Pending { label: "scan", progress: Progress::Unknown }),
        ""
    );
    assert_eq!(
        activity_label(ActivityState::Pending {
            label: " scan ",
            progress: Progress::Measured { completed: 1, total: 3 },
        }),
        "scan 1/3 33%"
    );
    assert_eq!(
        activity_label(ActivityState::Pending {
            label: "scan",
            progress: Progress::Measured { completed: 9, total: 3 },
        }),
        "scan 3/3 100%"
    );
    assert_eq!(
        activity_label(ActivityState::Pending {
            label: "scan",
            progress: Progress::Measured { completed: 0, total: 0 },
        }),
        "scan pending"
    );
    assert_eq!(activity_label(ActivityState::Error { label: "disk" }), "error disk");
}

#[test]
fn footer_badge_is_full_or_hollow() {
    let active = ActivityState::Active { label: "x" };
    assert_eq!(footer_badge(false, true, active, theme()).text, "\u{2665}");
    assert_eq!(footer_badge(false, false, active, theme()).text, "\u{2661}");
    assert_eq!(footer_badge(false, false, ActivityState::Idle, theme()).text, "\u{2665}");
    assert_eq!(footer_badge(true, false, active, theme()).text, "<3");
    assert_eq!(
        footer_badge(false, false, ActivityState::Error { label: "x" }, theme()).style,
        Style::plain().fg(theme().heart.error).bold()
    );
}

#[test]
fn footer_row_fits_its_width() {
    let config = DelightConfig::default();
    let plan = FooterDelight::plan(
        Rect::new(4, 5, 60, 1),
        0,
        config,
        ActivityState::Error { label: "a very long label indeed" },
        theme(),
    );
    match plan {
        FooterPlan::Row { area, spans } => {
            assert_eq!(area, Rect::new(4, 5, 18, 1));
            assert_eq!(spans.len(), 3);
            assert_eq!(spans[2].text, "error a very lo\u{2026}");
        }
        other => panic!("{other:?}"),
    }
    assert!(matches!(
        FooterDelight::plan(Rect::new(0, 0, 0, 1), 0, config, ActivityState::Idle, theme()),
        FooterPlan::Nothing
    ));
}

#[test]
fn corner_heart_stands_above_its_label() {
    let config = DelightConfig::default();
    let active = ActivityState::Pending {
        label: "scan",
        progress: Progress::Measured { completed: 1, total: 2 },
    };
    for (elapsed, expected) in [(0, 0), (649, 0), (650, 1), (750, 2), (850, 3), (999, 3), (1000, 0)] {
        match FooterDelight::plan(Rect::new(0, 0, 15, 10), elapsed, config, active, theme()) {
            FooterPlan::Heart { phase, left, top, label } => {
                assert_eq!(phase, expected);
                assert_eq!((left, top), (5, 2));
                assert_eq!(label, Some(("scan 1/2 50%".to_owned(), Rect::new(0, 9, 15, 1))));
            }
            other => panic!("{other:?}"),
        }
    }
}

#[test]
fn picture_is_read_with_its_colours() {
    let source = "\u{1b}[38;2;1;2;3m\u{2580}\u{1b}[48;2;4;5;6m\u{2584}\u{1b}[0m \r\n\u{2588}  \n";
    let art = decode(source, 3, 2).unwrap();
    let black = Color::Rgb(0, 0, 0);
    assert_eq!(art.cells.len(), 6);
    assert_eq!(
        art.cells[0],
        ArtCell { symbol: '\u{2580}', fg: Color::Rgb(1, 2, 3), bg: black }
    );
    assert_eq!(
        art.cells[1],
        ArtCell { symbol: '\u{2584}', fg: Color::Rgb(1, 2, 3), bg: Color::Rgb(4, 5, 6) }
    );
    assert_eq!(art.cells[2], ArtCell { symbol: ' ', fg: black, bg: black });
    assert_eq!(art.cells[3], ArtCell { symbol: '\u{2588}', fg: black, bg: black });
}

#[test]
fn text_that_is_no_picture_is_refused() {
    assert!(decode("  ", 2, 1).is_some());
    assert!(decode("  \n", 2, 1).is_some());
    assert!(decode("  ", 3, 1).is_none());
    assert!(decode("  \n  ", 2, 1).is_none());
    assert!(decode("a ", 2, 1).is_none());
    assert!(decode("\u{1b}[2J  ", 2, 1).is_none());
    assert!(decode("\u{1b}[1m  ", 2, 1).is_none());
    assert!(decode("\u{1b}[m  ", 2, 1).is_none());
    assert!(decode("\u{1b}[38;2;1;2m  ", 2, 1).is_none());
    assert!(decode("\u{1b}[38;2;1;2;256m  ", 2, 1).is_none());
    assert!(decode("\u{1b}[0;38;2;1;2;255m  ", 2, 1).is_some());
}

#[test]
fn frames_go_round() {
    let sources = vec!["  ".to_owned(), "\u{2588} ".to_owned()];
    let frames = decode_all(&sources, 2, 1).unwrap();
    assert_eq!(frame(&frames, 0).cells[0].symbol, ' ');
    assert_eq!(frame(&frames, 3).cells[0].symbol, '\u{2588}');
    assert!(decode_all(&vec!["x ".to_owned()], 2, 1).is_none());
}

#[test]
fn dark_halves_show_what_is_under_them() {
    let theme = theme();
    let dark = Color::Rgb(47, 0, 0);
    let bright = Color::Rgb(48, 0, 0);
    let cell = |symbol, fg, bg| ArtCell { symbol, fg, bg };
    assert_eq!(
        heart_cell(cell('\u{2580}', dark, bright), theme),
        cell('\u{2584}', bright, theme.base_bg)
    );
    assert_eq!(
        heart_cell(cell('\u{2584}', dark, bright), theme),
        cell('\u{2580}', bright, theme.base_bg)
    );
    assert_eq!(
        heart_cell(cell(' ', bright, dark), theme),
        cell(' ', theme.base_fg, theme.base_bg)
    );
    assert_eq!(
        heart_cell(cell('\u{2588}', bright, dark), theme),
        cell('\u{2580}', bright, bright)
    );
}
