use lvu::dialog_controls::{
    button_layout, button_line, button_style, button_text, button_width, mnemonic, mnemonic_key,
    mnemonic_press, pieces_of_row, plan_actions, role_style, stable_action_rows, ActionRow, ButtonRole,
    DialogStyles,
};
use lvu::dialog_layout::{budget_actions, find_button, find_region};
use lvu::geometry::Rect;
use lvu::input::{KeyCode, KeyEvent, KeyEventKind, Modifiers};
use lvu::style::{
    Color, ColorDepth, HeartColors, JsonColors, ReadableColors, SeverityColors, Style, Theme,
};

fn theme(depth: ColorDepth) -> Theme {
    Theme {
        base_fg: Color::Indexed(1),
        base_bg: Color::Indexed(2),
        muted: Color::Indexed(3),
        dialog_bg: Color::Indexed(4),
        accent: Color::Indexed(5),
        input_fg: Color::Indexed(28),
        input_bg: Color::Indexed(6),
        cursor: Color::Indexed(29),
        selection_fg: Color::Indexed(7),
        selection_bg: Color::Indexed(8),
        severity: SeverityColors {
            info: Color::Indexed(9),
            warn: Color::Indexed(10),
            error: Color::Indexed(11),
        },
        json: JsonColors {
            string: Color::Indexed(12),
            number: Color::Indexed(13),
            boolean: Color::Indexed(14),
            null: Color::Indexed(15),
            punctuation: Color::Indexed(16),
        },
        heart: HeartColors { primary: Color::Indexed(17), error: Color::Indexed(18) },
        depth,
        readable: ReadableColors {
            base_on_dialog: Color::Indexed(20),
            accent_on_dialog: Color::Indexed(21),
            input_on_input: Color::Indexed(22),
            selection_on_selection: Color::Indexed(23),
            info_on_dialog: Color::Indexed(24),
            warn_on_dialog: Color::Indexed(25),
            error_on_dialog: Color::Indexed(26),
            dialog_on_accent: Color::Indexed(27),
        },
    }
}

fn press(ch: char, alt: bool) -> KeyEvent {
    KeyEvent {
        code: KeyCode::Char(ch),
        modifiers: Modifiers { shift: false, control: false, alt, other: false },
        kind: KeyEventKind::Press,
    }
}

#[test]
fn mnemonic_marks_a_letter_that_is_drawn() {
    let label = mnemonic("Re&move");
    assert_eq!(label.text, "Remove");
    assert_eq!(label.key, Some(('m', 2)));
    assert_eq!(mnemonic("Plain").key, None);
    assert_eq!(mnemonic("A && B").text, "A & B");
    assert_eq!(mnemonic("A && B").key, None);
    assert_eq!(mnemonic_key("&Save"), Some('s'));
}

#[test]
fn mnemonic_presses_bare_only_without_a_text_field() {
    let labels = ["&Save", "&Open"];
    assert_eq!(mnemonic_press(&labels, &press('o', false), false), Some(1));
    assert_eq!(mnemonic_press(&labels, &press('O', false), false), Some(1));
    assert_eq!(mnemonic_press(&labels, &press('o', false), true), None);
    assert_eq!(mnemonic_press(&labels, &press('o', true), true), Some(1));
    assert_eq!(mnemonic_press(&labels, &press('z', true), true), None);
}

#[test]
fn button_is_as_wide_as_it_is_drawn() {
    assert_eq!(button_text("&Save"), "[ Save ]");
    assert_eq!(button_width("&Save"), 8);
    assert_eq!(button_width("\u{4e2d}"), 6);
    let line = button_line("Re&move", Style::plain());
    let whole: String = line.iter().map(|span| span.text.as_str()).collect();
    assert_eq!(whole, "[ Remove ]");
    assert!(line.iter().any(|span| span.text == "m" && span.style.underlined));
}

#[test]
fn row_has_one_default_and_never_a_destructive_one() {
    let labels = ["a", "b", "c"];
    let row = ActionRow { labels: &labels, default: Some(2), destructive: &[2], focused: None };
    assert_eq!(row.role(0), ButtonRole::Normal);
    assert_eq!(row.role(2), ButtonRole::Destructive);
    let row = ActionRow { labels: &labels, default: Some(1), destructive: &[2], focused: None };
    assert_eq!(row.role(1), ButtonRole::Default);
}

#[test]
fn focus_wins_over_a_role() {
    let theme = theme(ColorDepth::TrueColor);
    let styles = DialogStyles::new(theme);
    let focused = styles.selection.bold();
    assert_eq!(role_style(theme, ButtonRole::Default, true), focused);
    assert_eq!(role_style(theme, ButtonRole::Destructive, true), focused);
    assert_eq!(
        role_style(theme, ButtonRole::Default, false),
        Style::plain().fg(theme.selection_fg).bg(theme.accent).bold()
    );
    assert_eq!(
        role_style(theme, ButtonRole::Destructive, false),
        styles.error.bg(theme.dialog_bg)
    );
    assert_eq!(button_style(theme, true, true), focused);
    assert!(button_style(theme, false, true).underlined);
}

#[test]
fn default_button_is_black_on_few_colours() {
    let theme = theme(ColorDepth::Ansi16);
    assert_eq!(role_style(theme, ButtonRole::Default, false).fg, Some(Color::Black));
    let mut rgb = theme;
    rgb.dialog_bg = Color::Rgb(1, 2, 3);
    rgb.accent = Color::Rgb(4, 5, 6);
    assert_eq!(
        role_style(rgb, ButtonRole::Default, false).fg,
        Some(rgb.readable.dialog_on_accent)
    );
}

#[test]
fn flowed_buttons_show_the_focused_one() {
    let labels = ["One", "Two", "Three", "Four"];
    let all = button_layout(Rect::new(0, 0, 80, 1), &labels, None);
    assert_eq!(all.iter().map(|(index, _)| *index).collect::<Vec<_>>(), vec![0, 1, 2, 3]);
    assert_eq!(all[0].1, Rect::new(0, 0, 7, 1));
    assert_eq!(all[1].1, Rect::new(9, 0, 7, 1));
    let narrow = button_layout(Rect::new(0, 0, 12, 1), &labels, Some(3));
    assert!(narrow.iter().any(|(index, _)| *index == 3));
}

#[test]
fn action_rows_are_at_most_two() {
    assert_eq!(stable_action_rows(0, &["Apply"]), 1);
    assert_eq!(stable_action_rows(0, &["Apply", "Clear"]), 2);
    assert_eq!(stable_action_rows(0, &[]), 0);
    assert_eq!(stable_action_rows(80, &[]), 0);
    assert_eq!(stable_action_rows(80, &["Save", "Open"]), 1);
    assert_eq!(stable_action_rows(10, &["Save", "Open"]), 2);
    assert_eq!(stable_action_rows(10, &["Save", "Open", "Close"]), 2);
    assert_eq!(budget_actions(0, &[]), 1);
    assert_eq!(budget_actions(14, &["Save", "Open"]), 2);
}

#[test]
fn plan_shows_every_button_or_hides_it_in_the_menu() {
    let labels = ["First", "Second", "Third", "Fourth", "Fifth"];
    let wide = plan_actions(Rect::new(0, 0, 120, 1), &labels, Some(0), None);
    assert_eq!(wide.buttons.len(), 5);
    assert!(wide.overflow.is_empty());
    assert_eq!(wide.more, None);
    let narrow = plan_actions(Rect::new(0, 0, 30, 1), &labels, Some(0), None);
    assert!(narrow.needs_more());
    assert!(narrow.more.is_some());
    let mut seen: Vec<usize> = narrow.visible_indices();
    seen.extend(narrow.overflow.iter().copied());
    seen.sort();
    assert_eq!(seen, vec![0, 1, 2, 3, 4]);
    for (_, rect) in &narrow.buttons {
        assert!(rect.right() <= 30);
        assert_eq!(rect.y, 0);
    }
}

#[test]
fn plan_keeps_the_default_in_sight() {
    let labels = ["First", "Second", "Third", "Fourth", "Fifth"];
    let plan = plan_actions(Rect::new(3, 5, 30, 1), &labels, Some(4), None);
    assert!(plan.visible_indices().contains(&4));
    assert_eq!(plan.default, Some(4));
}

#[test]
fn plan_of_an_empty_band_hides_everything() {
    let plan = plan_actions(Rect::new(0, 0, 0, 1), &["a", "b"], Some(0), None);
    assert!(plan.buttons.is_empty());
    assert_eq!(plan.overflow, vec![0, 1]);
    assert_eq!(plan.more, None);
}

#[test]
fn first_region_under_a_point_is_found() {
    let regions = vec![(Rect::new(0, 0, 4, 2), 'a'), (Rect::new(2, 0, 4, 2), 'b')];
    assert_eq!(find_region(&regions, 3, 1), Some('a'));
    assert_eq!(find_region(&regions, 5, 0), Some('b'));
    assert_eq!(find_region(&regions, 6, 0), None);
    assert_eq!(find_button(&vec![(7, Rect::new(1, 1, 2, 1))], 2, 1), Some(7));
}

#[test]
fn mnemonic_letters_are_lower_cased_beyond_ascii() {
    assert_eq!(mnemonic_key("&\u{c9}cole"), Some('\u{e9}'));
    assert_eq!(mnemonic_key("&\u{416}"), Some('\u{436}'));
    assert_eq!(mnemonic_key("&\u{d7}"), Some('\u{d7}'));
    assert_eq!(mnemonic_key("&\u{130}"), Some('\u{130}'));
    let labels = ["Save", "&\u{c9}cole", "&\u{416}"];
    assert_eq!(mnemonic_press(&labels, &press('\u{e9}', false), false), Some(1));
    assert_eq!(mnemonic_press(&labels, &press('\u{c9}', false), false), Some(1));
    assert_eq!(mnemonic_press(&labels, &press('\u{416}', false), false), Some(2));
    assert_eq!(mnemonic_press(&labels, &press('e', false), false), None);
}

#[test]
fn measuring_and_placing_agree_on_a_row() {
    let labels = ["Apply", "Clear", "Recognize"];
    for width in 1..60 {
        for default in [None, Some(0), Some(2), Some(9)] {
            for focused in [None, Some(1)] {
                let band = Rect::new(0, 0, width, 1);
                let plan = plan_actions(band, &labels, default, focused);
                let rows = stable_action_rows(width, &labels);
                assert_eq!(plan.overflow.is_empty(), rows == 1, "{width}");
            }
        }
    }
}

#[test]
fn pieces_of_a_row_end_with_the_menu() {
    let widths = vec![8, 9, 10];
    assert_eq!(pieces_of_row(&widths, &vec![2, 0], None), vec![10, 8]);
    assert_eq!(pieces_of_row(&widths, &vec![1], Some(6)), vec![9, 6]);
    assert_eq!(pieces_of_row(&widths, &Vec::new(), None), Vec::<u16>::new());
}

#[test]
fn plan_is_the_same_wherever_the_focus_is() {
    let labels = ["First", "Second", "Third", "Fourth", "Fifth"];
    for width in [12, 30, 45, 120] {
        let band = Rect::new(1, 2, width, 2);
        let plan = plan_actions(band, &labels, Some(1), None);
        for focused in 0..labels.len() {
            let other = plan_actions(band, &labels, Some(1), Some(focused));
            assert_eq!(other.visible_indices(), plan.visible_indices());
            assert_eq!(other.overflow, plan.overflow);
            assert_eq!(other.default, plan.default);
            assert_eq!(other.more.is_some(), plan.more.is_some());
        }
    }
}
