use lvu::details::{
    column_label_style, detail_style, details_view, disclosure, json_kind_style, DetailField,
    DetailRecord, JsonKind, RowShape, TreeRow,
};
use lvu::dialog_controls::DialogStyles;
use lvu::style::{
    Color, ColorDepth, HeartColors, JsonColors, ReadableColors, SeverityColors, Span, Style, Theme,
};

fn theme() -> Theme {
    let grey = Color::Indexed(0);
    Theme {
        base_fg: grey,
        base_bg: grey,
        muted: grey,
        dialog_bg: grey,
        accent: grey,
        input_fg: grey,
        input_bg: grey,
        cursor: grey,
        selection_fg: grey,
        selection_bg: Color::Indexed(30),
        severity: SeverityColors { info: grey, warn: grey, error: grey },
        json: JsonColors {
            string: Color::Indexed(1),
            number: Color::Indexed(2),
            boolean: Color::Indexed(3),
            null: Color::Indexed(4),
            punctuation: Color::Indexed(5),
        },
        heart: HeartColors { primary: grey, error: grey },
        depth: ColorDepth::TrueColor,
        readable: ReadableColors {
            base_on_dialog: grey,
            accent_on_dialog: grey,
            input_on_input: grey,
            selection_on_selection: grey,
            info_on_dialog: Color::Indexed(21),
            warn_on_dialog: Color::Indexed(22),
            error_on_dialog: grey,
            dialog_on_accent: grey,
        },
    }
}

fn span(text: &str) -> Span {
    Span { text: text.to_owned(), style: Style::plain() }
}

fn field(key: &str, value: &str) -> DetailField {
    DetailField {
        key: key.to_owned(),
        color: Color::Indexed(7),
        value: value.to_owned(),
        spans: vec![span(value)],
    }
}

fn scalar(label: &str, text: &str) -> TreeRow {
    TreeRow {
        depth: 1,
        label: label.to_owned(),
        color: Color::Indexed(8),
        shape: RowShape::Scalar { kind: JsonKind::Number, text: text.to_owned() },
    }
}

fn record(tree: Option<Vec<TreeRow>>) -> DetailRecord {
    DetailRecord {
        id: "42".to_owned(),
        raw_color: Color::Indexed(6),
        raw: vec![span("{}")],
        tree,
        fields: vec![field("level", "info")],
        details: vec![field("command.status", "Pending since noon")],
    }
}

fn text(spans: &[Span]) -> String {
    spans.iter().map(|span| span.text.as_str()).collect()
}

#[test]
fn tokens_have_the_colours_of_the_log() {
    let theme = theme();
    assert_eq!(json_kind_style(JsonKind::String, theme).fg, Some(Color::Indexed(1)));
    assert_eq!(json_kind_style(JsonKind::Null, theme).fg, Some(Color::Indexed(4)));
    assert_eq!(
        column_label_style(Color::Indexed(9), theme),
        json_kind_style(JsonKind::Key(Color::Indexed(9)), theme)
    );
}

#[test]
fn disclosure_signs() {
    assert_eq!(disclosure(true, false), "\u{25be}");
    assert_eq!(disclosure(false, false), "\u{25b8}");
    assert_eq!(disclosure(true, true), "v");
    assert_eq!(disclosure(false, true), ">");
}

#[test]
fn cursor_is_kept_on_a_row_of_the_tree() {
    let base = Style::plain();
    let rows = || {
        vec![
            TreeRow {
                depth: 0,
                label: "a".to_owned(),
                color: Color::Indexed(8),
                shape: RowShape::Container { expanded: true, summary: "{1 key}".to_owned() },
            },
            scalar("b", "3"),
        ]
    };
    let view = details_view(&record(Some(rows())), 99, true, base, theme(), true);
    assert_eq!(view.cursor_line, Some(3));
    assert_eq!(view.lines.len(), 5);
    assert_eq!(text(&view.lines[0].spans), "stable display id: 42");
    assert_eq!(text(&view.lines[1].spans), "raw: {}");
    assert_eq!(text(&view.lines[2].spans), "  v a: {1 key}");
    assert_eq!(text(&view.lines[3].spans), ">     b: 3");
    let selection = DialogStyles::new(theme()).selection;
    assert!(view.lines[3].spans.iter().all(|span| span.style == selection));
    assert!(view.lines[2].spans[1].style.bold);
    let unfocused = details_view(&record(Some(rows())), 0, false, base, theme(), true);
    assert_eq!(unfocused.cursor_line, Some(2));
    assert_eq!(text(&unfocused.lines[2].spans), "  v a: {1 key}");
}

#[test]
fn record_without_a_tree_shows_its_columns() {
    let view = details_view(&record(None), 0, true, Style::plain(), theme(), false);
    assert_eq!(view.cursor_line, None);
    assert_eq!(text(&view.lines[2].spans), "level: info");
    assert_eq!(text(&view.lines[3].spans), "command.status: Pending since noon");
    let empty = details_view(&record(Some(Vec::new())), 0, true, Style::plain(), theme(), false);
    assert_eq!(empty.cursor_line, None);
}

#[test]
fn command_status_has_a_style_of_its_own() {
    let base = Style::plain().italic();
    let styles = DialogStyles::new(theme());
    let style = |key, value| detail_style(key, value, base, theme());
    assert_eq!(style("command.status", "  PENDING now"), styles.pending);
    assert_eq!(style("command.status", "pendingish"), styles.applied);
    assert_eq!(style("command.status", ""), styles.applied);
    assert_eq!(style("other", "pending"), base);
}
