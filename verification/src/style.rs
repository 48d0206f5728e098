//! Colours and text styles.

use vstd::prelude::*;

verus! {

/// A terminal colour.
#[derive(Clone, Copy, Debug, PartialEq, Eq, Structural)]
pub enum Color {
    Reset,
    Black,
    /// One of the palette's other entries.
    Indexed(u8),
    Rgb(u8, u8, u8),
}

/// A text style: colours where they are set, and modifiers.
#[derive(Clone, Copy, Debug, PartialEq, Eq, Structural)]
pub struct Style {
    pub fg: Option<Color>,
    pub bg: Option<Color>,
    pub bold: bool,
    pub italic: bool,
    pub underlined: bool,
}

impl Style {
    /// Neither colours nor modifiers.
    pub open spec fn spec_plain() -> Style {
        Style { fg: None, bg: None, bold: false, italic: false, underlined: false }
    }

    /// A foreground alone.
    pub open spec fn spec_colored(fg: Color) -> Style {
        Style { fg: Some(fg), ..Style::spec_plain() }
    }

    pub fn plain() -> (r: Style)
        ensures
            r == Style::spec_plain(),
    {
        Style { fg: None, bg: None, bold: false, italic: false, underlined: false }
    }

    pub fn fg(self, color: Color) -> (r: Style)
        ensures
            r == (Style { fg: Some(color), ..self }),
    {
        Style { fg: Some(color), ..self }
    }

    pub fn bg(self, color: Color) -> (r: Style)
        ensures
            r == (Style { bg: Some(color), ..self }),
    {
        Style { bg: Some(color), ..self }
    }

    pub fn bold(self) -> (r: Style)
        ensures
            r == (Style { bold: true, ..self }),
    {
        Style { bold: true, ..self }
    }

    pub fn italic(self) -> (r: Style)
        ensures
            r == (Style { italic: true, ..self }),
    {
        Style { italic: true, ..self }
    }

    pub fn underlined(self) -> (r: Style)
        ensures
            r == (Style { underlined: true, ..self }),
    {
        Style { underlined: true, ..self }
    }
}

/// A run of text in one style.
#[derive(Debug)]
pub struct Span {
    pub text: String,
    pub style: Style,
}

/// The characters and the style of a span.
pub open spec fn span_view(span: Span) -> (Seq<char>, Style) {
    (span.text@, span.style)
}

/// The characters and styles of a line.
pub open spec fn line_view(spans: Seq<Span>) -> Seq<(Seq<char>, Style)> {
    spans.map_values(|span: Span| span_view(span))
}

/// How many colours the terminal shows.
#[derive(Clone, Copy, Debug, PartialEq, Eq, Structural)]
pub enum ColorDepth {
    Ansi16,
    Indexed256,
    TrueColor,
}

/// Foregrounds already pushed until they read on the named background.
#[derive(Clone, Copy, Debug, PartialEq, Eq, Structural)]
pub struct ReadableColors {
    pub base_on_dialog: Color,
    pub accent_on_dialog: Color,
    pub input_on_input: Color,
    pub selection_on_selection: Color,
    pub info_on_dialog: Color,
    pub warn_on_dialog: Color,
    pub error_on_dialog: Color,
    pub dialog_on_accent: Color,
}

/// The colours of severities.
#[derive(Clone, Copy, Debug, PartialEq, Eq, Structural)]
pub struct SeverityColors {
    pub info: Color,
    pub warn: Color,
    pub error: Color,
}

/// The colours of JSON tokens.
#[derive(Clone, Copy, Debug, PartialEq, Eq, Structural)]
pub struct JsonColors {
    pub string: Color,
    pub number: Color,
    pub boolean: Color,
    pub null: Color,
    pub punctuation: Color,
}

/// The colours of the heart.
#[derive(Clone, Copy, Debug, PartialEq, Eq, Structural)]
pub struct HeartColors {
    pub primary: Color,
    pub error: Color,
}

/// The colours that are drawn with.
#[derive(Clone, Copy, Debug, PartialEq, Eq, Structural)]
pub struct Theme {
    pub base_fg: Color,
    pub base_bg: Color,
    pub muted: Color,
    pub dialog_bg: Color,
    pub accent: Color,
    pub input_fg: Color,
    pub input_bg: Color,
    pub cursor: Color,
    pub selection_fg: Color,
    pub selection_bg: Color,
    pub severity: SeverityColors,
    pub json: JsonColors,
    pub heart: HeartColors,
    pub depth: ColorDepth,
    pub readable: ReadableColors,
}

} // verus!
