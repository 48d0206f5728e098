//! The title at startup and the heart in the footer.
//!
//! Time comes in from outside, in milliseconds, and nothing here draws: a plan
//! says what is drawn and where.

use crate::geometry::{least, min16, minus, Rect};
use crate::style::{line_view, Span, Style, Theme};
use crate::text::{chars_of, decimal, decimal_text, text_of, trim, trimmed};
use crate::width::{display_width, glyph_width, glyph_width_of, width_of};
use vstd::prelude::*;

pub mod art;

verus! {

/// The longest that a startup duration can be set to, in milliseconds.
pub const MAX_STARTUP_DURATION: u64 = 600;

/// How long a frame of the title shows, in milliseconds.
pub const STARTUP_ANIMATION_TICK: u64 = 110;

/// How often the indicator is drawn, in milliseconds.
pub const INDICATOR_ANIMATION_TICK: u64 = 50;

/// How long a step of the heart's beat is, in milliseconds.
pub const ANIMATION_TICK: u64 = 125;

pub const STARTUP_TITLE: &'static str = "LOVE YOU LOG TIME";

/// The columns of the footer at most.
pub const FOOTER_MAX_WIDTH: u16 = 18;

/// The columns of a label at most.
pub const LABEL_MAX_WIDTH: usize = 96;

#[derive(Clone, Copy, Debug, PartialEq, Eq, Structural)]
pub struct DelightConfig {
    pub enabled: bool,
    pub reduced_motion: bool,
    pub ascii: bool,
    /// The startup duration that was set.
    pub legacy_startup_duration: u64,
}

impl DelightConfig {
    /// The startup duration is kept, within its bound, but the title stays until
    /// a key is pressed.
    pub fn new(enabled: bool, reduced_motion: bool, ascii: bool, startup_duration: u64) -> (r:
        DelightConfig)
        ensures
            r.enabled == enabled,
            r.reduced_motion == reduced_motion,
            r.ascii == ascii,
            r.legacy_startup_duration == least(startup_duration as int, MAX_STARTUP_DURATION as int),
    {
        DelightConfig {
            enabled,
            reduced_motion,
            ascii,
            legacy_startup_duration: if startup_duration < MAX_STARTUP_DURATION {
                startup_duration
            } else {
                MAX_STARTUP_DURATION
            },
        }
    }

    pub fn startup_duration(self) -> (r: u64)
        ensures
            r == self.legacy_startup_duration,
    {
        self.legacy_startup_duration
    }
}

impl Default for DelightConfig {
    fn default() -> (r: DelightConfig)
        ensures
            r.enabled,
            !r.reduced_motion,
            !r.ascii,
            r.legacy_startup_duration == MAX_STARTUP_DURATION,
    {
        DelightConfig::new(true, false, false, MAX_STARTUP_DURATION)
    }
}

/// What became of a key that the title saw.
#[derive(Clone, Copy, Debug, PartialEq, Eq, Structural)]
pub enum InputDisposition {
    KeepTitleModal,
    DismissedAndConsumed,
}

/// The title at startup.
#[derive(Debug, PartialEq, Eq)]
pub struct StartupDelight {
    dismissed: bool,
}

impl Default for StartupDelight {
    fn default() -> (r: StartupDelight)
        ensures
            !r.is_dismissed(),
    {
        StartupDelight { dismissed: false }
    }
}

impl StartupDelight {
    /// The title was dismissed.
    pub closed spec fn is_dismissed(self) -> bool {
        self.dismissed
    }

    /// The title is there to see.
    pub open spec fn visible(self, config: DelightConfig) -> bool {
        config.enabled && !self.is_dismissed()
    }

    pub fn new() -> (r: StartupDelight)
        ensures
            !r.is_dismissed(),
    {
        StartupDelight::default()
    }

    /// A key dismisses the title and goes no further.
    pub fn observe_input(&mut self) -> (r: InputDisposition)
        ensures
            final(self).is_dismissed(),
            r == InputDisposition::DismissedAndConsumed,
    {
        self.dismissed = true;
        InputDisposition::DismissedAndConsumed
    }

    /// So does Escape.
    pub fn observe_escape(&mut self) -> (r: InputDisposition)
        ensures
            final(self).is_dismissed(),
            r == InputDisposition::DismissedAndConsumed,
    {
        self.dismissed = true;
        InputDisposition::DismissedAndConsumed
    }

    /// The title is passed over.
    pub fn dismiss(&mut self)
        ensures
            final(self).is_dismissed(),
    {
        self.dismissed = true;
    }

    /// Whether the title is shown, however long it has been.
    pub fn is_visible(&self, _elapsed: u64, config: DelightConfig) -> (r: bool)
        ensures
            r == self.visible(config),
    {
        config.enabled && !self.dismissed
    }

    /// How often the title is drawn anew, where it moves.
    pub fn redraw_interval(config: DelightConfig) -> (r: Option<u64>)
        ensures
            r == if config.enabled && !config.reduced_motion && !config.ascii {
                Some(STARTUP_ANIMATION_TICK)
            } else {
                None
            },
    {
        if config.enabled && !config.reduced_motion && !config.ascii {
            Some(STARTUP_ANIMATION_TICK)
        } else {
            None
        }
    }
}

/// What is drawn of the title.
#[derive(Debug)]
pub enum TitlePlan {
    Nothing,
    /// The picture: which one, where its corner stands, and the line under it.
    Picture { large: bool, frame: usize, left: u16, top: u16, caption: Rect },
    /// The words alone, one span to a line, centred.
    Words { lines: Vec<Span>, area: Rect },
}

/// The columns and rows of the picture.
pub open spec fn picture_size(large: bool) -> (u16, u16) {
    if large {
        (120, 40)
    } else {
        (80, 22)
    }
}

/// The picture has room.
pub open spec fn shows_picture(area: Rect, config: DelightConfig) -> bool {
    !config.ascii && area.width >= 80 && area.height >= 22
}

/// The large picture has room.
pub open spec fn shows_large(area: Rect) -> bool {
    area.width >= 120 && area.height >= 40
}

/// Which frame of the title shows.
pub open spec fn title_frame(elapsed: u64, config: DelightConfig) -> int {
    if config.reduced_motion {
        0
    } else {
        (elapsed as int / STARTUP_ANIMATION_TICK as int) % 10
    }
}

/// The words of the title that fit a height.
pub open spec fn title_words(area: Rect, config: DelightConfig, theme: Theme) -> Seq<
    (Seq<char>, Style),
> {
    let heart = Style { bold: true, ..Style::spec_colored(theme.heart.primary) };
    (if area.height >= 3 {
        seq![
            (
                if config.ascii {
                    "<##>"@
                } else {
                    "\u{25c6}\u{2665}\u{25c6}"@
                },
                heart,
            ),
        ]
    } else {
        seq![]
    }) + seq![(shortened(STARTUP_TITLE@, area.width as int), heart)] + (if area.height >= 2 {
        seq![
            (
                shortened("PRESS ANY KEY"@, area.width as int),
                Style::spec_colored(theme.muted),
            ),
        ]
    } else {
        seq![]
    })
}

/// The columns of a text, character by character; those that have none take
/// none.
pub open spec fn glyph_columns(text: Seq<char>) -> int
    decreases text.len(),
{
    if text.len() == 0 {
        0
    } else {
        glyph_columns(text.drop_last()) + (match glyph_width(text.last()) {
            Some(width) => width as int,
            None => 0,
        })
    }
}

/// How many characters of a text fit a number of columns, given that the first
/// `n` do.
pub open spec fn glyphs_fitting(text: Seq<char>, maximum: int, n: int) -> int
    decreases text.len() - n,
{
    if 0 <= n < text.len() && glyph_columns(text.take(n + 1)) <= maximum {
        glyphs_fitting(text, maximum, n + 1)
    } else {
        n
    }
}

/// A text that fits a number of columns, or as much of it as leaves one for the
/// sign that it goes on.
pub open spec fn shortened(text: Seq<char>, maximum: int) -> Seq<char> {
    if maximum <= 0 {
        seq![]
    } else if display_width(text) <= maximum {
        text
    } else {
        text.take(glyphs_fitting(text, maximum - 1, 0)).push('\u{2026}')
    }
}

/// Cuts a text to a number of columns.
pub fn truncate_width(value: &str, max_width: usize) -> (r: String)
    ensures
        r@ == shortened(value@, max_width as int),
{
    if max_width == 0 {
        let empty = String::new();
        assert(empty@ =~= seq![]);
        return empty;
    }
    if width_of(value) <= max_width {
        return value.to_owned();
    }
    let room: usize = max_width - 1;
    let chars = chars_of(value);
    let mut used: usize = 0;
    let mut n: usize = 0;
    assert(value@.take(0) =~= seq![]);
    while n < chars.len()
        invariant
            n <= chars@.len(),
            chars@ == value@,
            used <= room,
            used == glyph_columns(value@.take(n as int)),
            glyphs_fitting(value@, room as int, 0) == glyphs_fitting(
                value@,
                room as int,
                n as int,
            ),
        ensures
            n <= chars@.len(),
            n == glyphs_fitting(value@, room as int, 0),
        decreases chars.len() - n,
    {
        let step: usize = match glyph_width_of(chars[n]) {
            Some(width) => width,
            None => 0,
        };
        assert(value@.take(n + 1).drop_last() =~= value@.take(n as int));
        assert(value@.take(n + 1).last() == value@[n as int]);
        if step > room - used {
            break;
        }
        used = used + step;
        n += 1;
    }
    let mut out = text_of(&chars, 0, n);
    out.push('\u{2026}');
    assert(out@ =~= value@.take(n as int).push('\u{2026}'));
    out
}

/// The words of the title.
pub fn compact_title(area: Rect, config: DelightConfig, theme: Theme) -> (r: Vec<Span>)
    ensures
        line_view(r@) == title_words(area, config, theme),
        1 <= r@.len() <= 3,
        area.height > 0 ==> r@.len() <= area.height,
{
    let heart = Style::plain().fg(theme.heart.primary).bold();
    let mut lines: Vec<Span> = Vec::new();
    if area.height >= 3 {
        lines.push(
            Span {
                text: (if config.ascii {
                    "<##>"
                } else {
                    "\u{25c6}\u{2665}\u{25c6}"
                }).to_owned(),
                style: heart,
            },
        );
    }
    lines.push(Span { text: truncate_width(STARTUP_TITLE, area.width as usize), style: heart });
    if area.height >= 2 {
        lines.push(
            Span {
                text: truncate_width("PRESS ANY KEY", area.width as usize),
                style: Style::plain().fg(theme.muted),
            },
        );
    }
    assert(line_view(lines@) =~= title_words(area, config, theme));
    lines
}

/// The last row of an area.
pub open spec fn last_row(area: Rect) -> Rect {
    Rect::spec_new(area.x, (area.spec_bottom() - 1) as u16, area.width, 1)
}

impl StartupDelight {
    /// Plans what is drawn of the title: the picture in the middle where it has
    /// room, else the words.
    pub fn plan(&self, area: Rect, elapsed: u64, config: DelightConfig, theme: Theme) -> (r:
        TitlePlan)
        requires
            area.valid(),
        ensures
            match r {
                TitlePlan::Nothing => !self.visible(config) || area.width == 0 || area.height == 0,
                TitlePlan::Picture { large, frame, left, top, caption } => {
                    let (width, height) = picture_size(large);
                    &&& self.visible(config)
                    &&& shows_picture(area, config)
                    &&& large == shows_large(area)
                    &&& frame == title_frame(elapsed, config)
                    &&& left == area.x + (area.width - width) / 2
                    &&& top == area.y + (area.height - height) / 2
                    &&& caption == last_row(area)
                },
                TitlePlan::Words { lines, area: place } => {
                    &&& self.visible(config)
                    &&& area.width > 0 && area.height > 0
                    &&& !shows_picture(area, config)
                    &&& line_view(lines@) == title_words(area, config, theme)
                    &&& place == Rect::spec_new(
                        area.x,
                        (area.y + (area.height - lines@.len()) / 2) as u16,
                        area.width,
                        lines@.len() as u16,
                    )
                },
            },
    {
        if !self.is_visible(elapsed, config) || area.width == 0 || area.height == 0 {
            return TitlePlan::Nothing;
        }
        if !config.ascii && area.width >= 80 && area.height >= 22 {
            let large = area.width >= 120 && area.height >= 40;
            let (width, height): (u16, u16) = if large {
                (120, 40)
            } else {
                (80, 22)
            };
            let frame: usize = if config.reduced_motion {
                0
            } else {
                ((elapsed / STARTUP_ANIMATION_TICK) % 10) as usize
            };
            return TitlePlan::Picture {
                large,
                frame,
                left: area.x + (area.width - width) / 2,
                top: area.y + (area.height - height) / 2,
                caption: Rect::new(area.x, area.bottom() - 1, area.width, 1),
            };
        }
        let lines = compact_title(area, config, theme);
        let height: u16 = lines.len() as u16;
        let top: u16 = area.y + (area.height - height) / 2;
        TitlePlan::Words { lines, area: Rect::new(area.x, top, area.width, height) }
    }
}

/// The picture stands within the area, and the words do.
pub proof fn title_stays_within(area: Rect, large: bool, lines: int)
    requires
        area.valid(),
        area.width >= picture_size(large).0,
        area.height >= picture_size(large).1,
        0 < lines <= area.height,
    ensures
        area.x <= area.x + (area.width - picture_size(large).0) / 2,
        area.x + (area.width - picture_size(large).0) / 2 + picture_size(large).0 <= area.x
            + area.width,
        area.y + (area.height - picture_size(large).1) / 2 + picture_size(large).1 <= area.y
            + area.height,
        area.y + (area.height - lines) / 2 + lines <= area.y + area.height,
{
}

/// A title that was dismissed is not seen again, however it is set.
pub proof fn dismissed_title_stays_away(title: StartupDelight, config: DelightConfig)
    requires
        title.is_dismissed(),
    ensures
        !title.visible(config),
{
}

/// How far something has come.
#[derive(Clone, Copy, Debug, PartialEq, Eq, Structural)]
pub enum Progress {
    Unknown,
    Measured { completed: u64, total: u64 },
}

/// What is going on.
#[derive(Clone, Copy, Debug)]
pub enum ActivityState<'a> {
    Idle,
    Active { label: &'a str },
    Pending { label: &'a str, progress: Progress },
    Error { label: &'a str },
}

impl ActivityState<'_> {
    /// Something is under way.
    pub open spec fn moves(self) -> bool {
        self is Active || self is Pending
    }
}

/// Whether the heart beats: something is under way, and motion is wanted.
pub fn is_animated(activity: ActivityState<'_>, config: DelightConfig) -> (r: bool)
    ensures
        r == (!config.reduced_motion && activity.moves()),
{
    let moves = match activity {
        ActivityState::Active { .. } | ActivityState::Pending { .. } => true,
        _ => false,
    };
    !config.reduced_motion && moves
}

/// The heart is full: in two of the eight steps of its beat.
pub open spec fn beats(elapsed: u64) -> bool {
    let step = (elapsed as int / ANIMATION_TICK as int) % 8;
    step == 0 || step == 2
}

pub fn pulse_phase(elapsed: u64) -> (r: bool)
    ensures
        r == beats(elapsed),
{
    let step: u64 = (elapsed / ANIMATION_TICK) % 8;
    step == 0 || step == 2
}

/// Which of the heart's four pictures shows: the first for most of a second, and
/// the others for a beat.
pub open spec fn heart_phase(elapsed: u64) -> int {
    let part = elapsed as int % 1000;
    if part < 650 {
        0
    } else if part < 750 {
        1
    } else if part < 850 {
        2
    } else {
        3
    }
}

/// A label without the space round it, of bounded width.
pub open spec fn label_of(label: Seq<char>) -> Seq<char> {
    shortened(trimmed(label), LABEL_MAX_WIDTH as int)
}

pub fn bounded_label(label: &str) -> (r: String)
    ensures
        r@ == label_of(label@),
{
    let text = trim(label);
    truncate_width(text.as_str(), LABEL_MAX_WIDTH)
}

/// The hundredths of a whole, as far as they can be counted.
pub open spec fn percent(completed: int, total: int) -> int {
    least(completed * 100, u64::MAX as int) / total
}

/// What is said of an activity.
pub open spec fn activity_text(activity: ActivityState<'_>) -> Seq<char> {
    match activity {
        ActivityState::Idle | ActivityState::Active { .. } => seq![],
        ActivityState::Pending { label, progress } => match progress {
            Progress::Unknown => seq![],
            Progress::Measured { completed, total } => if total > 0 {
                let done = least(completed as int, total as int);
                label_of(label@) + " "@ + decimal(done as nat) + "/"@ + decimal(total as nat)
                    + " "@ + decimal(percent(done, total as int) as nat) + "%"@
            } else {
                label_of(label@) + " pending"@
            },
        },
        ActivityState::Error { label } => "error "@ + label_of(label@),
    }
}

pub fn activity_label(activity: ActivityState<'_>) -> (r: String)
    ensures
        r@ == activity_text(activity),
{
    match activity {
        ActivityState::Pending { label, progress: Progress::Measured { completed, total } } => {
            let mut text = bounded_label(label);
            if total == 0 {
                text.append(" pending");
                return text;
            }
            let done: u64 = if completed < total {
                completed
            } else {
                total
            };
            let hundredfold: u64 = if done <= u64::MAX / 100 {
                done * 100
            } else {
                u64::MAX
            };
            let share: u64 = hundredfold / total;
            text.append(" ");
            text.append(decimal_text(done).as_str());
            text.append("/");
            text.append(decimal_text(total).as_str());
            text.append(" ");
            text.append(decimal_text(share).as_str());
            text.append("%");
            text
        },
        ActivityState::Error { label } => {
            let mut text = "error ".to_owned();
            text.append(bounded_label(label).as_str());
            text
        },
        _ => {
            let text = String::new();
            assert(text@ =~= seq![]);
            text
        },
    }
}

/// Progress is never more than the whole.
pub proof fn percent_is_bounded(completed: int, total: int)
    requires
        0 <= completed <= total,
        0 < total <= u64::MAX,
    ensures
        0 <= percent(completed, total) <= 100,
        completed * 100 <= u64::MAX ==> percent(completed, total) == completed * 100 / total,
{
    assert(0 <= completed * 100 <= total * 100) by (nonlinear_arith)
        requires
            0 <= completed <= total,
    ;
    assert(least(completed * 100, u64::MAX as int) / total <= 100) by (nonlinear_arith)
        requires
            least(completed * 100, u64::MAX as int) <= total * 100,
            total > 0,
    ;
    assert(least(completed * 100, u64::MAX as int) / total >= 0) by (nonlinear_arith)
        requires
            least(completed * 100, u64::MAX as int) >= 0,
            total > 0,
    ;
}

proof fn glyphs_do_fit(text: Seq<char>, maximum: int, n: int)
    requires
        0 <= n <= text.len(),
        glyph_columns(text.take(n)) <= maximum,
    ensures
        n <= glyphs_fitting(text, maximum, n) <= text.len(),
        glyph_columns(text.take(glyphs_fitting(text, maximum, n))) <= maximum,
    decreases text.len() - n,
{
    if n < text.len() && glyph_columns(text.take(n + 1)) <= maximum {
        glyphs_do_fit(text, maximum, n + 1);
    }
}

/// A text that is cut leaves a column for the sign that it goes on; one that is
/// not is the whole.
pub proof fn shortened_text_fits(text: Seq<char>, maximum: int)
    requires
        maximum > 0,
    ensures
        shortened(text, maximum) == text || (shortened(text, maximum).last() == '\u{2026}'
            && glyph_columns(shortened(text, maximum).drop_last()) <= maximum - 1
            && shortened(text, maximum).drop_last().is_prefix_of(text)),
        shortened(text, maximum) == text ==> display_width(text) <= maximum || text.last()
            == '\u{2026}',
{
    assert(text.take(0) =~= seq![]);
    glyphs_do_fit(text, maximum - 1, 0);
    let kept = text.take(glyphs_fitting(text, maximum - 1, 0));
    assert(kept.push('\u{2026}').drop_last() =~= kept);
}

/// The heart of the footer. It is full while it beats and while nothing is under
/// way.
pub open spec fn badge(ascii: bool, pulse: bool, activity: ActivityState<'_>, theme: Theme) -> (
    Seq<char>,
    Style,
) {
    (
        if ascii {
            "<3"@
        } else if pulse || !activity.moves() {
            "\u{2665}"@
        } else {
            "\u{2661}"@
        },
        Style {
            bold: true,
            ..Style::spec_colored(
                if activity is Error {
                    theme.heart.error
                } else {
                    theme.heart.primary
                },
            )
        },
    )
}

pub fn footer_badge(ascii: bool, pulse: bool, activity: ActivityState<'_>, theme: Theme) -> (r: Span)
    ensures
        (r.text@, r.style) == badge(ascii, pulse, activity, theme),
{
    let (error, moves) = match activity {
        ActivityState::Error { .. } => (true, false),
        ActivityState::Active { .. } | ActivityState::Pending { .. } => (false, true),
        ActivityState::Idle => (false, false),
    };
    let color = if error {
        theme.heart.error
    } else {
        theme.heart.primary
    };
    let heart = if ascii {
        "<3"
    } else if pulse || !moves {
        "\u{2665}"
    } else {
        "\u{2661}"
    };
    Span { text: heart.to_owned(), style: Style::plain().fg(color).bold() }
}

/// What is drawn in the footer.
#[derive(Debug)]
pub enum FooterPlan {
    Nothing,
    /// The heart's picture: which one, where its corner stands, and the label in
    /// the last row.
    Heart { phase: usize, left: u16, top: u16, label: Option<(String, Rect)> },
    /// One row: the heart, and the label behind it.
    Row { area: Rect, spans: Vec<Span> },
}

/// The columns of the heart's picture.
pub const HEART_WIDTH: u16 = 5;

/// The rows of the heart's picture.
pub const HEART_HEIGHT: u16 = 3;

/// The rows that the corner has for the heart.
pub const HEART_ROWS: u16 = 8;

/// The heart's picture has room.
pub open spec fn shows_heart(area: Rect, config: DelightConfig) -> bool {
    !config.ascii && area.width >= 14 && area.height >= HEART_ROWS
}

/// The row of the footer: the heart, and as much of the label as fits.
pub open spec fn footer_row(
    width: int,
    elapsed: u64,
    config: DelightConfig,
    activity: ActivityState<'_>,
    theme: Theme,
) -> Seq<(Seq<char>, Style)> {
    let pulse = !config.reduced_motion && activity.moves() && beats(elapsed);
    let heart = badge(config.ascii, pulse, activity, theme);
    let label = shortened(activity_text(activity), minus(width, display_width(heart.0) + 1));
    seq![heart] + (if label.len() > 0 {
        seq![(" "@, Style::spec_plain()), (label, Style::spec_colored(theme.base_fg))]
    } else {
        seq![]
    })
}

fn row_of_footer(
    width: u16,
    elapsed: u64,
    config: DelightConfig,
    activity: ActivityState<'_>,
    theme: Theme,
) -> (r: Vec<Span>)
    ensures
        line_view(r@) == footer_row(width as int, elapsed, config, activity, theme),
{
    let pulse = is_animated(activity, config) && pulse_phase(elapsed);
    let heart = footer_badge(config.ascii, pulse, activity, theme);
    let used: usize = width_of(heart.text.as_str());
    let room: usize = if used < width as usize {
        width as usize - used - 1
    } else {
        0
    };
    let text = activity_label(activity);
    let label = truncate_width(text.as_str(), room);
    let mut spans: Vec<Span> = Vec::new();
    spans.push(heart);
    if !label.as_str().is_empty() {
        spans.push(Span { text: " ".to_owned(), style: Style::plain() });
        spans.push(Span { text: label, style: Style::plain().fg(theme.base_fg) });
    }
    assert(line_view(spans@) =~= footer_row(width as int, elapsed, config, activity, theme));
    spans
}

#[derive(Clone, Copy, Debug, PartialEq, Eq, Structural)]
pub struct FooterDelight;

impl FooterDelight {
    /// Plans what is drawn in the footer: the heart's picture where it has room,
    /// else a row.
    pub fn plan(
        area: Rect,
        elapsed: u64,
        config: DelightConfig,
        activity: ActivityState<'_>,
        theme: Theme,
    ) -> (r: FooterPlan)
        requires
            area.valid(),
        ensures
            match r {
                FooterPlan::Nothing => !config.enabled || area.width == 0 || area.height == 0,
                FooterPlan::Heart { phase, left, top, label } => {
                    let text = activity_text(activity);
                    &&& config.enabled
                    &&& shows_heart(area, config)
                    &&& phase == if !config.reduced_motion && activity.moves() {
                        heart_phase(elapsed)
                    } else {
                        0
                    }
                    &&& left == area.x + (area.width - HEART_WIDTH) / 2
                    &&& top == area.spec_bottom() - HEART_ROWS
                    &&& text.len() == 0 ==> label is None
                    &&& text.len() > 0 ==> (label matches Some((shown, row)) && shown@ == shortened(
                        text,
                        area.width as int,
                    ) && row == last_row(area))
                },
                FooterPlan::Row { area: row, spans } => {
                    let width = least(area.width as int, FOOTER_MAX_WIDTH as int);
                    &&& config.enabled
                    &&& area.width > 0 && area.height > 0
                    &&& !shows_heart(area, config)
                    &&& row == Rect::spec_new(area.x, area.y, width as u16, 1)
                    &&& line_view(spans@) == footer_row(width, elapsed, config, activity, theme)
                },
            },
    {
        if !config.enabled || area.width == 0 || area.height == 0 {
            return FooterPlan::Nothing;
        }
        if !config.ascii && area.width >= 14 && area.height >= HEART_ROWS {
            let part: u64 = elapsed % 1000;
            let phase: usize = if !is_animated(activity, config) || part < 650 {
                0
            } else if part < 750 {
                1
            } else if part < 850 {
                2
            } else {
                3
            };
            let text = activity_label(activity);
            let label = if text.as_str().is_empty() {
                None
            } else {
                Some(
                    (
                        truncate_width(text.as_str(), area.width as usize),
                        Rect::new(area.x, area.bottom() - 1, area.width, 1),
                    ),
                )
            };
            return FooterPlan::Heart {
                phase,
                left: area.x + (area.width - HEART_WIDTH) / 2,
                top: area.bottom() - HEART_ROWS,
                label,
            };
        }
        let width: u16 = min16(area.width, FOOTER_MAX_WIDTH);
        FooterPlan::Row {
            area: Rect::new(area.x, area.y, width, 1),
            spans: row_of_footer(width, elapsed, config, activity, theme),
        }
    }
}

/// The heart's picture stands within the area and above the label.
pub proof fn heart_stays_within(area: Rect, config: DelightConfig)
    requires
        area.valid(),
        shows_heart(area, config),
    ensures
        ({
            let left = area.x + (area.width - HEART_WIDTH) / 2;
            let top = area.spec_bottom() - HEART_ROWS;
            &&& area.x <= left
            &&& left + HEART_WIDTH <= area.spec_right()
            &&& area.y <= top
            &&& top + HEART_HEIGHT < area.spec_bottom() - 1
        }),
{
}

/// With motion reduced, or while nothing is under way, the heart stands still.
pub proof fn still_heart_does_not_move(
    width: int,
    first: u64,
    second: u64,
    config: DelightConfig,
    activity: ActivityState<'_>,
    theme: Theme,
)
    requires
        config.reduced_motion || !activity.moves(),
    ensures
        footer_row(width, first, config, activity, theme) == footer_row(
            width,
            second,
            config,
            activity,
            theme,
        ),
        config.reduced_motion ==> title_frame(first, config) == title_frame(second, config),
{
}

/// Work that is measured is told with its label, how much of how much is done, and
/// the hundredths of it; no more than all of it is ever done.
pub proof fn measured_work_is_told(label: &str, completed: u64, total: u64)
    requires
        0 < total,
        completed <= total <= u64::MAX / 100,
    ensures
        activity_text(
            ActivityState::Pending { label, progress: Progress::Measured { completed, total } },
        ) == label_of(label@) + " "@ + decimal(completed as nat) + "/"@ + decimal(total as nat)
            + " "@ + decimal(((completed * 100) / (total as int)) as nat) + "%"@,
{
    percent_is_bounded(completed as int, total as int);
}

/// Nothing is said while nothing is measured, a failure is told by its label, and
/// work without a measure is said to be pending.
pub proof fn activity_is_told(label: &str, completed: u64)
    ensures
        activity_text(ActivityState::Idle).len() == 0,
        activity_text(ActivityState::Active { label }).len() == 0,
        activity_text(ActivityState::Pending { label, progress: Progress::Unknown }).len() == 0,
        activity_text(ActivityState::Error { label }) == "error "@ + label_of(label@),
        activity_text(
            ActivityState::Pending {
                label,
                progress: Progress::Measured { completed, total: 0 },
            },
        ) == label_of(label@) + " pending"@,
{
}

/// The heart is full while nothing is under way, and while something is it is
/// full in the first and the third eighth of each second.
pub proof fn heart_beats(elapsed: u64, activity: ActivityState<'_>, theme: Theme)
    ensures
        beats(elapsed) <==> elapsed % 1000 < 125 || 250 <= elapsed % 1000 < 375,
        !activity.moves() ==> badge(false, false, activity, theme).0 == "\u{2665}"@,
        activity.moves() ==> badge(false, true, activity, theme).0 == "\u{2665}"@ && badge(
            false,
            false,
            activity,
            theme,
        ).0 == "\u{2661}"@,
        badge(true, false, activity, theme).0 == "<3"@,
        (activity is Error) ==> badge(false, false, activity, theme).1.fg == Some(
            theme.heart.error,
        ),
        !(activity is Error) ==> badge(false, false, activity, theme).1.fg == Some(
            theme.heart.primary,
        ),
        activity.moves() <==> activity is Active || activity is Pending,
{
    let e = elapsed as int;
    let step = (e / 125) % 8;
    let part = e % 1000;
    assert(e == 125 * (e / 125) + e % 125 && 0 <= e % 125 < 125) by (nonlinear_arith);
    assert((e / 125) == 8 * ((e / 125) / 8) + step && 0 <= step < 8) by (nonlinear_arith)
        requires
            step == (e / 125) % 8,
    ;
    let q = (e / 125) / 8;
    assert(e == 1000 * q + 125 * step + e % 125);
    assert(part == 125 * step + e % 125) by (nonlinear_arith)
        requires
            e == 1000 * q + 125 * step + e % 125,
            0 <= 125 * step + e % 125 < 1000,
            part == e % 1000,
    ;
}

/// The title goes through its ten frames, each for its while, and stands still
/// where motion is reduced.
pub proof fn title_moves_frame_by_frame(elapsed: u64, config: DelightConfig)
    ensures
        0 <= title_frame(elapsed, config) < 10,
        config.reduced_motion ==> title_frame(elapsed, config) == 0,
        !config.reduced_motion && elapsed < 1100 ==> title_frame(elapsed, config) == elapsed as int
            / 110,
        !config.reduced_motion && elapsed + 1100 <= u64::MAX ==> title_frame(
            (elapsed + 1100) as u64,
            config,
        ) == title_frame(elapsed, config),
{
    let e = elapsed as int;
    assert((e + 1100) / 110 == e / 110 + 10) by (nonlinear_arith);
    assert((e / 110 + 10) % 10 == (e / 110) % 10) by (nonlinear_arith);
}

} // verus!
