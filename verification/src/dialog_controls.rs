//! Buttons, mnemonics and action rows shared by the dialogs.

use crate::geometry::{
    least, min16, placed_across, run_fits, run_offset, sat16, split_lengths, Axis, Rect,
};
use crate::input::{is_typed_char, KeyCode, KeyEvent};
use crate::style::{line_view, Color, ColorDepth, Span, Style, Theme};
use crate::text::{chars_of, lower_char, lowered, text_of};
use crate::width::{display_width, width_of};
use vstd::prelude::*;

pub mod laws;

verus! {

/// A button label may mark one letter with `&`: that letter presses the
/// button. The marker is never drawn; `&&` is a literal ampersand.
#[derive(Debug)]
pub struct Mnemonic {
    /// The label with the marker removed: what is drawn and measured.
    pub text: String,
    /// The mnemonic letter, lower-cased, and its char index in `text`.
    pub key: Option<(char, usize)>,
}

/// A label as it is drawn: `&&` stands for one ampersand and any other `&` for
/// nothing.
pub open spec fn label_text(label: Seq<char>) -> Seq<char>
    decreases label.len(),
{
    if label.len() == 0 {
        seq![]
    } else if label[0] != '&' {
        seq![label[0]] + label_text(label.skip(1))
    } else if label.len() >= 2 && label[1] == '&' {
        seq!['&'] + label_text(label.skip(2))
    } else {
        label_text(label.skip(1))
    }
}

/// A mark with its place moved by the characters drawn before it.
pub open spec fn moved_mark(mark: Option<(char, int)>, by: int) -> Option<(char, int)> {
    match mark {
        Some((letter, place)) => Some((letter, place + by)),
        None => None,
    }
}

/// The first letter of a label behind a marker, lower-cased, and its place in
/// the drawn text.
pub open spec fn label_mark(label: Seq<char>) -> Option<(char, int)>
    decreases label.len(),
{
    if label.len() < 2 {
        None
    } else if label[0] != '&' {
        moved_mark(label_mark(label.skip(1)), 1)
    } else if label[1] == '&' {
        moved_mark(label_mark(label.skip(2)), 1)
    } else {
        Some((lowered(label[1]), 0))
    }
}

/// The mark of a label as a mnemonic holds it.
pub open spec fn mark_of(key: Option<(char, usize)>) -> Option<(char, int)> {
    match key {
        Some((letter, place)) => Some((letter, place as int)),
        None => None,
    }
}

pub fn mnemonic(label: &str) -> (r: Mnemonic)
    ensures
        r.text@ == label_text(label@),
        mark_of(r.key) == label_mark(label@),
{
    let chars = chars_of(label);
    let mut text = String::new();
    let mut count: usize = 0;
    let mut key: Option<(char, usize)> = None;
    let mut i: usize = 0;
    assert(label@.skip(0) == label@);
    while i < chars.len()
        invariant
            i <= chars@.len(),
            chars@ == label@,
            count == text@.len(),
            count <= i,
            label_text(label@) == text@ + label_text(label@.skip(i as int)),
            label_mark(label@) == match key {
                Some((letter, place)) => Some((letter, place as int)),
                None => moved_mark(label_mark(label@.skip(i as int)), count as int),
            },
        decreases chars.len() - i,
    {
        let ghost rest = label@.skip(i as int);
        assert(rest[0] == chars@[i as int]);
        assert(rest.skip(1) == label@.skip(i + 1));
        if chars[i] == '&' {
            if i + 1 < chars.len() && chars[i + 1] == '&' {
                assert(rest.skip(2) == label@.skip(i + 2));
                text.push('&');
                count += 1;
                i += 2;
            } else {
                if i + 1 < chars.len() && key.is_none() {
                    key = Some((lower_char(chars[i + 1]), count));
                }
                i += 1;
            }
        } else {
            text.push(chars[i]);
            count += 1;
            i += 1;
        }
    }
    Mnemonic { text, key }
}

/// The mark of a label names a character of the drawn text, lower-cased, at
/// its place.
pub proof fn mark_is_drawn(label: Seq<char>)
    ensures
        label_mark(label) matches Some((letter, place)) ==> {
            &&& 0 <= place < label_text(label).len()
            &&& letter == lowered(label_text(label)[place])
        },
    decreases label.len(),
{
    if label.len() >= 2 {
        if label[0] != '&' {
            mark_is_drawn(label.skip(1));
        } else if label[1] == '&' {
            mark_is_drawn(label.skip(2));
        } else {
            let rest = label.skip(1);
            assert(rest[0] == label[1]);
            assert(label_text(rest) == seq![rest[0]] + label_text(rest.skip(1)));
        }
    }
}

/// The accelerator letter of a label.
pub open spec fn label_key(label: Seq<char>) -> Option<char> {
    match label_mark(label) {
        Some((letter, _)) => Some(letter),
        None => None,
    }
}

/// The accelerator letter a label declares, lower-cased.
pub fn mnemonic_key(label: &str) -> (r: Option<char>)
    ensures
        r == label_key(label@),
{
    match mnemonic(label).key {
        Some((letter, _)) => Some(letter),
        None => None,
    }
}

/// Whether a key press may activate a button: a character key going down, with
/// Alt held or else typed as text where no text field has the focus.
pub open spec fn presses_button(key: KeyEvent, text_focus: bool) -> bool {
    &&& key.spec_is_active()
    &&& key.code is Char
    &&& key.modifiers.alt || (!text_focus && key.modifiers.plain())
}

/// The button of an action row that a key press activates: the first whose
/// accelerator is the pressed letter, whatever its case.
#[must_use]
pub fn mnemonic_press(labels: &[&str], key: &KeyEvent, text_focus: bool) -> (r: Option<usize>)
    ensures
        r is Some <==> presses_button(*key, text_focus) && exists|i: int|
            0 <= i < labels@.len() && #[trigger] label_key(labels@[i]@) == Some(
                lowered(key.code->Char_0),
            ),
        r matches Some(found) ==> {
            &&& found < labels@.len()
            &&& label_key(labels@[found as int]@) == Some(lowered(key.code->Char_0))
            &&& forall|i: int|
                0 <= i < found ==> #[trigger] label_key(labels@[i]@) != Some(
                    lowered(key.code->Char_0),
                )
        },
{
    if !key.is_active() {
        return None;
    }
    let pressed = match key.code {
        KeyCode::Char(pressed) => pressed,
        _ => return None,
    };
    if !key.modifiers.alt && (text_focus || !is_typed_char(key)) {
        return None;
    }
    let pressed = lower_char(pressed);
    let mut i: usize = 0;
    while i < labels.len()
        invariant
            i <= labels@.len(),
            presses_button(*key, text_focus),
            pressed == lowered(key.code->Char_0),
            forall|j: int| 0 <= j < i ==> #[trigger] label_key(labels@[j]@) != Some(pressed),
        decreases labels.len() - i,
    {
        if let Some(letter) = mnemonic_key(labels[i]) {
            if letter == pressed {
                return Some(i);
            }
        }
        i += 1;
    }
    None
}

/// The drawn form of a button.
pub open spec fn button_chars(label: Seq<char>) -> Seq<char> {
    "[ "@ + label_text(label) + " ]"@
}

pub fn button_text(label: &str) -> (r: String)
    ensures
        r@ == button_chars(label@),
{
    let mut out = String::from_str("[ ");
    out.append(mnemonic(label).text.as_str());
    out.append(" ]");
    out
}

/// The columns of a button.
pub open spec fn button_columns(label: Seq<char>) -> int {
    sat16(display_width(button_chars(label)) as int)
}

pub fn button_width(label: &str) -> (r: u16)
    ensures
        r == button_columns(label@),
{
    let width: usize = width_of(button_text(label).as_str());
    if width <= 65535 {
        width as u16
    } else {
        u16::MAX
    }
}

/// The spans of a button: the bracketed text in one piece, or in three with the
/// mnemonic letter underlined between the others.
pub open spec fn button_spans(label: Seq<char>, style: Style) -> Seq<(Seq<char>, Style)> {
    let text = label_text(label);
    match label_mark(label) {
        None => seq![(button_chars(label), style)],
        Some((_, place)) => seq![
            ("[ "@ + text.take(place), style),
            (seq![text[place]], Style { underlined: true, ..style }),
            (text.skip(place + 1) + " ]"@, style),
        ],
    }
}

/// `[ Label ]` as spans, with the mnemonic letter underlined.
pub fn button_line(label: &str, style: Style) -> (r: Vec<Span>)
    ensures
        line_view(r@) == button_spans(label@, style),
{
    let parts = mnemonic(label);
    proof {
        mark_is_drawn(label@);
    }
    let mut out: Vec<Span> = Vec::new();
    match parts.key {
        None => {
            out.push(Span { text: button_text(label), style });
        },
        Some((_, index)) => {
            let chars = chars_of(parts.text.as_str());
            assert(index < chars.len());
            let mut before = String::from_str("[ ");
            before.append(text_of(&chars, 0, index).as_str());
            let mut after = text_of(&chars, index + 1, chars.len());
            after.append(" ]");
            let letter = text_of(&chars, index, index + 1);
            assert(letter@ =~= seq![chars@[index as int]]);
            assert(before@ =~= "[ "@ + chars@.take(index as int));
            assert(after@ =~= chars@.skip(index + 1) + " ]"@);
            out.push(Span { text: before, style });
            out.push(Span { text: letter, style: style.underlined() });
            out.push(Span { text: after, style });
        },
    }
    out
}

/// What a button in an action row is.
#[derive(Clone, Copy, Debug, PartialEq, Eq, Structural)]
pub enum ButtonRole {
    Normal,
    /// The dialog's default action: filled with the accent colour, and what
    /// Enter executes from anywhere that does not consume Enter itself.
    Default,
    /// Drawn in the error colour; last in the row.
    Destructive,
}

impl Default for ButtonRole {
    fn default() -> (r: ButtonRole)
        ensures
            r == ButtonRole::Normal,
    {
        ButtonRole::Normal
    }
}

/// The text styles of a dialog.
#[derive(Clone, Copy, Debug, PartialEq, Eq, Structural)]
pub struct DialogStyles {
    pub label: Style,
    pub description: Style,
    pub shortcut: Style,
    pub input: Style,
    pub selection: Style,
    pub applied: Style,
    pub pending: Style,
    pub error: Style,
    pub unavailable: Style,
}

impl DialogStyles {
    /// The styles a theme gives: each text in its readable colour, the shortcut
    /// bold, the unavailable italic, and inputs and selections filled.
    pub open spec fn of(theme: Theme) -> DialogStyles {
        let colors = theme.readable;
        DialogStyles {
            label: Style::spec_colored(colors.base_on_dialog),
            description: Style::spec_colored(colors.base_on_dialog),
            shortcut: Style { bold: true, ..Style::spec_colored(colors.accent_on_dialog) },
            input: Style { bg: Some(theme.input_bg), ..Style::spec_colored(colors.input_on_input) },
            selection: Style {
                bg: Some(theme.selection_bg),
                ..Style::spec_colored(colors.selection_on_selection)
            },
            applied: Style::spec_colored(colors.info_on_dialog),
            pending: Style::spec_colored(colors.warn_on_dialog),
            error: Style::spec_colored(colors.error_on_dialog),
            unavailable: Style { italic: true, ..Style::spec_colored(colors.base_on_dialog) },
        }
    }

    pub fn new(theme: Theme) -> (r: DialogStyles)
        ensures
            r == DialogStyles::of(theme),
    {
        let colors = theme.readable;
        DialogStyles {
            label: Style::plain().fg(colors.base_on_dialog),
            description: Style::plain().fg(colors.base_on_dialog),
            shortcut: Style::plain().fg(colors.accent_on_dialog).bold(),
            input: Style::plain().fg(colors.input_on_input).bg(theme.input_bg),
            selection: Style::plain().fg(colors.selection_on_selection).bg(theme.selection_bg),
            applied: Style::plain().fg(colors.info_on_dialog),
            pending: Style::plain().fg(colors.warn_on_dialog),
            error: Style::plain().fg(colors.error_on_dialog),
            unavailable: Style::plain().fg(colors.base_on_dialog).italic(),
        }
    }
}

/// Text that reads on an accent fill: the dialog surface pushed until it reads
/// where both colours are known, black at sixteen colours, and otherwise the
/// selection foreground.
pub open spec fn fill_foreground(theme: Theme) -> Color {
    if theme.dialog_bg is Rgb && theme.accent is Rgb {
        theme.readable.dialog_on_accent
    } else if theme.depth == ColorDepth::Ansi16 {
        Color::Black
    } else {
        theme.selection_fg
    }
}

fn default_fill_foreground(theme: Theme) -> (r: Color)
    ensures
        r == fill_foreground(theme),
{
    match (theme.dialog_bg, theme.accent) {
        (Color::Rgb(_, _, _), Color::Rgb(_, _, _)) => theme.readable.dialog_on_accent,
        _ => if theme.depth == ColorDepth::Ansi16 {
            Color::Black
        } else {
            theme.selection_fg
        },
    }
}

/// The look of a button: the selection colours in bold where it has the focus,
/// whatever its role, and else by its role.
pub open spec fn role_look(theme: Theme, role: ButtonRole, focused: bool) -> Style {
    let styles = DialogStyles::of(theme);
    if focused {
        Style { bold: true, ..styles.selection }
    } else {
        match role {
            ButtonRole::Default => Style {
                fg: Some(fill_foreground(theme)),
                bg: Some(theme.accent),
                bold: true,
                italic: false,
                underlined: false,
            },
            ButtonRole::Destructive => Style { bg: Some(theme.dialog_bg), ..styles.error },
            ButtonRole::Normal => Style { bg: Some(theme.dialog_bg), ..styles.label },
        }
    }
}

/// The one place a button's look is decided.
pub fn role_style(theme: Theme, role: ButtonRole, focused: bool) -> (r: Style)
    ensures
        r == role_look(theme, role, focused),
{
    let styles = DialogStyles::new(theme);
    match (role, focused) {
        (_, true) => styles.selection.bold(),
        (ButtonRole::Default, false) => Style::plain().fg(default_fill_foreground(theme)).bg(
            theme.accent,
        ).bold(),
        (ButtonRole::Destructive, false) => styles.error.bg(theme.dialog_bg),
        (ButtonRole::Normal, false) => styles.label.bg(theme.dialog_bg),
    }
}

/// The look of a plain button: selection colours in bold with the focus, the
/// applied colour in bold and underlined where selected, else the label style.
pub fn button_style(theme: Theme, focused: bool, selected: bool) -> (r: Style)
    ensures
        r == {
            let styles = DialogStyles::of(theme);
            if focused {
                Style { bold: true, ..styles.selection }
            } else if selected {
                Style {
                    bg: Some(theme.dialog_bg),
                    bold: true,
                    underlined: true,
                    ..styles.applied
                }
            } else {
                Style { bg: Some(theme.dialog_bg), ..styles.label }
            }
        },
{
    let styles = DialogStyles::new(theme);
    if focused {
        styles.selection.bold()
    } else if selected {
        styles.applied.bg(theme.dialog_bg).bold().underlined()
    } else {
        styles.label.bg(theme.dialog_bg)
    }
}

/// An action row as a dialog declares it: the labels in drawn order, which one
/// is the default (if any), which are destructive, and which one has the focus.
#[derive(Clone, Copy, Debug)]
pub struct ActionRow<'a> {
    pub labels: &'a [&'a str],
    pub default: Option<usize>,
    pub destructive: &'a [usize],
    pub focused: Option<usize>,
}

/// The role of button `index`: destructive where it is listed so, and only
/// otherwise the default.
pub open spec fn role_at(destructive: Seq<usize>, default: Option<usize>, index: usize) -> ButtonRole {
    if destructive.contains(index) {
        ButtonRole::Destructive
    } else if default == Some(index) {
        ButtonRole::Default
    } else {
        ButtonRole::Normal
    }
}

impl ActionRow<'_> {
    pub fn role(&self, index: usize) -> (r: ButtonRole)
        ensures
            r == role_at(self.destructive@, self.default, index),
    {
        let mut i: usize = 0;
        while i < self.destructive.len()
            invariant
                i <= self.destructive@.len(),
                forall|j: int| 0 <= j < i ==> self.destructive@[j] != index,
            decreases self.destructive.len() - i,
        {
            if self.destructive[i] == index {
                return ButtonRole::Destructive;
            }
            i += 1;
        }
        if self.default == Some(index) {
            ButtonRole::Default
        } else {
            ButtonRole::Normal
        }
    }
}

/// A row of actions has at most one default button, and a destructive button
/// is never the default.
pub proof fn at_most_one_default(
    destructive: Seq<usize>,
    default: Option<usize>,
    a: usize,
    b: usize,
)
    ensures
        role_at(destructive, default, a) == ButtonRole::Default && role_at(destructive, default, b)
            == ButtonRole::Default ==> a == b,
        destructive.contains(a) ==> role_at(destructive, default, a) != ButtonRole::Default,
{
}

/// The gap between buttons in a row.
pub const BUTTON_GUTTER: u16 = 2;

/// A flowing layout places its buttons one after another; this is where the
/// button after the first `n` would start if it never had to wrap there.
pub open spec fn pen_before(widths: Seq<u16>, target: Rect, n: int) -> (int, int)
    decreases n, 0int,
{
    if n <= 0 {
        (target.x as int, target.y as int)
    } else {
        let (x, y) = pen_at(widths, target, n - 1);
        (sat16(sat16(x + widths[n - 1]) + BUTTON_GUTTER), y)
    }
}

/// Where button `n` starts: on the line it reached, or on the next where it
/// would pass the right edge.
pub open spec fn pen_at(widths: Seq<u16>, target: Rect, n: int) -> (int, int)
    decreases n, 1int,
{
    let (x, y) = pen_before(widths, target, n);
    if x != target.x && sat16(x + widths[n]) > target.spec_right() {
        (target.x as int, sat16(y + 1))
    } else {
        (x, y)
    }
}

/// Button `n` of a flowing layout with its rectangle.
pub open spec fn flowed_button(widths: Seq<u16>, target: Rect, n: int) -> (usize, Rect) {
    let (x, y) = pen_at(widths, target, n);
    (n as usize, Rect::spec_new(x as u16, y as u16, widths[n], 1))
}

/// The first `limit` buttons flowed into a target, up to the first that would
/// start below it.
pub open spec fn is_flow(widths: Seq<u16>, target: Rect, limit: int, out: Seq<(usize, Rect)>) -> bool {
    &&& out.len() <= limit
    &&& forall|i: int|
        0 <= i < out.len() ==> #[trigger] out[i] == flowed_button(widths, target, i) && pen_at(
            widths,
            target,
            i,
        ).1 < target.spec_bottom()
    &&& out.len() < limit ==> pen_at(widths, target, out.len() as int).1 >= target.spec_bottom()
}

/// The widths of buttons, each at most the given one.
pub open spec fn clipped_widths(labels: Seq<&str>, width: u16) -> Seq<u16> {
    Seq::new(labels.len(), |i: int| least(button_columns(labels[i]@), width as int) as u16)
}

fn button_widths(labels: &[&str], width: u16) -> (r: Vec<u16>)
    ensures
        r@ == clipped_widths(labels@, width),
{
    let mut out: Vec<u16> = Vec::new();
    let mut i: usize = 0;
    while i < labels.len()
        invariant
            i <= labels@.len(),
            out@ == clipped_widths(labels@, width).take(i as int),
        decreases labels.len() - i,
    {
        out.push(min16(button_width(labels[i]), width));
        i += 1;
        assert(out@ =~= clipped_widths(labels@, width).take(i as int));
    }
    assert(clipped_widths(labels@, width).take(i as int) =~= clipped_widths(labels@, width));
    out
}

/// Flows the first `limit` buttons into a target.
fn flow_buttons(widths: &Vec<u16>, target: Rect, limit: usize) -> (r: Vec<(usize, Rect)>)
    requires
        limit <= widths@.len(),
    ensures
        is_flow(widths@, target, limit as int, r@),
{
    let mut out: Vec<(usize, Rect)> = Vec::new();
    let mut x: u16 = target.x;
    let mut y: u16 = target.y;
    let mut n: usize = 0;
    while n < limit
        invariant
            n <= limit <= widths@.len(),
            out@.len() == n,
            (x as int, y as int) == pen_before(widths@, target, n as int),
            is_flow(widths@, target, n as int, out@),
        decreases limit - n,
    {
        let width: u16 = widths[n];
        if x != target.x && x.saturating_add(width) > target.right() {
            x = target.x;
            y = y.saturating_add(1);
        }
        assert((x as int, y as int) == pen_at(widths@, target, n as int));
        if y >= target.bottom() {
            return out;
        }
        let ghost before = out@;
        out.push((n, Rect::new(x, y, width, 1)));
        assert(out@[n as int] == flowed_button(widths@, target, n as int));
        assert(forall|i: int| 0 <= i < n ==> out@[i] == #[trigger] before[i]);
        x = x.saturating_add(width).saturating_add(BUTTON_GUTTER);
        n += 1;
    }
    out
}

/// Where buttons come to stand that flow into an area, row after row: as they
/// flow; or, where that leaves the focused one out, that one alone in the last
/// row, below those before it that the other rows hold.
pub open spec fn is_button_layout(
    area: Rect,
    labels: Seq<&str>,
    focused_index: Option<usize>,
    placed: Seq<(usize, Rect)>,
) -> bool {
    let widths = clipped_widths(labels, area.width);
    let hidden = exists|normal: Seq<(usize, Rect)>| #[trigger]
        is_flow(widths, area, labels.len() as int, normal) && focused_index is Some && normal.len()
            <= focused_index->0 < labels.len();
    if area.spec_is_empty() || labels.len() == 0 {
        placed.len() == 0
    } else if !hidden {
        is_flow(widths, area, labels.len() as int, placed)
    } else {
        let focused = focused_index->0;
        let upper = Rect::spec_new(area.x, area.y, area.width, (area.height - 1) as u16);
        &&& placed.len() > 0
        &&& placed.last() == (
            focused,
            Rect::spec_new(
                area.x,
                (area.spec_bottom() - 1) as u16,
                widths[focused as int],
                1,
            ),
        )
        &&& area.height > 1 ==> is_flow(
            clipped_widths(labels, upper.width),
            upper,
            focused as int,
            placed.drop_last(),
        )
        &&& area.height == 1 ==> placed.len() == 1
    }
}

/// Buttons that flow into an area, row after row. A focused button that the
/// flow leaves out takes the area's last row, after those of its predecessors
/// that the other rows hold.
pub fn button_layout(area: Rect, labels: &[&str], focused_index: Option<usize>) -> (r: Vec<
    (usize, Rect),
>)
    ensures
        is_button_layout(area, labels@, focused_index, r@),
        !area.spec_is_empty() ==> (focused_index matches Some(focused) ==> focused < labels@.len()
            ==> exists|k: int| 0 <= k < r@.len() && (#[trigger] r@[k]).0 == focused),
{
    if area.is_empty() || labels.len() == 0 {
        return Vec::new();
    }
    let widths = button_widths(labels, area.width);
    let normal = flow_buttons(&widths, area, labels.len());
    let ghost all = labels@.len() as int;
    proof {
        assert forall|other: Seq<(usize, Rect)>| #[trigger]
            is_flow(widths@, area, all, other) implies other.len() == normal@.len() by {
            if other.len() < normal@.len() {
                assert(normal@[other.len() as int] == flowed_button(
                    widths@,
                    area,
                    other.len() as int,
                ));
            } else if normal@.len() < other.len() {
                assert(other[normal@.len() as int] == flowed_button(
                    widths@,
                    area,
                    normal@.len() as int,
                ));
            }
        }
    }
    let focused: usize = match focused_index {
        Some(index) => index,
        None => return normal,
    };
    if focused >= labels.len() {
        return normal;
    }
    if focused < normal.len() {
        assert(normal@[focused as int].0 == focused);
        return normal;
    }
    let mut visible: Vec<(usize, Rect)> = if area.height > 1 {
        let upper = Rect::new(area.x, area.y, area.width, area.height - 1);
        flow_buttons(&button_widths(labels, upper.width), upper, focused)
    } else {
        Vec::new()
    };
    let ghost prefix = visible@;
    visible.push((focused, Rect::new(area.x, area.bottom() - 1, widths[focused], 1)));
    assert(visible@.drop_last() =~= prefix);
    assert(is_flow(widths@, area, all, normal@));
    assert(visible@[prefix.len() as int].0 == focused);
    visible
}

/// The label of the button that opens the overflow menu.
pub const MORE_LABEL: &'static str = "More \u{25be}";

/// The most rows an action band takes.
pub const MAX_ACTION_ROWS: u16 = 2;

/// The column at which a row ends that holds the buttons `[start, end)`, with a
/// gutter between neighbours.
pub open spec fn row_end(widths: Seq<u16>, start: int, end: int) -> int
    decreases end - start,
{
    if end <= start {
        0
    } else if end == start + 1 {
        widths[start] as int
    } else {
        sat16(sat16(row_end(widths, start, end - 1) + BUTTON_GUTTER) + widths[end - 1])
    }
}

/// How far a row that starts with button `start` and holds those before `end`
/// can be filled when `tail` columns have to stay free behind its last button.
pub open spec fn row_reach(widths: Seq<u16>, start: int, end: int, tail: int, width: int) -> int
    decreases widths.len() - end,
{
    if end < widths.len() && sat16(row_end(widths, start, end + 1) + tail) <= width {
        row_reach(widths, start, end + 1, tail, width)
    } else {
        end
    }
}

/// A row reaches at least as far as it is filled and never past the buttons.
pub proof fn row_reach_bounds(widths: Seq<u16>, start: int, end: int, tail: int, width: int)
    requires
        end <= widths.len(),
    ensures
        end <= row_reach(widths, start, end, tail, width) <= widths.len(),
    decreases widths.len() - end,
{
    if end < widths.len() && sat16(row_end(widths, start, end + 1) + tail) <= width {
        row_reach_bounds(widths, start, end + 1, tail, width);
    }
}

/// A row that has to leave room behind it never reaches further than one that
/// has not.
pub proof fn tail_shortens_row(
    widths: Seq<u16>,
    start: int,
    end: int,
    tail: int,
    width: int,
)
    requires
        end <= widths.len(),
        tail >= 0,
    ensures
        row_reach(widths, start, end, tail, width) <= row_reach(widths, start, end, 0, width),
    decreases widths.len() - end,
{
    if end < widths.len() && sat16(row_end(widths, start, end + 1) + tail) <= width {
        tail_shortens_row(widths, start, end + 1, tail, width);
    } else {
        row_reach_bounds(widths, start, end, 0, width);
    }
}

/// How far a row can be filled from `start`, the first button counting as
/// placed where `forced`, with `tail` free columns behind it.
fn fill_row(width: u16, widths: &Vec<u16>, start: usize, forced: bool, tail: u16) -> (r: usize)
    requires
        start <= widths@.len(),
        forced ==> start < widths@.len(),
    ensures
        r == row_reach(
            widths@,
            start as int,
            if forced {
                start + 1
            } else {
                start as int
            },
            tail as int,
            width as int,
        ),
        start <= r <= widths@.len(),
        forced ==> start < r,
{
    let mut end: usize = start;
    let mut reached: u16 = 0;
    if forced {
        assert(start < widths.len());
        reached = widths[start];
        end = start + 1;
    }
    let ghost first = end as int;
    proof {
        row_reach_bounds(widths@, start as int, first, tail as int, width as int);
    }
    while end < widths.len()
        invariant
            start <= first <= end <= widths@.len(),
            first == if forced {
                start + 1
            } else {
                start as int
            },
            reached == row_end(widths@, start as int, end as int),
            row_reach(widths@, start as int, first, tail as int, width as int) == row_reach(
                widths@,
                start as int,
                end as int,
                tail as int,
                width as int,
            ),
        decreases widths.len() - end,
    {
        let w: u16 = widths[end];
        let next: u16 = if end == start {
            w
        } else {
            reached.saturating_add(BUTTON_GUTTER).saturating_add(w)
        };
        if next.saturating_add(tail) > width {
            return end;
        }
        reached = next;
        end += 1;
    }
    end
}

/// How many buttons from `start` on one row takes.
fn fit_count_in_row(width: u16, widths: &Vec<u16>, start: usize) -> (r: usize)
    requires
        start <= widths@.len(),
    ensures
        r == row_reach(widths@, start as int, start as int, 0, width as int) - start,
{
    fill_row(width, widths, start, false, 0) - start
}

/// The rows that buttons take when each row is filled before the next starts,
/// from button `start` on.
pub open spec fn rows_needed(widths: Seq<u16>, start: int, width: int) -> int
    decreases widths.len() - start,
{
    if start >= widths.len() {
        0
    } else {
        let end = row_reach(widths, start, start + 1, 0, width);
        if end <= start || end > widths.len() {
            0
        } else {
            1 + rows_needed(widths, end, width)
        }
    }
}

/// The rows a dialog sets aside for its actions: none without labels, else as
/// many as the buttons take when each row is filled before the next starts, and
/// at most two.
pub fn stable_action_rows(width: u16, labels: &[&str]) -> (r: u16)
    ensures
        r == least(
            rows_needed(clipped_widths(labels@, width), 0, width as int),
            MAX_ACTION_ROWS as int,
        ),
        r <= MAX_ACTION_ROWS,
        r == 0 <==> labels@.len() == 0,
{
    if labels.len() == 0 {
        return 0;
    }
    let widths = button_widths(labels, width);
    let first: usize = fill_row(width, &widths, 0, true, 0);
    proof {
        reveal_with_fuel(rows_needed, 3);
    }
    if first >= labels.len() {
        1
    } else {
        let ghost second = row_reach(widths@, first as int, first + 1, 0, width as int);
        proof {
            row_reach_bounds(widths@, first as int, first + 1, 0, width as int);
            rows_needed_positive(widths@, second, width as int);
        }
        2
    }
}

proof fn rows_needed_positive(widths: Seq<u16>, start: int, width: int)
    ensures
        rows_needed(widths, start, width) >= 0,
    decreases widths.len() - start,
{
    if start < widths.len() {
        let end = row_reach(widths, start, start + 1, 0, width);
        if start < end <= widths.len() {
            rows_needed_positive(widths, end, width);
        }
    }
}

/// One authoritative plan for an action band: the visible buttons with their
/// label indices in drawn order, the hidden indices in label order for the
/// overflow menu, the place of the menu's button where there is an overflow and
/// room for it, and the default.
#[derive(Debug)]
pub struct ActionGeometry {
    pub band: Rect,
    pub buttons: Vec<(usize, Rect)>,
    pub overflow: Vec<usize>,
    pub more: Option<Rect>,
    pub default: Option<usize>,
}

/// The label indices of placed buttons.
pub open spec fn indices_of(buttons: Seq<(usize, Rect)>) -> Seq<usize> {
    buttons.map_values(|button: (usize, Rect)| button.0)
}

/// The rectangles of placed buttons.
pub open spec fn rects_of(buttons: Seq<(usize, Rect)>) -> Seq<Rect> {
    buttons.map_values(|button: (usize, Rect)| button.1)
}

impl ActionGeometry {
    /// True when trailing actions moved into the overflow menu.
    pub fn needs_more(&self) -> (r: bool)
        ensures
            r == (self.overflow@.len() > 0),
    {
        self.overflow.len() > 0
    }

    /// The visible indices in drawn order.
    pub fn visible_indices(&self) -> (r: Vec<usize>)
        ensures
            r@ == indices_of(self.buttons@),
    {
        let mut out: Vec<usize> = Vec::new();
        let mut i: usize = 0;
        while i < self.buttons.len()
            invariant
                i <= self.buttons@.len(),
                out@ == indices_of(self.buttons@).take(i as int),
            decreases self.buttons.len() - i,
        {
            out.push(self.buttons[i].0);
            i += 1;
            assert(out@ =~= indices_of(self.buttons@).take(i as int));
        }
        assert(indices_of(self.buttons@).take(i as int) =~= indices_of(self.buttons@));
        out
    }
}

/// Which buttons stand in which row of a band, which are left out, and in which
/// row the button of the overflow menu follows.
pub struct ActionShape {
    pub first: Seq<usize>,
    pub second: Seq<usize>,
    pub overflow: Seq<usize>,
    pub more: Option<int>,
}

/// The numbers from one bound up to another.
pub open spec fn span_of(from: int, to: int) -> Seq<usize> {
    Seq::new((if from <= to { to - from } else { 0 }) as nat, |i: int| (from + i) as usize)
}

/// The numbers below a bound but for one.
pub open spec fn all_but(count: int, left_out: int) -> Seq<usize> {
    span_of(0, left_out) + span_of(left_out + 1, count)
}

/// How buttons are spread over a band of one or two rows.
///
/// Where all fit, row after row, all are shown. Else the overflow menu stands
/// behind as many buttons as leave it room in the last row; on a single row the
/// first button is kept in any case. A default that would be left out is shown
/// alone instead, with the menu where there is room for it.
pub open spec fn action_shape(
    widths: Seq<u16>,
    width: int,
    rows: int,
    more_width: int,
    default: Option<usize>,
) -> ActionShape {
    let count = widths.len() as int;
    let tail = BUTTON_GUTTER + more_width;
    let split = row_reach(widths, 0, 0, 0, width);
    let end = if rows == 1 {
        row_reach(widths, 0, 1, tail, width)
    } else {
        row_reach(widths, split, split, tail, width)
    };
    if rows == 1 && split >= count {
        ActionShape { first: span_of(0, count), second: seq![], overflow: seq![], more: None }
    } else if rows != 1 && row_reach(widths, split, split, 0, width) >= count {
        ActionShape {
            first: span_of(0, split),
            second: span_of(split, count),
            overflow: seq![],
            more: None,
        }
    } else if default is Some && default->0 >= end {
        ActionShape {
            first: seq![default->0],
            second: seq![],
            overflow: all_but(count, default->0 as int),
            more: if rows != 1 {
                Some(1)
            } else if sat16(widths[default->0 as int] + tail) <= width {
                Some(0)
            } else {
                None
            },
        }
    } else if rows == 1 {
        ActionShape {
            first: span_of(0, end),
            second: seq![],
            overflow: span_of(end, count),
            more: Some(0),
        }
    } else {
        ActionShape {
            first: span_of(0, split),
            second: span_of(split, end),
            overflow: span_of(end, count),
            more: Some(1),
        }
    }
}

/// Row `k` of a band.
pub open spec fn band_row(band: Rect, k: int) -> Rect {
    Rect { x: band.x, y: (band.y + k) as u16, width: band.width, height: 1 }
}

/// The widths of the buttons of a row, and of the overflow menu's behind them
/// where it stands there.
pub open spec fn row_pieces(widths: Seq<u16>, indices: Seq<usize>, more: Option<u16>) -> Seq<u16> {
    let own = indices.map_values(|i: usize| widths[i as int]);
    match more {
        Some(more_width) => own.push(more_width),
        None => own,
    }
}

/// The rectangles of a row, that of the overflow menu's button last.
pub open spec fn row_rects(rects: Seq<Rect>, more: Option<Rect>) -> Seq<Rect> {
    match more {
        Some(rect) => rects.push(rect),
        None => rects,
    }
}

/// Whether the pieces of a row are placed in it.
pub open spec fn row_is_placed(
    band: Rect,
    k: int,
    widths: Seq<u16>,
    indices: Seq<usize>,
    rects: Seq<Rect>,
    more_width: Option<u16>,
    more: Option<Rect>,
) -> bool {
    row_pieces(widths, indices, more_width).len() > 0 ==> placed_across(
        band_row(band, k),
        row_pieces(widths, indices, more_width),
        BUTTON_GUTTER as int,
        row_rects(rects, more),
    )
}

/// The default of a row where it is one of its buttons.
pub open spec fn default_in(default: Option<usize>, count: int) -> Option<usize> {
    if default is Some && default->0 < count {
        default
    } else {
        None
    }
}

/// The rows of a band that a plan uses.
pub open spec fn plan_rows(band: Rect) -> int {
    least(band.height as int, MAX_ACTION_ROWS as int)
}

/// A geometry shows a band's actions as their shape says, each row placed in
/// its row of the band.
pub open spec fn shows_shape(
    g: ActionGeometry,
    band: Rect,
    widths: Seq<u16>,
    more_width: u16,
    shape: ActionShape,
) -> bool {
    let cut = shape.first.len() as int;
    let rects = rects_of(g.buttons@);
    &&& indices_of(g.buttons@) == shape.first + shape.second
    &&& g.overflow@ == shape.overflow
    &&& g.more is Some <==> shape.more is Some
    &&& row_is_placed(
        band,
        0,
        widths,
        shape.first,
        rects.take(cut),
        if shape.more == Some(0int) { Some(more_width) } else { None },
        if shape.more == Some(0int) { g.more } else { None },
    )
    &&& row_is_placed(
        band,
        1,
        widths,
        shape.second,
        rects.skip(cut),
        if shape.more == Some(1int) { Some(more_width) } else { None },
        if shape.more == Some(1int) { g.more } else { None },
    )
}

/// Copies placed buttons.
pub fn copy_buttons(buttons: &Vec<(usize, Rect)>) -> (r: Vec<(usize, Rect)>)
    ensures
        r@ == buttons@,
{
    let mut out: Vec<(usize, Rect)> = Vec::new();
    let mut i: usize = 0;
    while i < buttons.len()
        invariant
            i <= buttons@.len(),
            out@ =~= buttons@.take(i as int),
        decreases buttons.len() - i,
    {
        out.push(buttons[i]);
        i += 1;
    }
    out
}

/// Places the buttons of one row; a row without cells or buttons places none.
fn place_row_buttons(row: Rect, widths: &Vec<u16>) -> (r: Vec<Rect>)
    ensures
        row.spec_is_empty() || widths@.len() == 0 ==> r@.len() == 0,
        !row.spec_is_empty() && widths@.len() > 0 ==> placed_across(
            row,
            widths@,
            BUTTON_GUTTER as int,
            r@,
        ),
{
    if row.is_empty() || widths.len() == 0 {
        return Vec::new();
    }
    split_lengths(row, Axis::Horizontal, widths.as_slice(), BUTTON_GUTTER)
}

/// The rows of a band, one cell high each.
fn band_rows(band: Rect, count: u16) -> (r: Vec<Rect>)
    requires
        band.valid(),
        1 <= count <= 2,
        count <= band.height,
    ensures
        r@.len() == count,
        forall|k: int| 0 <= k < count ==> r@[k] == band_row(band, k),
{
    let mut lengths: Vec<u16> = Vec::new();
    lengths.push(1);
    if count == 2 {
        lengths.push(1);
    }
    proof {
        reveal_with_fuel(run_offset, 4);
    }
    split_lengths(band, Axis::Vertical, lengths.as_slice(), 0)
}

/// Lists the widths of a row: those of its buttons in order, and that of the
/// overflow menu's button behind them where it stands there.
pub fn pieces_of_row(widths: &Vec<u16>, indices: &Vec<usize>, more: Option<u16>) -> (r: Vec<u16>)
    requires
        forall|i: int| 0 <= i < indices@.len() ==> #[trigger] indices@[i] < widths@.len(),
    ensures
        r@ == row_pieces(widths@, indices@, more),
{
    let mut pieces: Vec<u16> = Vec::new();
    let mut i: usize = 0;
    let ghost own = indices@.map_values(|i: usize| widths@[i as int]);
    while i < indices.len()
        invariant
            i <= indices@.len(),
            forall|i: int| 0 <= i < indices@.len() ==> #[trigger] indices@[i] < widths@.len(),
            own == indices@.map_values(|i: usize| widths@[i as int]),
            pieces@ == own.take(i as int),
        decreases indices.len() - i,
    {
        pieces.push(widths[indices[i]]);
        i += 1;
        assert(pieces@ =~= own.take(i as int));
    }
    assert(own.take(i as int) =~= own);
    if let Some(width) = more {
        pieces.push(width);
    }
    pieces
}

/// The rectangles of one row's buttons, and of the overflow menu's button
/// behind them where it stands in the row.
fn place_row(band: Rect, row: Rect, k: Ghost<int>, widths: &Vec<u16>, indices: &Vec<usize>, more: Option<u16>) -> (r: (
    Vec<Rect>,
    Option<Rect>,
))
    requires
        row == band_row(band, k@),
        band.width > 0,
        forall|i: int| 0 <= i < indices@.len() ==> #[trigger] indices@[i] < widths@.len(),
    ensures
        r.0@.len() == indices@.len(),
        r.1 is Some <==> more is Some,
        row_is_placed(band, k@, widths@, indices@, r.0@, more, r.1),
{
    let pieces = pieces_of_row(widths, indices, more);
    let mut rects = place_row_buttons(row, &pieces);
    let ghost placed = rects@;
    let more_rect = if more.is_some() {
        rects.pop()
    } else {
        None
    };
    assert(row_rects(rects@, more_rect) =~= placed);
    (rects, more_rect)
}

pub(crate) fn numbers(from: usize, to: usize) -> (r: Vec<usize>)
    ensures
        r@ == span_of(from as int, to as int),
{
    let mut out: Vec<usize> = Vec::new();
    let mut i: usize = from;
    while i < to
        invariant
            from <= i,
            from <= to ==> i <= to,
            from > to ==> i == from,
            out@ == span_of(from as int, i as int),
        decreases to - i,
    {
        out.push(i);
        i += 1;
        assert(out@ =~= span_of(from as int, i as int));
    }
    assert(out@ =~= span_of(from as int, to as int));
    out
}

/// Pairs indices with their rectangles at the end of a list of buttons.
fn extend_buttons(buttons: &mut Vec<(usize, Rect)>, indices: &Vec<usize>, rects: &Vec<Rect>)
    requires
        indices@.len() == rects@.len(),
    ensures
        indices_of(final(buttons)@) == indices_of(old(buttons)@) + indices@,
        rects_of(final(buttons)@) == rects_of(old(buttons)@) + rects@,
{
    let ghost before = buttons@;
    let mut i: usize = 0;
    while i < indices.len()
        invariant
            i <= indices@.len(),
            indices@.len() == rects@.len(),
            indices_of(buttons@) == indices_of(before) + indices@.take(i as int),
            rects_of(buttons@) == rects_of(before) + rects@.take(i as int),
        decreases indices.len() - i,
    {
        let ghost then_buttons = buttons@;
        buttons.push((indices[i], rects[i]));
        assert(indices_of(buttons@) =~= indices_of(then_buttons).push(indices@[i as int]));
        assert(rects_of(buttons@) =~= rects_of(then_buttons).push(rects@[i as int]));
        i += 1;
        assert(indices_of(buttons@) =~= indices_of(before) + indices@.take(i as int));
        assert(rects_of(buttons@) =~= rects_of(before) + rects@.take(i as int));
    }
    assert(indices@.take(i as int) =~= indices@);
    assert(rects@.take(i as int) =~= rects@);
}

/// The shape of a band's actions, as [`action_shape`] says.
struct ShapeParts {
    first: Vec<usize>,
    second: Vec<usize>,
    overflow: Vec<usize>,
    more: Option<u16>,
}

impl ShapeParts {
    spec fn shape(self) -> ActionShape {
        ActionShape {
            first: self.first@,
            second: self.second@,
            overflow: self.overflow@,
            more: match self.more {
                Some(row) => Some(row as int),
                None => None,
            },
        }
    }
}

fn shape_actions(
    widths: &Vec<u16>,
    width: u16,
    rows: u16,
    more_width: u16,
    default: Option<usize>,
) -> (r: ShapeParts)
    requires
        widths@.len() > 0,
        1 <= rows <= 2,
        default matches Some(d) ==> d < widths@.len(),
        forall|i: int| 0 <= i < widths@.len() ==> widths@[i] <= width,
    ensures
        r.shape() == action_shape(widths@, width as int, rows as int, more_width as int, default),
{
    let count: usize = widths.len();
    let tail: u16 = BUTTON_GUTTER.saturating_add(more_width);
    let ghost w = width as int;
    let ghost whole_tail = BUTTON_GUTTER + more_width;
    proof {
        saturated_tail(widths@, 0, 1, whole_tail, w);
    }
    let split: usize = fit_count_in_row(width, widths, 0);
    proof {
        row_reach_bounds(widths@, 0, 0, 0, w);
        saturated_tail(widths@, split as int, split as int, whole_tail, w);
    }
    if rows == 1 {
        if split >= count {
            return ShapeParts {
                first: numbers(0, count),
                second: Vec::new(),
                overflow: Vec::new(),
                more: None,
            };
        }
    } else {
        let second: usize = fit_count_in_row(width, widths, split);
        proof {
            row_reach_bounds(widths@, split as int, split as int, 0, w);
        }
        if split + second >= count {
            return ShapeParts {
                first: numbers(0, split),
                second: numbers(split, count),
                overflow: Vec::new(),
                more: None,
            };
        }
    }
    let end: usize = if rows == 1 {
        fill_row(width, widths, 0, true, tail)
    } else {
        fill_row(width, widths, split, false, tail)
    };
    if let Some(d) = default {
        if d >= end {
            let mut overflow = numbers(0, d);
            let mut behind = numbers(d + 1, count);
            overflow.append(&mut behind);
            let mut first: Vec<usize> = Vec::new();
            first.push(d);
            let more: Option<u16> = if rows != 1 {
                Some(1)
            } else if widths[d].saturating_add(tail) <= width {
                Some(0)
            } else {
                None
            };
            let parts = ShapeParts { first, second: Vec::new(), overflow, more };
            assert(parts.shape().first =~= seq![d]);
            return parts;
        }
    }
    if rows == 1 {
        ShapeParts {
            first: numbers(0, end),
            second: Vec::new(),
            overflow: numbers(end, count),
            more: Some(0),
        }
    } else {
        ShapeParts {
            first: numbers(0, split),
            second: numbers(split, end),
            overflow: numbers(end, count),
            more: Some(1),
        }
    }
}

/// A tail past the last coordinate leaves room for as little as one that ends
/// there.
proof fn saturated_tail(widths: Seq<u16>, start: int, end: int, tail: int, width: int)
    requires
        tail >= 0,
        end <= widths.len(),
    ensures
        row_reach(widths, start, end, sat16(tail), width) == row_reach(widths, start, end, tail, width),
    decreases widths.len() - end,
{
    row_end_is_column(widths, start, end + 1);
    if end < widths.len() && sat16(row_end(widths, start, end + 1) + tail) <= width {
        saturated_tail(widths, start, end + 1, tail, width);
    }
}

proof fn row_end_is_column(widths: Seq<u16>, start: int, end: int)
    ensures
        0 <= row_end(widths, start, end) <= 65535,
    decreases end - start,
{
    if end > start + 1 {
        row_end_is_column(widths, start, end - 1);
    }
}

/// A plan of actions shows or hides each action and never both, in label order
/// in either list; there is an overflow menu only where something is hidden; and
/// a default stays visible.
pub proof fn shape_partitions(
    widths: Seq<u16>,
    width: int,
    rows: int,
    more_width: int,
    default: Option<usize>,
)
    requires
        widths.len() > 0,
        widths.len() <= usize::MAX,
        1 <= rows <= 2,
        more_width >= 0,
        forall|i: int| 0 <= i < widths.len() ==> widths[i] <= width,
        default matches Some(d) ==> d < widths.len(),
    ensures
        ({
            let shape = action_shape(widths, width, rows, more_width, default);
            let visible = shape.first + shape.second;
            &&& visible.len() > 0
            &&& visible.len() + shape.overflow.len() == widths.len()
            &&& forall|i: usize|
                i < widths.len() ==> (visible.contains(i) <==> !shape.overflow.contains(i))
            &&& forall|a: int, b: int| 0 <= a < b < visible.len() ==> visible[a] < visible[b]
            &&& forall|a: int, b: int|
                0 <= a < b < shape.overflow.len() ==> shape.overflow[a] < shape.overflow[b]
            &&& forall|a: int| 0 <= a < visible.len() ==> visible[a] < widths.len()
            &&& forall|a: int| 0 <= a < shape.overflow.len() ==> shape.overflow[a] < widths.len()
            &&& default matches Some(d) ==> visible.contains(d)
            &&& shape.more is Some ==> shape.overflow.len() > 0
        }),
{
    let count = widths.len() as int;
    let tail = BUTTON_GUTTER + more_width;
    let split = row_reach(widths, 0, 0, 0, width);
    row_reach_bounds(widths, 0, 0, 0, width);
    row_reach_bounds(widths, 0, 1, 0, width);
    row_reach_bounds(widths, 0, 1, tail, width);
    row_reach_bounds(widths, split, split, tail, width);
    row_reach_bounds(widths, split, split, 0, width);
    tail_shortens_row(widths, 0, 1, tail, width);
    tail_shortens_row(widths, split, split, tail, width);
    assert(row_end(widths, 0, 1) == widths[0]);
    assert(split == row_reach(widths, 0, 1, 0, width));
    let shape = action_shape(widths, width, rows, more_width, default);
    let visible = shape.first + shape.second;
    assert forall|i: usize| i < widths.len() implies (visible.contains(i)
        <==> !shape.overflow.contains(i)) by {
        if visible.len() == 1 && default is Some && visible[0] == default->0 && shape.overflow
            == all_but(count, default->0 as int) {
            let d = default->0 as int;
            if i < d {
                assert(shape.overflow[i as int] == i);
            } else if i > d {
                assert(shape.overflow[i - 1] == i);
            } else {
                assert(visible[0] == i);
            }
        } else {
            let end = visible.len() as int;
            if i < end {
                assert(visible[i as int] == i);
            } else {
                assert(shape.overflow[i - end] == i);
            }
        }
    }
    if default is Some {
        let d = default->0;
        if visible.len() == 1 && visible[0] == d {
            assert(visible[0] == d);
        } else {
            assert(visible[d as int] == d);
        }
    }
}

/// Plans labels into a band of up to two rows with a stable default and an
/// overflow menu.
pub fn plan_actions(
    band: Rect,
    labels: &[&str],
    default: Option<usize>,
    _focused: Option<usize>,
) -> (r: ActionGeometry)
    requires
        band.valid(),
    ensures
        is_plan(r, band, labels@, default),
        r.band == band,
        r.default == default_in(default, labels@.len() as int),
        band.spec_is_empty() || labels@.len() == 0 ==> {
            &&& r.buttons@.len() == 0
            &&& r.overflow@ == span_of(0, labels@.len() as int)
            &&& r.more is None
        },
        !band.spec_is_empty() && labels@.len() > 0 ==> {
            let widths = clipped_widths(labels@, band.width);
            let more_width = least(button_columns(MORE_LABEL@), band.width as int);
            &&& shows_shape(
                r,
                band,
                widths,
                more_width as u16,
                action_shape(
                    widths,
                    band.width as int,
                    plan_rows(band),
                    more_width,
                    default_in(default, labels@.len() as int),
                ),
            )
            &&& default matches Some(d) ==> d < labels@.len() ==> indices_of(r.buttons@).contains(d)
            &&& r.overflow@.len() == 0 <==> rows_needed(widths, 0, band.width as int) <= plan_rows(
                band,
            )
        },
        forall|i: usize|
            i < labels@.len() ==> (indices_of(r.buttons@).contains(i) <==> !r.overflow@.contains(i)),
{
    let valid_default: Option<usize> = match default {
        Some(index) => if index < labels.len() {
            Some(index)
        } else {
            None
        },
        None => None,
    };
    if band.is_empty() || labels.len() == 0 {
        let overflow = numbers(0, labels.len());
        assert forall|i: usize| i < labels@.len() implies overflow@.contains(i) by {
            assert(overflow@[i as int] == i);
        }
        return ActionGeometry {
            band,
            buttons: Vec::new(),
            overflow,
            more: None,
            default: valid_default,
        };
    }
    let widths = button_widths(labels, band.width);
    let more_width: u16 = min16(button_width(MORE_LABEL), band.width);
    let rows: u16 = min16(band.height, MAX_ACTION_ROWS);
    let row_rects = band_rows(band, rows);
    let parts = shape_actions(&widths, band.width, rows, more_width, valid_default);
    let ghost shape = parts.shape();
    proof {
        assert(labels@.len() == labels.len());
        shape_partitions(widths@, band.width as int, rows as int, more_width as int, valid_default);
        measuring_and_placing_agree(
            widths@,
            band.width as int,
            rows as int,
            more_width as int,
            valid_default,
        );
        let visible = shape.first + shape.second;
        assert(forall|i: int|
            0 <= i < shape.first.len() ==> visible[i] == #[trigger] shape.first[i]);
        assert(forall|i: int|
            0 <= i < shape.second.len() ==> visible[shape.first.len() + i]
                == #[trigger] shape.second[i]);
    }
    let more_first: Option<u16> = if parts.more == Some(0u16) {
        Some(more_width)
    } else {
        None
    };
    let (first_rects, first_more) = place_row(
        band,
        row_rects[0],
        Ghost(0int),
        &widths,
        &parts.first,
        more_first,
    );
    let mut buttons: Vec<(usize, Rect)> = Vec::new();
    assert(indices_of(buttons@) =~= Seq::<usize>::empty());
    assert(rects_of(buttons@) =~= Seq::<Rect>::empty());
    extend_buttons(&mut buttons, &parts.first, &first_rects);
    let mut more: Option<Rect> = first_more;
    let ghost cut = parts.first@.len() as int;
    if rows == 2 {
        let more_second: Option<u16> = if parts.more == Some(1u16) {
            Some(more_width)
        } else {
            None
        };
        let (second_rects, second_more) = place_row(
            band,
            row_rects[1],
            Ghost(1int),
            &widths,
            &parts.second,
            more_second,
        );
        extend_buttons(&mut buttons, &parts.second, &second_rects);
        if second_more.is_some() {
            more = second_more;
        }
        assert(rects_of(buttons@).skip(cut) =~= second_rects@);
    }
    assert(rects_of(buttons@).take(cut) =~= first_rects@);
    assert(indices_of(buttons@) =~= shape.first + shape.second);
    ActionGeometry { band, buttons, overflow: parts.overflow, more, default: valid_default }
}

/// A row ends no further right with fewer buttons behind it, nor with fewer
/// before it.
proof fn row_end_grows(widths: Seq<u16>, start: int, later: int, end: int)
    requires
        0 <= start <= later <= end <= widths.len(),
    ensures
        row_end(widths, start, later) <= row_end(widths, start, end),
        row_end(widths, later, end) <= row_end(widths, start, end),
    decreases end - start,
{
    row_end_is_column(widths, start, end - 1);
    row_end_is_column(widths, start, end);
    row_end_is_column(widths, later, end);
    if later < end {
        row_end_grows(widths, start, later, end - 1);
    }
}

/// A row reaches as far as the buttons fit in it.
proof fn fitting_row_is_reached(widths: Seq<u16>, start: int, from: int, end: int, width: int)
    requires
        0 <= start <= from <= end <= widths.len(),
        row_end(widths, start, end) <= width,
    ensures
        end <= row_reach(widths, start, from, 0, width),
    decreases end - from,
{
    row_reach_bounds(widths, start, from, 0, width);
    if from < end {
        row_end_grows(widths, start, from + 1, end);
        row_end_is_column(widths, start, from + 1);
        fitting_row_is_reached(widths, start, from + 1, end, width);
    }
}

/// Where the buttons fit, the first of them in one row and the rest in the next
/// where there is a next, all are shown in order and there is no overflow menu.
pub proof fn fitting_actions_are_shown(
    widths: Seq<u16>,
    width: int,
    rows: int,
    more_width: int,
    default: Option<usize>,
    cut: int,
)
    requires
        1 <= rows <= 2,
        0 <= cut <= widths.len(),
        rows == 1 ==> cut == widths.len(),
        row_end(widths, 0, cut) <= width,
        row_end(widths, cut, widths.len() as int) <= width,
    ensures
        ({
            let shape = action_shape(widths, width, rows, more_width, default);
            &&& shape.first + shape.second == span_of(0, widths.len() as int)
            &&& shape.overflow.len() == 0
            &&& shape.more is None
        }),
{
    let count = widths.len() as int;
    let split = row_reach(widths, 0, 0, 0, width);
    row_reach_bounds(widths, 0, 0, 0, width);
    fitting_row_is_reached(widths, 0, 0, cut, width);
    row_end_grows(widths, cut, split, count);
    fitting_row_is_reached(widths, split, split, count, width);
    let shape = action_shape(widths, width, rows, more_width, default);
    assert(shape.first + shape.second =~= span_of(0, count));
}

/// Measuring and placing agree: nothing is hidden in a band if and only if the
/// rows that the buttons take are no more than the band has. In a band of one
/// row, that is where they take one row.
pub proof fn measuring_and_placing_agree(
    widths: Seq<u16>,
    width: int,
    rows: int,
    more_width: int,
    default: Option<usize>,
)
    requires
        widths.len() > 0,
        1 <= rows <= 2,
        more_width >= 0,
        forall|i: int| 0 <= i < widths.len() ==> widths[i] <= width,
        default matches Some(d) ==> d < widths.len(),
    ensures
        action_shape(widths, width, rows, more_width, default).overflow.len() == 0 <==> rows_needed(
            widths,
            0,
            width,
        ) <= rows,
        rows_needed(widths, 0, width) >= 1,
{
    let count = widths.len() as int;
    let tail = BUTTON_GUTTER + more_width;
    let split = row_reach(widths, 0, 0, 0, width);
    row_reach_bounds(widths, 0, 0, 0, width);
    row_reach_bounds(widths, 0, 1, 0, width);
    row_reach_bounds(widths, 0, 1, tail, width);
    row_reach_bounds(widths, split, split, tail, width);
    row_reach_bounds(widths, split, split, 0, width);
    tail_shortens_row(widths, 0, 1, tail, width);
    tail_shortens_row(widths, split, split, tail, width);
    assert(row_end(widths, 0, 1) == widths[0]);
    assert(split == row_reach(widths, 0, 1, 0, width));
    reveal_with_fuel(rows_needed, 4);
    if split < count {
        let second = row_reach(widths, split, split, 0, width);
        assert(row_end(widths, split, split + 1) == widths[split]);
        assert(second == row_reach(widths, split, split + 1, 0, width));
        row_reach_bounds(widths, split, split + 1, 0, width);
        rows_needed_positive(widths, split, width);
        rows_needed_positive(widths, second, width);
        if second < count {
            let third = row_reach(widths, second, second + 1, 0, width);
            row_reach_bounds(widths, second, second + 1, 0, width);
            rows_needed_positive(widths, third, width);
        }
    }
}

/// The shape of a plan for a band that has cells, by the widths of its buttons.
pub open spec fn planned_shape(band: Rect, labels: Seq<&str>, default: Option<usize>) -> ActionShape {
    action_shape(
        clipped_widths(labels, band.width),
        band.width as int,
        plan_rows(band),
        least(button_columns(MORE_LABEL@), band.width as int),
        default_in(default, labels.len() as int),
    )
}

/// A geometry is a plan of a band's actions.
pub open spec fn is_plan(
    g: ActionGeometry,
    band: Rect,
    labels: Seq<&str>,
    default: Option<usize>,
) -> bool {
    &&& g.band == band
    &&& g.default == default_in(default, labels.len() as int)
    &&& if band.spec_is_empty() || labels.len() == 0 {
        g.buttons@.len() == 0 && g.overflow@ == span_of(0, labels.len() as int) && g.more is None
    } else {
        shows_shape(
            g,
            band,
            clipped_widths(labels, band.width),
            least(button_columns(MORE_LABEL@), band.width as int) as u16,
            planned_shape(band, labels, default),
        )
    }
}

/// The buttons of each row of a plan, and the overflow menu's where it stands
/// there, fit beside one another.
pub open spec fn plan_fits(band: Rect, labels: Seq<&str>, default: Option<usize>) -> bool {
    let widths = clipped_widths(labels, band.width);
    let more = least(button_columns(MORE_LABEL@), band.width as int) as u16;
    let shape = planned_shape(band, labels, default);
    let first = if shape.more == Some(0int) {
        Some(more)
    } else {
        None
    };
    let second = if shape.more == Some(1int) {
        Some(more)
    } else {
        None
    };
    &&& run_fits(row_pieces(widths, shape.first, first), BUTTON_GUTTER as int, band.width as int)
    &&& run_fits(row_pieces(widths, shape.second, second), BUTTON_GUTTER as int, band.width as int)
}

/// The focus has no part in a plan: two plans of the same actions in the same
/// band show and hide the same ones, have the same default and both or neither
/// the overflow menu; and where their rows fit they are the same, cell by cell.
pub proof fn plan_does_not_depend_on_the_focus(
    a: ActionGeometry,
    b: ActionGeometry,
    band: Rect,
    labels: Seq<&str>,
    default: Option<usize>,
)
    requires
        band.valid(),
        is_plan(a, band, labels, default),
        is_plan(b, band, labels, default),
    ensures
        indices_of(a.buttons@) == indices_of(b.buttons@),
        a.overflow@ == b.overflow@,
        a.default == b.default,
        a.more is Some <==> b.more is Some,
        plan_fits(band, labels, default) ==> a.buttons@ == b.buttons@ && a.more == b.more,
{
    if band.spec_is_empty() || labels.len() == 0 {
        assert(a.buttons@ =~= b.buttons@);
    } else {
        let shape = planned_shape(band, labels, default);
        let cut = shape.first.len() as int;
        let all = shape.first + shape.second;
        assert(indices_of(a.buttons@).len() == a.buttons@.len());
        assert(indices_of(b.buttons@).len() == b.buttons@.len());
        if plan_fits(band, labels, default) {
            rows_are_placed_alike(a, b, band, labels, default);
            assert(rects_of(a.buttons@) =~= rects_of(a.buttons@).take(cut) + rects_of(
                a.buttons@,
            ).skip(cut));
            assert(rects_of(b.buttons@) =~= rects_of(b.buttons@).take(cut) + rects_of(
                b.buttons@,
            ).skip(cut));
            assert forall|i: int| 0 <= i < a.buttons@.len() implies a.buttons@[i]
                == b.buttons@[i] by {
                assert(indices_of(a.buttons@)[i] == indices_of(b.buttons@)[i]);
                assert(rects_of(a.buttons@)[i] == rects_of(b.buttons@)[i]);
            }
            assert(a.buttons@ =~= b.buttons@);
        }
    }
}

/// Pieces that fit are placed in one way.
proof fn placed_once(row: Rect, lengths: Seq<u16>, gap: int, a: Seq<Rect>, b: Seq<Rect>)
    requires
        placed_across(row, lengths, gap, a),
        placed_across(row, lengths, gap, b),
        run_fits(lengths, gap, row.spec_right() - row.x),
    ensures
        a == b,
{
    assert forall|i: int| 0 <= i < a.len() implies a[i] == b[i] by {
        assert(a[i].x == b[i].x);
        assert(a[i].width == b[i].width);
    }
    assert(a =~= b);
}

proof fn rows_are_placed_alike(
    a: ActionGeometry,
    b: ActionGeometry,
    band: Rect,
    labels: Seq<&str>,
    default: Option<usize>,
)
    requires
        band.valid(),
        !band.spec_is_empty(),
        labels.len() > 0,
        is_plan(a, band, labels, default),
        is_plan(b, band, labels, default),
        plan_fits(band, labels, default),
    ensures
        ({
            let cut = planned_shape(band, labels, default).first.len() as int;
            &&& rects_of(a.buttons@).take(cut) == rects_of(b.buttons@).take(cut)
            &&& rects_of(a.buttons@).skip(cut) == rects_of(b.buttons@).skip(cut)
            &&& a.more == b.more
        }),
{
    let widths = clipped_widths(labels, band.width);
    let more = least(button_columns(MORE_LABEL@), band.width as int) as u16;
    let shape = planned_shape(band, labels, default);
    let cut = shape.first.len() as int;
    let ra = rects_of(a.buttons@);
    let rb = rects_of(b.buttons@);
    assert(indices_of(a.buttons@).len() == ra.len());
    assert(indices_of(b.buttons@).len() == rb.len());
    let m0 = shape.more == Some(0int);
    let m1 = shape.more == Some(1int);
    let p0 = row_pieces(widths, shape.first, if m0 { Some(more) } else { None });
    let p1 = row_pieces(widths, shape.second, if m1 { Some(more) } else { None });
    let a0 = row_rects(ra.take(cut), if m0 { a.more } else { None });
    let b0 = row_rects(rb.take(cut), if m0 { b.more } else { None });
    let a1 = row_rects(ra.skip(cut), if m1 { a.more } else { None });
    let b1 = row_rects(rb.skip(cut), if m1 { b.more } else { None });
    if p0.len() > 0 {
        placed_once(band_row(band, 0), p0, BUTTON_GUTTER as int, a0, b0);
    }
    if p1.len() > 0 {
        placed_once(band_row(band, 1), p1, BUTTON_GUTTER as int, a1, b1);
    }
    assert(a0 =~= b0);
    assert(a1 =~= b1);
    if m0 {
        assert(a0.drop_last() =~= ra.take(cut));
        assert(b0.drop_last() =~= rb.take(cut));
        assert(a0.last() == b0.last());
    }
    if m1 {
        assert(a1.drop_last() =~= ra.skip(cut));
        assert(b1.drop_last() =~= rb.skip(cut));
        assert(a1.last() == b1.last());
    }
}

/// Every rectangle of a plan, that of the overflow menu's button included, lies
/// in the band.
pub proof fn plan_stays_in_band(
    g: ActionGeometry,
    band: Rect,
    widths: Seq<u16>,
    more_width: u16,
    default: Option<usize>,
)
    requires
        band.valid(),
        !band.spec_is_empty(),
        shows_shape(
            g,
            band,
            widths,
            more_width,
            action_shape(widths, band.width as int, plan_rows(band), more_width as int, default),
        ),
    ensures
        forall|i: int| 0 <= i < g.buttons@.len() ==> (#[trigger] g.buttons@[i]).1.within(band),
        g.more matches Some(rect) ==> rect.within(band),
{
    let shape = action_shape(
        widths,
        band.width as int,
        plan_rows(band),
        more_width as int,
        default,
    );
    let cut = shape.first.len() as int;
    let rects = rects_of(g.buttons@);
    let more_0 = if shape.more == Some(0int) { g.more } else { None };
    let more_1 = if shape.more == Some(1int) { g.more } else { None };
    let all_0 = row_rects(rects.take(cut), more_0);
    let all_1 = row_rects(rects.skip(cut), more_1);
    assert(indices_of(g.buttons@).len() == g.buttons@.len());
    assert forall|i: int| 0 <= i < g.buttons@.len() implies (#[trigger] g.buttons@[i]).1.within(
        band,
    ) by {
        if i < cut {
            assert(all_0[i] == g.buttons@[i].1);
        } else {
            assert(all_1[i - cut] == g.buttons@[i].1);
        }
    }
    if g.more is Some {
        if shape.more == Some(0int) {
            assert(all_0[all_0.len() - 1] == g.more->0);
        } else {
            assert(all_1[all_1.len() - 1] == g.more->0);
        }
    }
}

} // verus!
