//! What holds of labels, buttons and their rows.

use super::{
    button_spans, flowed_button, is_flow, label_key, label_mark, label_text, mark_is_drawn, pen_at,
    pen_before, presses_button, role_look, ButtonRole,
};
use crate::geometry::Rect;
use crate::input::{KeyEvent, KeyEventKind};
use crate::style::{Style, Theme};
use crate::text::lowered;
use vstd::prelude::*;

verus! {

/// A label without a marker is drawn as it is and marks no letter.
pub proof fn plain_label_is_drawn_as_it_is(label: Seq<char>)
    requires
        !label.contains('&'),
    ensures
        label_text(label) == label,
        label_key(label) is None,
    decreases label.len(),
{
    if label.len() == 0 {
        assert(label_text(label) =~= label);
    } else {
        assert(label[0] != '&');
        let rest = label.skip(1);
        assert forall|i: int| 0 <= i < rest.len() implies rest[i] != '&' by {
            assert(rest[i] == label[i + 1]);
        }
        plain_label_is_drawn_as_it_is(rest);
        assert(seq![label[0]] + rest =~= label);
    }
}

/// A marker is not drawn, and the letter behind it presses the button, in either
/// case.
pub proof fn marked_letter_presses_the_button(lead: Seq<char>, letter: char, tail: Seq<char>)
    requires
        !lead.contains('&'),
        letter != '&',
        !tail.contains('&'),
    ensures
        label_text(lead + seq!['&', letter] + tail) == lead + seq![letter] + tail,
        label_mark(lead + seq!['&', letter] + tail) == Some((lowered(letter), lead.len() as int)),
        label_key(lead + seq!['&', letter] + tail) == Some(lowered(letter)),
    decreases lead.len(),
{
    let label = lead + seq!['&', letter] + tail;
    if lead.len() == 0 {
        assert(label[0] == '&' && label[1] == letter);
        assert(label.skip(1) =~= seq![letter] + tail);
        let rest = seq![letter] + tail;
        assert forall|i: int| 0 <= i < rest.len() implies rest[i] != '&' by {
            if i > 0 {
                assert(rest[i] == tail[i - 1]);
            }
        }
        plain_label_is_drawn_as_it_is(rest);
        assert(lead + seq![letter] + tail =~= rest);
    } else {
        let rest = lead.skip(1);
        assert(label[0] == lead[0]);
        assert(lead[0] != '&');
        assert forall|i: int| 0 <= i < rest.len() implies rest[i] != '&' by {
            assert(rest[i] == lead[i + 1]);
        }
        marked_letter_presses_the_button(rest, letter, tail);
        assert(label.skip(1) =~= rest + seq!['&', letter] + tail);
        assert(seq![lead[0]] + (rest + seq![letter] + tail) =~= lead + seq![letter] + tail);
    }
}

/// Two markers are drawn as one ampersand and mark nothing.
pub proof fn doubled_marker_is_an_ampersand(lead: Seq<char>, tail: Seq<char>)
    requires
        !lead.contains('&'),
        !tail.contains('&'),
    ensures
        label_text(lead + seq!['&', '&'] + tail) == lead + seq!['&'] + tail,
        label_key(lead + seq!['&', '&'] + tail) is None,
    decreases lead.len(),
{
    let label = lead + seq!['&', '&'] + tail;
    if lead.len() == 0 {
        assert(label[0] == '&' && label[1] == '&');
        assert(label.skip(2) =~= tail);
        plain_label_is_drawn_as_it_is(tail);
        assert(lead + seq!['&'] + tail =~= seq!['&'] + tail);
    } else {
        let rest = lead.skip(1);
        assert(label[0] == lead[0]);
        assert(lead[0] != '&');
        assert forall|i: int| 0 <= i < rest.len() implies rest[i] != '&' by {
            assert(rest[i] == lead[i + 1]);
        }
        doubled_marker_is_an_ampersand(rest, tail);
        assert(label.skip(1) =~= rest + seq!['&', '&'] + tail);
        assert(seq![lead[0]] + (rest + seq!['&'] + tail) =~= lead + seq!['&'] + tail);
    }
}

/// The spans of a button, one after another, are its label between brackets; the
/// marked letter alone is underlined.
pub proof fn spans_make_the_button(label: Seq<char>, style: Style)
    requires
        !style.underlined,
    ensures
        ({
            let spans = button_spans(label, style);
            &&& label_mark(label) is None ==> spans.len() == 1 && spans[0] == (
                "[ "@ + label_text(label) + " ]"@,
                style,
            )
            &&& label_mark(label) matches Some((_, place)) ==> {
                &&& spans.len() == 3
                &&& spans[0].0 + spans[1].0 + spans[2].0 == "[ "@ + label_text(label) + " ]"@
                &&& spans[1].0 == seq![label_text(label)[place]]
                &&& spans[1].1 == (Style { underlined: true, ..style })
                &&& spans[0].1 == style && spans[2].1 == style
            }
        }),
{
    mark_is_drawn(label);
    if let Some((_, place)) = label_mark(label) {
        let text = label_text(label);
        assert("[ "@ + text.take(place) + seq![text[place]] + (text.skip(place + 1) + " ]"@)
            =~= "[ "@ + text + " ]"@);
    }
}

/// Only a character key that goes down presses a button: with Alt anywhere, and
/// without it where no text is typed.
pub proof fn letters_press_buttons(key: KeyEvent, text_focus: bool)
    ensures
        presses_button(key, text_focus) <==> key.kind != KeyEventKind::Release && key.code is Char
            && (key.modifiers.alt || !text_focus && !key.modifiers.control && !key.modifiers.other),
{
}

/// The look of a button: in the colours of a selection where it has the focus, in
/// those of an error where it destroys, filled with the accent where it is the
/// default.
pub proof fn button_looks_like_its_role(theme: Theme, role: ButtonRole, focused: bool)
    ensures
        ({
            let look = role_look(theme, role, focused);
            &&& focused ==> look.bg == Some(theme.selection_bg) && look.fg == Some(
                theme.readable.selection_on_selection,
            ) && look.bold
            &&& !focused && role == ButtonRole::Default ==> look.bg == Some(theme.accent)
                && look.bold
            &&& !focused && role == ButtonRole::Destructive ==> look.fg == Some(
                theme.readable.error_on_dialog,
            ) && look.bg == Some(theme.dialog_bg) && !look.bold
            &&& !focused && role == ButtonRole::Normal ==> look.fg == Some(
                theme.readable.base_on_dialog,
            ) && look.bg == Some(theme.dialog_bg) && !look.bold
        }),
{
}

/// Buttons that flow into an area stand in their order: each as wide as it is
/// measured, the next one two columns behind it or first in the row below, and
/// all of them in the area.
pub proof fn flow_keeps_its_order(
    widths: Seq<u16>,
    target: Rect,
    limit: int,
    out: Seq<(usize, Rect)>,
    i: int,
)
    requires
        is_flow(widths, target, limit, out),
        limit <= widths.len() <= usize::MAX,
        target.x + target.width + 2 <= 65535,
        target.y + target.height <= 65535,
        forall|k: int| 0 <= k < widths.len() ==> 0 < #[trigger] widths[k] <= target.width,
        0 <= i < out.len(),
        target.height > 0,
    ensures
        ({
            let here = out[i].1;
            &&& out[i].0 == i
            &&& here.width == widths[i]
            &&& here.height == 1
            &&& target.x <= here.x && here.x + here.width <= target.x + target.width
            &&& target.y <= here.y < target.y + target.height
            &&& i == 0 ==> here.x == target.x && here.y == target.y
            &&& i > 0 ==> {
                let before = out[i - 1].1;
                ||| here.y == before.y && here.x == before.x + before.width + 2
                ||| here.y == before.y + 1 && here.x == target.x && before.x + before.width + 2
                    + here.width > target.x + target.width
            }
        }),
    decreases i,
{
    assert(out[i] == flowed_button(widths, target, i));
    assert(0 < widths[i] <= target.width);
    let (x, y) = pen_at(widths, target, i);
    pen_is_on_the_screen(widths, target, i);
    assert(y < target.spec_bottom());
    if i == 0 {
        assert((x, y) == (target.x as int, target.y as int));
    } else {
        flow_keeps_its_order(widths, target, limit, out, i - 1);
        assert(out[i - 1] == flowed_button(widths, target, i - 1));
        let (left, top) = pen_at(widths, target, i - 1);
        pen_is_on_the_screen(widths, target, i - 1);
        let before = out[i - 1].1;
        assert(before.x == left && before.y == top);
        assert(pen_before(widths, target, i) == (left + widths[i - 1] + 2, top));
        assert(left + widths[i - 1] + 2 != target.x);
        assert(x == left + widths[i - 1] + 2 && y == top || x == target.x && y == top + 1);
    }
    assert(target.x <= x && x + widths[i] <= target.x + target.width);
    assert(out[i].1 == Rect::spec_new(x as u16, y as u16, widths[i], 1));
}

proof fn pen_is_on_the_screen(widths: Seq<u16>, target: Rect, n: int)
    requires
        0 <= n < widths.len(),
    ensures
        0 <= pen_before(widths, target, n).0 <= 65535,
        0 <= pen_before(widths, target, n).1 <= 65535,
        0 <= pen_at(widths, target, n).0 <= 65535,
        0 <= pen_at(widths, target, n).1 <= 65535,
    decreases n,
{
    if n > 0 {
        pen_is_on_the_screen(widths, target, n - 1);
    }
}

} // verus!
