//! What a frame is made of: a list of things to draw, in the order in which they
//! are drawn. Drawing them is left to whoever owns the terminal.

use crate::component::MessageState;
use crate::geometry::Rect;
use crate::style::{line_view, Span, Style};
use crate::text::texts;
use vstd::prelude::*;

verus! {

/// How a text that is too long for its area is cut.
#[derive(Clone, Copy, Debug, PartialEq, Eq, Structural)]
pub enum Fit {
    /// It is drawn as far as the area goes.
    Whole,
    /// It ends in an ellipsis.
    Truncated,
    /// It ends with the last character that fits.
    Clipped,
}

/// A thing to draw.
#[derive(Debug)]
pub enum Paint {
    /// The dialog's own frame, with its title.
    Frame { title: String },
    Text { area: Rect, text: String, style: Style, fit: Fit, right: bool },
    /// A text that goes on in the next row, from one of its rows on.
    Wrapped { area: Rect, text: String, style: Style, first: usize },
    /// A line in several styles.
    Spans { area: Rect, spans: Vec<Span> },
    /// A background.
    Fill { area: Rect, style: Style },
    /// A background with nothing on it.
    Clear { area: Rect },
    Border { area: Rect, style: Style },
    Button { area: Rect, label: String, style: Style },
    Message { area: Rect, state: MessageState, text: String },
    Help { area: Rect, text: String },
    Scrollbar { area: Rect, first: usize, limit: usize },
    /// A row of buttons: which Enter presses, and which has the focus.
    Actions {
        area: Rect,
        labels: Vec<String>,
        default: Option<usize>,
        focused: Option<usize>,
    },
    /// The segments of a header: which is active, and whether it has the focus.
    Segments { area: Rect, active: usize, focused: Option<usize> },
    /// A choice between a few kinds.
    Radio { area: Rect, active: usize, focused: Option<usize> },
    /// A labelled field, and the place of its caret.
    Field {
        area: Rect,
        label_width: u16,
        label: String,
        value: String,
        placeholder: String,
        has_focus: bool,
        caret: Option<usize>,
    },
    /// A field without a label, and the place of its caret.
    Input { area: Rect, value: String, place: usize },
    /// The cell that the next character goes to, and how it is filled.
    Caret { column: u16, row: u16, style: Style },
}

/// A thing to draw, by what it shows.
pub enum Drawn {
    Frame { title: Seq<char> },
    Text { area: Rect, text: Seq<char>, style: Style, fit: Fit, right: bool },
    Wrapped { area: Rect, text: Seq<char>, style: Style, first: usize },
    Spans { area: Rect, spans: Seq<(Seq<char>, Style)> },
    Fill { area: Rect, style: Style },
    Clear { area: Rect },
    Border { area: Rect, style: Style },
    Button { area: Rect, label: Seq<char>, style: Style },
    Message { area: Rect, state: MessageState, text: Seq<char> },
    Help { area: Rect, text: Seq<char> },
    Scrollbar { area: Rect, first: usize, limit: usize },
    Actions {
        area: Rect,
        labels: Seq<Seq<char>>,
        default: Option<usize>,
        focused: Option<usize>,
    },
    Segments { area: Rect, active: usize, focused: Option<usize> },
    Radio { area: Rect, active: usize, focused: Option<usize> },
    Field {
        area: Rect,
        label_width: u16,
        label: Seq<char>,
        value: Seq<char>,
        placeholder: Seq<char>,
        has_focus: bool,
        caret: Option<usize>,
    },
    Input { area: Rect, value: Seq<char>, place: usize },
    Caret { column: u16, row: u16, style: Style },
}

/// What a thing to draw shows.
pub open spec fn drawn(paint: Paint) -> Drawn {
    match paint {
        Paint::Frame { title } => Drawn::Frame { title: title@ },
        Paint::Text { area, text, style, fit, right } => Drawn::Text {
            area,
            text: text@,
            style,
            fit,
            right,
        },
        Paint::Wrapped { area, text, style, first } => Drawn::Wrapped {
            area,
            text: text@,
            style,
            first,
        },
        Paint::Spans { area, spans } => Drawn::Spans { area, spans: line_view(spans@) },
        Paint::Fill { area, style } => Drawn::Fill { area, style },
        Paint::Clear { area } => Drawn::Clear { area },
        Paint::Border { area, style } => Drawn::Border { area, style },
        Paint::Button { area, label, style } => Drawn::Button { area, label: label@, style },
        Paint::Message { area, state, text } => Drawn::Message { area, state, text: text@ },
        Paint::Help { area, text } => Drawn::Help { area, text: text@ },
        Paint::Scrollbar { area, first, limit } => Drawn::Scrollbar { area, first, limit },
        Paint::Actions { area, labels, default, focused } => Drawn::Actions {
            area,
            labels: texts(labels@),
            default,
            focused,
        },
        Paint::Segments { area, active, focused } => Drawn::Segments { area, active, focused },
        Paint::Radio { area, active, focused } => Drawn::Radio { area, active, focused },
        Paint::Field { area, label_width, label, value, placeholder, has_focus, caret } =>
            Drawn::Field {
            area,
            label_width,
            label: label@,
            value: value@,
            placeholder: placeholder@,
            has_focus,
            caret,
        },
        Paint::Input { area, value, place } => Drawn::Input { area, value: value@, place },
        Paint::Caret { column, row, style } => Drawn::Caret { column, row, style },
    }
}

/// What a list of things to draw shows.
pub open spec fn picture(paints: Seq<Paint>) -> Seq<Drawn> {
    paints.map_values(|paint: Paint| drawn(paint))
}

/// A text in one row, drawn from the left.
pub open spec fn text_at(area: Rect, text: Seq<char>, style: Style, fit: Fit) -> Drawn {
    Drawn::Text { area, text, style, fit, right: false }
}

/// A thing, where it is drawn.
pub open spec fn if_drawn(there: bool, thing: Drawn) -> Seq<Drawn> {
    if there {
        seq![thing]
    } else {
        seq![]
    }
}

/// The scroll bar, where there is one.
pub open spec fn bar_if(bar: Option<Rect>, first: usize, limit: usize) -> Seq<Drawn> {
    match bar {
        Some(area) => seq![Drawn::Scrollbar { area, first, limit }],
        None => seq![],
    }
}

/// Adds a thing to draw.
pub fn put(out: &mut Vec<Paint>, paint: Paint)
    ensures
        picture(final(out)@) == picture(old(out)@) + seq![drawn(paint)],
{
    let ghost before = out@;
    let ghost thing = drawn(paint);
    out.push(paint);
    assert(picture(out@) =~= picture(before) + seq![thing]);
}

/// Adds a text.
pub fn put_text(out: &mut Vec<Paint>, area: Rect, text: String, style: Style, fit: Fit)
    ensures
        picture(final(out)@) == picture(old(out)@) + seq![text_at(area, text@, style, fit)],
{
    put(out, Paint::Text { area, text, style, fit, right: false });
}

/// Adds a scroll bar, where there is one.
pub fn put_bar(out: &mut Vec<Paint>, bar: Option<Rect>, first: usize, limit: usize)
    ensures
        picture(final(out)@) == picture(old(out)@) + bar_if(bar, first, limit),
{
    let ghost before = picture(out@);
    if let Some(area) = bar {
        put(out, Paint::Scrollbar { area, first, limit });
    }
    assert(picture(out@) =~= before + bar_if(bar, first, limit));
}

impl Drawn {
    /// The cells of a thing that has a place of its own.
    pub open spec fn area(self) -> Option<Rect> {
        match self {
            Drawn::Frame { .. } => None,
            Drawn::Text { area, .. } => Some(area),
            Drawn::Wrapped { area, .. } => Some(area),
            Drawn::Spans { area, .. } => Some(area),
            Drawn::Fill { area, .. } => Some(area),
            Drawn::Clear { area } => Some(area),
            Drawn::Border { area, .. } => Some(area),
            Drawn::Button { area, .. } => Some(area),
            Drawn::Message { area, .. } => Some(area),
            Drawn::Help { area, .. } => Some(area),
            Drawn::Scrollbar { area, .. } => Some(area),
            Drawn::Actions { area, .. } => Some(area),
            Drawn::Segments { area, .. } => Some(area),
            Drawn::Radio { area, .. } => Some(area),
            Drawn::Field { area, .. } => Some(area),
            Drawn::Input { area, .. } => Some(area),
            Drawn::Caret { .. } => None,
        }
    }

    /// The thing is drawn from the first cell of a place on, no wider than that.
    pub open spec fn is_on(self, place: Rect) -> bool {
        self.area() matches Some(area) && area.x == place.x && area.y == place.y && area.width
            <= place.width
    }
}

/// Something is drawn on a place.
pub open spec fn shows(things: Seq<Drawn>, place: Rect) -> bool {
    exists|i: int| 0 <= i < things.len() && (#[trigger] things[i]).is_on(place)
}

/// Something is drawn on each of the places.
pub open spec fn all_shown<T>(things: Seq<Drawn>, places: Seq<(Rect, T)>) -> bool {
    forall|i: int| 0 <= i < places.len() ==> shows(things, (#[trigger] places[i]).0)
}

/// What is drawn on a place stays there whatever else is drawn.
pub proof fn shown_among(before: Seq<Drawn>, things: Seq<Drawn>, after: Seq<Drawn>, place: Rect)
    requires
        shows(things, place),
    ensures
        shows(before + things + after, place),
{
    let i = choose|i: int| 0 <= i < things.len() && (#[trigger] things[i]).is_on(place);
    assert((before + things + after)[before.len() + i] == things[i]);
}

/// The same of several places.
pub proof fn all_shown_among<T>(
    before: Seq<Drawn>,
    things: Seq<Drawn>,
    after: Seq<Drawn>,
    places: Seq<(Rect, T)>,
)
    requires
        all_shown(things, places),
    ensures
        all_shown(before + things + after, places),
{
    assert forall|i: int| 0 <= i < places.len() implies shows(
        before + things + after,
        (#[trigger] places[i]).0,
    ) by {
        shown_among(before, things, after, places[i].0);
    }
}

/// The same where the things stand in a picture from one of its places on.
pub proof fn shown_inside<T>(
    all: Seq<Drawn>,
    things: Seq<Drawn>,
    at: int,
    places: Seq<(Rect, T)>,
)
    requires
        all_shown(things, places),
        0 <= at,
        at + things.len() <= all.len(),
        forall|i: int| 0 <= i < things.len() ==> #[trigger] all[at + i] == things[i],
    ensures
        all_shown(all, places),
{
    assert forall|i: int| 0 <= i < places.len() implies shows(all, (#[trigger] places[i]).0) by {
        let place = places[i].0;
        let j = choose|j: int| 0 <= j < things.len() && (#[trigger] things[j]).is_on(place);
        assert(all[at + j] == things[j]);
    }
}

/// Two pictures show the places of both.
pub proof fn shown_together<T>(
    things: Seq<Drawn>,
    places: Seq<(Rect, T)>,
    others: Seq<Drawn>,
    more: Seq<(Rect, T)>,
)
    requires
        all_shown(things, places),
        all_shown(others, more),
    ensures
        all_shown(things + others, places + more),
{
    let none = Seq::<Drawn>::empty();
    all_shown_among(none, things, others, places);
    assert(none + things + others =~= things + others);
    all_shown_among(things, others, none, more);
    assert(things + others + none =~= things + others);
    assert forall|i: int| 0 <= i < (places + more).len() implies shows(
        things + others,
        (#[trigger] (places + more)[i]).0,
    ) by {
        if i < places.len() {
            assert((places + more)[i] == places[i]);
        } else {
            assert((places + more)[i] == more[i - places.len()]);
        }
    }
}

/// One more thing shows the place it is drawn on.
pub proof fn shown_next<T>(
    things: Seq<Drawn>,
    places: Seq<(Rect, T)>,
    others: Seq<Drawn>,
    next: (Rect, T),
)
    requires
        all_shown(things, places),
        others.len() > 0,
        others[0].is_on(next.0),
    ensures
        all_shown(things + others, places.push(next)),
{
    assert(shows(others, next.0));
    shown_together(things, places, others, seq![next]);
    assert(places + seq![next] =~= places.push(next));
}

/// A thing is a text in an area.
pub open spec fn is_text(thing: Drawn, place: Rect, words: Seq<char>) -> bool {
    thing matches Drawn::Text { area, text, .. } && area == place && text == words
}

/// What is put on the screen is shown as it was put: a text in its area, a button
/// under its label, and a message in its state.
pub proof fn things_are_shown_as_put(
    area: Rect,
    text: String,
    style: Style,
    fit: Fit,
    state: MessageState,
)
    ensures
        is_text(drawn(Paint::Text { area, text, style, fit, right: false }), area, text@),
        drawn(Paint::Button { area, label: text, style }) == (Drawn::Button {
            area,
            label: text@,
            style,
        }),
        drawn(Paint::Message { area, state, text }) == (Drawn::Message { area, state, text: text@ }),
{
}

} // verus!
