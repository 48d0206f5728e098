//! What holds of the Settings layer as a whole.

use super::{
    focus_order, Appearance, AppearanceModel, Carets, ContextModel, FormModel, SETTINGS_QUEUE_LIMIT,
    SettingsAsk, SettingsContext, SettingsControl, SettingsDialogState, SettingsField,
    SettingsGeometry, SettingsHit, SettingsInput, SettingsModel, SettingsRead, SettingsRequest,
    SettingsStatus, SettingsValues, SettingsWorld, ValuesModel,
};
use crate::component::{distinct_item_is_found, ring_goes_round, EditCommand, Outcome, Step};
use crate::input::{KeyCode, KeyEvent, KeyEventKind, MouseEventKind};
use crate::text::unsigned;
use crate::components::time::laws::zone_is_in_its_row;
use vstd::prelude::*;

verus! {

/// Dismissing the layer shows the settings in effect again, whatever was
/// previewed.
pub proof fn dismissal_rolls_back(w: SettingsWorld)
    requires
        w.d.form is Some,
        w.d.form->0.dropdown is None,
    ensures
        w.dismissed().0.a == w.d.form->0.context.effective(),
        w.dismissed().0.d.form is None,
        !w.dismissed().0.d.open,
        w.dismissed().1 == Step::Done(Outcome::Close),
{
}

/// An open list is closed by a dismissal, and the layer stays.
pub proof fn lists_close_first(w: SettingsWorld)
    requires
        w.d.form is Some,
        w.d.form->0.dropdown is Some,
    ensures
        w.dismissed().0.d.form is Some,
        w.dismissed().0.d.form->0.dropdown is None,
        w.dismissed().0.d.open == w.d.open,
        w.dismissed().0.a == w.a,
{
}

/// A zone that the shell may draw with: one that was in effect, one of the list,
/// one that was found to be valid, or one that was drawn with before.
pub open spec fn zone_is_safe(
    zone: Seq<char>,
    w: SettingsWorld,
    read: SettingsRead,
) -> bool {
    ||| zone == w.a.display_zone
    ||| read.zones.contains(zone)
    ||| w.d.form is Some && zone == w.d.form->0.last_valid_zone
    ||| w.d.form is Some && read.zone_error is None && zone == w.d.form->0.draft.display_zone
    ||| w.d.form is Some && zone == w.d.form->0.context.effective_display_zone
}

/// Turning a toggle or picking from a list never lets the draft of a zone that
/// is not one reach what the shell draws with.
pub proof fn invalid_zone_is_not_previewed(w: SettingsWorld, index: int, read: SettingsRead)
    requires
        index >= 0,
    ensures
        zone_is_safe(w.cycled(read).a.display_zone, w, read),
        zone_is_safe(w.activated(read).a.display_zone, w, read),
        zone_is_safe(w.chosen(index, read).a.display_zone, w, read),
{
}

/// Editing a zone into one that is not keeps what the shell draws with, keeps
/// the zone it last knew, and shows what is wrong.
pub proof fn invalid_zone_stays_a_draft(
    w: SettingsWorld,
    value: Seq<char>,
    cursor: usize,
    error: Seq<char>,
)
    requires
        w.d.form is Some,
        w.d.form->0.focus == SettingsControl::Field(SettingsField::DisplayZone),
    ensures
        ({
            let after = w.edited(value, cursor, true, Some(error));
            &&& after.a == w.a
            &&& after.d.form is Some
            &&& after.d.form->0.draft.display_zone == value
            &&& after.d.form->0.last_valid_zone == w.d.form->0.last_valid_zone
            &&& after.d.form->0.status == error
            &&& after.d.form->0.status_kind == SettingsStatus::Error
        }),
{
}

/// A draft whose zone is not one is never sent off to be saved.
pub proof fn invalid_zone_is_not_saved(w: SettingsWorld, error: Seq<char>)
    ensures
        w.saved(Some(error)).d.queue == w.d.queue,
{
}

/// A save is sent off once: asking again while it is under way sends nothing.
pub proof fn save_is_sent_once(w: SettingsWorld)
    requires
        w.d.form is Some,
        !w.d.form->0.saving,
        w.d.queue.items.len() < SETTINGS_QUEUE_LIMIT,
        w.d.queue.cap >= SETTINGS_QUEUE_LIMIT,
    ensures
        w.saved(None).d.queue.items == w.d.queue.items.push(
            SettingsAsk {
                generation: w.d.form->0.generation as u64,
                values: w.d.form->0.draft,
            },
        ),
        w.saved(None).saved(None).d.queue == w.saved(None).d.queue,
{
}

/// The completion of an older save leaves a newer draft as it is, and shows that
/// draft rather than what was saved.
pub proof fn older_save_keeps_newer_draft(
    before: SettingsModel,
    generation: int,
    context: ContextModel,
)
    requires
        before.form is Some,
        before.form->0.generation != generation,
    ensures
        ({
            let (after, shown, notice) = before.save_completed(generation, context);
            &&& after.form == Some(FormModel { context, ..before.form->0 })
            &&& shown == before.form->0.draft.preview(before.form->0.last_valid_zone)
            &&& notice is Some
        }),
{
}

/// A failure of an older save is left to the shell.
pub proof fn older_failure_is_not_shown(before: SettingsModel, generation: int, error: Seq<char>)
    requires
        before.form is None || before.form->0.generation != generation,
    ensures
        before.save_failed(generation, error) == (before, false),
{
}

/// Each dialog has a generation of its own.
pub proof fn generations_grow(before: SettingsModel, zones: Seq<Seq<char>>)
    requires
        before.context is Some,
        before.next_generation < u64::MAX,
    ensures
        ({
            let once = before.opened(zones, before.geometry);
            let twice = once.opened(zones, before.geometry);
            once.form->0.generation < twice.form->0.generation
        }),
{
}

/// A toggle turned twice is as it was, and so is what it previews.
pub proof fn toggles_turn_back(values: ValuesModel, field: SettingsField)
    ensures
        values.toggled(field).toggled(field) == values,
{
}

/// While a list is open, no key but Enter changes what the shell draws with, and
/// none changes the draft but by taking a row.
pub proof fn open_list_owns_keys(w: SettingsWorld, key: KeyEvent, read: SettingsRead)
    requires
        w.d.form is Some,
        w.d.form->0.dropdown is Some,
        key.code != crate::input::KeyCode::Enter,
    ensures
        w.after_key(key, read).0.a == w.a,
        w.after_key(key, read).0.d.form is Some,
        w.after_key(key, read).0.d.form->0.draft == w.d.form->0.draft,
        w.after_key(key, read).0.d.form->0.focus == w.d.form->0.focus,
{
}

/// A field that holds text: neither the theme nor a toggle.
pub open spec fn is_typed_into(field: SettingsField) -> bool {
    match field {
        SettingsField::Theme
        | SettingsField::Delight
        | SettingsField::ReducedMotion
        | SettingsField::Ascii => false,
        _ => true,
    }
}

/// A text stands in one setting, and every other setting is as it was.
pub open spec fn only_text_changed(
    before: ValuesModel,
    after: ValuesModel,
    field: SettingsField,
    value: Seq<char>,
) -> bool {
    &&& after.provider == if field == SettingsField::Provider {
        value
    } else {
        before.provider
    }
    &&& after.mode == if field == SettingsField::Mode {
        value
    } else {
        before.mode
    }
    &&& after.thinking == if field == SettingsField::Thinking {
        value
    } else {
        before.thinking
    }
    &&& after.display_zone == if field == SettingsField::DisplayZone {
        value
    } else {
        before.display_zone
    }
    &&& after.rows_mib == if field == SettingsField::RowCache {
        value
    } else {
        before.rows_mib
    }
    &&& after.membership_mib == if field == SettingsField::Membership {
        value
    } else {
        before.membership_mib
    }
    &&& after.disk_total_mib == if field == SettingsField::DiskTotal {
        value
    } else {
        before.disk_total_mib
    }
    &&& after.index_per_source_mib == if field == SettingsField::IndexPerSource {
        value
    } else {
        before.index_per_source_mib
    }
    &&& after.theme == before.theme
    &&& after.delight_enabled == before.delight_enabled
    &&& after.reduced_motion == before.reduced_motion
    &&& after.ascii == before.ascii
}

/// A caret stands in one field, and every other caret is as it was.
pub open spec fn only_caret_moved(
    before: Carets,
    after: Carets,
    field: SettingsField,
    cursor: usize,
) -> bool {
    &&& after.provider == if field == SettingsField::Provider {
        Some(cursor)
    } else {
        before.provider
    }
    &&& after.mode == if field == SettingsField::Mode {
        Some(cursor)
    } else {
        before.mode
    }
    &&& after.thinking == if field == SettingsField::Thinking {
        Some(cursor)
    } else {
        before.thinking
    }
    &&& after.display_zone == if field == SettingsField::DisplayZone {
        Some(cursor)
    } else {
        before.display_zone
    }
    &&& after.rows == if field == SettingsField::RowCache {
        Some(cursor)
    } else {
        before.rows
    }
    &&& after.membership == if field == SettingsField::Membership {
        Some(cursor)
    } else {
        before.membership
    }
    &&& after.disk_total == if field == SettingsField::DiskTotal {
        Some(cursor)
    } else {
        before.disk_total
    }
    &&& after.per_source == if field == SettingsField::IndexPerSource {
        Some(cursor)
    } else {
        before.per_source
    }
}

/// An edit lands in the field that has the focus, and in no other: its text is
/// what was typed and its caret where the edit left it. What was saved, what is
/// under way and what waits stay as they are.
pub proof fn edit_lands_in_its_field(
    w: SettingsWorld,
    field: SettingsField,
    value: Seq<char>,
    cursor: usize,
    zone_error: Option<Seq<char>>,
)
    requires
        w.d.form is Some,
        w.d.form->0.focus == SettingsControl::Field(field),
        is_typed_into(field),
    ensures
        ({
            let before = w.d.form->0;
            let after = w.edited(value, cursor, true, zone_error);
            &&& after.d.form is Some
            &&& only_text_changed(before.draft, after.d.form->0.draft, field, value)
            &&& only_caret_moved(w.d.cursors, after.d.cursors, field, cursor)
            &&& after.d.form->0.context == before.context
            &&& after.d.form->0.focus == before.focus
            &&& after.d.form->0.saving == before.saving
            &&& after.d.form->0.generation == before.generation
            &&& after.d.form->0.status_kind == if field == SettingsField::DisplayZone && zone_error
                is Some {
                SettingsStatus::Error
            } else {
                SettingsStatus::Pending
            }
            &&& after.d.queue == w.d.queue
            &&& after.d.context == w.d.context
            &&& after.d.open == w.d.open
        }),
{
}

/// An edit that changes no text moves the caret of its field and nothing else.
pub proof fn moving_the_caret_changes_no_setting(
    w: SettingsWorld,
    field: SettingsField,
    value: Seq<char>,
    cursor: usize,
    zone_error: Option<Seq<char>>,
)
    requires
        w.d.form is Some,
        w.d.form->0.focus == SettingsControl::Field(field),
        is_typed_into(field),
    ensures
        ({
            let after = w.edited(value, cursor, false, zone_error);
            &&& after.a == w.a
            &&& after.d.form == w.d.form
            &&& only_caret_moved(w.d.cursors, after.d.cursors, field, cursor)
            &&& after.d.queue == w.d.queue
        }),
{
}

/// Where no text field has the focus, an edit changes nothing.
pub proof fn edit_needs_a_text_field(
    w: SettingsWorld,
    value: Seq<char>,
    cursor: usize,
    changed: bool,
    zone_error: Option<Seq<char>>,
)
    requires
        w.d.form matches Some(form) ==> match form.focus {
            SettingsControl::Field(field) => !is_typed_into(field),
            _ => true,
        },
    ensures
        w.edited(value, cursor, changed, zone_error) == w,
{
}

/// The text that is shown and edited in a field is that of its own setting, and
/// so is its caret.
pub proof fn field_shows_its_setting(values: ValuesModel, carets: Carets)
    ensures
        values.text(SettingsField::Provider) == values.provider,
        values.text(SettingsField::Mode) == values.mode,
        values.text(SettingsField::Thinking) == values.thinking,
        values.text(SettingsField::DisplayZone) == values.display_zone,
        values.text(SettingsField::RowCache) == values.rows_mib,
        values.text(SettingsField::Membership) == values.membership_mib,
        values.text(SettingsField::DiskTotal) == values.disk_total_mib,
        values.text(SettingsField::IndexPerSource) == values.index_per_source_mib,
        carets.of(SettingsField::Provider) == carets.provider,
        carets.of(SettingsField::Mode) == carets.mode,
        carets.of(SettingsField::Thinking) == carets.thinking,
        carets.of(SettingsField::DisplayZone) == carets.display_zone,
        carets.of(SettingsField::RowCache) == carets.rows,
        carets.of(SettingsField::Membership) == carets.membership,
        carets.of(SettingsField::DiskTotal) == carets.disk_total,
        carets.of(SettingsField::IndexPerSource) == carets.per_source,
{
}

/// A zone that is one is previewed while it is typed, and an edit of any other
/// field leaves what is drawn with as it is.
pub proof fn typed_zone_is_previewed(
    w: SettingsWorld,
    field: SettingsField,
    value: Seq<char>,
    cursor: usize,
)
    requires
        w.d.form is Some,
        w.d.form->0.focus == SettingsControl::Field(field),
        is_typed_into(field),
    ensures
        ({
            let after = w.edited(value, cursor, true, None);
            &&& after.a.theme == w.a.theme
            &&& after.a.delight_enabled == w.a.delight_enabled
            &&& after.a.reduced_motion == w.a.reduced_motion
            &&& after.a.ascii == w.a.ascii
            &&& field == SettingsField::DisplayZone ==> after.a.display_zone == value
                && after.d.form->0.last_valid_zone == value
            &&& field != SettingsField::DisplayZone ==> after.a.display_zone == w.a.display_zone
                && after.d.form->0.last_valid_zone == w.d.form->0.last_valid_zone
        }),
{
}

/// What settings look like on the screen, in a given zone.
pub open spec fn looks_like(a: AppearanceModel, values: ValuesModel, zone: Seq<char>) -> bool {
    &&& a.theme == values.theme
    &&& a.delight_enabled == values.delight_enabled
    &&& a.reduced_motion == values.reduced_motion
    &&& a.ascii == values.ascii
    &&& a.display_zone == zone
}

/// The settings in effect, as they look on the screen.
pub open spec fn looks_as_in_effect(a: AppearanceModel, context: ContextModel) -> bool {
    &&& a.theme == context.effective_theme
    &&& a.delight_enabled == context.effective_delight_enabled
    &&& a.reduced_motion == context.effective_reduced_motion
    &&& a.ascii == context.effective_ascii
    &&& a.display_zone == context.effective_display_zone
}

/// Space or Enter on a toggle turns that setting and no other, and shows it at
/// once.
pub proof fn toggle_turns_its_own_setting(
    w: SettingsWorld,
    field: SettingsField,
    key: KeyEvent,
    read: SettingsRead,
)
    requires
        w.d.form is Some,
        w.d.form->0.focus == SettingsControl::Field(field),
        w.d.form->0.dropdown is None,
        field == SettingsField::Delight || field == SettingsField::ReducedMotion || field
            == SettingsField::Ascii,
        key.kind == KeyEventKind::Press || key.kind == KeyEventKind::Repeat,
        key.code == KeyCode::Char(' ') || key.code == KeyCode::Enter,
    ensures
        ({
            let form = w.d.form->0;
            let (after, step) = w.after_key(key, read);
            let draft = after.d.form->0.draft;
            &&& step == Step::Done(Outcome::Consumed)
            &&& after.d.form is Some
            &&& draft.delight_enabled == (form.draft.delight_enabled != (field
                == SettingsField::Delight))
            &&& draft.reduced_motion == (form.draft.reduced_motion != (field
                == SettingsField::ReducedMotion))
            &&& draft.ascii == (form.draft.ascii != (field == SettingsField::Ascii))
            &&& draft == (ValuesModel {
                delight_enabled: draft.delight_enabled,
                reduced_motion: draft.reduced_motion,
                ascii: draft.ascii,
                ..form.draft
            })
            &&& looks_like(
                after.a,
                draft,
                if read.zone_error is None {
                    form.draft.display_zone
                } else {
                    form.last_valid_zone
                },
            )
            &&& after.d.form->0.status_kind == SettingsStatus::Pending
            &&& after.d.form->0.focus == form.focus
            &&& after.d.queue == w.d.queue
        }),
{
}

/// A theme that is picked is the one in its row: it is drafted and shown, the
/// list closes, and no other setting changes.
pub proof fn picked_theme_is_drafted(w: SettingsWorld, row: int, read: SettingsRead)
    requires
        w.d.form is Some,
        w.d.form->0.dropdown == Some(SettingsField::Theme),
        0 <= row < read.themes <= usize::MAX,
    ensures
        ({
            let form = w.d.form->0;
            let after = w.chosen(row, read);
            &&& after.d.form->0.draft.theme.index == row
            &&& after.d.form->0.draft == (ValuesModel {
                theme: after.d.form->0.draft.theme,
                ..form.draft
            })
            &&& after.a.theme.index == row
            &&& after.a == (AppearanceModel { theme: after.a.theme, ..w.a })
            &&& after.d.form->0.dropdown is None
            &&& after.d.form->0.last_valid_zone == form.last_valid_zone
            &&& after.d.form->0.status_kind == SettingsStatus::Pending
            &&& after.d.queue == w.d.queue
        }),
{
}

/// A zone that is picked is the one in its row: it is drafted, shown and known
/// to be good, and the zone is no longer typed.
pub proof fn picked_zone_is_drafted(w: SettingsWorld, row: int, read: SettingsRead)
    requires
        w.d.form is Some,
        w.d.form->0.dropdown == Some(SettingsField::DisplayZone),
        0 <= row < read.zones.len(),
    ensures
        ({
            let form = w.d.form->0;
            let after = w.chosen(row, read);
            &&& only_text_changed(
                form.draft,
                after.d.form->0.draft,
                SettingsField::DisplayZone,
                read.zones[row],
            )
            &&& after.a.display_zone == read.zones[row]
            &&& after.a == (AppearanceModel { display_zone: read.zones[row], ..w.a })
            &&& after.d.form->0.last_valid_zone == read.zones[row]
            &&& !after.d.form->0.zone_custom
            &&& after.d.form->0.dropdown is None
            &&& after.d.form->0.status_kind == SettingsStatus::Pending
            &&& after.d.queue == w.d.queue
        }),
{
}

/// The row behind the zones lets a zone be typed: one that is no preset is kept
/// to be edited, a preset makes room, and what is drawn with does not change.
pub proof fn custom_zone_is_typed(w: SettingsWorld, read: SettingsRead)
    requires
        w.d.form is Some,
        w.d.form->0.dropdown == Some(SettingsField::DisplayZone),
    ensures
        ({
            let form = w.d.form->0;
            let after = w.chosen(read.zones.len() as int, read);
            let zone = after.d.form->0.draft.display_zone;
            &&& after.d.form->0.zone_custom
            &&& after.d.form->0.dropdown is None
            &&& read.zones.contains(form.draft.display_zone) ==> zone.len() == 0
            &&& !read.zones.contains(form.draft.display_zone) ==> zone == form.draft.display_zone
            &&& only_text_changed(
                form.draft,
                after.d.form->0.draft,
                SettingsField::DisplayZone,
                zone,
            )
            &&& after.a == w.a
            &&& after.d.form->0.last_valid_zone == form.last_valid_zone
            &&& after.d.queue == w.d.queue
        }),
{
}

/// A list opens on the row that is set, and Enter on that row keeps the setting.
pub proof fn list_opens_on_what_is_set(
    w: SettingsWorld,
    field: SettingsField,
    key: KeyEvent,
    read: SettingsRead,
)
    requires
        w.d.form is Some,
        w.d.form->0.focus == SettingsControl::Field(field),
        w.d.form->0.dropdown is None,
        key.kind == KeyEventKind::Press || key.kind == KeyEventKind::Repeat,
        key.code == KeyCode::Enter,
        field == SettingsField::Theme && w.d.form->0.draft.theme.index < read.themes || field
            == SettingsField::DisplayZone && !w.d.form->0.zone_custom && read.zones.contains(
            w.d.form->0.draft.display_zone,
        ),
    ensures
        ({
            let form = w.d.form->0;
            let opened = w.after_key(key, read).0;
            let taken = opened.after_key(key, read).0;
            &&& opened.d.form->0.dropdown == Some(field)
            &&& opened.d.form->0.draft == form.draft
            &&& opened.a == w.a
            &&& opened.d.queue == w.d.queue
            &&& field == SettingsField::Theme ==> opened.d.form->0.choice_selected
                == form.draft.theme.index
            &&& field == SettingsField::DisplayZone ==> {
                let row = opened.d.form->0.choice_selected;
                0 <= row < read.zones.len() && read.zones[row] == form.draft.display_zone
            }
            &&& taken.d.form->0.dropdown is None
            &&& taken.d.form->0.draft == form.draft
        }),
{
    let form = w.d.form->0;
    if field == SettingsField::DisplayZone {
        let k = choose|k: int| 0 <= k < read.zones.len() && read.zones[k] == form.draft.display_zone;
        zone_is_in_its_row(read.zones, form.draft.display_zone, k, 0);
    }
}

/// Up and Down go from row to row of an open list and round its ends, and Enter
/// takes the row that is selected.
pub proof fn list_rows_are_walked(w: SettingsWorld, key: KeyEvent, read: SettingsRead)
    requires
        w.d.form is Some,
        w.d.form->0.dropdown == Some(SettingsField::Theme) || w.d.form->0.dropdown == Some(
            SettingsField::DisplayZone,
        ),
        key.kind == KeyEventKind::Press || key.kind == KeyEventKind::Repeat,
        read.themes > 0,
        0 <= w.d.form->0.choice_selected < if w.d.form->0.dropdown == Some(SettingsField::Theme) {
            read.themes
        } else {
            read.zones.len() as int + 1
        },
    ensures
        ({
            let form = w.d.form->0;
            let rows = if form.dropdown == Some(SettingsField::Theme) {
                read.themes
            } else {
                read.zones.len() as int + 1
            };
            let at = form.choice_selected;
            let after = w.after_key(key, read).0;
            &&& key.code == KeyCode::Down ==> after.d.form->0.choice_selected == if at + 1 < rows {
                at + 1
            } else {
                0
            }
            &&& key.code == KeyCode::Up ==> after.d.form->0.choice_selected == if at > 0 {
                at - 1
            } else {
                rows - 1
            }
            &&& key.code == KeyCode::Enter ==> after == w.chosen(at, read)
        }),
{
    let rows = if w.d.form->0.dropdown == Some(SettingsField::Theme) {
        read.themes
    } else {
        read.zones.len() as int + 1
    };
    let at = w.d.form->0.choice_selected;
    ring_goes_round(at, rows);
}

/// Saving, by Enter on Save or in a text field, sends off exactly the draft with
/// the generation of the dialog, behind what waits already, and nothing of what
/// was typed changes.
pub proof fn save_sends_the_draft(w: SettingsWorld, key: KeyEvent, read: SettingsRead)
    requires
        w.d.form is Some,
        w.d.form->0.dropdown is None,
        match w.d.form->0.focus {
            SettingsControl::Save => true,
            SettingsControl::More => false,
            SettingsControl::Field(field) => is_typed_into(field) && (field
                == SettingsField::DisplayZone ==> w.d.form->0.zone_custom),
        },
        !w.d.form->0.saving,
        0 <= w.d.form->0.generation <= u64::MAX,
        read.zone_error is None,
        w.d.queue.items.len() < 2 <= w.d.queue.cap,
        key.kind == KeyEventKind::Press || key.kind == KeyEventKind::Repeat,
        key.code == KeyCode::Enter,
    ensures
        ({
            let form = w.d.form->0;
            let (after, step) = w.after_key(key, read);
            let sent = after.d.queue.items.last();
            &&& step == Step::Done(Outcome::Consumed)
            &&& after.d.queue.items.len() == w.d.queue.items.len() + 1
            &&& after.d.queue.items.drop_last() == w.d.queue.items
            &&& sent.values == form.draft
            &&& sent.generation == form.generation
            &&& after.d.form->0.draft == form.draft
            &&& after.d.form->0.saving
            &&& after.d.form->0.generation == form.generation
            &&& after.d.form->0.status_kind == SettingsStatus::Pending
            &&& after.a == w.a
        }),
{
    assert(w.saved(None).d.queue.items.drop_last() =~= w.d.queue.items);
}

/// With two saves waiting no further one is sent, and the draft is kept with an
/// error.
pub proof fn full_queue_keeps_the_draft(w: SettingsWorld)
    requires
        w.d.form is Some,
        !w.d.form->0.saving,
        w.d.queue.items.len() >= 2,
    ensures
        ({
            let after = w.saved(None);
            &&& after.d.queue == w.d.queue
            &&& after.a == w.a
            &&& after.d.form->0.draft == w.d.form->0.draft
            &&& !after.d.form->0.saving
            &&& after.d.form->0.status_kind == SettingsStatus::Error
        }),
{
}

/// The layer opens on the settings that are saved, with the first field in focus
/// and nothing under way. The zone is typed where it is none of the list.
pub proof fn opening_drafts_what_is_saved(
    before: SettingsModel,
    zones: Seq<Seq<char>>,
    geometry: SettingsGeometry,
)
    ensures
        ({
            let after = before.opened(zones, geometry);
            &&& before.context is None ==> after == before
            &&& before.context matches Some(context) ==> {
                &&& after.open
                &&& after.form is Some
                &&& after.form->0.draft == context.saved
                &&& after.form->0.context == context
                &&& after.form->0.last_valid_zone == context.effective_display_zone
                &&& after.form->0.focus == SettingsControl::Field(SettingsField::Provider)
                &&& after.form->0.dropdown is None
                &&& !after.form->0.saving
                &&& after.form->0.status_kind == SettingsStatus::Saved
                &&& after.form->0.zone_custom == !zones.contains(context.saved.display_zone)
                &&& after.form->0.generation == before.next_generation
                &&& after.context == before.context
                &&& after.queue == before.queue
            }
        }),
{
}

/// A save that comes back to the dialog that sent it becomes the draft and what
/// is rolled back to, and is shown; one that comes back to no dialog is shown and
/// told of. In either case the next dialog opens on it.
pub proof fn finished_save_is_taken_over(
    before: SettingsModel,
    generation: int,
    context: ContextModel,
)
    ensures
        ({
            let (after, shown, notice) = before.save_completed(generation, context);
            &&& after.context == Some(context)
            &&& after.queue == before.queue
            &&& before.form is None ==> looks_as_in_effect(shown, context) && notice is Some
                && after.form is None
            &&& before.form is Some && before.form->0.generation == generation ==> {
                let form = before.form->0;
                &&& looks_as_in_effect(shown, context)
                &&& notice is None
                &&& after.form->0.draft == context.saved
                &&& after.form->0.context == context
                &&& after.form->0.last_valid_zone == context.effective_display_zone
                &&& !after.form->0.saving
                &&& after.form->0.status_kind == SettingsStatus::Saved
                &&& after.form->0.focus == form.focus
            }
            &&& before.form is Some && before.form->0.generation != generation ==> {
                let form = before.form->0;
                &&& looks_like(shown, form.draft, form.last_valid_zone)
                &&& after.form->0.draft == form.draft
                &&& after.form->0.context == context
                &&& after.form->0.saving == form.saving
                &&& after.form->0.last_valid_zone == form.last_valid_zone
            }
        }),
{
}

/// A save that failed leaves the draft to be sent again, with the reason.
pub proof fn failed_save_keeps_the_draft(
    before: SettingsModel,
    generation: int,
    error: Seq<char>,
)
    requires
        before.form is Some,
        before.form->0.generation == generation,
    ensures
        ({
            let (after, told) = before.save_failed(generation, error);
            &&& told
            &&& after.form->0.draft == before.form->0.draft
            &&& after.form->0.context == before.form->0.context
            &&& !after.form->0.saving
            &&& after.form->0.status_kind == SettingsStatus::Error
            &&& after.form->0.status == "save failed: "@ + error
            &&& after.context == before.context
            &&& after.queue == before.queue
        }),
{
}

/// A save is said to wait for a restart exactly where one of the four saved
/// limits is not the number that is in force.
pub proof fn restart_is_asked_for_changed_limits(
    context: ContextModel,
    rows: Option<u64>,
    membership: Option<u64>,
    disk: Option<u64>,
    per_source: Option<u64>,
)
    requires
        rows == unsigned(context.saved.rows_mib, u64::MAX as int),
        membership == unsigned(context.saved.membership_mib, u64::MAX as int),
        disk == unsigned(context.saved.disk_total_mib, u64::MAX as int),
        per_source == unsigned(context.saved.index_per_source_mib, u64::MAX as int),
    ensures
        rows == Some(context.applied_rows_mib) && membership == Some(context.applied_membership_mib)
            && disk == Some(context.applied_disk_total_mib) && per_source == Some(
            context.applied_index_per_source_mib,
        ) <==> context.restart_status()
            == "saved and applied; existing investigations retain their agent session model"@,
{
    reveal_strlit("saved and applied; existing investigations retain their agent session model");
    reveal_strlit(
        "saved; cache limits require restart (no raw data was evicted). Other active lvu processes with a different global disk cap can refuse index growth until all restart",
    );
    let a = "saved and applied; existing investigations retain their agent session model"@;
    let b =
        "saved; cache limits require restart (no raw data was evicted). Other active lvu processes with a different global disk cap can refuse index growth until all restart"@;
    assert(a[5] == ' ' && b[5] == ';');
}

/// Dismissing the layer shows each setting that is in effect.
pub proof fn dismissal_shows_what_is_in_effect(w: SettingsWorld)
    requires
        w.d.form is Some,
        w.d.form->0.dropdown is None,
    ensures
        looks_as_in_effect(w.dismissed().0.a, w.d.form->0.context),
        w.dismissed().0.d.queue == w.d.queue,
        w.dismissed().0.d.context == w.d.context,
{
}

/// The fields from top to bottom, then Save, then More where there is something
/// to scroll.
pub open spec fn round_of_focus(scrolls: bool) -> Seq<SettingsControl> {
    let all = seq![
        SettingsControl::Field(SettingsField::Provider),
        SettingsControl::Field(SettingsField::Mode),
        SettingsControl::Field(SettingsField::Thinking),
        SettingsControl::Field(SettingsField::Theme),
        SettingsControl::Field(SettingsField::DisplayZone),
        SettingsControl::Field(SettingsField::Delight),
        SettingsControl::Field(SettingsField::ReducedMotion),
        SettingsControl::Field(SettingsField::Ascii),
        SettingsControl::Field(SettingsField::RowCache),
        SettingsControl::Field(SettingsField::Membership),
        SettingsControl::Field(SettingsField::DiskTotal),
        SettingsControl::Field(SettingsField::IndexPerSource),
        SettingsControl::Save,
        SettingsControl::More,
    ];
    if scrolls {
        all
    } else {
        all.drop_last()
    }
}

/// Going forward and back visits the controls in their order and round its ends,
/// and changes no setting.
pub proof fn focus_goes_round(w: SettingsWorld, key: KeyEvent, k: int, read: SettingsRead)
    requires
        w.d.form is Some,
        w.d.form->0.dropdown is None,
        key.kind == KeyEventKind::Press || key.kind == KeyEventKind::Repeat,
        0 <= k < round_of_focus(w.d.form->0.details_scroll_limit > 0).len(),
        w.d.form->0.focus == round_of_focus(w.d.form->0.details_scroll_limit > 0)[k],
        w.d.form->0.details_scroll_limit >= 0,
    ensures
        ({
            let form = w.d.form->0;
            let round = round_of_focus(form.details_scroll_limit > 0);
            let n = round.len() as int;
            let after = w.after_key(key, read).0;
            &&& key.code == KeyCode::Tab || key.code == KeyCode::Down && form.focus
                != SettingsControl::More ==> after.d.form->0.focus == round[if k + 1 < n {
                k + 1
            } else {
                0
            }] && after.d.form->0.draft == form.draft && after.a == w.a
            &&& key.code == KeyCode::BackTab || key.code == KeyCode::Up && form.focus
                != SettingsControl::More ==> after.d.form->0.focus == round[if k > 0 {
                k - 1
            } else {
                n - 1
            }] && after.d.form->0.draft == form.draft && after.a == w.a
        }),
{
    let form = w.d.form->0;
    let scrolls = form.details_scroll_limit > 0;
    let round = round_of_focus(scrolls);
    let n = round.len() as int;
    assert(focus_order(scrolls) =~= round);
    distinct_item_is_found(round, k);
    ring_goes_round(k, n);
}

/// In a text field the keys are handed to its editor: a character is typed, the
/// arrows move, Backspace deletes, and Control with a, e and k goes to the ends
/// and cuts. None of them changes the form by itself.
pub proof fn keys_edit_the_field(
    w: SettingsWorld,
    field: SettingsField,
    key: KeyEvent,
    read: SettingsRead,
)
    requires
        w.d.form is Some,
        w.d.form->0.dropdown is None,
        w.d.form->0.focus == SettingsControl::Field(field),
        is_typed_into(field),
        key.kind == KeyEventKind::Press || key.kind == KeyEventKind::Repeat,
    ensures
        ({
            let plain = !key.modifiers.control && !key.modifiers.alt && !key.modifiers.other;
            let (after, step) = w.after_key(key, read);
            &&& step is Edit ==> after == w
            &&& key.code matches KeyCode::Char(ch) ==> (ch != ' ' && plain ==> step == Step::Edit(
                EditCommand::Insert(ch),
            ))
            &&& key.code == KeyCode::Left ==> step == Step::Edit(EditCommand::MoveLeft)
            &&& key.code == KeyCode::Right ==> step == Step::Edit(EditCommand::MoveRight)
            &&& key.code == KeyCode::Backspace ==> step == Step::Edit(EditCommand::Backspace)
            &&& key.modifiers.control ==> {
                &&& key.code == KeyCode::Char('a') ==> step == Step::Edit(EditCommand::StartOfLine)
                &&& key.code == KeyCode::Char('e') ==> step == Step::Edit(EditCommand::EndOfLine)
                &&& key.code == KeyCode::Char('k') ==> step == Step::Edit(
                    EditCommand::KillToEndOfLine,
                )
            }
        }),
{
}

/// A click on a control gives it the focus; one on Save sends the draft, one on a
/// toggle turns it, and one on a text field changes nothing else. A click on a
/// row takes that row.
pub proof fn click_works_its_control(
    w: SettingsWorld,
    control: SettingsControl,
    row: usize,
    read: SettingsRead,
)
    requires
        w.d.form is Some,
        w.d.form->0.dropdown is None,
        control != SettingsControl::More,
    ensures
        ({
            let form = w.d.form->0;
            let after = w.after_mouse(
                MouseEventKind::LeftDown,
                Some(SettingsHit::Control(control)),
                read,
            );
            &&& after.d.form->0.focus == control
            &&& control matches SettingsControl::Field(field) ==> (is_typed_into(field) && (field
                == SettingsField::DisplayZone ==> form.zone_custom) ==> after.a == w.a
                && after.d.form->0.draft == form.draft && after.d.queue == w.d.queue)
            &&& control == SettingsControl::Field(SettingsField::Ascii)
                ==> after.d.form->0.draft.ascii == !form.draft.ascii && after.a.ascii
                == !form.draft.ascii
            &&& control == SettingsControl::Field(SettingsField::Delight)
                ==> after.d.form->0.draft.delight_enabled == !form.draft.delight_enabled
                && after.a.delight_enabled == !form.draft.delight_enabled
            &&& control == SettingsControl::Field(SettingsField::ReducedMotion)
                ==> after.d.form->0.draft.reduced_motion == !form.draft.reduced_motion
                && after.a.reduced_motion == !form.draft.reduced_motion
            &&& control == SettingsControl::Field(SettingsField::Theme)
                ==> after.d.form->0.dropdown == Some(SettingsField::Theme)
            &&& control == SettingsControl::Save && !form.saving && read.zone_error is None
                && w.d.queue.items.len() < 2 <= w.d.queue.cap ==> after.d.queue.items.len()
                == w.d.queue.items.len() + 1 && after.d.queue.items.last().values == form.draft
            &&& w.after_mouse(MouseEventKind::LeftDown, Some(SettingsHit::Choice(row)), read)
                == w.chosen(row as int, read)
        }),
{
}

/// The details scroll a row at a time within their limit, while they have the
/// focus.
pub proof fn details_scroll_by_rows(w: SettingsWorld, key: KeyEvent, read: SettingsRead)
    requires
        w.d.form is Some,
        w.d.form->0.dropdown is None,
        w.d.form->0.focus == SettingsControl::More,
        0 <= w.d.form->0.details_scroll <= w.d.form->0.details_scroll_limit,
        key.kind == KeyEventKind::Press || key.kind == KeyEventKind::Repeat,
    ensures
        ({
            let form = w.d.form->0;
            let after = w.after_key(key, read).0.d.form->0;
            &&& key.code == KeyCode::Down ==> after.details_scroll == if form.details_scroll
                < form.details_scroll_limit {
                form.details_scroll + 1
            } else {
                form.details_scroll
            }
            &&& key.code == KeyCode::Up ==> after.details_scroll == if form.details_scroll > 0 {
                form.details_scroll - 1
            } else {
                0
            }
        }),
{
}

/// The settings are read as they are written, each under its own name.
pub proof fn settings_are_read_as_written(values: SettingsValues, request: SettingsRequest)
    ensures
        values.model().provider == values.provider@,
        values.model().mode == values.mode@,
        values.model().thinking == values.thinking@,
        values.model().theme == values.theme,
        values.model().display_zone == values.display_zone@,
        values.model().delight_enabled == values.delight_enabled,
        values.model().reduced_motion == values.reduced_motion,
        values.model().ascii == values.ascii,
        values.model().rows_mib == values.rows_mib@,
        values.model().membership_mib == values.membership_mib@,
        values.model().disk_total_mib == values.disk_total_mib@,
        values.model().index_per_source_mib == values.index_per_source_mib@,
        request.ask().generation == request.generation,
        request.ask().values == request.values.model(),
{
}

/// So are the settings in effect and where they come from.
pub proof fn context_is_read_as_written(context: SettingsContext, appearance: Appearance)
    ensures
        context.model().saved == context.saved.model(),
        context.model().effective_provider == context.effective_provider@,
        context.model().provider_source == context.provider_source@,
        context.model().effective_mode == context.effective_mode@,
        context.model().mode_source == context.mode_source@,
        context.model().effective_thinking == context.effective_thinking@,
        context.model().thinking_source == context.thinking_source@,
        context.model().effective_theme == context.effective_theme,
        context.model().effective_delight_enabled == context.effective_delight_enabled,
        context.model().delight_source == context.delight_source@,
        context.model().effective_reduced_motion == context.effective_reduced_motion,
        context.model().reduced_motion_source == context.reduced_motion_source@,
        context.model().effective_ascii == context.effective_ascii,
        context.model().ascii_source == context.ascii_source@,
        context.model().effective_display_zone == context.effective_display_zone@,
        context.model().display_zone_source == context.display_zone_source@,
        context.model().applied_rows_mib == context.applied_rows_mib,
        context.model().applied_membership_mib == context.applied_membership_mib,
        context.model().applied_disk_total_mib == context.applied_disk_total_mib,
        context.model().applied_index_per_source_mib == context.applied_index_per_source_mib,
        context.model().settings_path == context.settings_path@,
        context.model().data_path == context.data_path@,
        context.model().cache_path == context.cache_path@,
        context.model().capture_path == context.capture_path@,
        appearance.model().theme == appearance.theme_id,
        appearance.model().delight_enabled == appearance.delight_enabled,
        appearance.model().reduced_motion == appearance.reduced_motion,
        appearance.model().ascii == appearance.ascii,
        appearance.model().display_zone == appearance.display_zone@,
{
}

/// So is the form, and what the layer reads of the world around it.
pub proof fn form_is_read_as_written(state: SettingsDialogState, input: SettingsInput<'_>, i: int)
    ensures
        state.model().draft == state.draft.model(),
        state.model().context == state.context.model(),
        state.model().focus == state.focus,
        state.model().dropdown == state.dropdown,
        state.model().choice_selected == state.choice_selected,
        state.model().generation == state.generation,
        state.model().saving == state.saving,
        state.model().status == state.status@,
        state.model().status_kind == state.status_kind,
        state.model().zone_custom == state.zone_custom,
        state.model().last_valid_zone == state.last_valid_display_zone@,
        state.model().details_scroll == state.details_scroll,
        state.model().details_scroll_limit == state.details_scroll_limit,
        input.read().themes == input.themes,
        input.read().zones.len() == input.zones@.len(),
        0 <= i < input.zones@.len() ==> input.read().zones[i] == input.zones@[i].token@,
        input.zone_error is None <==> input.read().zone_error is None,
        input.zone_error is Some ==> input.read().zone_error == Some(input.zone_error->0@),
{
}

/// What was typed into a field is what is saved of it: Enter after an edit sends a
/// request in which that setting is the typed text and every other is as drafted.
pub proof fn typed_setting_is_saved(
    w: SettingsWorld,
    field: SettingsField,
    value: Seq<char>,
    cursor: usize,
    key: KeyEvent,
    read: SettingsRead,
)
    requires
        w.d.form is Some,
        w.d.form->0.focus == SettingsControl::Field(field),
        w.d.form->0.dropdown is None,
        is_typed_into(field),
        field == SettingsField::DisplayZone ==> w.d.form->0.zone_custom,
        !w.d.form->0.saving,
        0 <= w.d.form->0.generation <= u64::MAX,
        read.zone_error is None,
        w.d.queue.items.len() < 2 <= w.d.queue.cap,
        key.kind == KeyEventKind::Press || key.kind == KeyEventKind::Repeat,
        key.code == KeyCode::Enter,
    ensures
        ({
            let sent = w.edited(value, cursor, true, None).after_key(key, read).0.d.queue.items;
            &&& sent.len() == w.d.queue.items.len() + 1
            &&& only_text_changed(w.d.form->0.draft, sent.last().values, field, value)
            &&& sent.last().generation == w.d.form->0.generation
        }),
{
    edit_lands_in_its_field(w, field, value, cursor, None);
    save_sends_the_draft(w.edited(value, cursor, true, None), key, read);
}

} // verus!
