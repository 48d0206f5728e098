//! What the Settings layer shows.

use super::{Carets, FormModel, SettingsField, SettingsHit, SettingsModel, SettingsStatus, ThemeId};
use super::frame::{detail_lines, shown_row, text_area, theme_name, toggle_words};
use super::laws::is_typed_into;
use super::render::SettingsSheet;
use crate::component::MessageState;
use crate::dialog_layout::{menu_rows, region_at, AnchoredGeometry};
use crate::geometry::Rect;
use crate::paint::{is_text, Drawn};
use crate::dialog_controls::span_of;
use vstd::prelude::*;

verus! {

/// Each toggle shows its own setting under its own name.
pub proof fn toggle_shows_its_setting(form: FormModel)
    ensures
        form.is_on(SettingsField::Delight) == form.draft.delight_enabled,
        form.is_on(SettingsField::ReducedMotion) == form.draft.reduced_motion,
        form.is_on(SettingsField::Ascii) == form.draft.ascii,
        toggle_words(true, "A"@) == "["@ + "x"@ + "] "@ + "A"@,
        toggle_words(false, "A"@) == "["@ + " "@ + "] "@ + "A"@,
{
}

/// A typed field shows the text of its own setting, wherever it stands.
pub proof fn field_draws_its_setting(
    form: FormModel,
    s: SettingsSheet<'_>,
    carets: Carets,
    field: SettingsField,
    label: Seq<char>,
    area: Rect,
)
    requires
        is_typed_into(field),
        text_area(s.rows@, field, s.shape(form.zone_custom)) == Some(area),
    ensures
        ({
            let last = form.text_part(s, carets, field, label).last();
            let value = match field {
                SettingsField::Provider => form.draft.provider,
                SettingsField::Mode => form.draft.mode,
                SettingsField::Thinking => form.draft.thinking,
                SettingsField::DisplayZone => form.draft.display_zone,
                SettingsField::RowCache => form.draft.rows_mib,
                SettingsField::Membership => form.draft.membership_mib,
                SettingsField::DiskTotal => form.draft.disk_total_mib,
                _ => form.draft.index_per_source_mib,
            };
            match last {
                Drawn::Input { area: place, value: shown, .. } => place == area && shown == value,
                Drawn::Text { area: place, text, .. } => place == area && text == value,
                _ => false,
            }
        }),
{
}

/// The rows of an open list are the themes, or the zones with a row behind them
/// from which one is typed.
pub proof fn list_shows_its_choices(
    form: FormModel,
    themes: Seq<Seq<char>>,
    zones: Seq<Seq<char>>,
    i: int,
)
    requires
        i >= 0,
    ensures
        form.dropdown is None ==> form.list_rows(themes, zones).len() == 0,
        form.dropdown == Some(SettingsField::Theme) ==> form.list_rows(themes, zones) == themes,
        form.dropdown == Some(SettingsField::DisplayZone) ==> form.list_rows(themes, zones).len()
            == zones.len() + 1 && (i < zones.len() ==> form.list_rows(themes, zones)[i]
            == zones[i]),
{
}

/// The details name what is in effect and where it comes from: the agent, the
/// appearance, the paths and the zone.
pub proof fn details_name_what_is_in_effect(
    form: FormModel,
    agent: Seq<char>,
    theme: Seq<char>,
    zone: Seq<char>,
)
    ensures
        ({
            let c = form.context;
            let lines = detail_lines(form, agent, theme, zone);
            &&& lines[0] == "State detail: "@ + form.status
            &&& lines[1] == "Effective "@ + agent + ": "@ + (c.effective_provider + " ["@
                + c.provider_source + "]"@) + " \u{b7} "@ + (c.effective_mode + " ["@ + c.mode_source
                + "]"@) + " \u{b7} "@ + (c.effective_thinking + " ["@ + c.thinking_source + "]"@)
            &&& lines[3] == "Settings: "@ + c.settings_path
            &&& lines[4] == "Data: "@ + c.data_path
            &&& lines[5] == "Cache: "@ + c.cache_path
            &&& lines[6] == "Capture: "@ + c.capture_path
            &&& lines[7] == "Times shown in: "@ + zone + " ("@ + c.display_zone_source + ")"@
        }),
{
}

/// A theme goes by its own name.
pub proof fn theme_goes_by_its_name(themes: Seq<Seq<char>>, id: ThemeId)
    requires
        id.index < themes.len(),
    ensures
        theme_name(themes, id) == themes[id.index as int],
{
}

/// The message says whether the draft is saved, under way, changed or refused, and
/// the button whether it is being saved.
pub proof fn message_says_how_the_draft_stands(form: FormModel)
    ensures
        form.status_kind == SettingsStatus::Saved ==> form.message().0 == MessageState::Saved,
        form.status_kind == SettingsStatus::Pending ==> form.message() == (
            MessageState::Pending,
            if form.saving {
                "saving settings"@
            } else {
                "changes are not saved"@
            },
        ),
        form.status_kind == SettingsStatus::Error ==> form.message() == (
            MessageState::Error,
            form.status,
        ),
        form.saving ==> form.save_label() == "Saving\u{2026}"@,
        !form.saving ==> form.save_label() == "Save"@,
{
}

/// A click falls on the open list before it falls on the form.
pub proof fn click_falls_on_the_list_first(m: SettingsModel, column: int, row: int)
    ensures
        ({
            let choice = region_at(m.geometry.choices@, column, row);
            let control = region_at(m.geometry.controls@, column, row);
            m.at(column, row) == if choice is Some {
                Some(SettingsHit::Choice(choice->0))
            } else if control is Some {
                Some(SettingsHit::Control(control->0))
            } else {
                None
            }
        }),
{
}

/// No two typed fields share a row, and the fields stand in their order from top
/// to bottom.
pub proof fn fields_stand_in_their_order(stacked: bool, roomy: bool)
    ensures
        ({
            let row = |field: SettingsField| shown_row(field, stacked, roomy);
            &&& 0 < row(SettingsField::Provider) < row(SettingsField::Mode) < row(
                SettingsField::Thinking,
            ) < row(SettingsField::Theme) < row(SettingsField::DisplayZone)
            &&& row(SettingsField::DisplayZone) < row(SettingsField::Delight) <= row(
                SettingsField::ReducedMotion,
            ) <= row(SettingsField::Ascii) < row(SettingsField::RowCache)
            &&& row(SettingsField::RowCache) < row(SettingsField::Membership) < row(
                SettingsField::DiskTotal,
            ) < row(SettingsField::IndexPerSource)
        }),
{
}

/// Each row of an open list is drawn with the choice that a click on it takes.
pub proof fn row_draws_its_choice(form: FormModel, s: SettingsSheet<'_>, menu: AnchoredGeometry, n: int, k: int)
    requires
        0 <= k < n,
    ensures
        form.choices_part(s, menu, n).len() == n,
        is_text(
            form.choices_part(s, menu, n)[k],
            menu_rows(menu, span_of(0, s.choices@.len() as int))[k].0,
            s.choices@[menu_rows(
                menu,
                span_of(0, s.choices@.len() as int),
            )[k].1 as int]@,
        ),
    decreases n,
{
    if n - 1 > 0 {
        row_draws_its_choice(form, s, menu, n - 1, if k < n - 1 {
            k
        } else {
            0
        });
    } else {
        assert(form.choices_part(s, menu, 0).len() == 0);
    }
}

} // verus!
