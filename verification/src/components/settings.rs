//! The Settings layer: the global settings as a form, previewed while they are
//! edited, rolled back when the layer is dismissed, and saved on request.
//!
//! A save is fenced by the generation of the dialog, so that the completion of
//! an older one cannot overwrite a newer draft.

use crate::component::{
    control_edit, control_edit_for, move_index, place_from, place_or_start, ring_step, scroll_by,
    scroll_step, EditCommand, Edited, Event, Outbox, Outcome, Queue, Step, Surface,
};
use crate::components::time::{find_zone, zone_row, zone_tokens, ZoneChoice};
use crate::geometry::Rect;
use crate::input::{is_typed_char, KeyCode, KeyEvent, MouseEventKind};
use crate::text::{parse_u64, some_text, unsigned};
use vstd::prelude::*;

pub mod frame;
pub mod laws;
pub mod render;
pub mod shown;

verus! {

/// The most requests that wait to be taken.
pub const SETTINGS_OUTBOX_CAP: usize = 16;

/// The depth at which a save is refused.
pub const SETTINGS_QUEUE_LIMIT: usize = 2;

/// The bytes a text field holds.
pub const SETTINGS_FIELD_BYTES: usize = 256;

/// A theme by its place among those the shell offers.
#[derive(Clone, Copy, Debug, PartialEq, Eq, Structural)]
pub struct ThemeId {
    pub index: usize,
}

#[derive(Clone, Copy, Debug, PartialEq, Eq, Structural)]
pub enum SettingsField {
    Provider,
    Mode,
    Thinking,
    Theme,
    /// The zone that the log shows times in.
    DisplayZone,
    Delight,
    ReducedMotion,
    Ascii,
    RowCache,
    Membership,
    DiskTotal,
    IndexPerSource,
}

/// The fields of the form, from top to bottom.
pub open spec fn all_fields() -> Seq<SettingsField> {
    seq![
        SettingsField::Provider,
        SettingsField::Mode,
        SettingsField::Thinking,
        SettingsField::Theme,
        SettingsField::DisplayZone,
        SettingsField::Delight,
        SettingsField::ReducedMotion,
        SettingsField::Ascii,
        SettingsField::RowCache,
        SettingsField::Membership,
        SettingsField::DiskTotal,
        SettingsField::IndexPerSource,
    ]
}

impl SettingsField {
    /// The place of the field in the form.
    pub open spec fn place(self) -> int {
        match self {
            SettingsField::Provider => 0,
            SettingsField::Mode => 1,
            SettingsField::Thinking => 2,
            SettingsField::Theme => 3,
            SettingsField::DisplayZone => 4,
            SettingsField::Delight => 5,
            SettingsField::ReducedMotion => 6,
            SettingsField::Ascii => 7,
            SettingsField::RowCache => 8,
            SettingsField::Membership => 9,
            SettingsField::DiskTotal => 10,
            SettingsField::IndexPerSource => 11,
        }
    }

    fn index(self) -> (r: usize)
        ensures
            r == self.place(),
            r < 12,
    {
        match self {
            SettingsField::Provider => 0,
            SettingsField::Mode => 1,
            SettingsField::Thinking => 2,
            SettingsField::Theme => 3,
            SettingsField::DisplayZone => 4,
            SettingsField::Delight => 5,
            SettingsField::ReducedMotion => 6,
            SettingsField::Ascii => 7,
            SettingsField::RowCache => 8,
            SettingsField::Membership => 9,
            SettingsField::DiskTotal => 10,
            SettingsField::IndexPerSource => 11,
        }
    }

    /// Whether the field holds text.
    pub open spec fn is_text(self) -> bool {
        self != SettingsField::Theme && self != SettingsField::Delight && self
            != SettingsField::ReducedMotion && self != SettingsField::Ascii
    }

    /// The caret slot of a field that holds text.
    pub fn text_slot(self) -> (r: Option<usize>)
        ensures
            r == match self {
                SettingsField::Provider => Some(0usize),
                SettingsField::Mode => Some(1usize),
                SettingsField::Thinking => Some(2usize),
                SettingsField::DisplayZone => Some(3usize),
                SettingsField::RowCache => Some(4usize),
                SettingsField::Membership => Some(5usize),
                SettingsField::DiskTotal => Some(6usize),
                SettingsField::IndexPerSource => Some(7usize),
                _ => None,
            },
            r is Some <==> self.is_text(),
    {
        match self {
            SettingsField::Provider => Some(0),
            SettingsField::Mode => Some(1),
            SettingsField::Thinking => Some(2),
            SettingsField::DisplayZone => Some(3),
            SettingsField::RowCache => Some(4),
            SettingsField::Membership => Some(5),
            SettingsField::DiskTotal => Some(6),
            SettingsField::IndexPerSource => Some(7),
            _ => None,
        }
    }
}

#[derive(Clone, Copy, Debug, PartialEq, Eq, Structural)]
pub enum SettingsControl {
    Field(SettingsField),
    Save,
    More,
}

#[derive(Clone, Copy, Debug, PartialEq, Eq, Structural)]
pub enum SettingsStatus {
    Saved,
    Pending,
    Error,
}

/// The settings.
#[derive(Debug)]
pub struct SettingsValues {
    pub provider: String,
    pub mode: String,
    pub thinking: String,
    pub theme: ThemeId,
    pub display_zone: String,
    pub delight_enabled: bool,
    pub reduced_motion: bool,
    pub ascii: bool,
    pub rows_mib: String,
    pub membership_mib: String,
    pub disk_total_mib: String,
    pub index_per_source_mib: String,
}

/// The settings, by what they say.
#[verifier::ext_equal]
pub struct ValuesModel {
    pub provider: Seq<char>,
    pub mode: Seq<char>,
    pub thinking: Seq<char>,
    pub theme: ThemeId,
    pub display_zone: Seq<char>,
    pub delight_enabled: bool,
    pub reduced_motion: bool,
    pub ascii: bool,
    pub rows_mib: Seq<char>,
    pub membership_mib: Seq<char>,
    pub disk_total_mib: Seq<char>,
    pub index_per_source_mib: Seq<char>,
}

impl SettingsValues {
    pub open spec fn model(self) -> ValuesModel {
        ValuesModel {
            provider: self.provider@,
            mode: self.mode@,
            thinking: self.thinking@,
            theme: self.theme,
            display_zone: self.display_zone@,
            delight_enabled: self.delight_enabled,
            reduced_motion: self.reduced_motion,
            ascii: self.ascii,
            rows_mib: self.rows_mib@,
            membership_mib: self.membership_mib@,
            disk_total_mib: self.disk_total_mib@,
            index_per_source_mib: self.index_per_source_mib@,
        }
    }

    fn copy(&self) -> (r: SettingsValues)
        ensures
            r.model() == self.model(),
    {
        SettingsValues {
            provider: self.provider.clone(),
            mode: self.mode.clone(),
            thinking: self.thinking.clone(),
            theme: self.theme,
            display_zone: self.display_zone.clone(),
            delight_enabled: self.delight_enabled,
            reduced_motion: self.reduced_motion,
            ascii: self.ascii,
            rows_mib: self.rows_mib.clone(),
            membership_mib: self.membership_mib.clone(),
            disk_total_mib: self.disk_total_mib.clone(),
            index_per_source_mib: self.index_per_source_mib.clone(),
        }
    }
}

/// The settings that are saved, those in effect, and where they come from.
#[derive(Debug)]
pub struct SettingsContext {
    pub saved: SettingsValues,
    pub effective_provider: String,
    pub provider_source: String,
    pub effective_mode: String,
    pub mode_source: String,
    pub effective_thinking: String,
    pub thinking_source: String,
    pub effective_theme: ThemeId,
    pub effective_delight_enabled: bool,
    pub delight_source: String,
    pub effective_reduced_motion: bool,
    pub reduced_motion_source: String,
    pub effective_ascii: bool,
    pub ascii_source: String,
    pub effective_display_zone: String,
    pub display_zone_source: String,
    pub applied_rows_mib: u64,
    pub applied_membership_mib: u64,
    pub applied_disk_total_mib: u64,
    pub applied_index_per_source_mib: u64,
    pub settings_path: String,
    pub data_path: String,
    pub cache_path: String,
    pub capture_path: String,
}

/// The settings that are saved, those in effect, and where they come from, by
/// what they say.
#[verifier::ext_equal]
pub struct ContextModel {
    pub saved: ValuesModel,
    pub effective_provider: Seq<char>,
    pub provider_source: Seq<char>,
    pub effective_mode: Seq<char>,
    pub mode_source: Seq<char>,
    pub effective_thinking: Seq<char>,
    pub thinking_source: Seq<char>,
    pub effective_theme: ThemeId,
    pub effective_delight_enabled: bool,
    pub delight_source: Seq<char>,
    pub effective_reduced_motion: bool,
    pub reduced_motion_source: Seq<char>,
    pub effective_ascii: bool,
    pub ascii_source: Seq<char>,
    pub effective_display_zone: Seq<char>,
    pub display_zone_source: Seq<char>,
    pub applied_rows_mib: u64,
    pub applied_membership_mib: u64,
    pub applied_disk_total_mib: u64,
    pub applied_index_per_source_mib: u64,
    pub settings_path: Seq<char>,
    pub data_path: Seq<char>,
    pub cache_path: Seq<char>,
    pub capture_path: Seq<char>,
}

impl SettingsContext {
    pub open spec fn model(self) -> ContextModel {
        ContextModel {
            saved: self.saved.model(),
            effective_provider: self.effective_provider@,
            provider_source: self.provider_source@,
            effective_mode: self.effective_mode@,
            mode_source: self.mode_source@,
            effective_thinking: self.effective_thinking@,
            thinking_source: self.thinking_source@,
            effective_theme: self.effective_theme,
            effective_delight_enabled: self.effective_delight_enabled,
            delight_source: self.delight_source@,
            effective_reduced_motion: self.effective_reduced_motion,
            reduced_motion_source: self.reduced_motion_source@,
            effective_ascii: self.effective_ascii,
            ascii_source: self.ascii_source@,
            effective_display_zone: self.effective_display_zone@,
            display_zone_source: self.display_zone_source@,
            applied_rows_mib: self.applied_rows_mib,
            applied_membership_mib: self.applied_membership_mib,
            applied_disk_total_mib: self.applied_disk_total_mib,
            applied_index_per_source_mib: self.applied_index_per_source_mib,
            settings_path: self.settings_path@,
            data_path: self.data_path@,
            cache_path: self.cache_path@,
            capture_path: self.capture_path@,
        }
    }

    fn copy(&self) -> (r: SettingsContext)
        ensures
            r.model() == self.model(),
    {
        SettingsContext {
            saved: self.saved.copy(),
            effective_provider: self.effective_provider.clone(),
            provider_source: self.provider_source.clone(),
            effective_mode: self.effective_mode.clone(),
            mode_source: self.mode_source.clone(),
            effective_thinking: self.effective_thinking.clone(),
            thinking_source: self.thinking_source.clone(),
            effective_theme: self.effective_theme,
            effective_delight_enabled: self.effective_delight_enabled,
            delight_source: self.delight_source.clone(),
            effective_reduced_motion: self.effective_reduced_motion,
            reduced_motion_source: self.reduced_motion_source.clone(),
            effective_ascii: self.effective_ascii,
            ascii_source: self.ascii_source.clone(),
            effective_display_zone: self.effective_display_zone.clone(),
            display_zone_source: self.display_zone_source.clone(),
            applied_rows_mib: self.applied_rows_mib,
            applied_membership_mib: self.applied_membership_mib,
            applied_disk_total_mib: self.applied_disk_total_mib,
            applied_index_per_source_mib: self.applied_index_per_source_mib,
            settings_path: self.settings_path.clone(),
            data_path: self.data_path.clone(),
            cache_path: self.cache_path.clone(),
            capture_path: self.capture_path.clone(),
        }
    }
}

impl ContextModel {
    /// Saved cache limits differ from those in force.
    pub open spec fn needs_restart(self) -> bool {
        ||| unsigned(self.saved.rows_mib, u64::MAX as int) != Some(self.applied_rows_mib)
        ||| unsigned(self.saved.membership_mib, u64::MAX as int) != Some(
            self.applied_membership_mib,
        )
        ||| unsigned(self.saved.disk_total_mib, u64::MAX as int) != Some(
            self.applied_disk_total_mib,
        )
        ||| unsigned(self.saved.index_per_source_mib, u64::MAX as int) != Some(
            self.applied_index_per_source_mib,
        )
    }

    /// What is said of a save.
    pub open spec fn restart_status(self) -> Seq<char> {
        if self.needs_restart() {
            "saved; cache limits require restart (no raw data was evicted). Other active lvu processes with a different global disk cap can refuse index growth until all restart"@
        } else {
            "saved and applied; existing investigations retain their agent session model"@
        }
    }

    /// The appearance in effect.
    pub open spec fn effective(self) -> AppearanceModel {
        AppearanceModel {
            theme: self.effective_theme,
            delight_enabled: self.effective_delight_enabled,
            reduced_motion: self.effective_reduced_motion,
            ascii: self.effective_ascii,
            display_zone: self.effective_display_zone,
        }
    }
}

/// What is said of a save: whether its cache limits wait for a restart.
pub fn settings_restart_status(context: &SettingsContext) -> (r: String)
    ensures
        r@ == context.model().restart_status(),
{
    let saved = &context.saved;
    let changed = parse_u64(saved.rows_mib.as_str()) != Some(context.applied_rows_mib) || parse_u64(
        saved.membership_mib.as_str(),
    ) != Some(context.applied_membership_mib) || parse_u64(saved.disk_total_mib.as_str()) != Some(
        context.applied_disk_total_mib,
    ) || parse_u64(saved.index_per_source_mib.as_str()) != Some(
        context.applied_index_per_source_mib,
    );
    if changed {
        "saved; cache limits require restart (no raw data was evicted). Other active lvu processes with a different global disk cap can refuse index growth until all restart".to_owned()
    } else {
        "saved and applied; existing investigations retain their agent session model".to_owned()
    }
}

/// What the shell draws with.
#[derive(Debug)]
pub struct Appearance {
    pub theme_id: ThemeId,
    pub delight_enabled: bool,
    pub reduced_motion: bool,
    pub ascii: bool,
    pub display_zone: String,
}

/// What the shell draws with, by what it says.
#[verifier::ext_equal]
pub struct AppearanceModel {
    pub theme: ThemeId,
    pub delight_enabled: bool,
    pub reduced_motion: bool,
    pub ascii: bool,
    pub display_zone: Seq<char>,
}

impl Appearance {
    pub open spec fn model(self) -> AppearanceModel {
        AppearanceModel {
            theme: self.theme_id,
            delight_enabled: self.delight_enabled,
            reduced_motion: self.reduced_motion,
            ascii: self.ascii,
            display_zone: self.display_zone@,
        }
    }
}

/// The carets of the text fields; a field that was not edited yet has none.
#[derive(Clone, Copy, Debug, PartialEq, Eq, Structural)]
pub struct Carets {
    pub provider: Option<usize>,
    pub mode: Option<usize>,
    pub thinking: Option<usize>,
    pub display_zone: Option<usize>,
    pub rows: Option<usize>,
    pub membership: Option<usize>,
    pub disk_total: Option<usize>,
    pub per_source: Option<usize>,
}

impl Carets {
    pub open spec fn none() -> Carets {
        Carets {
            provider: None,
            mode: None,
            thinking: None,
            display_zone: None,
            rows: None,
            membership: None,
            disk_total: None,
            per_source: None,
        }
    }

    pub open spec fn of(self, field: SettingsField) -> Option<usize> {
        match field {
            SettingsField::Provider => self.provider,
            SettingsField::Mode => self.mode,
            SettingsField::Thinking => self.thinking,
            SettingsField::DisplayZone => self.display_zone,
            SettingsField::RowCache => self.rows,
            SettingsField::Membership => self.membership,
            SettingsField::DiskTotal => self.disk_total,
            SettingsField::IndexPerSource => self.per_source,
            _ => None,
        }
    }

    pub open spec fn with(self, field: SettingsField, place: usize) -> Carets {
        match field {
            SettingsField::Provider => Carets { provider: Some(place), ..self },
            SettingsField::Mode => Carets { mode: Some(place), ..self },
            SettingsField::Thinking => Carets { thinking: Some(place), ..self },
            SettingsField::DisplayZone => Carets { display_zone: Some(place), ..self },
            SettingsField::RowCache => Carets { rows: Some(place), ..self },
            SettingsField::Membership => Carets { membership: Some(place), ..self },
            SettingsField::DiskTotal => Carets { disk_total: Some(place), ..self },
            SettingsField::IndexPerSource => Carets { per_source: Some(place), ..self },
            _ => self,
        }
    }

    fn blank() -> (r: Carets)
        ensures
            r == Carets::none(),
    {
        Carets {
            provider: None,
            mode: None,
            thinking: None,
            display_zone: None,
            rows: None,
            membership: None,
            disk_total: None,
            per_source: None,
        }
    }

    fn get(&self, field: SettingsField) -> (r: Option<usize>)
        ensures
            r == self.of(field),
    {
        match field {
            SettingsField::Provider => self.provider,
            SettingsField::Mode => self.mode,
            SettingsField::Thinking => self.thinking,
            SettingsField::DisplayZone => self.display_zone,
            SettingsField::RowCache => self.rows,
            SettingsField::Membership => self.membership,
            SettingsField::DiskTotal => self.disk_total,
            SettingsField::IndexPerSource => self.per_source,
            _ => None,
        }
    }

    fn put(&mut self, field: SettingsField, place: usize)
        ensures
            *final(self) == old(self).with(field, place),
    {
        match field {
            SettingsField::Provider => {
                self.provider = Some(place);
            },
            SettingsField::Mode => {
                self.mode = Some(place);
            },
            SettingsField::Thinking => {
                self.thinking = Some(place);
            },
            SettingsField::DisplayZone => {
                self.display_zone = Some(place);
            },
            SettingsField::RowCache => {
                self.rows = Some(place);
            },
            SettingsField::Membership => {
                self.membership = Some(place);
            },
            SettingsField::DiskTotal => {
                self.disk_total = Some(place);
            },
            SettingsField::IndexPerSource => {
                self.per_source = Some(place);
            },
            _ => {},
        }
    }
}

impl ValuesModel {
    /// The text of a field.
    pub open spec fn text(self, field: SettingsField) -> Seq<char> {
        match field {
            SettingsField::Provider => self.provider,
            SettingsField::Mode => self.mode,
            SettingsField::Thinking => self.thinking,
            SettingsField::DisplayZone => self.display_zone,
            SettingsField::RowCache => self.rows_mib,
            SettingsField::Membership => self.membership_mib,
            SettingsField::DiskTotal => self.disk_total_mib,
            SettingsField::IndexPerSource => self.index_per_source_mib,
            _ => Seq::empty(),
        }
    }

    pub open spec fn with_text(self, field: SettingsField, value: Seq<char>) -> ValuesModel {
        match field {
            SettingsField::Provider => ValuesModel { provider: value, ..self },
            SettingsField::Mode => ValuesModel { mode: value, ..self },
            SettingsField::Thinking => ValuesModel { thinking: value, ..self },
            SettingsField::DisplayZone => ValuesModel { display_zone: value, ..self },
            SettingsField::RowCache => ValuesModel { rows_mib: value, ..self },
            SettingsField::Membership => ValuesModel { membership_mib: value, ..self },
            SettingsField::DiskTotal => ValuesModel { disk_total_mib: value, ..self },
            SettingsField::IndexPerSource => ValuesModel { index_per_source_mib: value, ..self },
            _ => self,
        }
    }

    /// The settings with a toggle turned.
    pub open spec fn toggled(self, field: SettingsField) -> ValuesModel {
        match field {
            SettingsField::Delight => ValuesModel {
                delight_enabled: !self.delight_enabled,
                ..self
            },
            SettingsField::ReducedMotion => ValuesModel {
                reduced_motion: !self.reduced_motion,
                ..self
            },
            SettingsField::Ascii => ValuesModel { ascii: !self.ascii, ..self },
            _ => self,
        }
    }

    /// The appearance that settings preview, in a zone that is known to be one.
    pub open spec fn preview(self, display_zone: Seq<char>) -> AppearanceModel {
        AppearanceModel {
            theme: self.theme,
            delight_enabled: self.delight_enabled,
            reduced_motion: self.reduced_motion,
            ascii: self.ascii,
            display_zone,
        }
    }
}

impl SettingsValues {
    fn text(&self, field: SettingsField) -> (r: &str)
        ensures
            r@ == self.model().text(field),
    {
        match field {
            SettingsField::Provider => self.provider.as_str(),
            SettingsField::Mode => self.mode.as_str(),
            SettingsField::Thinking => self.thinking.as_str(),
            SettingsField::DisplayZone => self.display_zone.as_str(),
            SettingsField::RowCache => self.rows_mib.as_str(),
            SettingsField::Membership => self.membership_mib.as_str(),
            SettingsField::DiskTotal => self.disk_total_mib.as_str(),
            SettingsField::IndexPerSource => self.index_per_source_mib.as_str(),
            _ => {
                proof {
                    reveal_strlit("");
                }
                assert(""@ =~= Seq::<char>::empty());
                ""
            },
        }
    }

    fn set_text(&mut self, field: SettingsField, value: String)
        ensures
            final(self).model() == old(self).model().with_text(field, value@),
    {
        match field {
            SettingsField::Provider => {
                self.provider = value;
            },
            SettingsField::Mode => {
                self.mode = value;
            },
            SettingsField::Thinking => {
                self.thinking = value;
            },
            SettingsField::DisplayZone => {
                self.display_zone = value;
            },
            SettingsField::RowCache => {
                self.rows_mib = value;
            },
            SettingsField::Membership => {
                self.membership_mib = value;
            },
            SettingsField::DiskTotal => {
                self.disk_total_mib = value;
            },
            SettingsField::IndexPerSource => {
                self.index_per_source_mib = value;
            },
            _ => {},
        }
    }
}

/// The dialog's own data.
#[derive(Debug)]
pub struct SettingsDialogState {
    pub generation: u64,
    pub selected: usize,
    pub focus: SettingsControl,
    pub draft: SettingsValues,
    pub context: SettingsContext,
    pub saving: bool,
    pub status_kind: SettingsStatus,
    pub status: String,
    /// Which field's list is open.
    pub dropdown: Option<SettingsField>,
    pub choice_selected: usize,
    /// The zone is typed rather than picked.
    pub zone_custom: bool,
    /// The zone that is previewed, kept apart from the one being edited: an
    /// invalid draft never reaches the appearance.
    pub last_valid_display_zone: String,
    pub details_scroll: usize,
    pub details_scroll_limit: usize,
}

/// The dialog's own data, by what it says.
#[verifier::ext_equal]
pub struct FormModel {
    pub generation: int,
    pub selected: int,
    pub focus: SettingsControl,
    pub draft: ValuesModel,
    pub context: ContextModel,
    pub saving: bool,
    pub status_kind: SettingsStatus,
    pub status: Seq<char>,
    pub dropdown: Option<SettingsField>,
    pub choice_selected: int,
    pub zone_custom: bool,
    pub last_valid_zone: Seq<char>,
    pub details_scroll: int,
    pub details_scroll_limit: int,
}

impl SettingsDialogState {
    pub open spec fn model(self) -> FormModel {
        FormModel {
            generation: self.generation as int,
            selected: self.selected as int,
            focus: self.focus,
            draft: self.draft.model(),
            context: self.context.model(),
            saving: self.saving,
            status_kind: self.status_kind,
            status: self.status@,
            dropdown: self.dropdown,
            choice_selected: self.choice_selected as int,
            zone_custom: self.zone_custom,
            last_valid_zone: self.last_valid_display_zone@,
            details_scroll: self.details_scroll as int,
            details_scroll_limit: self.details_scroll_limit as int,
        }
    }
}

/// Everything the layer draws that can be clicked.
#[derive(Clone, Copy, Debug, PartialEq, Eq, Structural)]
pub enum SettingsHit {
    Control(SettingsControl),
    Choice(usize),
}

/// Where the last frame drew what can be clicked.
#[derive(Debug)]
pub struct SettingsGeometry {
    pub controls: Vec<(Rect, SettingsControl)>,
    pub choices: Vec<(Rect, usize)>,
}

impl SettingsGeometry {
    /// Nothing was drawn.
    pub open spec fn blank(self) -> bool {
        self.controls@.len() == 0 && self.choices@.len() == 0
    }
}

/// What is asked to be saved.
#[derive(Debug)]
pub struct SettingsRequest {
    pub generation: u64,
    pub values: SettingsValues,
}

/// What is asked to be saved, by what it says.
#[verifier::ext_equal]
pub struct SettingsAsk {
    pub generation: u64,
    pub values: ValuesModel,
}

impl SettingsRequest {
    pub open spec fn ask(self) -> SettingsAsk {
        SettingsAsk { generation: self.generation, values: self.values.model() }
    }
}

/// What is left to do with a save that succeeded: the appearance to show, and
/// what to say where no open dialog does.
#[derive(Debug)]
pub struct SaveCompletion {
    pub appearance: Appearance,
    pub notice: Option<String>,
}

#[derive(Debug)]
pub struct SettingsDialog {
    open: bool,
    context: Option<SettingsContext>,
    next_generation: u64,
    state: Option<SettingsDialogState>,
    cursors: Carets,
    geometry: SettingsGeometry,
    surface: Surface,
    pub outbox: Outbox<SettingsRequest>,
}

/// The state of the layer.
#[verifier::ext_equal]
pub struct SettingsModel {
    pub open: bool,
    pub context: Option<ContextModel>,
    pub next_generation: int,
    pub form: Option<FormModel>,
    pub cursors: Carets,
    pub geometry: SettingsGeometry,
    pub surface: Surface,
    pub queue: Queue<SettingsAsk>,
}

/// A context that may be missing.
pub open spec fn some_context(context: Option<SettingsContext>) -> Option<ContextModel> {
    match context {
        Some(context) => Some(context.model()),
        None => None,
    }
}

/// A form that may be missing.
pub open spec fn some_form(form: Option<SettingsDialogState>) -> Option<FormModel> {
    match form {
        Some(form) => Some(form.model()),
        None => None,
    }
}

impl SettingsDialog {
    pub closed spec fn model(&self) -> SettingsModel {
        SettingsModel {
            open: self.open,
            context: some_context(self.context),
            next_generation: self.next_generation as int,
            form: some_form(self.state),
            cursors: self.cursors,
            geometry: self.geometry,
            surface: self.surface,
            queue: Queue {
                items: self.outbox@.items.map_values(|r: SettingsRequest| r.ask()),
                cap: self.outbox@.cap,
                generation: self.outbox@.generation,
            },
        }
    }
}

/// The controls in the order of the focus: the fields, Save, and More while the
/// details scroll.
pub open spec fn focus_order(scrolls: bool) -> Seq<SettingsControl> {
    let fields = all_fields().map_values(|field: SettingsField| SettingsControl::Field(field));
    if scrolls {
        fields.push(SettingsControl::Save).push(SettingsControl::More)
    } else {
        fields.push(SettingsControl::Save)
    }
}

impl FormModel {
    pub open spec fn noted(self, status_kind: SettingsStatus, status: Seq<char>) -> FormModel {
        FormModel { status_kind, status, ..self }
    }

    pub open spec fn pending(self) -> FormModel {
        self.noted(SettingsStatus::Pending, "Changes are not saved"@)
    }

    pub open spec fn refused(self, why: Seq<char>) -> FormModel {
        FormModel { details_scroll: 0, ..self.noted(SettingsStatus::Error, why) }
    }

    pub open spec fn focused(self, control: SettingsControl) -> FormModel {
        FormModel {
            focus: control,
            selected: match control {
                SettingsControl::Field(field) => field.place(),
                _ => self.selected,
            },
            ..self
        }
    }

    pub open spec fn focus_moved(self, delta: int) -> FormModel {
        let list = focus_order(self.details_scroll_limit > 0);
        self.focused(list[ring_step(place_or_start(list, self.focus), list.len() as int, delta)])
    }

    /// More has the focus only while there is something to scroll.
    pub open spec fn control_clicked(self, control: SettingsControl) -> FormModel {
        if control == SettingsControl::More && self.details_scroll_limit == 0 {
            self
        } else {
            self.focused(control)
        }
    }

    /// The rows of a list.
    pub open spec fn row_count(field: SettingsField, themes: int, zones: int) -> int {
        match field {
            SettingsField::Theme => themes,
            SettingsField::DisplayZone => zones + 1,
            _ => 0,
        }
    }

    pub open spec fn choice_moved(self, delta: int, themes: int, zones: int) -> FormModel {
        match self.dropdown {
            None => self,
            Some(field) => {
                let count = FormModel::row_count(field, themes, zones);
                FormModel {
                    choice_selected: ring_step(
                        self.choice_selected,
                        if count == 0 {
                            1
                        } else {
                            count
                        },
                        delta,
                    ),
                    ..self
                }
            },
        }
    }

    /// Up and down in the details while they have the focus.
    pub open spec fn details_scrolled(self, delta: int) -> FormModel {
        if self.focus == SettingsControl::More {
            FormModel {
                details_scroll: scroll_step(self.details_scroll, self.details_scroll_limit, delta),
                ..self
            }
        } else {
            self
        }
    }

    /// The text field that has the focus.
    pub open spec fn text_field(self) -> Option<SettingsField> {
        match self.focus {
            SettingsControl::Field(field) => if field.is_text() {
                Some(field)
            } else {
                None
            },
            _ => None,
        }
    }
}

/// The layer and what the shell draws with.
#[verifier::ext_equal]
pub struct SettingsWorld {
    pub d: SettingsModel,
    pub a: AppearanceModel,
}

/// What the layer reads of the world around it: the zones and themes to choose
/// from, and what is wrong with the zone of the draft, if anything.
pub struct SettingsRead {
    pub zones: Seq<Seq<char>>,
    pub themes: int,
    pub zone_error: Option<Seq<char>>,
}

impl SettingsWorld {
    pub open spec fn with(self, form: FormModel) -> SettingsWorld {
        SettingsWorld { d: SettingsModel { form: Some(form), ..self.d }, a: self.a }
    }

    /// Space and Enter on a control that is not typed into: a list opens on the
    /// row that is set, a toggle turns, and the draft is previewed.
    pub open spec fn cycled(self, read: SettingsRead) -> SettingsWorld {
        match self.d.form {
            None => self,
            Some(form) => match form.focus {
                SettingsControl::Field(SettingsField::Theme) => self.with(
                    FormModel {
                        choice_selected: if form.draft.theme.index < read.themes {
                            form.draft.theme.index as int
                        } else {
                            0
                        },
                        dropdown: Some(SettingsField::Theme),
                        ..form
                    },
                ),
                SettingsControl::Field(SettingsField::DisplayZone) => self.with(
                    FormModel {
                        choice_selected: zone_row(
                            read.zones,
                            form.draft.display_zone,
                            0,
                        ),
                        dropdown: Some(SettingsField::DisplayZone),
                        ..form
                    },
                ),
                SettingsControl::Field(field) => {
                    let draft = form.draft.toggled(field);
                    SettingsWorld {
                        a: draft.preview(
                            if read.zone_error is None {
                                draft.display_zone
                            } else {
                                form.last_valid_zone
                            },
                        ),
                        ..self.with(FormModel { draft, ..form }.pending())
                    }
                },
                _ => self,
            },
        }
    }

    /// The draft is sent off to be saved, unless its zone is not one, a save is
    /// under way, or too many wait.
    pub open spec fn saved(self, zone_error: Option<Seq<char>>) -> SettingsWorld {
        match self.d.form {
            None => self,
            Some(form) => if zone_error is Some {
                self.with(form.refused(zone_error->0))
            } else if form.saving {
                self.with(form.noted(SettingsStatus::Pending, "settings save already pending"@))
            } else if self.d.queue.items.len() >= SETTINGS_QUEUE_LIMIT {
                self.with(
                    form.noted(
                        SettingsStatus::Error,
                        "settings save queue is full; retry shortly"@,
                    ),
                )
            } else {
                SettingsWorld {
                    d: SettingsModel {
                        form: Some(
                            FormModel { saving: true, ..form }.noted(
                                SettingsStatus::Pending,
                                "saving global settings\u{2026}"@,
                            ),
                        ),
                        queue: self.d.queue.put(
                            SettingsAsk { generation: form.generation as u64, values: form.draft },
                        ),
                        ..self.d
                    },
                    a: self.a,
                }
            },
        }
    }

    /// Enter: a control's own work where it has one, and else the save.
    pub open spec fn activated(self, read: SettingsRead) -> SettingsWorld {
        match self.d.form {
            None => self,
            Some(form) => match form.focus {
                SettingsControl::More => self,
                SettingsControl::Field(SettingsField::DisplayZone) => if form.zone_custom {
                    self.saved(read.zone_error)
                } else {
                    self.cycled(read)
                },
                SettingsControl::Field(field) => if field.is_text() {
                    self.saved(read.zone_error)
                } else {
                    self.cycled(read)
                },
                SettingsControl::Save => self.saved(read.zone_error),
            },
        }
    }

    /// A row of the open list is taken and previewed; behind the zones stands
    /// the row from which one is typed.
    pub open spec fn chosen(self, index: int, read: SettingsRead) -> SettingsWorld {
        match self.d.form {
            None => self,
            Some(form) => match form.dropdown {
                Some(SettingsField::Theme) => if index < read.themes {
                    let theme = ThemeId { index: index as usize };
                    SettingsWorld {
                        a: AppearanceModel { theme, ..self.a },
                        ..self.with(
                            FormModel {
                                draft: ValuesModel { theme, ..form.draft },
                                choice_selected: index,
                                dropdown: None,
                                ..form
                            }.pending(),
                        )
                    }
                } else {
                    self
                },
                Some(SettingsField::DisplayZone) => if index < read.zones.len() {
                    let zone = read.zones[index];
                    SettingsWorld {
                        a: AppearanceModel { display_zone: zone, ..self.a },
                        ..self.with(
                            FormModel {
                                zone_custom: false,
                                draft: ValuesModel { display_zone: zone, ..form.draft },
                                last_valid_zone: zone,
                                choice_selected: index,
                                dropdown: None,
                                ..form
                            }.pending(),
                        )
                    }
                } else if index == read.zones.len() {
                    let typed = if read.zones.contains(form.draft.display_zone) {
                        Seq::empty()
                    } else {
                        form.draft.display_zone
                    };
                    SettingsWorld {
                        d: SettingsModel {
                            cursors: self.d.cursors.with(
                                SettingsField::DisplayZone,
                                typed.len() as usize,
                            ),
                            form: Some(
                                FormModel {
                                    zone_custom: true,
                                    draft: ValuesModel { display_zone: typed, ..form.draft },
                                    choice_selected: index,
                                    dropdown: None,
                                    ..form
                                }.pending(),
                            ),
                            ..self.d
                        },
                        a: self.a,
                    }
                } else {
                    self
                },
                _ => self,
            },
        }
    }

    /// The field that has the focus was edited. A zone that is not one stays in
    /// the draft and is not previewed.
    pub open spec fn edited(
        self,
        value: Seq<char>,
        cursor: usize,
        changed: bool,
        zone_error: Option<Seq<char>>,
    ) -> SettingsWorld {
        match self.d.form {
            None => self,
            Some(form) => match form.text_field() {
                None => self,
                Some(field) => {
                    let placed = SettingsWorld {
                        d: SettingsModel {
                            cursors: self.d.cursors.with(field, cursor),
                            ..self.d
                        },
                        a: self.a,
                    };
                    let typed = FormModel { draft: form.draft.with_text(field, value), ..form };
                    if !changed {
                        placed
                    } else if field != SettingsField::DisplayZone {
                        placed.with(typed.pending())
                    } else if zone_error is None {
                        SettingsWorld {
                            a: AppearanceModel { display_zone: value, ..self.a },
                            ..placed.with(FormModel { last_valid_zone: value, ..typed }.pending())
                        }
                    } else {
                        placed.with(typed.refused(zone_error->0))
                    }
                },
            },
        }
    }

    pub open spec fn edit_step(self, command: EditCommand) -> (SettingsWorld, Step) {
        if self.d.form is Some && self.d.form->0.text_field() is Some {
            (self, Step::Edit(command))
        } else {
            (self, Step::Done(Outcome::Consumed))
        }
    }

    pub open spec fn on_form(self, form: FormModel) -> (SettingsWorld, Step) {
        (self.with(form), Step::Done(Outcome::Consumed))
    }

    /// A key: the open list owns every key, then come the caret keys of
    /// Control, then the details while they have the focus, then the form.
    pub open spec fn after_key(self, key: KeyEvent, read: SettingsRead) -> (SettingsWorld, Step) {
        let done = Step::Done(Outcome::Consumed);
        let zones = read.zones.len() as int;
        if !key.spec_is_active() {
            (self, Step::Done(Outcome::Ignored))
        } else if self.d.form is Some && self.d.form->0.dropdown is Some {
            let form = self.d.form->0;
            match key.code {
                KeyCode::Up => self.on_form(form.choice_moved(-1, read.themes, zones)),
                KeyCode::Down => self.on_form(form.choice_moved(1, read.themes, zones)),
                KeyCode::Enter => (self.chosen(form.choice_selected, read), done),
                _ => (self, done),
            }
        } else if key.modifiers.control && control_edit(key.code) is Some {
            self.edit_step(control_edit(key.code)->0)
        } else if self.d.form is Some && self.d.form->0.focus == SettingsControl::More && (key.code
            == KeyCode::Up || key.code == KeyCode::Down) {
            self.on_form(
                self.d.form->0.details_scrolled(
                    if key.code == KeyCode::Up {
                        -1
                    } else {
                        1
                    },
                ),
            )
        } else {
            match key.code {
                KeyCode::Left => self.edit_step(EditCommand::MoveLeft),
                KeyCode::Right => self.edit_step(EditCommand::MoveRight),
                KeyCode::Up => (self.focus_moved(-1), done),
                KeyCode::BackTab => (self.focus_moved(-1), done),
                KeyCode::Down => (self.focus_moved(1), done),
                KeyCode::Tab => (self.focus_moved(1), done),
                KeyCode::Enter => (self.activated(read), done),
                KeyCode::Backspace => self.edit_step(EditCommand::Backspace),
                KeyCode::Char(ch) => if ch == ' ' {
                    (self.cycled(read), done)
                } else if key.modifiers.plain() {
                    self.edit_step(EditCommand::Insert(ch))
                } else {
                    (self, Step::Done(Outcome::Ignored))
                },
                _ => (self, Step::Done(Outcome::Ignored)),
            }
        }
    }

    pub open spec fn focus_moved(self, delta: int) -> SettingsWorld {
        match self.d.form {
            Some(form) => self.with(form.focus_moved(delta)),
            None => self,
        }
    }

    /// A click on a control gives it the focus, and does its work where it is a
    /// list, a toggle or Save; a zone that is typed is only focused.
    pub open spec fn control_clicked(self, control: SettingsControl, read: SettingsRead) -> SettingsWorld {
        match self.d.form {
            None => self,
            Some(form) => {
                let focused = self.with(form.control_clicked(control));
                let works = match control {
                    SettingsControl::Save => true,
                    SettingsControl::More => false,
                    SettingsControl::Field(SettingsField::DisplayZone) => !form.zone_custom,
                    SettingsControl::Field(field) => !field.is_text(),
                };
                if works {
                    focused.activated(read)
                } else {
                    focused
                }
            },
        }
    }

    pub open spec fn after_mouse(
        self,
        kind: MouseEventKind,
        hit: Option<SettingsHit>,
        read: SettingsRead,
    ) -> SettingsWorld {
        match kind {
            MouseEventKind::LeftDown => match hit {
                Some(SettingsHit::Choice(index)) => self.chosen(index as int, read),
                Some(SettingsHit::Control(control)) => self.control_clicked(control, read),
                None => self,
            },
            MouseEventKind::ScrollUp => match self.d.form {
                Some(form) => self.with(form.details_scrolled(-1)),
                None => self,
            },
            MouseEventKind::ScrollDown => match self.d.form {
                Some(form) => self.with(form.details_scrolled(1)),
                None => self,
            },
            MouseEventKind::Other => self,
        }
    }

    /// Dismissal closes an open list first. Else the layer closes, and what was
    /// previewed is rolled back to the settings in effect.
    pub open spec fn dismissed(self) -> (SettingsWorld, Step) {
        match self.d.form {
            Some(form) => if form.dropdown is Some {
                self.on_form(FormModel { dropdown: None, ..form })
            } else {
                (
                    SettingsWorld {
                        d: SettingsModel { open: false, form: None, ..self.d },
                        a: form.context.effective(),
                    },
                    Step::Done(Outcome::Close),
                )
            },
            None => (
                SettingsWorld { d: SettingsModel { open: false, ..self.d }, a: self.a },
                Step::Done(Outcome::Close),
            ),
        }
    }

    pub open spec fn after_event(self, event: Event<SettingsHit>, read: SettingsRead) -> (
        SettingsWorld,
        Step,
    ) {
        match event {
            Event::Key(key) => self.after_key(key, read),
            Event::Mouse { kind, hit } => (
                self.after_mouse(kind, hit, read),
                Step::Done(Outcome::Consumed),
            ),
            Event::Dismiss => self.dismissed(),
            _ => (self, Step::Done(Outcome::Ignored)),
        }
    }
}

impl SettingsModel {
    /// The layer opens on the saved settings, where it was given any.
    pub open spec fn opened(self, zones: Seq<Seq<char>>, geometry: SettingsGeometry) -> SettingsModel {
        match self.context {
            None => self,
            Some(context) => SettingsModel {
                open: true,
                next_generation: if self.next_generation < u64::MAX {
                    self.next_generation + 1
                } else {
                    self.next_generation
                },
                form: Some(
                    FormModel {
                        generation: self.next_generation,
                        selected: 0,
                        focus: SettingsControl::Field(SettingsField::Provider),
                        draft: context.saved,
                        context,
                        saving: false,
                        status_kind: SettingsStatus::Saved,
                        status: "Saved settings loaded; cache-limit changes apply after restart"@,
                        dropdown: None,
                        choice_selected: 0,
                        zone_custom: !zones.contains(context.saved.display_zone),
                        last_valid_zone: context.effective_display_zone,
                        details_scroll: 0,
                        details_scroll_limit: 0,
                    },
                ),
                cursors: Carets::none(),
                geometry,
                ..self
            },
        }
    }

    /// A save succeeded. The dialog that asked for it takes over what was
    /// saved; a newer one keeps its draft and its preview, and only what it
    /// would roll back to moves on.
    pub open spec fn save_completed(self, generation: int, context: ContextModel) -> (
        SettingsModel,
        AppearanceModel,
        Option<Seq<char>>,
    ) {
        let after = SettingsModel { context: Some(context), ..self };
        match self.form {
            None => (after, context.effective(), Some(context.restart_status())),
            Some(form) => if form.generation == generation {
                (
                    SettingsModel {
                        form: Some(
                            FormModel {
                                saving: false,
                                draft: context.saved,
                                context,
                                last_valid_zone: context.effective_display_zone,
                                status_kind: SettingsStatus::Saved,
                                status: context.restart_status(),
                                details_scroll: 0,
                                ..form
                            },
                        ),
                        ..after
                    },
                    context.effective(),
                    None,
                )
            } else {
                (
                    SettingsModel { form: Some(FormModel { context, ..form }), ..after },
                    form.draft.preview(form.last_valid_zone),
                    Some(context.restart_status()),
                )
            },
        }
    }

    /// A save failed; whether a dialog reports it.
    pub open spec fn save_failed(self, generation: int, error: Seq<char>) -> (SettingsModel, bool) {
        if self.form is Some && self.form->0.generation == generation {
            (
                SettingsModel {
                    form: Some(
                        FormModel { saving: false, ..self.form->0 }.refused(
                            "save failed: "@ + error,
                        ),
                    ),
                    ..self
                },
                true,
            )
        } else {
            (self, false)
        }
    }
}

/// What the layer reads of the world around it.
#[derive(Clone, Copy, Debug)]
pub struct SettingsInput<'a> {
    pub zones: &'a Vec<ZoneChoice>,
    pub themes: usize,
    /// What is wrong with the zone of the draft, if anything.
    pub zone_error: &'a Option<String>,
}

impl SettingsInput<'_> {
    pub open spec fn read(self) -> SettingsRead {
        SettingsRead {
            zones: zone_tokens(self.zones@),
            themes: self.themes as int,
            zone_error: some_text(*self.zone_error),
        }
    }
}

/// The layer and what the shell draws with.
pub open spec fn world(dialog: SettingsDialog, appearance: Appearance) -> SettingsWorld {
    SettingsWorld { d: dialog.model(), a: appearance.model() }
}

fn settings_controls(scrolls: bool) -> (r: Vec<SettingsControl>)
    ensures
        r@ == focus_order(scrolls),
        r@.len() > 0,
{
    let mut controls: Vec<SettingsControl> = Vec::new();
    controls.push(SettingsControl::Field(SettingsField::Provider));
    controls.push(SettingsControl::Field(SettingsField::Mode));
    controls.push(SettingsControl::Field(SettingsField::Thinking));
    controls.push(SettingsControl::Field(SettingsField::Theme));
    controls.push(SettingsControl::Field(SettingsField::DisplayZone));
    controls.push(SettingsControl::Field(SettingsField::Delight));
    controls.push(SettingsControl::Field(SettingsField::ReducedMotion));
    controls.push(SettingsControl::Field(SettingsField::Ascii));
    controls.push(SettingsControl::Field(SettingsField::RowCache));
    controls.push(SettingsControl::Field(SettingsField::Membership));
    controls.push(SettingsControl::Field(SettingsField::DiskTotal));
    controls.push(SettingsControl::Field(SettingsField::IndexPerSource));
    assert(controls@ =~= all_fields().map_values(
        |field: SettingsField| SettingsControl::Field(field),
    ));
    controls.push(SettingsControl::Save);
    if scrolls {
        controls.push(SettingsControl::More);
    }
    controls
}

fn find_settings_control(list: &Vec<SettingsControl>, control: SettingsControl) -> (r: usize)
    requires
        list@.len() > 0,
    ensures
        r == place_or_start(list@, control),
        r < list@.len(),
{
    let mut i: usize = 0;
    while i < list.len()
        invariant
            i <= list@.len(),
            place_from(list@, control, 0) == place_from(list@, control, i as int),
        decreases list.len() - i,
    {
        if list[i] == control {
            return i;
        }
        i += 1;
    }
    0
}

impl SettingsDialogState {
    fn note(&mut self, status_kind: SettingsStatus, status: &str)
        ensures
            final(self).model() == old(self).model().noted(status_kind, status@),
    {
        self.status_kind = status_kind;
        self.status = status.to_owned();
    }

    fn mark_settings_pending(&mut self)
        ensures
            final(self).model() == old(self).model().pending(),
    {
        self.note(SettingsStatus::Pending, "Changes are not saved");
    }

    fn refuse(&mut self, why: &str)
        ensures
            final(self).model() == old(self).model().refused(why@),
    {
        self.note(SettingsStatus::Error, why);
        self.details_scroll = 0;
    }

    fn set_focus(&mut self, control: SettingsControl)
        ensures
            final(self).model() == old(self).model().focused(control),
    {
        self.focus = control;
        if let SettingsControl::Field(field) = control {
            self.selected = field.index();
        }
    }

    fn move_focus(&mut self, delta: i32)
        ensures
            final(self).model() == old(self).model().focus_moved(delta as int),
    {
        let controls = settings_controls(self.details_scroll_limit > 0);
        let at: usize = find_settings_control(&controls, self.focus);
        let next: usize = move_index(at, controls.len(), delta);
        self.set_focus(controls[next]);
    }

    fn move_choice(&mut self, delta: i32, themes: usize, zones: usize)
        requires
            zones < usize::MAX,
        ensures
            final(self).model() == old(self).model().choice_moved(
                delta as int,
                themes as int,
                zones as int,
            ),
    {
        let count: usize = match self.dropdown {
            None => return,
            Some(SettingsField::Theme) => themes,
            Some(SettingsField::DisplayZone) => zones + 1,
            Some(_) => 0,
        };
        self.choice_selected = move_index(
            self.choice_selected,
            if count == 0 {
                1
            } else {
                count
            },
            delta,
        );
    }

    fn scroll_details(&mut self, delta: i32)
        ensures
            final(self).model() == old(self).model().details_scrolled(delta as int),
    {
        if self.focus == SettingsControl::More {
            self.details_scroll = scroll_by(self.details_scroll, self.details_scroll_limit, delta);
        }
    }

    fn text_field(&self) -> (r: Option<SettingsField>)
        ensures
            r == self.model().text_field(),
    {
        match self.focus {
            SettingsControl::Field(field) => if field.text_slot().is_some() {
                Some(field)
            } else {
                None
            },
            _ => None,
        }
    }

    fn toggle(&mut self, field: SettingsField)
        ensures
            final(self).model() == (FormModel {
                draft: old(self).model().draft.toggled(field),
                ..old(self).model()
            }),
    {
        match field {
            SettingsField::Delight => {
                self.draft.delight_enabled = !self.draft.delight_enabled;
            },
            SettingsField::ReducedMotion => {
                self.draft.reduced_motion = !self.draft.reduced_motion;
            },
            SettingsField::Ascii => {
                self.draft.ascii = !self.draft.ascii;
            },
            _ => {},
        }
    }

    fn choose_theme(&mut self, index: usize)
        ensures
            final(self).model() == (FormModel {
                draft: ValuesModel { theme: ThemeId { index }, ..old(self).model().draft },
                choice_selected: index as int,
                dropdown: None,
                ..old(self).model()
            }).pending(),
    {
        self.draft.theme = ThemeId { index };
        self.choice_selected = index;
        self.dropdown = None;
        self.mark_settings_pending();
    }

    fn choose_zone(&mut self, zone: &str, index: usize)
        ensures
            final(self).model() == (FormModel {
                zone_custom: false,
                draft: ValuesModel { display_zone: zone@, ..old(self).model().draft },
                last_valid_zone: zone@,
                choice_selected: index as int,
                dropdown: None,
                ..old(self).model()
            }).pending(),
    {
        self.zone_custom = false;
        self.draft.display_zone = zone.to_owned();
        self.last_valid_display_zone = zone.to_owned();
        self.choice_selected = index;
        self.dropdown = None;
        self.mark_settings_pending();
    }

    fn type_zone(&mut self, preset: bool, index: usize)
        ensures
            final(self).model() == (FormModel {
                zone_custom: true,
                draft: ValuesModel {
                    display_zone: if preset {
                        Seq::empty()
                    } else {
                        old(self).model().draft.display_zone
                    },
                    ..old(self).model().draft
                },
                choice_selected: index as int,
                dropdown: None,
                ..old(self).model()
            }).pending(),
    {
        self.zone_custom = true;
        if preset {
            self.draft.display_zone = String::new();
        }
        self.choice_selected = index;
        self.dropdown = None;
        self.mark_settings_pending();
    }

    fn preview(&self, display_zone: String) -> (r: Appearance)
        ensures
            r.model() == self.model().draft.preview(display_zone@),
    {
        Appearance {
            theme_id: self.draft.theme,
            delight_enabled: self.draft.delight_enabled,
            reduced_motion: self.draft.reduced_motion,
            ascii: self.draft.ascii,
            display_zone,
        }
    }
}

impl SettingsContext {
    fn effective(&self) -> (r: Appearance)
        ensures
            r.model() == self.model().effective(),
    {
        Appearance {
            theme_id: self.effective_theme,
            delight_enabled: self.effective_delight_enabled,
            reduced_motion: self.effective_reduced_motion,
            ascii: self.effective_ascii,
            display_zone: self.effective_display_zone.clone(),
        }
    }
}

impl SettingsDialog {
    fn push(&mut self, request: SettingsRequest)
        ensures
            final(self).model() == (SettingsModel {
                queue: old(self).model().queue.put(request.ask()),
                ..old(self).model()
            }),
    {
        let ghost before = self.outbox@.items;
        let _ = self.outbox.push(request);
        proof {
            let f = |r: SettingsRequest| r.ask();
            assert(before.push(request).map_values(f) =~= before.map_values(f).push(request.ask()));
            assert(self.model().queue =~= old(self).model().queue.put(request.ask()));
        }
    }

    fn cycle(&mut self, appearance: &mut Appearance, input: SettingsInput)
        ensures
            world(*final(self), *final(appearance)) == world(*old(self), *old(appearance)).cycled(
                input.read(),
            ),
    {
        if let Some(dialog) = &mut self.state {
            match dialog.focus {
                SettingsControl::Field(SettingsField::Theme) => {
                    dialog.choice_selected = if dialog.draft.theme.index < input.themes {
                        dialog.draft.theme.index
                    } else {
                        0
                    };
                    dialog.dropdown = Some(SettingsField::Theme);
                },
                SettingsControl::Field(SettingsField::DisplayZone) => {
                    dialog.choice_selected = find_zone(
                        input.zones,
                        dialog.draft.display_zone.as_str(),
                    );
                    dialog.dropdown = Some(SettingsField::DisplayZone);
                },
                SettingsControl::Field(field) => {
                    dialog.toggle(field);
                    dialog.mark_settings_pending();
                    let zone = if input.zone_error.is_none() {
                        dialog.draft.display_zone.clone()
                    } else {
                        dialog.last_valid_display_zone.clone()
                    };
                    *appearance = dialog.preview(zone);
                },
                _ => {},
            }
        }
    }

    fn save(&mut self, zone_error: &Option<String>, appearance: Ghost<AppearanceModel>)
        ensures
            (SettingsWorld { d: final(self).model(), a: appearance@ }) == (SettingsWorld {
                d: old(self).model(),
                a: appearance@,
            }).saved(some_text(*zone_error)),
    {
        let waiting: usize = self.outbox.len();
        let mut request: Option<SettingsRequest> = None;
        assert(self.model().queue.items.len() == waiting);
        if let Some(dialog) = &mut self.state {
            if let Some(error) = zone_error {
                dialog.refuse(error.as_str());
            } else if dialog.saving {
                dialog.note(SettingsStatus::Pending, "settings save already pending");
            } else if waiting >= SETTINGS_QUEUE_LIMIT {
                dialog.note(
                    SettingsStatus::Error,
                    "settings save queue is full; retry shortly",
                );
            } else {
                dialog.saving = true;
                dialog.note(SettingsStatus::Pending, "saving global settings\u{2026}");
                request =
                Some(
                    SettingsRequest {
                        generation: dialog.generation,
                        values: dialog.draft.copy(),
                    },
                );
            }
        }
        if let Some(request) = request {
            self.push(request);
        }
    }

    fn activate(&mut self, appearance: &mut Appearance, input: SettingsInput)
        ensures
            world(*final(self), *final(appearance)) == world(
                *old(self),
                *old(appearance),
            ).activated(input.read()),
    {
        let saves = match &self.state {
            None => return,
            Some(dialog) => match dialog.focus {
                SettingsControl::More => return,
                SettingsControl::Save => true,
                SettingsControl::Field(SettingsField::DisplayZone) => dialog.zone_custom,
                SettingsControl::Field(field) => field.text_slot().is_some(),
            },
        };
        if saves {
            self.save(input.zone_error, Ghost(appearance.model()));
        } else {
            self.cycle(appearance, input);
        }
    }

    fn choose_row(&mut self, index: usize, appearance: &mut Appearance, input: SettingsInput)
        ensures
            world(*final(self), *final(appearance)) == world(*old(self), *old(appearance)).chosen(
                index as int,
                input.read(),
            ),
    {
        let mut caret: Option<usize> = None;
        let ghost tokens = zone_tokens(input.zones@);
        if let Some(dialog) = &mut self.state {
            match dialog.dropdown {
                Some(SettingsField::Theme) => {
                    if index < input.themes {
                        dialog.choose_theme(index);
                        appearance.theme_id = ThemeId { index };
                    }
                },
                Some(SettingsField::DisplayZone) => {
                    if index < input.zones.len() {
                        assert(tokens[index as int] == input.zones@[index as int].token@);
                        dialog.choose_zone(input.zones[index].token.as_str(), index);
                        appearance.display_zone = input.zones[index].token.clone();
                    } else if index == input.zones.len() {
                        let preset = find_zone(input.zones, dialog.draft.display_zone.as_str())
                            < input.zones.len();
                        dialog.type_zone(preset, index);
                        caret = Some(dialog.draft.display_zone.as_str().unicode_len());
                    }
                },
                _ => {},
            }
        }
        if let Some(place) = caret {
            self.cursors.put(SettingsField::DisplayZone, place);
        }
    }

    /// What a command to the field that has the focus works on: its text and
    /// caret.
    pub fn edit_target(&self) -> (r: Option<(String, usize)>)
        ensures
            match self.model().form {
                None => r is None,
                Some(form) => match form.text_field() {
                    None => r is None,
                    Some(field) => {
                        let text = form.draft.text(field);
                        &&& r matches Some((value, cursor))
                        &&& value@ == text
                        &&& cursor == match self.model().cursors.of(field) {
                            Some(place) => if place <= text.len() {
                                place as int
                            } else {
                                text.len() as int
                            },
                            None => text.len() as int,
                        }
                    },
                },
            },
    {
        match &self.state {
            None => None,
            Some(dialog) => match dialog.text_field() {
                None => None,
                Some(field) => {
                    let value = dialog.draft.text(field).to_owned();
                    let end: usize = value.as_str().unicode_len();
                    let cursor: usize = match self.cursors.get(field) {
                        Some(place) => if place <= end {
                            place
                        } else {
                            end
                        },
                        None => end,
                    };
                    Some((value, cursor))
                },
            },
        }
    }

    /// Takes over what came of a command to the field that has the focus;
    /// `zone_error` says what is wrong with its text as a zone.
    pub fn apply_edit(
        &mut self,
        edited: Edited,
        zone_error: &Option<String>,
        appearance: &mut Appearance,
    )
        ensures
            world(*final(self), *final(appearance)) == world(*old(self), *old(appearance)).edited(
                edited.value@,
                edited.cursor,
                edited.changed,
                some_text(*zone_error),
            ),
    {
        let mut target: Option<SettingsField> = None;
        if let Some(dialog) = &self.state {
            target = dialog.text_field();
        }
        let field = match target {
            Some(field) => field,
            None => return,
        };
        self.cursors.put(field, edited.cursor);
        if !edited.changed {
            return;
        }
        if let Some(dialog) = &mut self.state {
            let shown = edited.value.clone();
            let kept = edited.value.clone();
            dialog.draft.set_text(field, edited.value);
            if field == SettingsField::DisplayZone {
                if let Some(error) = zone_error {
                    dialog.refuse(error.as_str());
                } else {
                    appearance.display_zone = shown;
                    dialog.last_valid_display_zone = kept;
                    dialog.mark_settings_pending();
                }
            } else {
                dialog.mark_settings_pending();
            }
        }
    }

    fn edit(&self, command: EditCommand) -> (r: Step)
        ensures
            r == if self.model().form is Some && self.model().form->0.text_field() is Some {
                Step::Edit(command)
            } else {
                Step::Done(Outcome::Consumed)
            },
    {
        match &self.state {
            Some(dialog) => if dialog.text_field().is_some() {
                Step::Edit(command)
            } else {
                Step::Done(Outcome::Consumed)
            },
            None => Step::Done(Outcome::Consumed),
        }
    }

    fn move_focus(&mut self, delta: i32, appearance: Ghost<AppearanceModel>)
        ensures
            (SettingsWorld { d: final(self).model(), a: appearance@ }) == (SettingsWorld {
                d: old(self).model(),
                a: appearance@,
            }).focus_moved(delta as int),
    {
        if let Some(dialog) = &mut self.state {
            dialog.move_focus(delta);
        }
    }

    fn form_key(&mut self, key: KeyEvent, appearance: &mut Appearance, input: SettingsInput) -> (r:
        Step)
        requires
            key.spec_is_active(),
            old(self).model().form is Some ==> old(self).model().form->0.dropdown is None,
            !(key.modifiers.control && control_edit(key.code) is Some),
            !(old(self).model().form is Some && old(self).model().form->0.focus
                == SettingsControl::More && (key.code == KeyCode::Up || key.code
                == KeyCode::Down)),
        ensures
            (world(*final(self), *final(appearance)), r) == world(
                *old(self),
                *old(appearance),
            ).after_key(key, input.read()),
    {
        match key.code {
            KeyCode::Left => return self.edit(EditCommand::MoveLeft),
            KeyCode::Right => return self.edit(EditCommand::MoveRight),
            KeyCode::Up | KeyCode::BackTab => self.move_focus(-1, Ghost(appearance.model())),
            KeyCode::Down | KeyCode::Tab => self.move_focus(1, Ghost(appearance.model())),
            KeyCode::Enter => self.activate(appearance, input),
            KeyCode::Backspace => return self.edit(EditCommand::Backspace),
            KeyCode::Char(ch) => if ch == ' ' {
                self.cycle(appearance, input)
            } else if is_typed_char(&key) {
                return self.edit(EditCommand::Insert(ch));
            } else {
                return Step::Done(Outcome::Ignored);
            },
            _ => return Step::Done(Outcome::Ignored),
        }
        Step::Done(Outcome::Consumed)
    }

    pub fn key(&mut self, key: KeyEvent, appearance: &mut Appearance, input: SettingsInput) -> (r:
        Step)
        requires
            input.zones@.len() < usize::MAX,
        ensures
            (world(*final(self), *final(appearance)), r) == world(
                *old(self),
                *old(appearance),
            ).after_key(key, input.read()),
    {
        if !key.is_active() {
            return Step::Done(Outcome::Ignored);
        }
        assert(zone_tokens(input.zones@).len() == input.zones@.len());
        let mut chosen: Option<usize> = None;
        let mut list_open = false;
        if let Some(dialog) = &mut self.state {
            if dialog.dropdown.is_some() {
                list_open = true;
                match key.code {
                    KeyCode::Up => dialog.move_choice(-1, input.themes, input.zones.len()),
                    KeyCode::Down => dialog.move_choice(1, input.themes, input.zones.len()),
                    KeyCode::Enter => {
                        chosen = Some(dialog.choice_selected);
                    },
                    _ => {},
                }
            }
        }
        if list_open {
            if let Some(index) = chosen {
                self.choose_row(index, appearance, input);
            }
            return Step::Done(Outcome::Consumed);
        }
        if key.modifiers.control {
            if let Some(command) = control_edit_for(key.code) {
                return self.edit(command);
            }
        }
        if let Some(dialog) = &mut self.state {
            if dialog.focus == SettingsControl::More {
                match key.code {
                    KeyCode::Up => {
                        dialog.scroll_details(-1);
                        return Step::Done(Outcome::Consumed);
                    },
                    KeyCode::Down => {
                        dialog.scroll_details(1);
                        return Step::Done(Outcome::Consumed);
                    },
                    _ => {},
                }
            }
        }
        self.form_key(key, appearance, input)
    }

    fn click_control(
        &mut self,
        control: SettingsControl,
        appearance: &mut Appearance,
        input: SettingsInput,
    )
        ensures
            world(*final(self), *final(appearance)) == world(
                *old(self),
                *old(appearance),
            ).control_clicked(control, input.read()),
    {
        let mut works = false;
        if let Some(dialog) = &mut self.state {
            works =
            match control {
                SettingsControl::Save => true,
                SettingsControl::More => false,
                SettingsControl::Field(SettingsField::DisplayZone) => !dialog.zone_custom,
                SettingsControl::Field(field) => field.text_slot().is_none(),
            };
            if !(control == SettingsControl::More && dialog.details_scroll_limit == 0) {
                dialog.set_focus(control);
            }
        }
        if works {
            self.activate(appearance, input);
        }
    }

    fn wheel(&mut self, delta: i32)
        ensures
            final(self).model() == (SettingsModel {
                form: match old(self).model().form {
                    Some(form) => Some(form.details_scrolled(delta as int)),
                    None => None,
                },
                ..old(self).model()
            }),
    {
        if let Some(dialog) = &mut self.state {
            dialog.scroll_details(delta);
        }
    }

    pub fn mouse(
        &mut self,
        kind: MouseEventKind,
        hit: Option<SettingsHit>,
        appearance: &mut Appearance,
        input: SettingsInput,
    )
        ensures
            world(*final(self), *final(appearance)) == world(
                *old(self),
                *old(appearance),
            ).after_mouse(kind, hit, input.read()),
    {
        match kind {
            MouseEventKind::LeftDown => match hit {
                Some(SettingsHit::Choice(index)) => self.choose_row(index, appearance, input),
                Some(SettingsHit::Control(control)) => self.click_control(
                    control,
                    appearance,
                    input,
                ),
                None => {},
            },
            MouseEventKind::ScrollUp => self.wheel(-1),
            MouseEventKind::ScrollDown => self.wheel(1),
            MouseEventKind::Other => {},
        }
    }

    fn dismiss(&mut self, appearance: &mut Appearance) -> (r: Step)
        ensures
            (world(*final(self), *final(appearance)), r) == world(
                *old(self),
                *old(appearance),
            ).dismissed(),
    {
        if let Some(dialog) = &mut self.state {
            if dialog.dropdown.is_some() {
                dialog.dropdown = None;
                return Step::Done(Outcome::Consumed);
            }
            *appearance = dialog.context.effective();
        }
        self.state = None;
        self.open = false;
        Step::Done(Outcome::Close)
    }

    pub fn handle(
        &mut self,
        event: Event<SettingsHit>,
        appearance: &mut Appearance,
        input: SettingsInput,
    ) -> (r: Step)
        requires
            input.zones@.len() < usize::MAX,
        ensures
            (world(*final(self), *final(appearance)), r) == world(
                *old(self),
                *old(appearance),
            ).after_event(event, input.read()),
    {
        match event {
            Event::Key(key) => self.key(key, appearance, input),
            Event::Mouse { kind, hit } => {
                self.mouse(kind, hit, appearance, input);
                Step::Done(Outcome::Consumed)
            },
            Event::Dismiss => self.dismiss(appearance),
            Event::Command(_) | Event::Paste(_) | Event::View(_) | Event::Resize => Step::Done(
                Outcome::Ignored,
            ),
        }
    }

    /// The settings in effect, as the shell resolved them.
    pub fn configure(&mut self, context: SettingsContext)
        ensures
            final(self).model() == (SettingsModel {
                context: Some(context.model()),
                ..old(self).model()
            }),
    {
        self.context = Some(context);
    }

    /// Whether the layer has anything to show.
    pub fn is_configured(&self) -> (r: bool)
        ensures
            r == (self.model().context is Some),
    {
        self.context.is_some()
    }

    pub fn is_open(&self) -> (r: bool)
        ensures
            r == self.model().open,
    {
        self.open
    }

    pub fn open(&mut self, zones: &Vec<ZoneChoice>)
        ensures
            old(self).model().context is Some ==> final(self).model().geometry.blank(),
            final(self).model() == old(self).model().opened(
                zone_tokens(zones@),
                final(self).model().geometry,
            ),
    {
        let context = match &self.context {
            Some(context) => context.copy(),
            None => return,
        };
        let generation: u64 = self.next_generation;
        self.next_generation = generation.saturating_add(1);
        let zone_custom = find_zone(zones, context.saved.display_zone.as_str()) >= zones.len();
        let last_valid_display_zone = context.effective_display_zone.clone();
        let draft = context.saved.copy();
        self.state =
        Some(
            SettingsDialogState {
                generation,
                selected: 0,
                focus: SettingsControl::Field(SettingsField::Provider),
                draft,
                context,
                saving: false,
                status_kind: SettingsStatus::Saved,
                status: "Saved settings loaded; cache-limit changes apply after restart".to_owned(),
                dropdown: None,
                choice_selected: 0,
                zone_custom,
                last_valid_display_zone,
                details_scroll: 0,
                details_scroll_limit: 0,
            },
        );
        self.cursors = Carets::blank();
        self.geometry = SettingsGeometry { controls: Vec::new(), choices: Vec::new() };
        self.open = true;
    }

    /// A save that succeeded.
    pub fn complete_save(&mut self, generation: u64, context: SettingsContext) -> (r: SaveCompletion)
        ensures
            (final(self).model(), r.appearance.model(), some_text(r.notice)) == old(
                self,
            ).model().save_completed(generation as int, context.model()),
    {
        let mut notice: Option<String> = None;
        let mut appearance = context.effective();
        if let Some(dialog) = &mut self.state {
            if dialog.generation == generation {
                dialog.saving = false;
                dialog.draft = context.saved.copy();
                dialog.context = context.copy();
                dialog.last_valid_display_zone = context.effective_display_zone.clone();
                dialog.status_kind = SettingsStatus::Saved;
                dialog.status = settings_restart_status(&context);
                dialog.details_scroll = 0;
            } else {
                dialog.context = context.copy();
                notice = Some(settings_restart_status(&context));
                appearance = dialog.preview(dialog.last_valid_display_zone.clone());
            }
        } else {
            notice = Some(settings_restart_status(&context));
        }
        self.context = Some(context);
        SaveCompletion { appearance, notice }
    }

    /// A save that failed; whether the open dialog reports it.
    pub fn fail_save(&mut self, generation: u64, error: &str) -> (r: bool)
        ensures
            (final(self).model(), r) == old(self).model().save_failed(generation as int, error@),
    {
        if let Some(dialog) = &mut self.state {
            if dialog.generation == generation {
                let mut why = "save failed: ".to_owned();
                why.append(error);
                dialog.saving = false;
                dialog.refuse(why.as_str());
                return true;
            }
        }
        false
    }

    /// Where the caret of a field stands, or the end of its value.
    pub fn caret_of(&self, field: SettingsField, value: &str) -> (r: usize)
        ensures
            r == match self.model().cursors.of(field) {
                Some(place) => place as int,
                None => value@.len() as int,
            },
    {
        match self.cursors.get(field) {
            Some(place) => place,
            None => value.unicode_len(),
        }
    }
}

} // verus!
