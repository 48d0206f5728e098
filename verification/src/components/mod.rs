//! The dialogs. Each owns its state, its keymap, its geometry and its outbox.

pub mod discovery;
pub mod investigation;
pub mod recipes;
pub mod settings;
pub mod source;
pub mod storage;
pub mod time;
pub mod union;
pub mod union_dialog;
pub mod view;
pub mod view_summary;

use crate::component::LayerId;
use crate::components::settings::SettingsDialog;
use crate::components::storage::StorageDialog;
use crate::components::time::TimeDialog;
use vstd::prelude::*;

verus! {

/// One slot for each dialog, and the layers that are shown, the topmost last.
#[derive(Debug)]
pub struct Layers {
    pub storage: StorageDialog,
    pub time: TimeDialog,
    pub settings: SettingsDialog,
    pub stack: Vec<LayerId>,
}

impl Default for Layers {
    fn default() -> (r: Layers)
        ensures
            r.stack@.len() == 0,
            !r.time.model().open,
            !r.settings.model().open,
    {
        Layers {
            storage: StorageDialog::default(),
            time: TimeDialog::default(),
            settings: SettingsDialog::default(),
            stack: Vec::new(),
        }
    }
}

impl Layers {
    /// The layer that takes the keys.
    pub fn top(&self) -> (r: Option<LayerId>)
        ensures
            r == if self.stack@.len() > 0 {
                Some(self.stack@.last())
            } else {
                None
            },
    {
        if self.stack.len() > 0 {
            Some(self.stack[self.stack.len() - 1])
        } else {
            None
        }
    }
}

} // verus!
