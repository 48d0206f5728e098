//! Dialog logic of a terminal log viewer: state machines, layouts and texts
//! of its dialogs, with every rule stated as a contract and proved.

pub mod component;
pub mod components;
pub mod delight;
pub mod details;
pub mod dialog_controls;
pub mod dialog_layout;
pub mod geometry;
pub mod input;
pub mod paint;
pub mod style;
pub mod text;
pub mod width;
