//! Widgets that the user acts on: buttons, dropdowns and dialogs.
pub mod button;
pub mod drop_down;
pub mod modal;
