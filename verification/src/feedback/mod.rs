//! Widgets that report on work under way.
pub mod loading;
pub mod progress;
