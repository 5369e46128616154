//! Widgets: each one knows its size and describes how it draws itself as a
//! list of terminal commands.

pub mod theme;
pub mod action;
pub mod accordion;
pub mod blank;
pub mod border;
pub mod button;
pub mod debug;
pub mod draw;
pub mod files;
pub mod frame;
pub mod label;
pub mod list;
pub mod piano;
pub mod styled;
pub mod toggle;
