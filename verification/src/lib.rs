//! Core of a retained-mode widget toolkit: geometry, style selectors,
//! discrete input events, a widget capability contract, and a composite
//! selectable-list widget (a combo box) with its leaf option entries.
//!
//! Drawing is expressed as a pure projection of widget state onto a
//! sequence of drawing commands; a rendering backend outside this crate
//! turns the commands into pixels.

pub mod combo_box;
pub mod draw;
pub mod entry;
pub mod event;
pub mod geometry;
pub mod layout;
pub mod selector;
pub mod widget;
