//! Spatial focus navigation and modal popups for terminal user interfaces.
//!
//! A tab is a set of rectangular widget areas with one cursor among them.
//! The cursor moves from area to area by directional keys, a focused widget
//! can be activated to receive keys itself, and a tab can hand all of its
//! input and drawing over to a child tab, a popup, until the child finishes
//! with or without a result.
//!
//! The crate holds the state and the decisions only. It draws nothing and
//! reads no input: a driver feeds it events and areas, and performs the
//! actions that come back.
//!
//! A key pass hands the event to `TabData::entry_keyhandler` and does what
//! the `KeyAction` says: it sends the event on to the proxy or the popup,
//! delivers what a finished popup left and hands the event in again, or
//! offers the key to the tab's own handler and, if that passes it on, to
//! the widget that `TabData::focused_widget` names.
//!
//! A drawing pass starts with `TabData::entry_render` and does what the
//! `RenderAction` says. Where the pass is the tab's own, it declares the
//! areas of the widgets with `TabData::set_map`, repairs the cursor with
//! `TabData::validate_pos`, and draws each widget in the frame that
//! `TabData::render` gives for it. `TabData::end_render` ends the pass.

pub mod areas;
pub mod focus;
pub mod geometry;
pub mod history;
pub mod keys;
pub mod modal;
pub mod popup;
pub mod render;
pub mod router;
pub mod tab;
pub mod tabbar;
