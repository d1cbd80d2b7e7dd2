//! Keeps a window pinned to an edge of the screen: the rules, without the window system.
//!
//! The watch over the pinned window (`pin`), the reservation of its strip (`appbar`) and the start
//! with Windows (`startup`) are steps from a state and an event to the next state and an action.
//! Whoever uses them performs the action and hands back what it brings.

pub mod appbar;
pub mod commands;
pub mod geometry;
pub mod icon;
pub mod menu;
pub mod messages;
pub mod pin;
pub mod settings;
pub mod startup;
pub mod state;
pub mod text;
pub mod tray;
pub mod utf16;
pub mod win32;
pub mod windows;
