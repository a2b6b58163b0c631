//! Verified input translation between a windowing system and Dear ImGui.
//!
//! - [`keys`]: logical keys to ImGui keys.
//! - [`mouse`]: pointer buttons to ImGui mouse buttons.
//! - [`cursor`]: ImGui cursors to window cursor icons and commands.
//! - [`hidpi`]: the DPI mode in effect and the scaling decisions it makes.
//! - [`platform`]: the state kept between frames and the render-time cursor decision.
//! - [`events`]: discrete window events to the input events ImGui receives.
pub mod cursor;
pub mod events;
pub mod hidpi;
pub mod keys;
pub mod mouse;
pub mod platform;
