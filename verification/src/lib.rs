//! Status-bar blocks for a tiling window manager: a split-orientation
//! indicator driven by window-manager events, shell-command toggle blocks,
//! and the icon tables the bar renders with.

mod ids;
pub mod icons;
pub mod nightlight;
pub mod split;
pub mod strutil;
pub mod toggle;
pub mod widget;
