//! Verified core of a compositor's hand-tracking input and hotkey overlay.

pub mod hotkey_overlay;
pub mod leap_gesture;
pub mod measure;
pub mod text;
