//! Leap Motion (Ultraleap) hand-tracking gesture recognition.
//!
//! The tracking service does perception: it turns stereo IR images into per-hand skeletal frames
//! carrying palm position and velocity and `pinch_strength` / `grab_strength` scalars. This module
//! does intent: a hysteresis state machine over those frames that recognizes the `Leap*` bind
//! families:
//!
//!   - `LeapPinch`: pinch strength crosses the trigger threshold (discrete, re-arms below the
//!     release threshold)
//!   - `LeapSwipe`: palm speed crosses the trigger speed along a screen axis (discrete, re-arms
//!     when the palm slows down)
//!   - `LeapGrabDrag`: fist closes, palm displacement drives a continuous action; the axis latches
//!     on the first dominant movement
//!   - `LeapPresence`: debounced hand appear/vanish
//!   - `LeapPose`: N extended fingers held steady on a still palm (fires once per stable count,
//!     re-arms when the count changes)
//!
//! Coordinate system (device flat on the desk, cable to the user's right): x grows to the user's
//! right, y grows straight up away from the device, z grows toward the user. Units are
//! millimeters.

pub mod dispatch;
pub mod dispatch_laws;
pub mod frame_laws;
pub mod laws;
pub mod recognizer;
pub mod service;
pub mod stream_laws;
pub mod types;
