# niri_core

The decisions behind two parts of a Wayland compositor, written in Verus and proved against their
contracts.

- `src/leap_gesture/` recognizes hand gestures in a stream of tracking frames: pinches, swipes,
  finger-count poses, grab-drags and the presence of each hand. `recognizer` says what one frame
  does to one hand, `laws` and `stream_laws` what follows over whole streams, `dispatch` what the
  compositor does about each event, and `service` how the connection to the tracking service is
  kept.
- `src/hotkey_overlay/` lists the important hotkeys: which actions appear in which section
  (`sections`), how keys and actions are called (`names`), what a screen reader says (`rows`), how
  sections flow into columns (`flow`), where everything goes (`layout`), and when the overlay has
  to be drawn anew (`overlay`).
- `src/measure.rs` holds a fraction as the bit pattern of a double. Comparing, negating and taking
  the absolute value are decided from the bits; sums, products and roots are left to the caller.

`app/` is ordinary Rust around the library: it talks to the tracking service, computes with
fractions, asks the keyboard library for names, and paints the overlay.
