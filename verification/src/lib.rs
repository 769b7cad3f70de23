//! Input-capture and command-dispatch core of a screen reader.
//!
//! The crate models the keyboard and mouse interception pipeline: raw
//! virtual-key codes are decoded into a closed symbolic key set, pressed
//! state is tracked per key, chords registered by capabilities are matched
//! against the tracked state, and the winning capability is selected for
//! dispatch.  A separate hub de-duplicates semantic events by fingerprint
//! within a time window.

pub mod combo;
pub mod capture;
pub mod commander;
pub mod configs;
pub mod event_core;
pub mod ibmeci;
pub mod keys;
pub mod modifiers;
pub mod talent;
pub mod tracker;

use vstd::prelude::*;

verus! {

} // verus!
