use vstd::prelude::*;
use crate::keys::{Keys, spec_key_from_code};
use crate::tracker::{KeyStateTracker, spec_pressed};

verus! {

/// What the hotkey-capture interceptor does with a raw key event.
#[derive(Debug, Clone, Copy, PartialEq, Eq, Structural)]
pub enum CaptureDecision {
    /// The event is handed on to the interception chain.
    PassThrough,
    /// Tab alone was pressed: the event is consumed and focus moves to the
    /// next control.
    NextControl,
    /// The event is consumed and the pressed keys replace the captured
    /// chord.
    NewHotkeys,
}

/// The keys of `s` that read as pressed, in tracking order.
pub open spec fn spec_pressed_list(s: Seq<(Keys, bool)>) -> Seq<Keys> {
    s.filter(|e: (Keys, bool)| e.1).map_values(|e: (Keys, bool)| e.0)
}

/// Captures a chord for the hotkey-customisation surface: while capture is
/// enabled, every set of simultaneously pressed keys replaces the captured
/// chord, and Tab alone steps to the next control instead.
pub struct HotkeysCapture {
    /// Pressed state per key, fed by the capture interceptor.
    pub tracker: KeyStateTracker,
    /// Whether key events are being captured; when off, everything passes
    /// through.
    pub enable_hook: bool,
    /// The captured chord.
    pub hotkeys: Vec<Keys>,
}

impl HotkeysCapture {
    /// A capture surface with nothing captured and capture disabled.
    pub fn new() -> (r: HotkeysCapture)
        ensures
            r.tracker.wf(),
            forall|k: Keys| !spec_pressed(r.tracker@, k),
            !r.enable_hook,
            r.hotkeys@.len() == 0,
    {
        HotkeysCapture { tracker: KeyStateTracker::new(), enable_hook: false, hotkeys: Vec::new() }
    }

    /// Turn capturing on or off.
    pub fn set_capture(&mut self, enabled: bool)
        ensures
            final(self).enable_hook == enabled,
            final(self).tracker == old(self).tracker,
            final(self).hotkeys == old(self).hotkeys,
    {
        self.enable_hook = enabled;
    }

    /// The captured chord.
    pub fn hotkeys(&self) -> (r: &Vec<Keys>)
        ensures
            r@ == self.hotkeys@,
    {
        &self.hotkeys
    }

    /// Fold a raw keyboard transition in and decide what happens to the
    /// event.  Releases and events outside capture pass through; a press
    /// of Tab as the only pressed key consumes the event and steps to the
    /// next control; any other press consumes the event and replaces the
    /// captured chord with every key then pressed.
    pub fn process_key_event(&mut self, code: u32, ext: bool, pressed: bool) -> (r:
        CaptureDecision)
        requires
            old(self).tracker.wf(),
        ensures
            final(self).tracker.wf(),
            forall|k2: Keys|
                spec_pressed(final(self).tracker@, k2) == (if k2 == spec_key_from_code(
                    code,
                    ext,
                ) {
                    pressed
                } else {
                    spec_pressed(old(self).tracker@, k2)
                }),
            r == (if !pressed || !old(self).enable_hook {
                CaptureDecision::PassThrough
            } else if spec_pressed_list(final(self).tracker@) == seq![Keys::VkTab] {
                CaptureDecision::NextControl
            } else {
                CaptureDecision::NewHotkeys
            }),
            final(self).hotkeys@ == (if r == CaptureDecision::NewHotkeys {
                spec_pressed_list(final(self).tracker@)
            } else {
                old(self).hotkeys@
            }),
            final(self).enable_hook == old(self).enable_hook,
    {
        let k = Keys::from_code(code, ext);
        self.tracker.set_key(k, pressed);
        if !pressed {
            return CaptureDecision::PassThrough;
        }
        if !self.enable_hook {
            return CaptureDecision::PassThrough;
        }
        let keys = self.tracker.pressed_keys();
        if keys.len() == 1 && keys[0] == Keys::VkTab {
            proof {
                assert(spec_pressed_list(self.tracker@) =~= seq![Keys::VkTab]);
            }
            return CaptureDecision::NextControl;
        }
        proof {
            if spec_pressed_list(self.tracker@) == seq![Keys::VkTab] {
                assert(keys@[0] == seq![Keys::VkTab][0]);
                assert(false);
            }
        }
        self.hotkeys = keys;
        CaptureDecision::NewHotkeys
    }
}

} // verus!
