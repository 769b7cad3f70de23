use vstd::prelude::*;
use crate::keys::{Keys, spec_is_modifier};

verus! {

/// Bit for the dedicated primary modifier key.
pub const MOD_RIGELA: u8 = 1;

/// Bit for the Control class of keys.
pub const MOD_CTRL: u8 = 2;

/// Bit for the Shift class of keys.
pub const MOD_SHIFT: u8 = 4;

/// Bit for the Alt (menu) class of keys.
pub const MOD_ALT: u8 = 8;

/// Bit for the Windows class of keys.
pub const MOD_WIN: u8 = 16;

/// The modifier bit a key contributes; zero for a non-modifier key.
pub open spec fn spec_mod_mask(k: Keys) -> u8 {
    match k {
        Keys::VkRigelA => MOD_RIGELA,
        Keys::VkCtrl | Keys::VkControl => MOD_CTRL,
        Keys::VkShift | Keys::VkLshift | Keys::VkRshift => MOD_SHIFT,
        Keys::VkMenu | Keys::VkLmenu | Keys::VkRmenu => MOD_ALT,
        Keys::VkLwin | Keys::VkRwin => MOD_WIN,
        _ => 0,
    }
}

/// A set of chord modifiers: any of the primary key, Control, Shift, Alt and
/// the Windows keys, combinable by bitwise union.
#[derive(Debug, Clone, Copy, PartialEq, Eq, Structural, Hash)]
pub struct ModifierKeys {
    pub bits: u8,
}

impl ModifierKeys {
    /// The empty modifier set.
    pub fn empty() -> (r: ModifierKeys)
        ensures
            r.bits == 0,
    {
        ModifierKeys { bits: 0 }
    }

    /// The modifier set contributed by one key; empty for a non-modifier.
    pub fn from_key(k: Keys) -> (r: ModifierKeys)
        ensures
            r.bits == spec_mod_mask(k),
    {
        match k {
            Keys::VkRigelA => ModifierKeys { bits: MOD_RIGELA },
            Keys::VkCtrl | Keys::VkControl => ModifierKeys { bits: MOD_CTRL },
            Keys::VkShift | Keys::VkLshift | Keys::VkRshift => (
                ModifierKeys { bits: MOD_SHIFT }
            ),
            Keys::VkMenu | Keys::VkLmenu | Keys::VkRmenu => (
                ModifierKeys { bits: MOD_ALT }
            ),
            Keys::VkLwin | Keys::VkRwin => ModifierKeys { bits: MOD_WIN },
            _ => ModifierKeys { bits: 0 },
        }
    }

    /// Bitwise union with another modifier set.
    pub fn union(self, other: ModifierKeys) -> (r: ModifierKeys)
        ensures
            r.bits == self.bits | other.bits,
    {
        ModifierKeys { bits: self.bits | other.bits }
    }

    /// Whether every bit of `mask` is present.
    pub fn has(self, mask: u8) -> (r: bool)
        ensures
            r == (self.bits & mask == mask),
    {
        self.bits & mask == mask
    }

    /// The canonical key standing for each present modifier, in a fixed
    /// order: primary key, Control, Shift, Alt, Windows.
    pub open spec fn spec_keys(self) -> Seq<Keys> {
        let a = if self.bits & MOD_RIGELA == MOD_RIGELA {
            seq![Keys::VkRigelA]
        } else {
            Seq::empty()
        };
        let b = if self.bits & MOD_CTRL == MOD_CTRL {
            seq![Keys::VkCtrl]
        } else {
            Seq::empty()
        };
        let c = if self.bits & MOD_SHIFT == MOD_SHIFT {
            seq![Keys::VkShift]
        } else {
            Seq::empty()
        };
        let d = if self.bits & MOD_ALT == MOD_ALT {
            seq![Keys::VkMenu]
        } else {
            Seq::empty()
        };
        let e = if self.bits & MOD_WIN == MOD_WIN {
            seq![Keys::VkLwin]
        } else {
            Seq::empty()
        };
        a + b + c + d + e
    }

    /// The ordered key list standing for this modifier set.
    pub fn to_keys(self) -> (r: Vec<Keys>)
        ensures
            r@ == self.spec_keys(),
    {
        let mut keys: Vec<Keys> = Vec::new();
        if self.has(MOD_RIGELA) {
            keys.push(Keys::VkRigelA);
        }
        if self.has(MOD_CTRL) {
            keys.push(Keys::VkCtrl);
        }
        if self.has(MOD_SHIFT) {
            keys.push(Keys::VkShift);
        }
        if self.has(MOD_ALT) {
            keys.push(Keys::VkMenu);
        }
        if self.has(MOD_WIN) {
            keys.push(Keys::VkLwin);
        }
        proof {
            assert(keys@ =~= self.spec_keys());
        }
        keys
    }
}

/// A key contributes a modifier bit exactly when it is a chord modifier.
pub proof fn lemma_modifier_mask(k: Keys)
    ensures
        (spec_mod_mask(k) != 0) == spec_is_modifier(k),
{
}

} // verus!
