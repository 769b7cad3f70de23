use vstd::prelude::*;
use crate::combo::{ComboKey, State};
use crate::keys::Keys;
use crate::modifiers::{ModifierKeys, MOD_RIGELA};

verus! {

/// A command declaration a capability supports.  Keyboard chords are the one
/// kind this core matches; touch and voice declarations are carried through
/// untouched.
#[derive(Debug, Clone, Copy, PartialEq, Eq, Structural)]
pub enum CommandType {
    Key(ComboKey),
    Touch,
    Voice,
}

/// The abstract interface of a capability: an identity, a documentation
/// string, and the command declarations it supports.
pub trait Talented {
    spec fn spec_id(&self) -> Seq<char>;

    spec fn spec_doc(&self) -> Seq<char>;

    spec fn spec_cmd_list(&self) -> Seq<CommandType>;

    /// The identity the capability is registered and overridden under.
    fn get_id(&self) -> (r: String)
        ensures
            r@ == self.spec_id(),
    ;

    /// The human-readable description of the capability.
    fn get_doc(&self) -> (r: String)
        ensures
            r@ == self.spec_doc(),
    ;

    /// The command declarations the capability supports.
    fn get_supported_cmd_list(&self) -> (r: Vec<CommandType>)
        ensures
            r@ == self.spec_cmd_list(),
    ;
}

/// Clicks at the position of the element under review.
pub struct ClickTalent;

/// The chord that activates a click: the numpad divide key alone.
pub open spec fn spec_click_combo() -> ComboKey {
    ComboKey {
        main_key: Keys::VkNumPadDiv,
        modify_keys: ModifierKeys { bits: 0 },
        state: State::SinglePress,
    }
}

impl Talented for ClickTalent {
    open spec fn spec_id(&self) -> Seq<char> {
        "click"@
    }

    open spec fn spec_doc(&self) -> Seq<char> {
        "Click the current element"@
    }

    open spec fn spec_cmd_list(&self) -> Seq<CommandType> {
        seq![CommandType::Key(spec_click_combo())]
    }

    fn get_id(&self) -> (r: String) {
        String::from_str("click")
    }

    fn get_doc(&self) -> (r: String) {
        String::from_str("Click the current element")
    }

    fn get_supported_cmd_list(&self) -> (r: Vec<CommandType>) {
        let combo = ComboKey::new(Keys::VkNumPadDiv, ModifierKeys::empty(), State::SinglePress);
        let mut v: Vec<CommandType> = Vec::new();
        v.push(CommandType::Key(combo));
        proof {
            assert(v@ =~= self.spec_cmd_list());
        }
        v
    }
}

/// Clicks with the secondary button at the element under review.
pub struct RightClickTalent;

/// The chord that activates a right click: the numpad multiply key alone.
pub open spec fn spec_right_click_combo() -> ComboKey {
    ComboKey {
        main_key: Keys::VkNumPadMul,
        modify_keys: ModifierKeys { bits: 0 },
        state: State::SinglePress,
    }
}

impl Talented for RightClickTalent {
    open spec fn spec_id(&self) -> Seq<char> {
        "right_click"@
    }

    open spec fn spec_doc(&self) -> Seq<char> {
        "Right-click the current element"@
    }

    open spec fn spec_cmd_list(&self) -> Seq<CommandType> {
        seq![CommandType::Key(spec_right_click_combo())]
    }

    fn get_id(&self) -> (r: String) {
        String::from_str("right_click")
    }

    fn get_doc(&self) -> (r: String) {
        String::from_str("Right-click the current element")
    }

    fn get_supported_cmd_list(&self) -> (r: Vec<CommandType>) {
        let combo = ComboKey::new(Keys::VkNumPadMul, ModifierKeys::empty(), State::SinglePress);
        let mut v: Vec<CommandType> = Vec::new();
        v.push(CommandType::Key(combo));
        proof {
            assert(v@ =~= self.spec_cmd_list());
        }
        v
    }
}

/// Toggles reading of the element under the mouse while it moves.
pub struct ReadMouseTalent;

/// The chord that toggles mouse reading: the primary modifier held with `M`.
pub open spec fn spec_read_mouse_combo() -> ComboKey {
    ComboKey {
        main_key: Keys::VkM,
        modify_keys: ModifierKeys { bits: MOD_RIGELA },
        state: State::SinglePress,
    }
}

impl Talented for ReadMouseTalent {
    open spec fn spec_id(&self) -> Seq<char> {
        "read_mouse"@
    }

    open spec fn spec_doc(&self) -> Seq<char> {
        "Toggle mouse reading"@
    }

    open spec fn spec_cmd_list(&self) -> Seq<CommandType> {
        seq![CommandType::Key(spec_read_mouse_combo())]
    }

    fn get_id(&self) -> (r: String) {
        String::from_str("read_mouse")
    }

    fn get_doc(&self) -> (r: String) {
        String::from_str("Toggle mouse reading")
    }

    fn get_supported_cmd_list(&self) -> (r: Vec<CommandType>) {
        let combo = ComboKey::new(
            Keys::VkM,
            ModifierKeys { bits: MOD_RIGELA },
            State::SinglePress,
        );
        let mut v: Vec<CommandType> = Vec::new();
        v.push(CommandType::Key(combo));
        proof {
            assert(v@ =~= self.spec_cmd_list());
        }
        v
    }
}

/// The registered data of one capability: what the matcher consults.
pub struct TalentEntry {
    pub id: String,
    pub doc: String,
    pub cmd_list: Vec<CommandType>,
}

impl TalentEntry {
    /// Capture a capability's data in registration form.
    pub fn from_talented<T: Talented>(t: &T) -> (r: TalentEntry)
        ensures
            r.id@ == t.spec_id(),
            r.doc@ == t.spec_doc(),
            r.cmd_list@ == t.spec_cmd_list(),
    {
        TalentEntry { id: t.get_id(), doc: t.get_doc(), cmd_list: t.get_supported_cmd_list() }
    }
}

/// The ordered list of every registered capability.  Registration order is
/// what breaks ties between chords satisfied at the same time.
pub struct TalentAccessor {
    pub talents: Vec<TalentEntry>,
}

impl TalentAccessor {
    /// Register the built-in capabilities, in their fixed order.
    pub fn new() -> (r: TalentAccessor)
        ensures
            r.talents@.len() == 3,
            r.talents@[0].id@ == "click"@,
            r.talents@[0].cmd_list@ == seq![CommandType::Key(spec_click_combo())],
            r.talents@[1].id@ == "right_click"@,
            r.talents@[1].cmd_list@ == seq![CommandType::Key(spec_right_click_combo())],
            r.talents@[2].id@ == "read_mouse"@,
            r.talents@[2].cmd_list@ == seq![CommandType::Key(spec_read_mouse_combo())],
    {
        let mut talents: Vec<TalentEntry> = Vec::new();
        talents.push(TalentEntry::from_talented(&ClickTalent));
        talents.push(TalentEntry::from_talented(&RightClickTalent));
        talents.push(TalentEntry::from_talented(&ReadMouseTalent));
        TalentAccessor { talents }
    }
}

} // verus!
