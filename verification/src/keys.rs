use vstd::prelude::*;

verus! {

/// Closed set of symbolic key identities.
///
/// Two distinct physical keys may share one symbolic identity: the Insert
/// keys and Caps Lock all read as the dedicated primary key `VkRigelA`, and
/// the left and right Control keys both read as `VkCtrl`.  Extended-flag
/// codes from the numeric keypad get the dedicated `VkNumPad*` identities,
/// distinct from the top-row digits.  `VkNone` is the sentinel for every
/// unmapped input.
#[derive(Debug, Clone, Copy, PartialEq, Eq, Structural, Hash)]
pub enum Keys {
    VkRigelA,
    VkNumPad1,
    VkNumPad2,
    VkNumPad3,
    VkNumPad4,
    VkNumPad5,
    VkNumPad6,
    VkNumPad7,
    VkNumPad8,
    VkNumPad9,
    VkNumPadDiv,
    VkNumPadMul,
    VkCtrl,
    Vk0,
    Vk1,
    Vk2,
    Vk3,
    Vk4,
    Vk5,
    Vk6,
    Vk7,
    Vk8,
    Vk9,
    VkA,
    VkAbntC1,
    VkAbntC2,
    VkAccept,
    VkAdd,
    VkApps,
    VkAttn,
    VkB,
    VkBack,
    VkBrowserBack,
    VkBrowserFavorites,
    VkBrowserForward,
    VkBrowserHome,
    VkBrowserRefresh,
    VkBrowserSearch,
    VkBrowserStop,
    VkC,
    VkCancel,
    VkCapital,
    VkClear,
    VkControl,
    VkConvert,
    VkCrsel,
    VkD,
    VkDbeAlphanumeric,
    VkDbeCodeinput,
    VkDbeDbcschar,
    VkDbeDeterminestring,
    VkDbeEnterdlgconversionmode,
    VkDbeEnterimeconfigmode,
    VkDbeFlushstring,
    VkDbeHiragana,
    VkDbeKatakana,
    VkDbeNocodeinput,
    VkDbeRoman,
    VkDbeSbcschar,
    VkDecimal,
    VkDelete,
    VkDivide,
    VkDown,
    VkE,
    VkEnd,
    VkEscape,
    VkExecute,
    VkF,
    VkF1,
    VkF10,
    VkF11,
    VkF12,
    VkF13,
    VkF14,
    VkF15,
    VkF16,
    VkF17,
    VkF18,
    VkF19,
    VkF2,
    VkF20,
    VkF21,
    VkF22,
    VkF23,
    VkF24,
    VkF3,
    VkF4,
    VkF5,
    VkF6,
    VkF7,
    VkF8,
    VkF9,
    VkFinal,
    VkG,
    VkGamepadA,
    VkGamepadB,
    VkGamepadDpadDown,
    VkGamepadDpadLeft,
    VkGamepadDpadRight,
    VkGamepadDpadUp,
    VkGamepadLeftShoulder,
    VkGamepadLeftThumbstickButton,
    VkGamepadLeftThumbstickDown,
    VkGamepadLeftThumbstickLeft,
    VkGamepadLeftThumbstickRight,
    VkGamepadLeftThumbstickUp,
    VkGamepadLeftTrigger,
    VkGamepadMenu,
    VkGamepadRightShoulder,
    VkGamepadRightThumbstickButton,
    VkGamepadRightThumbstickDown,
    VkGamepadRightThumbstickLeft,
    VkGamepadRightThumbstickRight,
    VkGamepadRightThumbstickUp,
    VkGamepadRightTrigger,
    VkGamepadView,
    VkGamepadX,
    VkGamepadY,
    VkH,
    VkHangeul,
    VkHanja,
    VkHelp,
    VkHome,
    VkI,
    VkIco00,
    VkIcoClear,
    VkIcoHelp,
    VkImeOff,
    VkImeOn,
    VkJ,
    VkJunja,
    VkK,
    VkL,
    VkLaunchApp1,
    VkLaunchApp2,
    VkLaunchMail,
    VkLaunchMediaSelect,
    VkLbutton,
    VkLeft,
    VkLmenu,
    VkLshift,
    VkLwin,
    VkM,
    VkMbutton,
    VkMediaNextTrack,
    VkMediaPlayPause,
    VkMediaPrevTrack,
    VkMediaStop,
    VkMenu,
    VkModechange,
    VkMultiply,
    VkN,
    VkNavigationAccept,
    VkNavigationCancel,
    VkNavigationDown,
    VkNavigationLeft,
    VkNavigationMenu,
    VkNavigationRight,
    VkNavigationUp,
    VkNavigationView,
    VkNext,
    VkNonconvert,
    VkNumlock,
    VkNumpad0,
    VkNumpad1,
    VkNumpad2,
    VkNumpad3,
    VkNumpad4,
    VkNumpad5,
    VkNumpad6,
    VkNumpad7,
    VkNumpad8,
    VkNumpad9,
    VkO,
    VkOem1,
    VkOem102,
    VkOem2,
    VkOem3,
    VkOem4,
    VkOem5,
    VkOem6,
    VkOem7,
    VkOem8,
    VkOemAx,
    VkOemClear,
    VkOemComma,
    VkOemCusel,
    VkOemFjJisho,
    VkOemFjLoya,
    VkOemFjMasshou,
    VkOemFjRoya,
    VkOemFjTouroku,
    VkOemJump,
    VkOemMinus,
    VkOemPa1,
    VkOemPa2,
    VkOemPa3,
    VkOemPeriod,
    VkOemPlus,
    VkOemReset,
    VkOemWsctrl,
    VkP,
    VkPacket,
    VkPause,
    VkPrint,
    VkPrior,
    VkProcesskey,
    VkQ,
    VkR,
    VkRbutton,
    VkReturn,
    VkRight,
    VkRmenu,
    VkRshift,
    VkRwin,
    VkS,
    VkScroll,
    VkSelect,
    VkSeparator,
    VkShift,
    VkSleep,
    VkSnapshot,
    VkSpace,
    VkSubtract,
    VkT,
    VkTab,
    VkU,
    VkUp,
    VkV,
    VkVolumeDown,
    VkVolumeMute,
    VkVolumeUp,
    VkW,
    VkX,
    VkXbutton1,
    VkXbutton2,
    VkY,
    VkZ,
    VkNone,
}

/// What `Keys::from_code` returns for every (code, extended-flag) pair.
pub open spec fn spec_key_from_code(code: u32, ext: bool) -> Keys {
    match (code, ext) {
        (45u32, false) => Keys::VkRigelA,
        (45u32, true) => Keys::VkRigelA,
        (20u32, false) => Keys::VkRigelA,
        (35u32, false) => Keys::VkNumPad1,
        (40u32, false) => Keys::VkNumPad2,
        (34u32, false) => Keys::VkNumPad3,
        (37u32, false) => Keys::VkNumPad4,
        (12u32, false) => Keys::VkNumPad5,
        (39u32, false) => Keys::VkNumPad6,
        (36u32, false) => Keys::VkNumPad7,
        (38u32, false) => Keys::VkNumPad8,
        (33u32, false) => Keys::VkNumPad9,
        (111u32, true) => Keys::VkNumPadDiv,
        (106u32, false) => Keys::VkNumPadMul,
        (162u32, false) => Keys::VkCtrl,
        (163u32, true) => Keys::VkCtrl,
        (48u32, false) => Keys::Vk0,
        (49u32, false) => Keys::Vk1,
        (50u32, false) => Keys::Vk2,
        (51u32, false) => Keys::Vk3,
        (52u32, false) => Keys::Vk4,
        (53u32, false) => Keys::Vk5,
        (54u32, false) => Keys::Vk6,
        (55u32, false) => Keys::Vk7,
        (56u32, false) => Keys::Vk8,
        (57u32, false) => Keys::Vk9,
        (65u32, false) => Keys::VkA,
        (193u32, false) => Keys::VkAbntC1,
        (194u32, false) => Keys::VkAbntC2,
        (30u32, false) => Keys::VkAccept,
        (107u32, false) => Keys::VkAdd,
        (93u32, false) => Keys::VkApps,
        (246u32, false) => Keys::VkAttn,
        (66u32, false) => Keys::VkB,
        (8u32, false) => Keys::VkBack,
        (166u32, false) => Keys::VkBrowserBack,
        (171u32, false) => Keys::VkBrowserFavorites,
        (167u32, false) => Keys::VkBrowserForward,
        (172u32, false) => Keys::VkBrowserHome,
        (168u32, false) => Keys::VkBrowserRefresh,
        (170u32, false) => Keys::VkBrowserSearch,
        (169u32, false) => Keys::VkBrowserStop,
        (67u32, false) => Keys::VkC,
        (3u32, false) => Keys::VkCancel,
        (12u32, true) => Keys::VkClear,
        (17u32, false) => Keys::VkControl,
        (28u32, false) => Keys::VkConvert,
        (247u32, false) => Keys::VkCrsel,
        (68u32, false) => Keys::VkD,
        (240u32, false) => Keys::VkDbeAlphanumeric,
        (250u32, false) => Keys::VkDbeCodeinput,
        (244u32, false) => Keys::VkDbeDbcschar,
        (252u32, false) => Keys::VkDbeDeterminestring,
        (253u32, false) => Keys::VkDbeEnterdlgconversionmode,
        (248u32, false) => Keys::VkDbeEnterimeconfigmode,
        (249u32, false) => Keys::VkDbeFlushstring,
        (242u32, false) => Keys::VkDbeHiragana,
        (241u32, false) => Keys::VkDbeKatakana,
        (251u32, false) => Keys::VkDbeNocodeinput,
        (245u32, false) => Keys::VkDbeRoman,
        (243u32, false) => Keys::VkDbeSbcschar,
        (110u32, false) => Keys::VkDecimal,
        (46u32, false) => Keys::VkDelete,
        (111u32, false) => Keys::VkDivide,
        (40u32, true) => Keys::VkDown,
        (69u32, false) => Keys::VkE,
        (35u32, true) => Keys::VkEnd,
        (27u32, false) => Keys::VkEscape,
        (43u32, false) => Keys::VkExecute,
        (70u32, false) => Keys::VkF,
        (112u32, false) => Keys::VkF1,
        (121u32, false) => Keys::VkF10,
        (122u32, false) => Keys::VkF11,
        (123u32, false) => Keys::VkF12,
        (124u32, false) => Keys::VkF13,
        (125u32, false) => Keys::VkF14,
        (126u32, false) => Keys::VkF15,
        (127u32, false) => Keys::VkF16,
        (128u32, false) => Keys::VkF17,
        (129u32, false) => Keys::VkF18,
        (130u32, false) => Keys::VkF19,
        (113u32, false) => Keys::VkF2,
        (131u32, false) => Keys::VkF20,
        (132u32, false) => Keys::VkF21,
        (133u32, false) => Keys::VkF22,
        (134u32, false) => Keys::VkF23,
        (135u32, false) => Keys::VkF24,
        (114u32, false) => Keys::VkF3,
        (115u32, false) => Keys::VkF4,
        (116u32, false) => Keys::VkF5,
        (117u32, false) => Keys::VkF6,
        (118u32, false) => Keys::VkF7,
        (119u32, false) => Keys::VkF8,
        (120u32, false) => Keys::VkF9,
        (24u32, false) => Keys::VkFinal,
        (71u32, false) => Keys::VkG,
        (195u32, false) => Keys::VkGamepadA,
        (196u32, false) => Keys::VkGamepadB,
        (204u32, false) => Keys::VkGamepadDpadDown,
        (205u32, false) => Keys::VkGamepadDpadLeft,
        (206u32, false) => Keys::VkGamepadDpadRight,
        (203u32, false) => Keys::VkGamepadDpadUp,
        (200u32, false) => Keys::VkGamepadLeftShoulder,
        (209u32, false) => Keys::VkGamepadLeftThumbstickButton,
        (212u32, false) => Keys::VkGamepadLeftThumbstickDown,
        (214u32, false) => Keys::VkGamepadLeftThumbstickLeft,
        (213u32, false) => Keys::VkGamepadLeftThumbstickRight,
        (211u32, false) => Keys::VkGamepadLeftThumbstickUp,
        (201u32, false) => Keys::VkGamepadLeftTrigger,
        (207u32, false) => Keys::VkGamepadMenu,
        (199u32, false) => Keys::VkGamepadRightShoulder,
        (210u32, false) => Keys::VkGamepadRightThumbstickButton,
        (216u32, false) => Keys::VkGamepadRightThumbstickDown,
        (218u32, false) => Keys::VkGamepadRightThumbstickLeft,
        (217u32, false) => Keys::VkGamepadRightThumbstickRight,
        (215u32, false) => Keys::VkGamepadRightThumbstickUp,
        (202u32, false) => Keys::VkGamepadRightTrigger,
        (208u32, false) => Keys::VkGamepadView,
        (197u32, false) => Keys::VkGamepadX,
        (198u32, false) => Keys::VkGamepadY,
        (72u32, false) => Keys::VkH,
        (21u32, false) => Keys::VkHangeul,
        (25u32, false) => Keys::VkHanja,
        (47u32, false) => Keys::VkHelp,
        (36u32, true) => Keys::VkHome,
        (73u32, false) => Keys::VkI,
        (228u32, false) => Keys::VkIco00,
        (230u32, false) => Keys::VkIcoClear,
        (227u32, false) => Keys::VkIcoHelp,
        (26u32, false) => Keys::VkImeOff,
        (22u32, false) => Keys::VkImeOn,
        (74u32, false) => Keys::VkJ,
        (23u32, false) => Keys::VkJunja,
        (75u32, false) => Keys::VkK,
        (76u32, false) => Keys::VkL,
        (182u32, false) => Keys::VkLaunchApp1,
        (183u32, false) => Keys::VkLaunchApp2,
        (180u32, false) => Keys::VkLaunchMail,
        (181u32, false) => Keys::VkLaunchMediaSelect,
        (1u32, false) => Keys::VkLbutton,
        (37u32, true) => Keys::VkLeft,
        (164u32, false) => Keys::VkLmenu,
        (160u32, false) => Keys::VkLshift,
        (91u32, false) => Keys::VkLwin,
        (77u32, false) => Keys::VkM,
        (4u32, false) => Keys::VkMbutton,
        (176u32, false) => Keys::VkMediaNextTrack,
        (179u32, false) => Keys::VkMediaPlayPause,
        (177u32, false) => Keys::VkMediaPrevTrack,
        (178u32, false) => Keys::VkMediaStop,
        (18u32, false) => Keys::VkMenu,
        (31u32, false) => Keys::VkModechange,
        (106u32, true) => Keys::VkMultiply,
        (78u32, false) => Keys::VkN,
        (142u32, false) => Keys::VkNavigationAccept,
        (143u32, false) => Keys::VkNavigationCancel,
        (139u32, false) => Keys::VkNavigationDown,
        (140u32, false) => Keys::VkNavigationLeft,
        (137u32, false) => Keys::VkNavigationMenu,
        (141u32, false) => Keys::VkNavigationRight,
        (138u32, false) => Keys::VkNavigationUp,
        (136u32, false) => Keys::VkNavigationView,
        (34u32, true) => Keys::VkNext,
        (29u32, false) => Keys::VkNonconvert,
        (144u32, false) => Keys::VkNumlock,
        (96u32, false) => Keys::VkNumpad0,
        (97u32, false) => Keys::VkNumpad1,
        (98u32, false) => Keys::VkNumpad2,
        (99u32, false) => Keys::VkNumpad3,
        (100u32, false) => Keys::VkNumpad4,
        (101u32, false) => Keys::VkNumpad5,
        (102u32, false) => Keys::VkNumpad6,
        (103u32, false) => Keys::VkNumpad7,
        (104u32, false) => Keys::VkNumpad8,
        (105u32, false) => Keys::VkNumpad9,
        (79u32, false) => Keys::VkO,
        (186u32, false) => Keys::VkOem1,
        (226u32, false) => Keys::VkOem102,
        (191u32, false) => Keys::VkOem2,
        (192u32, false) => Keys::VkOem3,
        (219u32, false) => Keys::VkOem4,
        (220u32, false) => Keys::VkOem5,
        (221u32, false) => Keys::VkOem6,
        (222u32, false) => Keys::VkOem7,
        (223u32, false) => Keys::VkOem8,
        (225u32, false) => Keys::VkOemAx,
        (254u32, false) => Keys::VkOemClear,
        (188u32, false) => Keys::VkOemComma,
        (239u32, false) => Keys::VkOemCusel,
        (146u32, false) => Keys::VkOemFjJisho,
        (149u32, false) => Keys::VkOemFjLoya,
        (147u32, false) => Keys::VkOemFjMasshou,
        (150u32, false) => Keys::VkOemFjRoya,
        (148u32, false) => Keys::VkOemFjTouroku,
        (234u32, false) => Keys::VkOemJump,
        (189u32, false) => Keys::VkOemMinus,
        (235u32, false) => Keys::VkOemPa1,
        (236u32, false) => Keys::VkOemPa2,
        (237u32, false) => Keys::VkOemPa3,
        (190u32, false) => Keys::VkOemPeriod,
        (187u32, false) => Keys::VkOemPlus,
        (233u32, false) => Keys::VkOemReset,
        (238u32, false) => Keys::VkOemWsctrl,
        (80u32, false) => Keys::VkP,
        (231u32, false) => Keys::VkPacket,
        (19u32, false) => Keys::VkPause,
        (42u32, false) => Keys::VkPrint,
        (33u32, true) => Keys::VkPrior,
        (229u32, false) => Keys::VkProcesskey,
        (81u32, false) => Keys::VkQ,
        (82u32, false) => Keys::VkR,
        (2u32, false) => Keys::VkRbutton,
        (13u32, false) => Keys::VkReturn,
        (39u32, true) => Keys::VkRight,
        (165u32, false) => Keys::VkRmenu,
        (161u32, false) => Keys::VkRshift,
        (92u32, false) => Keys::VkRwin,
        (83u32, false) => Keys::VkS,
        (145u32, false) => Keys::VkScroll,
        (41u32, false) => Keys::VkSelect,
        (108u32, false) => Keys::VkSeparator,
        (16u32, false) => Keys::VkShift,
        (95u32, false) => Keys::VkSleep,
        (44u32, false) => Keys::VkSnapshot,
        (32u32, false) => Keys::VkSpace,
        (109u32, false) => Keys::VkSubtract,
        (84u32, false) => Keys::VkT,
        (9u32, false) => Keys::VkTab,
        (85u32, false) => Keys::VkU,
        (38u32, true) => Keys::VkUp,
        (86u32, false) => Keys::VkV,
        (174u32, false) => Keys::VkVolumeDown,
        (173u32, false) => Keys::VkVolumeMute,
        (175u32, false) => Keys::VkVolumeUp,
        (87u32, false) => Keys::VkW,
        (88u32, false) => Keys::VkX,
        (5u32, false) => Keys::VkXbutton1,
        (6u32, false) => Keys::VkXbutton2,
        (89u32, false) => Keys::VkY,
        (90u32, false) => Keys::VkZ,
        _ => Keys::VkNone,
    }
}

/// What `Keys::name` returns; keys without a short name read `NoneKey`.
pub open spec fn spec_key_name(k: Keys) -> Seq<char> {
    match k {
        Keys::VkRigelA => "RigelA"@,
        Keys::Vk0 => "0"@,
        Keys::Vk1 => "1"@,
        Keys::Vk2 => "2"@,
        Keys::Vk3 => "3"@,
        Keys::Vk4 => "4"@,
        Keys::Vk5 => "5"@,
        Keys::Vk6 => "6"@,
        Keys::Vk7 => "7"@,
        Keys::Vk8 => "8"@,
        Keys::Vk9 => "9"@,
        Keys::VkA => "A"@,
        Keys::VkB => "B"@,
        Keys::VkC => "C"@,
        Keys::VkD => "D"@,
        Keys::VkE => "E"@,
        Keys::VkF => "F"@,
        Keys::VkG => "G"@,
        Keys::VkH => "H"@,
        Keys::VkI => "I"@,
        Keys::VkJ => "J"@,
        Keys::VkK => "K"@,
        Keys::VkL => "L"@,
        Keys::VkM => "M"@,
        Keys::VkN => "N"@,
        Keys::VkO => "O"@,
        Keys::VkP => "P"@,
        Keys::VkQ => "Q"@,
        Keys::VkR => "R"@,
        Keys::VkS => "S"@,
        Keys::VkT => "T"@,
        Keys::VkU => "U"@,
        Keys::VkV => "V"@,
        Keys::VkW => "W"@,
        Keys::VkX => "X"@,
        Keys::VkY => "Y"@,
        Keys::VkZ => "Z"@,
        Keys::VkNone => "None"@,
        _ => "NoneKey"@,
    }
}

/// What `Keys::from_name` returns for every name.
pub open spec fn spec_key_from_name(s: Seq<char>) -> Keys {
    if s == "RigelA"@ {
        Keys::VkRigelA
    } else if s == "0"@ {
        Keys::Vk0
    } else if s == "1"@ {
        Keys::Vk1
    } else if s == "2"@ {
        Keys::Vk2
    } else if s == "3"@ {
        Keys::Vk3
    } else if s == "4"@ {
        Keys::Vk4
    } else if s == "5"@ {
        Keys::Vk5
    } else if s == "6"@ {
        Keys::Vk6
    } else if s == "7"@ {
        Keys::Vk7
    } else if s == "8"@ {
        Keys::Vk8
    } else if s == "9"@ {
        Keys::Vk9
    } else if s == "A"@ {
        Keys::VkA
    } else if s == "B"@ {
        Keys::VkB
    } else if s == "C"@ {
        Keys::VkC
    } else if s == "D"@ {
        Keys::VkD
    } else if s == "E"@ {
        Keys::VkE
    } else if s == "F"@ {
        Keys::VkF
    } else if s == "G"@ {
        Keys::VkG
    } else if s == "H"@ {
        Keys::VkH
    } else if s == "I"@ {
        Keys::VkI
    } else if s == "J"@ {
        Keys::VkJ
    } else if s == "K"@ {
        Keys::VkK
    } else if s == "L"@ {
        Keys::VkL
    } else if s == "M"@ {
        Keys::VkM
    } else if s == "N"@ {
        Keys::VkN
    } else if s == "O"@ {
        Keys::VkO
    } else if s == "P"@ {
        Keys::VkP
    } else if s == "Q"@ {
        Keys::VkQ
    } else if s == "R"@ {
        Keys::VkR
    } else if s == "S"@ {
        Keys::VkS
    } else if s == "T"@ {
        Keys::VkT
    } else if s == "U"@ {
        Keys::VkU
    } else if s == "V"@ {
        Keys::VkV
    } else if s == "W"@ {
        Keys::VkW
    } else if s == "X"@ {
        Keys::VkX
    } else if s == "Y"@ {
        Keys::VkY
    } else if s == "Z"@ {
        Keys::VkZ
    } else {
        Keys::VkNone
    }
}

/// Keys that act as chord modifiers rather than as a main key.
pub open spec fn spec_is_modifier(k: Keys) -> bool {
    k == Keys::VkRigelA
        || k == Keys::VkCtrl
        || k == Keys::VkControl
        || k == Keys::VkShift
        || k == Keys::VkLshift
        || k == Keys::VkRshift
        || k == Keys::VkMenu
        || k == Keys::VkLmenu
        || k == Keys::VkRmenu
        || k == Keys::VkLwin
        || k == Keys::VkRwin
}

impl Keys {
    /// Decode a platform (virtual-key code, extended-flag) pair.
    ///
    /// Total: every unmapped pair resolves to the `VkNone` sentinel,
    /// never to an error.
    pub fn from_code(code: u32, ext: bool) -> (r: Keys)
        ensures
            r == spec_key_from_code(code, ext),
    {
        match (code, ext) {
            (45, false) => Keys::VkRigelA,
            (45, true) => Keys::VkRigelA,
            (20, false) => Keys::VkRigelA,
            (35, false) => Keys::VkNumPad1,
            (40, false) => Keys::VkNumPad2,
            (34, false) => Keys::VkNumPad3,
            (37, false) => Keys::VkNumPad4,
            (12, false) => Keys::VkNumPad5,
            (39, false) => Keys::VkNumPad6,
            (36, false) => Keys::VkNumPad7,
            (38, false) => Keys::VkNumPad8,
            (33, false) => Keys::VkNumPad9,
            (111, true) => Keys::VkNumPadDiv,
            (106, false) => Keys::VkNumPadMul,
            (162, false) => Keys::VkCtrl,
            (163, true) => Keys::VkCtrl,
            (48, false) => Keys::Vk0,
            (49, false) => Keys::Vk1,
            (50, false) => Keys::Vk2,
            (51, false) => Keys::Vk3,
            (52, false) => Keys::Vk4,
            (53, false) => Keys::Vk5,
            (54, false) => Keys::Vk6,
            (55, false) => Keys::Vk7,
            (56, false) => Keys::Vk8,
            (57, false) => Keys::Vk9,
            (65, false) => Keys::VkA,
            (193, false) => Keys::VkAbntC1,
            (194, false) => Keys::VkAbntC2,
            (30, false) => Keys::VkAccept,
            (107, false) => Keys::VkAdd,
            (93, false) => Keys::VkApps,
            (246, false) => Keys::VkAttn,
            (66, false) => Keys::VkB,
            (8, false) => Keys::VkBack,
            (166, false) => Keys::VkBrowserBack,
            (171, false) => Keys::VkBrowserFavorites,
            (167, false) => Keys::VkBrowserForward,
            (172, false) => Keys::VkBrowserHome,
            (168, false) => Keys::VkBrowserRefresh,
            (170, false) => Keys::VkBrowserSearch,
            (169, false) => Keys::VkBrowserStop,
            (67, false) => Keys::VkC,
            (3, false) => Keys::VkCancel,
            (12, true) => Keys::VkClear,
            (17, false) => Keys::VkControl,
            (28, false) => Keys::VkConvert,
            (247, false) => Keys::VkCrsel,
            (68, false) => Keys::VkD,
            (240, false) => Keys::VkDbeAlphanumeric,
            (250, false) => Keys::VkDbeCodeinput,
            (244, false) => Keys::VkDbeDbcschar,
            (252, false) => Keys::VkDbeDeterminestring,
            (253, false) => Keys::VkDbeEnterdlgconversionmode,
            (248, false) => Keys::VkDbeEnterimeconfigmode,
            (249, false) => Keys::VkDbeFlushstring,
            (242, false) => Keys::VkDbeHiragana,
            (241, false) => Keys::VkDbeKatakana,
            (251, false) => Keys::VkDbeNocodeinput,
            (245, false) => Keys::VkDbeRoman,
            (243, false) => Keys::VkDbeSbcschar,
            (110, false) => Keys::VkDecimal,
            (46, false) => Keys::VkDelete,
            (111, false) => Keys::VkDivide,
            (40, true) => Keys::VkDown,
            (69, false) => Keys::VkE,
            (35, true) => Keys::VkEnd,
            (27, false) => Keys::VkEscape,
            (43, false) => Keys::VkExecute,
            (70, false) => Keys::VkF,
            (112, false) => Keys::VkF1,
            (121, false) => Keys::VkF10,
            (122, false) => Keys::VkF11,
            (123, false) => Keys::VkF12,
            (124, false) => Keys::VkF13,
            (125, false) => Keys::VkF14,
            (126, false) => Keys::VkF15,
            (127, false) => Keys::VkF16,
            (128, false) => Keys::VkF17,
            (129, false) => Keys::VkF18,
            (130, false) => Keys::VkF19,
            (113, false) => Keys::VkF2,
            (131, false) => Keys::VkF20,
            (132, false) => Keys::VkF21,
            (133, false) => Keys::VkF22,
            (134, false) => Keys::VkF23,
            (135, false) => Keys::VkF24,
            (114, false) => Keys::VkF3,
            (115, false) => Keys::VkF4,
            (116, false) => Keys::VkF5,
            (117, false) => Keys::VkF6,
            (118, false) => Keys::VkF7,
            (119, false) => Keys::VkF8,
            (120, false) => Keys::VkF9,
            (24, false) => Keys::VkFinal,
            (71, false) => Keys::VkG,
            (195, false) => Keys::VkGamepadA,
            (196, false) => Keys::VkGamepadB,
            (204, false) => Keys::VkGamepadDpadDown,
            (205, false) => Keys::VkGamepadDpadLeft,
            (206, false) => Keys::VkGamepadDpadRight,
            (203, false) => Keys::VkGamepadDpadUp,
            (200, false) => Keys::VkGamepadLeftShoulder,
            (209, false) => Keys::VkGamepadLeftThumbstickButton,
            (212, false) => Keys::VkGamepadLeftThumbstickDown,
            (214, false) => Keys::VkGamepadLeftThumbstickLeft,
            (213, false) => Keys::VkGamepadLeftThumbstickRight,
            (211, false) => Keys::VkGamepadLeftThumbstickUp,
            (201, false) => Keys::VkGamepadLeftTrigger,
            (207, false) => Keys::VkGamepadMenu,
            (199, false) => Keys::VkGamepadRightShoulder,
            (210, false) => Keys::VkGamepadRightThumbstickButton,
            (216, false) => Keys::VkGamepadRightThumbstickDown,
            (218, false) => Keys::VkGamepadRightThumbstickLeft,
            (217, false) => Keys::VkGamepadRightThumbstickRight,
            (215, false) => Keys::VkGamepadRightThumbstickUp,
            (202, false) => Keys::VkGamepadRightTrigger,
            (208, false) => Keys::VkGamepadView,
            (197, false) => Keys::VkGamepadX,
            (198, false) => Keys::VkGamepadY,
            (72, false) => Keys::VkH,
            (21, false) => Keys::VkHangeul,
            (25, false) => Keys::VkHanja,
            (47, false) => Keys::VkHelp,
            (36, true) => Keys::VkHome,
            (73, false) => Keys::VkI,
            (228, false) => Keys::VkIco00,
            (230, false) => Keys::VkIcoClear,
            (227, false) => Keys::VkIcoHelp,
            (26, false) => Keys::VkImeOff,
            (22, false) => Keys::VkImeOn,
            (74, false) => Keys::VkJ,
            (23, false) => Keys::VkJunja,
            (75, false) => Keys::VkK,
            (76, false) => Keys::VkL,
            (182, false) => Keys::VkLaunchApp1,
            (183, false) => Keys::VkLaunchApp2,
            (180, false) => Keys::VkLaunchMail,
            (181, false) => Keys::VkLaunchMediaSelect,
            (1, false) => Keys::VkLbutton,
            (37, true) => Keys::VkLeft,
            (164, false) => Keys::VkLmenu,
            (160, false) => Keys::VkLshift,
            (91, false) => Keys::VkLwin,
            (77, false) => Keys::VkM,
            (4, false) => Keys::VkMbutton,
            (176, false) => Keys::VkMediaNextTrack,
            (179, false) => Keys::VkMediaPlayPause,
            (177, false) => Keys::VkMediaPrevTrack,
            (178, false) => Keys::VkMediaStop,
            (18, false) => Keys::VkMenu,
            (31, false) => Keys::VkModechange,
            (106, true) => Keys::VkMultiply,
            (78, false) => Keys::VkN,
            (142, false) => Keys::VkNavigationAccept,
            (143, false) => Keys::VkNavigationCancel,
            (139, false) => Keys::VkNavigationDown,
            (140, false) => Keys::VkNavigationLeft,
            (137, false) => Keys::VkNavigationMenu,
            (141, false) => Keys::VkNavigationRight,
            (138, false) => Keys::VkNavigationUp,
            (136, false) => Keys::VkNavigationView,
            (34, true) => Keys::VkNext,
            (29, false) => Keys::VkNonconvert,
            (144, false) => Keys::VkNumlock,
            (96, false) => Keys::VkNumpad0,
            (97, false) => Keys::VkNumpad1,
            (98, false) => Keys::VkNumpad2,
            (99, false) => Keys::VkNumpad3,
            (100, false) => Keys::VkNumpad4,
            (101, false) => Keys::VkNumpad5,
            (102, false) => Keys::VkNumpad6,
            (103, false) => Keys::VkNumpad7,
            (104, false) => Keys::VkNumpad8,
            (105, false) => Keys::VkNumpad9,
            (79, false) => Keys::VkO,
            (186, false) => Keys::VkOem1,
            (226, false) => Keys::VkOem102,
            (191, false) => Keys::VkOem2,
            (192, false) => Keys::VkOem3,
            (219, false) => Keys::VkOem4,
            (220, false) => Keys::VkOem5,
            (221, false) => Keys::VkOem6,
            (222, false) => Keys::VkOem7,
            (223, false) => Keys::VkOem8,
            (225, false) => Keys::VkOemAx,
            (254, false) => Keys::VkOemClear,
            (188, false) => Keys::VkOemComma,
            (239, false) => Keys::VkOemCusel,
            (146, false) => Keys::VkOemFjJisho,
            (149, false) => Keys::VkOemFjLoya,
            (147, false) => Keys::VkOemFjMasshou,
            (150, false) => Keys::VkOemFjRoya,
            (148, false) => Keys::VkOemFjTouroku,
            (234, false) => Keys::VkOemJump,
            (189, false) => Keys::VkOemMinus,
            (235, false) => Keys::VkOemPa1,
            (236, false) => Keys::VkOemPa2,
            (237, false) => Keys::VkOemPa3,
            (190, false) => Keys::VkOemPeriod,
            (187, false) => Keys::VkOemPlus,
            (233, false) => Keys::VkOemReset,
            (238, false) => Keys::VkOemWsctrl,
            (80, false) => Keys::VkP,
            (231, false) => Keys::VkPacket,
            (19, false) => Keys::VkPause,
            (42, false) => Keys::VkPrint,
            (33, true) => Keys::VkPrior,
            (229, false) => Keys::VkProcesskey,
            (81, false) => Keys::VkQ,
            (82, false) => Keys::VkR,
            (2, false) => Keys::VkRbutton,
            (13, false) => Keys::VkReturn,
            (39, true) => Keys::VkRight,
            (165, false) => Keys::VkRmenu,
            (161, false) => Keys::VkRshift,
            (92, false) => Keys::VkRwin,
            (83, false) => Keys::VkS,
            (145, false) => Keys::VkScroll,
            (41, false) => Keys::VkSelect,
            (108, false) => Keys::VkSeparator,
            (16, false) => Keys::VkShift,
            (95, false) => Keys::VkSleep,
            (44, false) => Keys::VkSnapshot,
            (32, false) => Keys::VkSpace,
            (109, false) => Keys::VkSubtract,
            (84, false) => Keys::VkT,
            (9, false) => Keys::VkTab,
            (85, false) => Keys::VkU,
            (38, true) => Keys::VkUp,
            (86, false) => Keys::VkV,
            (174, false) => Keys::VkVolumeDown,
            (173, false) => Keys::VkVolumeMute,
            (175, false) => Keys::VkVolumeUp,
            (87, false) => Keys::VkW,
            (88, false) => Keys::VkX,
            (5, false) => Keys::VkXbutton1,
            (6, false) => Keys::VkXbutton2,
            (89, false) => Keys::VkY,
            (90, false) => Keys::VkZ,
            _ => Keys::VkNone,
        }
    }

    /// The canonical short name used for persistence and display.
    pub fn name(self) -> (r: String)
        ensures
            r@ == spec_key_name(self),
    {
        match self {
            Keys::VkRigelA => String::from_str("RigelA"),
            Keys::Vk0 => String::from_str("0"),
            Keys::Vk1 => String::from_str("1"),
            Keys::Vk2 => String::from_str("2"),
            Keys::Vk3 => String::from_str("3"),
            Keys::Vk4 => String::from_str("4"),
            Keys::Vk5 => String::from_str("5"),
            Keys::Vk6 => String::from_str("6"),
            Keys::Vk7 => String::from_str("7"),
            Keys::Vk8 => String::from_str("8"),
            Keys::Vk9 => String::from_str("9"),
            Keys::VkA => String::from_str("A"),
            Keys::VkB => String::from_str("B"),
            Keys::VkC => String::from_str("C"),
            Keys::VkD => String::from_str("D"),
            Keys::VkE => String::from_str("E"),
            Keys::VkF => String::from_str("F"),
            Keys::VkG => String::from_str("G"),
            Keys::VkH => String::from_str("H"),
            Keys::VkI => String::from_str("I"),
            Keys::VkJ => String::from_str("J"),
            Keys::VkK => String::from_str("K"),
            Keys::VkL => String::from_str("L"),
            Keys::VkM => String::from_str("M"),
            Keys::VkN => String::from_str("N"),
            Keys::VkO => String::from_str("O"),
            Keys::VkP => String::from_str("P"),
            Keys::VkQ => String::from_str("Q"),
            Keys::VkR => String::from_str("R"),
            Keys::VkS => String::from_str("S"),
            Keys::VkT => String::from_str("T"),
            Keys::VkU => String::from_str("U"),
            Keys::VkV => String::from_str("V"),
            Keys::VkW => String::from_str("W"),
            Keys::VkX => String::from_str("X"),
            Keys::VkY => String::from_str("Y"),
            Keys::VkZ => String::from_str("Z"),
            Keys::VkNone => String::from_str("None"),
            _ => String::from_str("NoneKey"),
        }
    }

    /// Decode a canonical short name; unknown names give the sentinel.
    pub fn from_name(s: &str) -> (r: Keys)
        ensures
            r == spec_key_from_name(s@),
    {
        let t: String = s.to_owned();
        if t == String::from_str("RigelA") {
            Keys::VkRigelA
        } else if t == String::from_str("0") {
            Keys::Vk0
        } else if t == String::from_str("1") {
            Keys::Vk1
        } else if t == String::from_str("2") {
            Keys::Vk2
        } else if t == String::from_str("3") {
            Keys::Vk3
        } else if t == String::from_str("4") {
            Keys::Vk4
        } else if t == String::from_str("5") {
            Keys::Vk5
        } else if t == String::from_str("6") {
            Keys::Vk6
        } else if t == String::from_str("7") {
            Keys::Vk7
        } else if t == String::from_str("8") {
            Keys::Vk8
        } else if t == String::from_str("9") {
            Keys::Vk9
        } else if t == String::from_str("A") {
            Keys::VkA
        } else if t == String::from_str("B") {
            Keys::VkB
        } else if t == String::from_str("C") {
            Keys::VkC
        } else if t == String::from_str("D") {
            Keys::VkD
        } else if t == String::from_str("E") {
            Keys::VkE
        } else if t == String::from_str("F") {
            Keys::VkF
        } else if t == String::from_str("G") {
            Keys::VkG
        } else if t == String::from_str("H") {
            Keys::VkH
        } else if t == String::from_str("I") {
            Keys::VkI
        } else if t == String::from_str("J") {
            Keys::VkJ
        } else if t == String::from_str("K") {
            Keys::VkK
        } else if t == String::from_str("L") {
            Keys::VkL
        } else if t == String::from_str("M") {
            Keys::VkM
        } else if t == String::from_str("N") {
            Keys::VkN
        } else if t == String::from_str("O") {
            Keys::VkO
        } else if t == String::from_str("P") {
            Keys::VkP
        } else if t == String::from_str("Q") {
            Keys::VkQ
        } else if t == String::from_str("R") {
            Keys::VkR
        } else if t == String::from_str("S") {
            Keys::VkS
        } else if t == String::from_str("T") {
            Keys::VkT
        } else if t == String::from_str("U") {
            Keys::VkU
        } else if t == String::from_str("V") {
            Keys::VkV
        } else if t == String::from_str("W") {
            Keys::VkW
        } else if t == String::from_str("X") {
            Keys::VkX
        } else if t == String::from_str("Y") {
            Keys::VkY
        } else if t == String::from_str("Z") {
            Keys::VkZ
        } else {
            Keys::VkNone
        }
    }

    /// Whether this key acts as a chord modifier.
    pub fn is_modifier(self) -> (r: bool)
        ensures
            r == spec_is_modifier(self),
    {
        matches!(self,
            Keys::VkRigelA
            | Keys::VkCtrl
            | Keys::VkControl
            | Keys::VkShift
            | Keys::VkLshift
            | Keys::VkRshift
            | Keys::VkMenu
            | Keys::VkLmenu
            | Keys::VkRmenu
            | Keys::VkLwin
            | Keys::VkRwin)
    }
}

/// Every nameable key is a fixed point of encoding to its canonical short
/// name and decoding back.
#[verifier::rlimit(60)]
pub proof fn lemma_name_round_trip(k: Keys)
    requires
        spec_key_name(k) != "NoneKey"@,
    ensures
        spec_key_from_name(spec_key_name(k)) == k,
{
    reveal_strlit("RigelA");
    reveal_strlit("0");
    reveal_strlit("1");
    reveal_strlit("2");
    reveal_strlit("3");
    reveal_strlit("4");
    reveal_strlit("5");
    reveal_strlit("6");
    reveal_strlit("7");
    reveal_strlit("8");
    reveal_strlit("9");
    reveal_strlit("A");
    reveal_strlit("B");
    reveal_strlit("C");
    reveal_strlit("D");
    reveal_strlit("E");
    reveal_strlit("F");
    reveal_strlit("G");
    reveal_strlit("H");
    reveal_strlit("I");
    reveal_strlit("J");
    reveal_strlit("K");
    reveal_strlit("L");
    reveal_strlit("M");
    reveal_strlit("N");
    reveal_strlit("O");
    reveal_strlit("P");
    reveal_strlit("Q");
    reveal_strlit("R");
    reveal_strlit("S");
    reveal_strlit("T");
    reveal_strlit("U");
    reveal_strlit("V");
    reveal_strlit("W");
    reveal_strlit("X");
    reveal_strlit("Y");
    reveal_strlit("Z");
    reveal_strlit("None");
    reveal_strlit("NoneKey");
    assert("RigelA"@.len() == 6);
    assert("RigelA"@[0] == 'R');
    assert("0"@.len() == 1);
    assert("0"@[0] == '0');
    assert("1"@.len() == 1);
    assert("1"@[0] == '1');
    assert("2"@.len() == 1);
    assert("2"@[0] == '2');
    assert("3"@.len() == 1);
    assert("3"@[0] == '3');
    assert("4"@.len() == 1);
    assert("4"@[0] == '4');
    assert("5"@.len() == 1);
    assert("5"@[0] == '5');
    assert("6"@.len() == 1);
    assert("6"@[0] == '6');
    assert("7"@.len() == 1);
    assert("7"@[0] == '7');
    assert("8"@.len() == 1);
    assert("8"@[0] == '8');
    assert("9"@.len() == 1);
    assert("9"@[0] == '9');
    assert("A"@.len() == 1);
    assert("A"@[0] == 'A');
    assert("B"@.len() == 1);
    assert("B"@[0] == 'B');
    assert("C"@.len() == 1);
    assert("C"@[0] == 'C');
    assert("D"@.len() == 1);
    assert("D"@[0] == 'D');
    assert("E"@.len() == 1);
    assert("E"@[0] == 'E');
    assert("F"@.len() == 1);
    assert("F"@[0] == 'F');
    assert("G"@.len() == 1);
    assert("G"@[0] == 'G');
    assert("H"@.len() == 1);
    assert("H"@[0] == 'H');
    assert("I"@.len() == 1);
    assert("I"@[0] == 'I');
    assert("J"@.len() == 1);
    assert("J"@[0] == 'J');
    assert("K"@.len() == 1);
    assert("K"@[0] == 'K');
    assert("L"@.len() == 1);
    assert("L"@[0] == 'L');
    assert("M"@.len() == 1);
    assert("M"@[0] == 'M');
    assert("N"@.len() == 1);
    assert("N"@[0] == 'N');
    assert("O"@.len() == 1);
    assert("O"@[0] == 'O');
    assert("P"@.len() == 1);
    assert("P"@[0] == 'P');
    assert("Q"@.len() == 1);
    assert("Q"@[0] == 'Q');
    assert("R"@.len() == 1);
    assert("R"@[0] == 'R');
    assert("S"@.len() == 1);
    assert("S"@[0] == 'S');
    assert("T"@.len() == 1);
    assert("T"@[0] == 'T');
    assert("U"@.len() == 1);
    assert("U"@[0] == 'U');
    assert("V"@.len() == 1);
    assert("V"@[0] == 'V');
    assert("W"@.len() == 1);
    assert("W"@[0] == 'W');
    assert("X"@.len() == 1);
    assert("X"@[0] == 'X');
    assert("Y"@.len() == 1);
    assert("Y"@[0] == 'Y');
    assert("Z"@.len() == 1);
    assert("Z"@[0] == 'Z');
    assert("None"@.len() == 4);
    assert("None"@[0] == 'N');
    assert("NoneKey"@.len() == 7);
    assert("NoneKey"@[0] == 'N');
    match k {
        Keys::VkRigelA => {
            assert(spec_key_from_name("RigelA"@) == Keys::VkRigelA);
        },
        Keys::Vk0 => {
            assert(spec_key_from_name("0"@) == Keys::Vk0);
        },
        Keys::Vk1 => {
            assert(spec_key_from_name("1"@) == Keys::Vk1);
        },
        Keys::Vk2 => {
            assert(spec_key_from_name("2"@) == Keys::Vk2);
        },
        Keys::Vk3 => {
            assert(spec_key_from_name("3"@) == Keys::Vk3);
        },
        Keys::Vk4 => {
            assert(spec_key_from_name("4"@) == Keys::Vk4);
        },
        Keys::Vk5 => {
            assert(spec_key_from_name("5"@) == Keys::Vk5);
        },
        Keys::Vk6 => {
            assert(spec_key_from_name("6"@) == Keys::Vk6);
        },
        Keys::Vk7 => {
            assert(spec_key_from_name("7"@) == Keys::Vk7);
        },
        Keys::Vk8 => {
            assert(spec_key_from_name("8"@) == Keys::Vk8);
        },
        Keys::Vk9 => {
            assert(spec_key_from_name("9"@) == Keys::Vk9);
        },
        Keys::VkA => {
            assert(spec_key_from_name("A"@) == Keys::VkA);
        },
        Keys::VkB => {
            assert(spec_key_from_name("B"@) == Keys::VkB);
        },
        Keys::VkC => {
            assert(spec_key_from_name("C"@) == Keys::VkC);
        },
        Keys::VkD => {
            assert(spec_key_from_name("D"@) == Keys::VkD);
        },
        Keys::VkE => {
            assert(spec_key_from_name("E"@) == Keys::VkE);
        },
        Keys::VkF => {
            assert(spec_key_from_name("F"@) == Keys::VkF);
        },
        Keys::VkG => {
            assert(spec_key_from_name("G"@) == Keys::VkG);
        },
        Keys::VkH => {
            assert(spec_key_from_name("H"@) == Keys::VkH);
        },
        Keys::VkI => {
            assert(spec_key_from_name("I"@) == Keys::VkI);
        },
        Keys::VkJ => {
            assert(spec_key_from_name("J"@) == Keys::VkJ);
        },
        Keys::VkK => {
            assert(spec_key_from_name("K"@) == Keys::VkK);
        },
        Keys::VkL => {
            assert(spec_key_from_name("L"@) == Keys::VkL);
        },
        Keys::VkM => {
            assert(spec_key_from_name("M"@) == Keys::VkM);
        },
        Keys::VkN => {
            assert(spec_key_from_name("N"@) == Keys::VkN);
        },
        Keys::VkO => {
            assert(spec_key_from_name("O"@) == Keys::VkO);
        },
        Keys::VkP => {
            assert(spec_key_from_name("P"@) == Keys::VkP);
        },
        Keys::VkQ => {
            assert(spec_key_from_name("Q"@) == Keys::VkQ);
        },
        Keys::VkR => {
            assert(spec_key_from_name("R"@) == Keys::VkR);
        },
        Keys::VkS => {
            assert(spec_key_from_name("S"@) == Keys::VkS);
        },
        Keys::VkT => {
            assert(spec_key_from_name("T"@) == Keys::VkT);
        },
        Keys::VkU => {
            assert(spec_key_from_name("U"@) == Keys::VkU);
        },
        Keys::VkV => {
            assert(spec_key_from_name("V"@) == Keys::VkV);
        },
        Keys::VkW => {
            assert(spec_key_from_name("W"@) == Keys::VkW);
        },
        Keys::VkX => {
            assert(spec_key_from_name("X"@) == Keys::VkX);
        },
        Keys::VkY => {
            assert(spec_key_from_name("Y"@) == Keys::VkY);
        },
        Keys::VkZ => {
            assert(spec_key_from_name("Z"@) == Keys::VkZ);
        },
        Keys::VkNone => {
            assert(spec_key_from_name("None"@) == Keys::VkNone);
        },
        _ => {},
    }
}

} // verus!
