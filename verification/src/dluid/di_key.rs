use vstd::prelude::*;

verus! {

/// DirectInput keyboard scan codes (`DIK_*`), the indices of
/// [KeyboardDevice::di_kb_state](crate::dluid::devices::KeyboardDevice).
#[allow(nonstandard_style)]
#[derive(Debug, Clone, Copy, PartialEq, Eq, Structural)]
pub enum DIKey {
    ESCAPE,
    _1,
    _2,
    _3,
    _4,
    _5,
    _6,
    _7,
    _8,
    _9,
    _0,
    /// - on main keyboard
    MINUS,
    EQUALS,
    /// backspace
    BACK,
    TAB,
    _Q,
    _W,
    _E,
    _R,
    _T,
    _Y,
    _U,
    _I,
    _O,
    _P,
    LBRACKET,
    RBRACKET,
    /// Enter on main keyboard
    RETURN,
    LCONTROL,
    _A,
    _S,
    _D,
    _F,
    _G,
    _H,
    _J,
    _K,
    _L,
    SEMICOLON,
    APOSTROPHE,
    /// accent grave
    GRAVE,
    LSHIFT,
    BACKSLASH,
    _Z,
    _X,
    _C,
    _V,
    _B,
    _N,
    _M,
    COMMA,
    /// . on main keyboard
    PERIOD,
    /// / on main keyboard
    SLASH,
    RSHIFT,
    /// * on numeric keypad
    MULTIPLY,
    /// left Alt
    LMENU,
    SPACE,
    CAPITAL,
    F1,
    F2,
    F3,
    F4,
    F5,
    F6,
    F7,
    F8,
    F9,
    F10,
    NUMLOCK,
    /// Scroll Lock
    SCROLL,
    NUMPAD7,
    NUMPAD8,
    NUMPAD9,
    /// - on numeric keypad
    SUBTRACT,
    NUMPAD4,
    NUMPAD5,
    NUMPAD6,
    /// + on numeric keypad
    ADD,
    NUMPAD1,
    NUMPAD2,
    NUMPAD3,
    NUMPAD0,
    /// . on numeric keypad
    DECIMAL,
    /// <> or \| on RT 102-key keyboard (Non-U.S.)
    OEM_102,
    F11,
    F12,
    /// (NEC PC98)
    F13,
    /// (NEC PC98)
    F14,
    /// (NEC PC98)
    F15,
    /// (Japanese keyboard)
    KANA,
    /// /? on Brazilian keyboard
    ABNT_C1,
    /// (Japanese keyboard)
    CONVERT,
    /// (Japanese keyboard)
    NOCONVERT,
    /// (Japanese keyboard)
    YEN,
    /// Numpad . on Brazilian keyboard
    ABNT_C2,
    /// = on numeric keypad (NEC PC98)
    NUMPADEQUALS,
    /// Previous Track (CIRCUMFLEX on Japanese keyboard)
    PREVTRACK,
    /// (NEC PC98)
    AT,
    /// (NEC PC98)
    COLON,
    /// (NEC PC98)
    UNDERLINE,
    /// (Japanese keyboard)
    KANJI,
    /// (NEC PC98)
    STOP,
    /// (Japan AX)
    AX,
    /// (J3100)
    UNLABELED,
    /// Next Track
    NEXTTRACK,
    /// Enter on numeric keypad
    NUMPADENTER,
    RCONTROL,
    /// Mute
    MUTE,
    /// Calculator
    CALCULATOR,
    /// Play / Pause
    PLAYPAUSE,
    /// Media Stop
    MEDIASTOP,
    /// Volume -
    VOLUMEDOWN,
    /// Volume +
    VOLUMEUP,
    /// Web home
    WEBHOME,
    /// , on numeric keypad (NEC PC98)
    NUMPADCOMMA,
    /// / on numeric keypad
    DIVIDE,
    SYSRQ,
    /// right Alt
    RMENU,
    /// Pause
    PAUSE,
    /// Home on arrow keypad
    HOME,
    /// UpArrow on arrow keypad
    UP,
    /// PgUp on arrow keypad
    PRIOR,
    /// LeftArrow on arrow keypad
    LEFT,
    /// RightArrow on arrow keypad
    RIGHT,
    /// End on arrow keypad
    END,
    /// DownArrow on arrow keypad
    DOWN,
    /// PgDn on arrow keypad
    NEXT,
    /// Insert on arrow keypad
    INSERT,
    /// Delete on arrow keypad
    DELETE,
    /// Left Windows key
    LWIN,
    /// Right Windows key
    RWIN,
    /// AppMenu key
    APPS,
    /// System Power
    POWER,
    /// System Sleep
    SLEEP,
    /// System Wake
    WAKE,
    /// Web Search
    WEBSEARCH,
    /// Web Favorites
    WEBFAVORITES,
    /// Web Refresh
    WEBREFRESH,
    /// Web Stop
    WEBSTOP,
    /// Web Forward
    WEBFORWARD,
    /// Web Back
    WEBBACK,
    /// My Computer
    MYCOMPUTER,
    /// Mail
    MAIL,
    /// Media Select
    MEDIASELECT,
}

/// The scan code of a key.
pub open spec fn key_code(key: DIKey) -> u8 {
    match key {
        DIKey::ESCAPE => 0x01,
        DIKey::_1 => 0x02,
        DIKey::_2 => 0x03,
        DIKey::_3 => 0x04,
        DIKey::_4 => 0x05,
        DIKey::_5 => 0x06,
        DIKey::_6 => 0x07,
        DIKey::_7 => 0x08,
        DIKey::_8 => 0x09,
        DIKey::_9 => 0x0A,
        DIKey::_0 => 0x0B,
        DIKey::MINUS => 0x0C,
        DIKey::EQUALS => 0x0D,
        DIKey::BACK => 0x0E,
        DIKey::TAB => 0x0F,
        DIKey::_Q => 0x10,
        DIKey::_W => 0x11,
        DIKey::_E => 0x12,
        DIKey::_R => 0x13,
        DIKey::_T => 0x14,
        DIKey::_Y => 0x15,
        DIKey::_U => 0x16,
        DIKey::_I => 0x17,
        DIKey::_O => 0x18,
        DIKey::_P => 0x19,
        DIKey::LBRACKET => 0x1A,
        DIKey::RBRACKET => 0x1B,
        DIKey::RETURN => 0x1C,
        DIKey::LCONTROL => 0x1D,
        DIKey::_A => 0x1E,
        DIKey::_S => 0x1F,
        DIKey::_D => 0x20,
        DIKey::_F => 0x21,
        DIKey::_G => 0x22,
        DIKey::_H => 0x23,
        DIKey::_J => 0x24,
        DIKey::_K => 0x25,
        DIKey::_L => 0x26,
        DIKey::SEMICOLON => 0x27,
        DIKey::APOSTROPHE => 0x28,
        DIKey::GRAVE => 0x29,
        DIKey::LSHIFT => 0x2A,
        DIKey::BACKSLASH => 0x2B,
        DIKey::_Z => 0x2C,
        DIKey::_X => 0x2D,
        DIKey::_C => 0x2E,
        DIKey::_V => 0x2F,
        DIKey::_B => 0x30,
        DIKey::_N => 0x31,
        DIKey::_M => 0x32,
        DIKey::COMMA => 0x33,
        DIKey::PERIOD => 0x34,
        DIKey::SLASH => 0x35,
        DIKey::RSHIFT => 0x36,
        DIKey::MULTIPLY => 0x37,
        DIKey::LMENU => 0x38,
        DIKey::SPACE => 0x39,
        DIKey::CAPITAL => 0x3A,
        DIKey::F1 => 0x3B,
        DIKey::F2 => 0x3C,
        DIKey::F3 => 0x3D,
        DIKey::F4 => 0x3E,
        DIKey::F5 => 0x3F,
        DIKey::F6 => 0x40,
        DIKey::F7 => 0x41,
        DIKey::F8 => 0x42,
        DIKey::F9 => 0x43,
        DIKey::F10 => 0x44,
        DIKey::NUMLOCK => 0x45,
        DIKey::SCROLL => 0x46,
        DIKey::NUMPAD7 => 0x47,
        DIKey::NUMPAD8 => 0x48,
        DIKey::NUMPAD9 => 0x49,
        DIKey::SUBTRACT => 0x4A,
        DIKey::NUMPAD4 => 0x4B,
        DIKey::NUMPAD5 => 0x4C,
        DIKey::NUMPAD6 => 0x4D,
        DIKey::ADD => 0x4E,
        DIKey::NUMPAD1 => 0x4F,
        DIKey::NUMPAD2 => 0x50,
        DIKey::NUMPAD3 => 0x51,
        DIKey::NUMPAD0 => 0x52,
        DIKey::DECIMAL => 0x53,
        DIKey::OEM_102 => 0x56,
        DIKey::F11 => 0x57,
        DIKey::F12 => 0x58,
        DIKey::F13 => 0x64,
        DIKey::F14 => 0x65,
        DIKey::F15 => 0x66,
        DIKey::KANA => 0x70,
        DIKey::ABNT_C1 => 0x73,
        DIKey::CONVERT => 0x79,
        DIKey::NOCONVERT => 0x7B,
        DIKey::YEN => 0x7D,
        DIKey::ABNT_C2 => 0x7E,
        DIKey::NUMPADEQUALS => 0x8D,
        DIKey::PREVTRACK => 0x90,
        DIKey::AT => 0x91,
        DIKey::COLON => 0x92,
        DIKey::UNDERLINE => 0x93,
        DIKey::KANJI => 0x94,
        DIKey::STOP => 0x95,
        DIKey::AX => 0x96,
        DIKey::UNLABELED => 0x97,
        DIKey::NEXTTRACK => 0x99,
        DIKey::NUMPADENTER => 0x9C,
        DIKey::RCONTROL => 0x9D,
        DIKey::MUTE => 0xA0,
        DIKey::CALCULATOR => 0xA1,
        DIKey::PLAYPAUSE => 0xA2,
        DIKey::MEDIASTOP => 0xA4,
        DIKey::VOLUMEDOWN => 0xAE,
        DIKey::VOLUMEUP => 0xB0,
        DIKey::WEBHOME => 0xB2,
        DIKey::NUMPADCOMMA => 0xB3,
        DIKey::DIVIDE => 0xB5,
        DIKey::SYSRQ => 0xB7,
        DIKey::RMENU => 0xB8,
        DIKey::PAUSE => 0xC5,
        DIKey::HOME => 0xC7,
        DIKey::UP => 0xC8,
        DIKey::PRIOR => 0xC9,
        DIKey::LEFT => 0xCB,
        DIKey::RIGHT => 0xCD,
        DIKey::END => 0xCF,
        DIKey::DOWN => 0xD0,
        DIKey::NEXT => 0xD1,
        DIKey::INSERT => 0xD2,
        DIKey::DELETE => 0xD3,
        DIKey::LWIN => 0xDB,
        DIKey::RWIN => 0xDC,
        DIKey::APPS => 0xDD,
        DIKey::POWER => 0xDE,
        DIKey::SLEEP => 0xDF,
        DIKey::WAKE => 0xE3,
        DIKey::WEBSEARCH => 0xE5,
        DIKey::WEBFAVORITES => 0xE6,
        DIKey::WEBREFRESH => 0xE7,
        DIKey::WEBSTOP => 0xE8,
        DIKey::WEBFORWARD => 0xE9,
        DIKey::WEBBACK => 0xEA,
        DIKey::MYCOMPUTER => 0xEB,
        DIKey::MAIL => 0xEC,
        DIKey::MEDIASELECT => 0xED,
    }
}

/// The key whose scan code is `code`, if any.
pub open spec fn key_of_code(code: u8) -> Option<DIKey> {
    match code {
        0x01 => Some(DIKey::ESCAPE),
        0x02 => Some(DIKey::_1),
        0x03 => Some(DIKey::_2),
        0x04 => Some(DIKey::_3),
        0x05 => Some(DIKey::_4),
        0x06 => Some(DIKey::_5),
        0x07 => Some(DIKey::_6),
        0x08 => Some(DIKey::_7),
        0x09 => Some(DIKey::_8),
        0x0A => Some(DIKey::_9),
        0x0B => Some(DIKey::_0),
        0x0C => Some(DIKey::MINUS),
        0x0D => Some(DIKey::EQUALS),
        0x0E => Some(DIKey::BACK),
        0x0F => Some(DIKey::TAB),
        0x10 => Some(DIKey::_Q),
        0x11 => Some(DIKey::_W),
        0x12 => Some(DIKey::_E),
        0x13 => Some(DIKey::_R),
        0x14 => Some(DIKey::_T),
        0x15 => Some(DIKey::_Y),
        0x16 => Some(DIKey::_U),
        0x17 => Some(DIKey::_I),
        0x18 => Some(DIKey::_O),
        0x19 => Some(DIKey::_P),
        0x1A => Some(DIKey::LBRACKET),
        0x1B => Some(DIKey::RBRACKET),
        0x1C => Some(DIKey::RETURN),
        0x1D => Some(DIKey::LCONTROL),
        0x1E => Some(DIKey::_A),
        0x1F => Some(DIKey::_S),
        0x20 => Some(DIKey::_D),
        0x21 => Some(DIKey::_F),
        0x22 => Some(DIKey::_G),
        0x23 => Some(DIKey::_H),
        0x24 => Some(DIKey::_J),
        0x25 => Some(DIKey::_K),
        0x26 => Some(DIKey::_L),
        0x27 => Some(DIKey::SEMICOLON),
        0x28 => Some(DIKey::APOSTROPHE),
        0x29 => Some(DIKey::GRAVE),
        0x2A => Some(DIKey::LSHIFT),
        0x2B => Some(DIKey::BACKSLASH),
        0x2C => Some(DIKey::_Z),
        0x2D => Some(DIKey::_X),
        0x2E => Some(DIKey::_C),
        0x2F => Some(DIKey::_V),
        0x30 => Some(DIKey::_B),
        0x31 => Some(DIKey::_N),
        0x32 => Some(DIKey::_M),
        0x33 => Some(DIKey::COMMA),
        0x34 => Some(DIKey::PERIOD),
        0x35 => Some(DIKey::SLASH),
        0x36 => Some(DIKey::RSHIFT),
        0x37 => Some(DIKey::MULTIPLY),
        0x38 => Some(DIKey::LMENU),
        0x39 => Some(DIKey::SPACE),
        0x3A => Some(DIKey::CAPITAL),
        0x3B => Some(DIKey::F1),
        0x3C => Some(DIKey::F2),
        0x3D => Some(DIKey::F3),
        0x3E => Some(DIKey::F4),
        0x3F => Some(DIKey::F5),
        0x40 => Some(DIKey::F6),
        0x41 => Some(DIKey::F7),
        0x42 => Some(DIKey::F8),
        0x43 => Some(DIKey::F9),
        0x44 => Some(DIKey::F10),
        0x45 => Some(DIKey::NUMLOCK),
        0x46 => Some(DIKey::SCROLL),
        0x47 => Some(DIKey::NUMPAD7),
        0x48 => Some(DIKey::NUMPAD8),
        0x49 => Some(DIKey::NUMPAD9),
        0x4A => Some(DIKey::SUBTRACT),
        0x4B => Some(DIKey::NUMPAD4),
        0x4C => Some(DIKey::NUMPAD5),
        0x4D => Some(DIKey::NUMPAD6),
        0x4E => Some(DIKey::ADD),
        0x4F => Some(DIKey::NUMPAD1),
        0x50 => Some(DIKey::NUMPAD2),
        0x51 => Some(DIKey::NUMPAD3),
        0x52 => Some(DIKey::NUMPAD0),
        0x53 => Some(DIKey::DECIMAL),
        0x56 => Some(DIKey::OEM_102),
        0x57 => Some(DIKey::F11),
        0x58 => Some(DIKey::F12),
        0x64 => Some(DIKey::F13),
        0x65 => Some(DIKey::F14),
        0x66 => Some(DIKey::F15),
        0x70 => Some(DIKey::KANA),
        0x73 => Some(DIKey::ABNT_C1),
        0x79 => Some(DIKey::CONVERT),
        0x7B => Some(DIKey::NOCONVERT),
        0x7D => Some(DIKey::YEN),
        0x7E => Some(DIKey::ABNT_C2),
        0x8D => Some(DIKey::NUMPADEQUALS),
        0x90 => Some(DIKey::PREVTRACK),
        0x91 => Some(DIKey::AT),
        0x92 => Some(DIKey::COLON),
        0x93 => Some(DIKey::UNDERLINE),
        0x94 => Some(DIKey::KANJI),
        0x95 => Some(DIKey::STOP),
        0x96 => Some(DIKey::AX),
        0x97 => Some(DIKey::UNLABELED),
        0x99 => Some(DIKey::NEXTTRACK),
        0x9C => Some(DIKey::NUMPADENTER),
        0x9D => Some(DIKey::RCONTROL),
        0xA0 => Some(DIKey::MUTE),
        0xA1 => Some(DIKey::CALCULATOR),
        0xA2 => Some(DIKey::PLAYPAUSE),
        0xA4 => Some(DIKey::MEDIASTOP),
        0xAE => Some(DIKey::VOLUMEDOWN),
        0xB0 => Some(DIKey::VOLUMEUP),
        0xB2 => Some(DIKey::WEBHOME),
        0xB3 => Some(DIKey::NUMPADCOMMA),
        0xB5 => Some(DIKey::DIVIDE),
        0xB7 => Some(DIKey::SYSRQ),
        0xB8 => Some(DIKey::RMENU),
        0xC5 => Some(DIKey::PAUSE),
        0xC7 => Some(DIKey::HOME),
        0xC8 => Some(DIKey::UP),
        0xC9 => Some(DIKey::PRIOR),
        0xCB => Some(DIKey::LEFT),
        0xCD => Some(DIKey::RIGHT),
        0xCF => Some(DIKey::END),
        0xD0 => Some(DIKey::DOWN),
        0xD1 => Some(DIKey::NEXT),
        0xD2 => Some(DIKey::INSERT),
        0xD3 => Some(DIKey::DELETE),
        0xDB => Some(DIKey::LWIN),
        0xDC => Some(DIKey::RWIN),
        0xDD => Some(DIKey::APPS),
        0xDE => Some(DIKey::POWER),
        0xDF => Some(DIKey::SLEEP),
        0xE3 => Some(DIKey::WAKE),
        0xE5 => Some(DIKey::WEBSEARCH),
        0xE6 => Some(DIKey::WEBFAVORITES),
        0xE7 => Some(DIKey::WEBREFRESH),
        0xE8 => Some(DIKey::WEBSTOP),
        0xE9 => Some(DIKey::WEBFORWARD),
        0xEA => Some(DIKey::WEBBACK),
        0xEB => Some(DIKey::MYCOMPUTER),
        0xEC => Some(DIKey::MAIL),
        0xED => Some(DIKey::MEDIASELECT),
        _ => None,
    }
}

impl From<DIKey> for usize {
    fn from(key: DIKey) -> (code: usize) {
        let c: u8 = match key {
            DIKey::ESCAPE => 0x01,
            DIKey::_1 => 0x02,
            DIKey::_2 => 0x03,
            DIKey::_3 => 0x04,
            DIKey::_4 => 0x05,
            DIKey::_5 => 0x06,
            DIKey::_6 => 0x07,
            DIKey::_7 => 0x08,
            DIKey::_8 => 0x09,
            DIKey::_9 => 0x0A,
            DIKey::_0 => 0x0B,
            DIKey::MINUS => 0x0C,
            DIKey::EQUALS => 0x0D,
            DIKey::BACK => 0x0E,
            DIKey::TAB => 0x0F,
            DIKey::_Q => 0x10,
            DIKey::_W => 0x11,
            DIKey::_E => 0x12,
            DIKey::_R => 0x13,
            DIKey::_T => 0x14,
            DIKey::_Y => 0x15,
            DIKey::_U => 0x16,
            DIKey::_I => 0x17,
            DIKey::_O => 0x18,
            DIKey::_P => 0x19,
            DIKey::LBRACKET => 0x1A,
            DIKey::RBRACKET => 0x1B,
            DIKey::RETURN => 0x1C,
            DIKey::LCONTROL => 0x1D,
            DIKey::_A => 0x1E,
            DIKey::_S => 0x1F,
            DIKey::_D => 0x20,
            DIKey::_F => 0x21,
            DIKey::_G => 0x22,
            DIKey::_H => 0x23,
            DIKey::_J => 0x24,
            DIKey::_K => 0x25,
            DIKey::_L => 0x26,
            DIKey::SEMICOLON => 0x27,
            DIKey::APOSTROPHE => 0x28,
            DIKey::GRAVE => 0x29,
            DIKey::LSHIFT => 0x2A,
            DIKey::BACKSLASH => 0x2B,
            DIKey::_Z => 0x2C,
            DIKey::_X => 0x2D,
            DIKey::_C => 0x2E,
            DIKey::_V => 0x2F,
            DIKey::_B => 0x30,
            DIKey::_N => 0x31,
            DIKey::_M => 0x32,
            DIKey::COMMA => 0x33,
            DIKey::PERIOD => 0x34,
            DIKey::SLASH => 0x35,
            DIKey::RSHIFT => 0x36,
            DIKey::MULTIPLY => 0x37,
            DIKey::LMENU => 0x38,
            DIKey::SPACE => 0x39,
            DIKey::CAPITAL => 0x3A,
            DIKey::F1 => 0x3B,
            DIKey::F2 => 0x3C,
            DIKey::F3 => 0x3D,
            DIKey::F4 => 0x3E,
            DIKey::F5 => 0x3F,
            DIKey::F6 => 0x40,
            DIKey::F7 => 0x41,
            DIKey::F8 => 0x42,
            DIKey::F9 => 0x43,
            DIKey::F10 => 0x44,
            DIKey::NUMLOCK => 0x45,
            DIKey::SCROLL => 0x46,
            DIKey::NUMPAD7 => 0x47,
            DIKey::NUMPAD8 => 0x48,
            DIKey::NUMPAD9 => 0x49,
            DIKey::SUBTRACT => 0x4A,
            DIKey::NUMPAD4 => 0x4B,
            DIKey::NUMPAD5 => 0x4C,
            DIKey::NUMPAD6 => 0x4D,
            DIKey::ADD => 0x4E,
            DIKey::NUMPAD1 => 0x4F,
            DIKey::NUMPAD2 => 0x50,
            DIKey::NUMPAD3 => 0x51,
            DIKey::NUMPAD0 => 0x52,
            DIKey::DECIMAL => 0x53,
            DIKey::OEM_102 => 0x56,
            DIKey::F11 => 0x57,
            DIKey::F12 => 0x58,
            DIKey::F13 => 0x64,
            DIKey::F14 => 0x65,
            DIKey::F15 => 0x66,
            DIKey::KANA => 0x70,
            DIKey::ABNT_C1 => 0x73,
            DIKey::CONVERT => 0x79,
            DIKey::NOCONVERT => 0x7B,
            DIKey::YEN => 0x7D,
            DIKey::ABNT_C2 => 0x7E,
            DIKey::NUMPADEQUALS => 0x8D,
            DIKey::PREVTRACK => 0x90,
            DIKey::AT => 0x91,
            DIKey::COLON => 0x92,
            DIKey::UNDERLINE => 0x93,
            DIKey::KANJI => 0x94,
            DIKey::STOP => 0x95,
            DIKey::AX => 0x96,
            DIKey::UNLABELED => 0x97,
            DIKey::NEXTTRACK => 0x99,
            DIKey::NUMPADENTER => 0x9C,
            DIKey::RCONTROL => 0x9D,
            DIKey::MUTE => 0xA0,
            DIKey::CALCULATOR => 0xA1,
            DIKey::PLAYPAUSE => 0xA2,
            DIKey::MEDIASTOP => 0xA4,
            DIKey::VOLUMEDOWN => 0xAE,
            DIKey::VOLUMEUP => 0xB0,
            DIKey::WEBHOME => 0xB2,
            DIKey::NUMPADCOMMA => 0xB3,
            DIKey::DIVIDE => 0xB5,
            DIKey::SYSRQ => 0xB7,
            DIKey::RMENU => 0xB8,
            DIKey::PAUSE => 0xC5,
            DIKey::HOME => 0xC7,
            DIKey::UP => 0xC8,
            DIKey::PRIOR => 0xC9,
            DIKey::LEFT => 0xCB,
            DIKey::RIGHT => 0xCD,
            DIKey::END => 0xCF,
            DIKey::DOWN => 0xD0,
            DIKey::NEXT => 0xD1,
            DIKey::INSERT => 0xD2,
            DIKey::DELETE => 0xD3,
            DIKey::LWIN => 0xDB,
            DIKey::RWIN => 0xDC,
            DIKey::APPS => 0xDD,
            DIKey::POWER => 0xDE,
            DIKey::SLEEP => 0xDF,
            DIKey::WAKE => 0xE3,
            DIKey::WEBSEARCH => 0xE5,
            DIKey::WEBFAVORITES => 0xE6,
            DIKey::WEBREFRESH => 0xE7,
            DIKey::WEBSTOP => 0xE8,
            DIKey::WEBFORWARD => 0xE9,
            DIKey::WEBBACK => 0xEA,
            DIKey::MYCOMPUTER => 0xEB,
            DIKey::MAIL => 0xEC,
            DIKey::MEDIASELECT => 0xED,
        };
        c as usize
    }
}

impl vstd::std_specs::convert::FromSpecImpl<DIKey> for usize {
    open spec fn obeys_from_spec() -> bool {
        true
    }

    open spec fn from_spec(key: DIKey) -> usize {
        key_code(key) as usize
    }
}

/// Every key's scan code identifies the key.
pub proof fn lemma_key_code_round_trip(key: DIKey)
    ensures
        key_of_code(key_code(key)) == Some(key),
{
}

/// Distinct keys have distinct scan codes, and every scan code indexes the
/// 256-entry keyboard state.
pub proof fn lemma_key_codes_distinct(a: DIKey, b: DIKey)
    ensures
        key_code(a) == key_code(b) ==> a == b,
        (key_code(a) as usize) < 256,
{
    lemma_key_code_round_trip(a);
    lemma_key_code_round_trip(b);
}

} // verus!
