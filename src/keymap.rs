use vstd::prelude::*;

verus! {

pub const AM_KEY_NONE: u32 = 0;

pub const AM_KEY_ESCAPE: u32 = 1;

pub const AM_KEY_F1: u32 = 2;

pub const AM_KEY_F2: u32 = 3;

pub const AM_KEY_F3: u32 = 4;

pub const AM_KEY_F4: u32 = 5;

pub const AM_KEY_F5: u32 = 6;

pub const AM_KEY_F6: u32 = 7;

pub const AM_KEY_F7: u32 = 8;

pub const AM_KEY_F8: u32 = 9;

pub const AM_KEY_F9: u32 = 10;

pub const AM_KEY_F10: u32 = 11;

pub const AM_KEY_F11: u32 = 12;

pub const AM_KEY_F12: u32 = 13;

pub const AM_KEY_GRAVE: u32 = 14;

pub const AM_KEY_1: u32 = 15;

pub const AM_KEY_2: u32 = 16;

pub const AM_KEY_3: u32 = 17;

pub const AM_KEY_4: u32 = 18;

pub const AM_KEY_5: u32 = 19;

pub const AM_KEY_6: u32 = 20;

pub const AM_KEY_7: u32 = 21;

pub const AM_KEY_8: u32 = 22;

pub const AM_KEY_9: u32 = 23;

pub const AM_KEY_0: u32 = 24;

pub const AM_KEY_MINUS: u32 = 25;

pub const AM_KEY_EQUALS: u32 = 26;

pub const AM_KEY_BACKSPACE: u32 = 27;

pub const AM_KEY_TAB: u32 = 28;

pub const AM_KEY_Q: u32 = 29;

pub const AM_KEY_W: u32 = 30;

pub const AM_KEY_E: u32 = 31;

pub const AM_KEY_R: u32 = 32;

pub const AM_KEY_T: u32 = 33;

pub const AM_KEY_Y: u32 = 34;

pub const AM_KEY_U: u32 = 35;

pub const AM_KEY_I: u32 = 36;

pub const AM_KEY_O: u32 = 37;

pub const AM_KEY_P: u32 = 38;

pub const AM_KEY_LEFTBRACKET: u32 = 39;

pub const AM_KEY_RIGHTBRACKET: u32 = 40;

pub const AM_KEY_BACKSLASH: u32 = 41;

pub const AM_KEY_CAPSLOCK: u32 = 42;

pub const AM_KEY_A: u32 = 43;

pub const AM_KEY_S: u32 = 44;

pub const AM_KEY_D: u32 = 45;

pub const AM_KEY_F: u32 = 46;

pub const AM_KEY_G: u32 = 47;

pub const AM_KEY_H: u32 = 48;

pub const AM_KEY_J: u32 = 49;

pub const AM_KEY_K: u32 = 50;

pub const AM_KEY_L: u32 = 51;

pub const AM_KEY_SEMICOLON: u32 = 52;

pub const AM_KEY_APOSTROPHE: u32 = 53;

pub const AM_KEY_RETURN: u32 = 54;

pub const AM_KEY_LSHIFT: u32 = 55;

pub const AM_KEY_Z: u32 = 56;

pub const AM_KEY_X: u32 = 57;

pub const AM_KEY_C: u32 = 58;

pub const AM_KEY_V: u32 = 59;

pub const AM_KEY_B: u32 = 60;

pub const AM_KEY_N: u32 = 61;

pub const AM_KEY_M: u32 = 62;

pub const AM_KEY_COMMA: u32 = 63;

pub const AM_KEY_PERIOD: u32 = 64;

pub const AM_KEY_SLASH: u32 = 65;

pub const AM_KEY_RSHIFT: u32 = 66;

pub const AM_KEY_LCTRL: u32 = 67;

pub const AM_KEY_APPLICATION: u32 = 68;

pub const AM_KEY_LALT: u32 = 69;

pub const AM_KEY_SPACE: u32 = 70;

pub const AM_KEY_RALT: u32 = 71;

pub const AM_KEY_RCTRL: u32 = 72;

pub const AM_KEY_UP: u32 = 73;

pub const AM_KEY_DOWN: u32 = 74;

pub const AM_KEY_LEFT: u32 = 75;

pub const AM_KEY_RIGHT: u32 = 76;

pub const AM_KEY_INSERT: u32 = 77;

pub const AM_KEY_DELETE: u32 = 78;

pub const AM_KEY_HOME: u32 = 79;

pub const AM_KEY_END: u32 = 80;

pub const AM_KEY_PAGEUP: u32 = 81;

pub const AM_KEY_PAGEDOWN: u32 = 82;

/// Keyboard code for an SDL scancode (`AM_KEY_NONE` for keys without one).
pub open spec fn keymap_spec(sc: i32) -> u32 {
    match sc {
        41 => AM_KEY_ESCAPE,
        58 => AM_KEY_F1,
        59 => AM_KEY_F2,
        60 => AM_KEY_F3,
        61 => AM_KEY_F4,
        62 => AM_KEY_F5,
        63 => AM_KEY_F6,
        64 => AM_KEY_F7,
        65 => AM_KEY_F8,
        66 => AM_KEY_F9,
        67 => AM_KEY_F10,
        68 => AM_KEY_F11,
        69 => AM_KEY_F12,
        53 => AM_KEY_GRAVE,
        30 => AM_KEY_1,
        31 => AM_KEY_2,
        32 => AM_KEY_3,
        33 => AM_KEY_4,
        34 => AM_KEY_5,
        35 => AM_KEY_6,
        36 => AM_KEY_7,
        37 => AM_KEY_8,
        38 => AM_KEY_9,
        39 => AM_KEY_0,
        45 => AM_KEY_MINUS,
        46 => AM_KEY_EQUALS,
        42 => AM_KEY_BACKSPACE,
        43 => AM_KEY_TAB,
        20 => AM_KEY_Q,
        26 => AM_KEY_W,
        8 => AM_KEY_E,
        21 => AM_KEY_R,
        23 => AM_KEY_T,
        28 => AM_KEY_Y,
        24 => AM_KEY_U,
        12 => AM_KEY_I,
        18 => AM_KEY_O,
        19 => AM_KEY_P,
        47 => AM_KEY_LEFTBRACKET,
        48 => AM_KEY_RIGHTBRACKET,
        49 => AM_KEY_BACKSLASH,
        57 => AM_KEY_CAPSLOCK,
        4 => AM_KEY_A,
        22 => AM_KEY_S,
        7 => AM_KEY_D,
        9 => AM_KEY_F,
        10 => AM_KEY_G,
        11 => AM_KEY_H,
        13 => AM_KEY_J,
        14 => AM_KEY_K,
        15 => AM_KEY_L,
        51 => AM_KEY_SEMICOLON,
        52 => AM_KEY_APOSTROPHE,
        40 => AM_KEY_RETURN,
        225 => AM_KEY_LSHIFT,
        29 => AM_KEY_Z,
        27 => AM_KEY_X,
        6 => AM_KEY_C,
        25 => AM_KEY_V,
        5 => AM_KEY_B,
        17 => AM_KEY_N,
        16 => AM_KEY_M,
        54 => AM_KEY_COMMA,
        55 => AM_KEY_PERIOD,
        56 => AM_KEY_SLASH,
        229 => AM_KEY_RSHIFT,
        224 => AM_KEY_LCTRL,
        101 => AM_KEY_APPLICATION,
        226 => AM_KEY_LALT,
        44 => AM_KEY_SPACE,
        230 => AM_KEY_RALT,
        228 => AM_KEY_RCTRL,
        82 => AM_KEY_UP,
        81 => AM_KEY_DOWN,
        80 => AM_KEY_LEFT,
        79 => AM_KEY_RIGHT,
        73 => AM_KEY_INSERT,
        76 => AM_KEY_DELETE,
        74 => AM_KEY_HOME,
        77 => AM_KEY_END,
        75 => AM_KEY_PAGEUP,
        78 => AM_KEY_PAGEDOWN,
        _ => AM_KEY_NONE,
    }
}

/// Maps an SDL scancode to its keyboard code.
pub fn keymap(sc: i32) -> (r: u32)
    ensures
        r == keymap_spec(sc),
{
    match sc {
        41 => AM_KEY_ESCAPE,
        58 => AM_KEY_F1,
        59 => AM_KEY_F2,
        60 => AM_KEY_F3,
        61 => AM_KEY_F4,
        62 => AM_KEY_F5,
        63 => AM_KEY_F6,
        64 => AM_KEY_F7,
        65 => AM_KEY_F8,
        66 => AM_KEY_F9,
        67 => AM_KEY_F10,
        68 => AM_KEY_F11,
        69 => AM_KEY_F12,
        53 => AM_KEY_GRAVE,
        30 => AM_KEY_1,
        31 => AM_KEY_2,
        32 => AM_KEY_3,
        33 => AM_KEY_4,
        34 => AM_KEY_5,
        35 => AM_KEY_6,
        36 => AM_KEY_7,
        37 => AM_KEY_8,
        38 => AM_KEY_9,
        39 => AM_KEY_0,
        45 => AM_KEY_MINUS,
        46 => AM_KEY_EQUALS,
        42 => AM_KEY_BACKSPACE,
        43 => AM_KEY_TAB,
        20 => AM_KEY_Q,
        26 => AM_KEY_W,
        8 => AM_KEY_E,
        21 => AM_KEY_R,
        23 => AM_KEY_T,
        28 => AM_KEY_Y,
        24 => AM_KEY_U,
        12 => AM_KEY_I,
        18 => AM_KEY_O,
        19 => AM_KEY_P,
        47 => AM_KEY_LEFTBRACKET,
        48 => AM_KEY_RIGHTBRACKET,
        49 => AM_KEY_BACKSLASH,
        57 => AM_KEY_CAPSLOCK,
        4 => AM_KEY_A,
        22 => AM_KEY_S,
        7 => AM_KEY_D,
        9 => AM_KEY_F,
        10 => AM_KEY_G,
        11 => AM_KEY_H,
        13 => AM_KEY_J,
        14 => AM_KEY_K,
        15 => AM_KEY_L,
        51 => AM_KEY_SEMICOLON,
        52 => AM_KEY_APOSTROPHE,
        40 => AM_KEY_RETURN,
        225 => AM_KEY_LSHIFT,
        29 => AM_KEY_Z,
        27 => AM_KEY_X,
        6 => AM_KEY_C,
        25 => AM_KEY_V,
        5 => AM_KEY_B,
        17 => AM_KEY_N,
        16 => AM_KEY_M,
        54 => AM_KEY_COMMA,
        55 => AM_KEY_PERIOD,
        56 => AM_KEY_SLASH,
        229 => AM_KEY_RSHIFT,
        224 => AM_KEY_LCTRL,
        101 => AM_KEY_APPLICATION,
        226 => AM_KEY_LALT,
        44 => AM_KEY_SPACE,
        230 => AM_KEY_RALT,
        228 => AM_KEY_RCTRL,
        82 => AM_KEY_UP,
        81 => AM_KEY_DOWN,
        80 => AM_KEY_LEFT,
        79 => AM_KEY_RIGHT,
        73 => AM_KEY_INSERT,
        76 => AM_KEY_DELETE,
        74 => AM_KEY_HOME,
        77 => AM_KEY_END,
        75 => AM_KEY_PAGEUP,
        78 => AM_KEY_PAGEDOWN,
        _ => AM_KEY_NONE,
    }
}

} // verus!
