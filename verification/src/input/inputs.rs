use vstd::prelude::*;
use vstd::std_specs::convert::FromSpecImpl;

verus! {

/// The keys of a keyboard, in the order of their key codes: `Key1` has the
/// code 0 and `Cut` the code [`MAX_KEY`].
#[derive(Clone, Copy, Debug, PartialEq, Eq, Hash, Structural)]
pub enum Keyboard {
    Key1,
    Key2,
    Key3,
    Key4,
    Key5,
    Key6,
    Key7,
    Key8,
    Key9,
    Key0,
    A,
    B,
    C,
    D,
    E,
    F,
    G,
    H,
    I,
    J,
    K,
    L,
    M,
    N,
    O,
    P,
    Q,
    R,
    S,
    T,
    U,
    V,
    W,
    X,
    Y,
    Z,
    Escape,
    F1,
    F2,
    F3,
    F4,
    F5,
    F6,
    F7,
    F8,
    F9,
    F10,
    F11,
    F12,
    F13,
    F14,
    F15,
    F16,
    F17,
    F18,
    F19,
    F20,
    F21,
    F22,
    F23,
    F24,
    Snapshot,
    Scroll,
    Pause,
    Insert,
    Home,
    Delete,
    End,
    PageDown,
    PageUp,
    Left,
    Up,
    Right,
    Down,
    Back,
    Return,
    Space,
    Compose,
    Caret,
    Numlock,
    Numpad0,
    Numpad1,
    Numpad2,
    Numpad3,
    Numpad4,
    Numpad5,
    Numpad6,
    Numpad7,
    Numpad8,
    Numpad9,
    NumpadAdd,
    NumpadDivide,
    NumpadDecimal,
    NumpadComma,
    NumpadEnter,
    NumpadEquals,
    NumpadMultiply,
    NumpadSubtract,
    AbntC1,
    AbntC2,
    Apostrophe,
    Apps,
    Asterisk,
    At,
    Ax,
    Backslash,
    Calculator,
    Capital,
    Colon,
    Comma,
    Convert,
    Equals,
    Grave,
    Kana,
    Kanji,
    LAlt,
    LBracket,
    LControl,
    LShift,
    LWin,
    Mail,
    MediaSelect,
    MediaStop,
    Minus,
    Mute,
    MyComputer,
    NavigateForward,
    NavigateBackward,
    NextTrack,
    NoConvert,
    OEM102,
    Period,
    PlayPause,
    Plus,
    Power,
    PrevTrack,
    RAlt,
    RBracket,
    RControl,
    RShift,
    RWin,
    Semicolon,
    Slash,
    Sleep,
    Stop,
    Sysrq,
    Tab,
    Underline,
    Unlabeled,
    VolumeDown,
    VolumeUp,
    Wake,
    WebBack,
    WebFavorites,
    WebForward,
    WebHome,
    WebRefresh,
    WebSearch,
    WebStop,
    Yen,
    Copy,
    Paste,
    Cut,
}

/// The buttons of a mouse.
#[derive(Clone, Copy, Debug, PartialEq, Eq, Hash, Structural)]
pub enum Mouse {
    Left,
    Right,
    Middle,
}

/// Anything that can be pressed and released.
#[derive(Clone, Copy, Debug, PartialEq, Eq, Hash, Structural)]
pub enum Input {
    Keyboard(Keyboard),
    Mouse(Mouse),
}

/// The highest key code.
pub const MAX_KEY: usize = 162;

/// The highest code of a mouse button.
pub const MAX_MOUSE: usize = 2;

/// The number of inputs: the keys and, after them, the mouse buttons.
pub const INPUTS: usize = 166;

impl From<Keyboard> for Input {
    fn from(val: Keyboard) -> (input: Self) {
        Input::Keyboard(val)
    }
}

impl FromSpecImpl<Keyboard> for Input {
    open spec fn obeys_from_spec() -> bool {
        true
    }

    open spec fn from_spec(val: Keyboard) -> Self {
        Input::Keyboard(val)
    }
}

impl From<Mouse> for Input {
    fn from(val: Mouse) -> (input: Self) {
        Input::Mouse(val)
    }
}

impl FromSpecImpl<Mouse> for Input {
    open spec fn obeys_from_spec() -> bool {
        true
    }

    open spec fn from_spec(val: Mouse) -> Self {
        Input::Mouse(val)
    }
}

impl Keyboard {
    /// The code of the key.
    pub open spec fn code(self) -> int {
        self as int
    }

    /// The key with the code `code`, if there is one.
    pub fn from_u32(code: u32) -> (key: Option<Keyboard>)
        ensures
            match key {
                Some(key) => key.code() == code,
                None => code > MAX_KEY,
            },
    {
        match code {
            0 => Some(Keyboard::Key1),
            1 => Some(Keyboard::Key2),
            2 => Some(Keyboard::Key3),
            3 => Some(Keyboard::Key4),
            4 => Some(Keyboard::Key5),
            5 => Some(Keyboard::Key6),
            6 => Some(Keyboard::Key7),
            7 => Some(Keyboard::Key8),
            8 => Some(Keyboard::Key9),
            9 => Some(Keyboard::Key0),
            10 => Some(Keyboard::A),
            11 => Some(Keyboard::B),
            12 => Some(Keyboard::C),
            13 => Some(Keyboard::D),
            14 => Some(Keyboard::E),
            15 => Some(Keyboard::F),
            16 => Some(Keyboard::G),
            17 => Some(Keyboard::H),
            18 => Some(Keyboard::I),
            19 => Some(Keyboard::J),
            20 => Some(Keyboard::K),
            21 => Some(Keyboard::L),
            22 => Some(Keyboard::M),
            23 => Some(Keyboard::N),
            24 => Some(Keyboard::O),
            25 => Some(Keyboard::P),
            26 => Some(Keyboard::Q),
            27 => Some(Keyboard::R),
            28 => Some(Keyboard::S),
            29 => Some(Keyboard::T),
            30 => Some(Keyboard::U),
            31 => Some(Keyboard::V),
            32 => Some(Keyboard::W),
            33 => Some(Keyboard::X),
            34 => Some(Keyboard::Y),
            35 => Some(Keyboard::Z),
            36 => Some(Keyboard::Escape),
            37 => Some(Keyboard::F1),
            38 => Some(Keyboard::F2),
            39 => Some(Keyboard::F3),
            40 => Some(Keyboard::F4),
            41 => Some(Keyboard::F5),
            42 => Some(Keyboard::F6),
            43 => Some(Keyboard::F7),
            44 => Some(Keyboard::F8),
            45 => Some(Keyboard::F9),
            46 => Some(Keyboard::F10),
            47 => Some(Keyboard::F11),
            48 => Some(Keyboard::F12),
            49 => Some(Keyboard::F13),
            50 => Some(Keyboard::F14),
            51 => Some(Keyboard::F15),
            52 => Some(Keyboard::F16),
            53 => Some(Keyboard::F17),
            54 => Some(Keyboard::F18),
            55 => Some(Keyboard::F19),
            56 => Some(Keyboard::F20),
            57 => Some(Keyboard::F21),
            58 => Some(Keyboard::F22),
            59 => Some(Keyboard::F23),
            60 => Some(Keyboard::F24),
            61 => Some(Keyboard::Snapshot),
            62 => Some(Keyboard::Scroll),
            63 => Some(Keyboard::Pause),
            64 => Some(Keyboard::Insert),
            65 => Some(Keyboard::Home),
            66 => Some(Keyboard::Delete),
            67 => Some(Keyboard::End),
            68 => Some(Keyboard::PageDown),
            69 => Some(Keyboard::PageUp),
            70 => Some(Keyboard::Left),
            71 => Some(Keyboard::Up),
            72 => Some(Keyboard::Right),
            73 => Some(Keyboard::Down),
            74 => Some(Keyboard::Back),
            75 => Some(Keyboard::Return),
            76 => Some(Keyboard::Space),
            77 => Some(Keyboard::Compose),
            78 => Some(Keyboard::Caret),
            79 => Some(Keyboard::Numlock),
            80 => Some(Keyboard::Numpad0),
            81 => Some(Keyboard::Numpad1),
            82 => Some(Keyboard::Numpad2),
            83 => Some(Keyboard::Numpad3),
            84 => Some(Keyboard::Numpad4),
            85 => Some(Keyboard::Numpad5),
            86 => Some(Keyboard::Numpad6),
            87 => Some(Keyboard::Numpad7),
            88 => Some(Keyboard::Numpad8),
            89 => Some(Keyboard::Numpad9),
            90 => Some(Keyboard::NumpadAdd),
            91 => Some(Keyboard::NumpadDivide),
            92 => Some(Keyboard::NumpadDecimal),
            93 => Some(Keyboard::NumpadComma),
            94 => Some(Keyboard::NumpadEnter),
            95 => Some(Keyboard::NumpadEquals),
            96 => Some(Keyboard::NumpadMultiply),
            97 => Some(Keyboard::NumpadSubtract),
            98 => Some(Keyboard::AbntC1),
            99 => Some(Keyboard::AbntC2),
            100 => Some(Keyboard::Apostrophe),
            101 => Some(Keyboard::Apps),
            102 => Some(Keyboard::Asterisk),
            103 => Some(Keyboard::At),
            104 => Some(Keyboard::Ax),
            105 => Some(Keyboard::Backslash),
            106 => Some(Keyboard::Calculator),
            107 => Some(Keyboard::Capital),
            108 => Some(Keyboard::Colon),
            109 => Some(Keyboard::Comma),
            110 => Some(Keyboard::Convert),
            111 => Some(Keyboard::Equals),
            112 => Some(Keyboard::Grave),
            113 => Some(Keyboard::Kana),
            114 => Some(Keyboard::Kanji),
            115 => Some(Keyboard::LAlt),
            116 => Some(Keyboard::LBracket),
            117 => Some(Keyboard::LControl),
            118 => Some(Keyboard::LShift),
            119 => Some(Keyboard::LWin),
            120 => Some(Keyboard::Mail),
            121 => Some(Keyboard::MediaSelect),
            122 => Some(Keyboard::MediaStop),
            123 => Some(Keyboard::Minus),
            124 => Some(Keyboard::Mute),
            125 => Some(Keyboard::MyComputer),
            126 => Some(Keyboard::NavigateForward),
            127 => Some(Keyboard::NavigateBackward),
            128 => Some(Keyboard::NextTrack),
            129 => Some(Keyboard::NoConvert),
            130 => Some(Keyboard::OEM102),
            131 => Some(Keyboard::Period),
            132 => Some(Keyboard::PlayPause),
            133 => Some(Keyboard::Plus),
            134 => Some(Keyboard::Power),
            135 => Some(Keyboard::PrevTrack),
            136 => Some(Keyboard::RAlt),
            137 => Some(Keyboard::RBracket),
            138 => Some(Keyboard::RControl),
            139 => Some(Keyboard::RShift),
            140 => Some(Keyboard::RWin),
            141 => Some(Keyboard::Semicolon),
            142 => Some(Keyboard::Slash),
            143 => Some(Keyboard::Sleep),
            144 => Some(Keyboard::Stop),
            145 => Some(Keyboard::Sysrq),
            146 => Some(Keyboard::Tab),
            147 => Some(Keyboard::Underline),
            148 => Some(Keyboard::Unlabeled),
            149 => Some(Keyboard::VolumeDown),
            150 => Some(Keyboard::VolumeUp),
            151 => Some(Keyboard::Wake),
            152 => Some(Keyboard::WebBack),
            153 => Some(Keyboard::WebFavorites),
            154 => Some(Keyboard::WebForward),
            155 => Some(Keyboard::WebHome),
            156 => Some(Keyboard::WebRefresh),
            157 => Some(Keyboard::WebSearch),
            158 => Some(Keyboard::WebStop),
            159 => Some(Keyboard::Yen),
            160 => Some(Keyboard::Copy),
            161 => Some(Keyboard::Paste),
            162 => Some(Keyboard::Cut),
            _ => None,
        }
    }
}

impl Mouse {
    /// The code of the button.
    pub open spec fn code(self) -> int {
        self as int
    }
}

/// The place of an input among all inputs: a key stands at its code, a
/// mouse button after all keys.
pub open spec fn input_index(input: Input) -> int {
    match input {
        Input::Keyboard(key) => key.code(),
        Input::Mouse(button) => button.code() + 1 + MAX_KEY,
    }
}

/// Every input has a place of its own among the [`INPUTS`] places.
pub proof fn lemma_input_index_is_one_to_one(first: Input, second: Input)
    ensures
        0 <= input_index(first) < INPUTS,
        input_index(first) == input_index(second) ==> first == second,
{
}

} // verus!
