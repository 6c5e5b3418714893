use vstd::prelude::*;

verus! {

/// Number of configurable key bindings.
pub const BINDINGS: usize = 7;

/// Number of keys of the keyboard: a key is named by its code, below this.
pub const KEY_CODES: u32 = 163;

pub const KEY_C: u32 = 12;
pub const KEY_K: u32 = 20;
pub const KEY_L: u32 = 21;
pub const KEY_M: u32 = 22;
pub const KEY_O: u32 = 24;
pub const KEY_P: u32 = 25;
pub const KEY_R: u32 = 27;
pub const KEY_ESCAPE: u32 = 36;
pub const KEY_LEFT: u32 = 70;
pub const KEY_UP: u32 = 71;
pub const KEY_RIGHT: u32 = 72;
pub const KEY_DOWN: u32 = 73;
pub const KEY_RETURN: u32 = 75;
pub const KEY_SPACE: u32 = 76;

/// The keys bound to the actions of the player, by key code: accelerate,
/// decelerate, rotate left, rotate right, fire, switch camera mode, pause.
#[derive(Clone, Copy, Debug)]
pub struct KeyboardBindings(pub [u32; BINDINGS]);

impl Default for KeyboardBindings {
    fn default() -> (b: KeyboardBindings)
        ensures
            b.0@ == seq![KEY_O, KEY_L, KEY_K, KEY_M, KEY_R, KEY_SPACE, KEY_P],
    {
        KeyboardBindings([KEY_O, KEY_L, KEY_K, KEY_M, KEY_R, KEY_SPACE, KEY_P])
    }
}

impl KeyboardBindings {
    pub fn accelerate(&self) -> (k: u32)
        ensures
            k == self.0@[0],
    {
        self.0[0]
    }

    pub fn decelerate(&self) -> (k: u32)
        ensures
            k == self.0@[1],
    {
        self.0[1]
    }

    pub fn rotate_left(&self) -> (k: u32)
        ensures
            k == self.0@[2],
    {
        self.0[2]
    }

    pub fn rotate_right(&self) -> (k: u32)
        ensures
            k == self.0@[3],
    {
        self.0[3]
    }

    pub fn fire(&self) -> (k: u32)
        ensures
            k == self.0@[4],
    {
        self.0[4]
    }

    pub fn camera(&self) -> (k: u32)
        ensures
            k == self.0@[5],
    {
        self.0[5]
    }

    pub fn pause(&self) -> (k: u32)
        ensures
            k == self.0@[6],
    {
        self.0[6]
    }
}

/// Whether key `a` or key `b` is among the keys just pressed.
pub fn any_just_pressed(just_pressed: &Vec<u32>, a: u32, b: u32) -> (r: bool)
    ensures
        r == (just_pressed@.contains(a) || just_pressed@.contains(b)),
{
    let n = just_pressed.len();
    let mut k: usize = 0;
    while k < n
        invariant
            n == just_pressed@.len(),
            k <= n,
            forall|x: int| 0 <= x < k ==> #[trigger] just_pressed@[x] != a && just_pressed@[x] != b,
        decreases n - k,
    {
        if just_pressed[k] == a || just_pressed[k] == b {
            return true;
        }
        k = k + 1;
    }
    false
}

/// Whether `key` is among the keys just pressed.
pub fn just_pressed_has(just_pressed: &Vec<u32>, key: u32) -> (r: bool)
    ensures
        r == just_pressed@.contains(key),
{
    any_just_pressed(just_pressed, key, key)
}

/// The name of the key with code `code`.
pub open spec fn key_name(code: u32) -> Seq<char> {
    if code == 0 {
        "1"@
    } else if code == 1 {
        "2"@
    } else if code == 2 {
        "3"@
    } else if code == 3 {
        "4"@
    } else if code == 4 {
        "5"@
    } else if code == 5 {
        "6"@
    } else if code == 6 {
        "7"@
    } else if code == 7 {
        "8"@
    } else if code == 8 {
        "9"@
    } else if code == 9 {
        "0"@
    } else if code == 10 {
        "A"@
    } else if code == 11 {
        "B"@
    } else if code == 12 {
        "C"@
    } else if code == 13 {
        "D"@
    } else if code == 14 {
        "E"@
    } else if code == 15 {
        "F"@
    } else if code == 16 {
        "G"@
    } else if code == 17 {
        "H"@
    } else if code == 18 {
        "I"@
    } else if code == 19 {
        "J"@
    } else if code == 20 {
        "K"@
    } else if code == 21 {
        "L"@
    } else if code == 22 {
        "M"@
    } else if code == 23 {
        "N"@
    } else if code == 24 {
        "O"@
    } else if code == 25 {
        "P"@
    } else if code == 26 {
        "Q"@
    } else if code == 27 {
        "R"@
    } else if code == 28 {
        "S"@
    } else if code == 29 {
        "T"@
    } else if code == 30 {
        "U"@
    } else if code == 31 {
        "V"@
    } else if code == 32 {
        "W"@
    } else if code == 33 {
        "X"@
    } else if code == 34 {
        "Y"@
    } else if code == 35 {
        "Z"@
    } else if code == 36 {
        "Escape"@
    } else if code == 37 {
        "F1"@
    } else if code == 38 {
        "F2"@
    } else if code == 39 {
        "F3"@
    } else if code == 40 {
        "F4"@
    } else if code == 41 {
        "F5"@
    } else if code == 42 {
        "F6"@
    } else if code == 43 {
        "F7"@
    } else if code == 44 {
        "F8"@
    } else if code == 45 {
        "F9"@
    } else if code == 46 {
        "F10"@
    } else if code == 47 {
        "F11"@
    } else if code == 48 {
        "F12"@
    } else if code == 49 {
        "F13"@
    } else if code == 50 {
        "F14"@
    } else if code == 51 {
        "F15"@
    } else if code == 52 {
        "F16"@
    } else if code == 53 {
        "F17"@
    } else if code == 54 {
        "F18"@
    } else if code == 55 {
        "F19"@
    } else if code == 56 {
        "F20"@
    } else if code == 57 {
        "F21"@
    } else if code == 58 {
        "F22"@
    } else if code == 59 {
        "F23"@
    } else if code == 60 {
        "F24"@
    } else if code == 61 {
        "Snapshot"@
    } else if code == 62 {
        "Scroll"@
    } else if code == 63 {
        "Pause"@
    } else if code == 64 {
        "Insert"@
    } else if code == 65 {
        "Home"@
    } else if code == 66 {
        "Delete"@
    } else if code == 67 {
        "End"@
    } else if code == 68 {
        "PageDown"@
    } else if code == 69 {
        "PageUp"@
    } else if code == 70 {
        "Left"@
    } else if code == 71 {
        "Up"@
    } else if code == 72 {
        "Right"@
    } else if code == 73 {
        "Down"@
    } else if code == 74 {
        "Back"@
    } else if code == 75 {
        "Return"@
    } else if code == 76 {
        "Space"@
    } else if code == 77 {
        "Compose"@
    } else if code == 78 {
        "Caret"@
    } else if code == 79 {
        "Numlock"@
    } else if code == 80 {
        "Numpad0"@
    } else if code == 81 {
        "Numpad1"@
    } else if code == 82 {
        "Numpad2"@
    } else if code == 83 {
        "Numpad3"@
    } else if code == 84 {
        "Numpad4"@
    } else if code == 85 {
        "Numpad5"@
    } else if code == 86 {
        "Numpad6"@
    } else if code == 87 {
        "Numpad7"@
    } else if code == 88 {
        "Numpad8"@
    } else if code == 89 {
        "Numpad9"@
    } else if code == 90 {
        "AbntC1"@
    } else if code == 91 {
        "AbntC2"@
    } else if code == 92 {
        "NumpadAdd"@
    } else if code == 93 {
        "Apostrophe"@
    } else if code == 94 {
        "Apps"@
    } else if code == 95 {
        "Asterisk"@
    } else if code == 96 {
        "Plus"@
    } else if code == 97 {
        "At"@
    } else if code == 98 {
        "Ax"@
    } else if code == 99 {
        "Backslash"@
    } else if code == 100 {
        "Calculator"@
    } else if code == 101 {
        "Capital"@
    } else if code == 102 {
        "Colon"@
    } else if code == 103 {
        "Comma"@
    } else if code == 104 {
        "Convert"@
    } else if code == 105 {
        "NumpadDecimal"@
    } else if code == 106 {
        "NumpadDivide"@
    } else if code == 107 {
        "Equals"@
    } else if code == 108 {
        "Grave"@
    } else if code == 109 {
        "Kana"@
    } else if code == 110 {
        "Kanji"@
    } else if code == 111 {
        "LAlt"@
    } else if code == 112 {
        "LBracket"@
    } else if code == 113 {
        "LControl"@
    } else if code == 114 {
        "LShift"@
    } else if code == 115 {
        "LWin"@
    } else if code == 116 {
        "Mail"@
    } else if code == 117 {
        "MediaSelect"@
    } else if code == 118 {
        "MediaStop"@
    } else if code == 119 {
        "Minus"@
    } else if code == 120 {
        "NumpadMultiply"@
    } else if code == 121 {
        "Mute"@
    } else if code == 122 {
        "MyComputer"@
    } else if code == 123 {
        "NavigateForward"@
    } else if code == 124 {
        "NavigateBackward"@
    } else if code == 125 {
        "NextTrack"@
    } else if code == 126 {
        "NoConvert"@
    } else if code == 127 {
        "NumpadComma"@
    } else if code == 128 {
        "NumpadEnter"@
    } else if code == 129 {
        "NumpadEquals"@
    } else if code == 130 {
        "Oem102"@
    } else if code == 131 {
        "Period"@
    } else if code == 132 {
        "PlayPause"@
    } else if code == 133 {
        "Power"@
    } else if code == 134 {
        "PrevTrack"@
    } else if code == 135 {
        "RAlt"@
    } else if code == 136 {
        "RBracket"@
    } else if code == 137 {
        "RControl"@
    } else if code == 138 {
        "RShift"@
    } else if code == 139 {
        "RWin"@
    } else if code == 140 {
        "Semicolon"@
    } else if code == 141 {
        "Slash"@
    } else if code == 142 {
        "Sleep"@
    } else if code == 143 {
        "Stop"@
    } else if code == 144 {
        "NumpadSubtract"@
    } else if code == 145 {
        "Sysrq"@
    } else if code == 146 {
        "Tab"@
    } else if code == 147 {
        "Underline"@
    } else if code == 148 {
        "Unlabeled"@
    } else if code == 149 {
        "VolumeDown"@
    } else if code == 150 {
        "VolumeUp"@
    } else if code == 151 {
        "Wake"@
    } else if code == 152 {
        "WebBack"@
    } else if code == 153 {
        "WebFavorites"@
    } else if code == 154 {
        "WebForward"@
    } else if code == 155 {
        "WebHome"@
    } else if code == 156 {
        "WebRefresh"@
    } else if code == 157 {
        "WebSearch"@
    } else if code == 158 {
        "WebStop"@
    } else if code == 159 {
        "Yen"@
    } else if code == 160 {
        "Copy"@
    } else if code == 161 {
        "Paste"@
    } else {
        "Cut"@
    }
}

/// The code of a key of the table, told from its name: the length of a name
/// and a few of its characters set the names of the table apart.
pub open spec fn key_code_by_name(s: Seq<char>) -> int {
    if s.len() == 1 {
        if s[0] == '1' {
            0
        } else if s[0] == '2' {
            1
        } else if s[0] == '3' {
            2
        } else if s[0] == '4' {
            3
        } else if s[0] == '5' {
            4
        } else if s[0] == '6' {
            5
        } else if s[0] == '7' {
            6
        } else if s[0] == '8' {
            7
        } else if s[0] == '9' {
            8
        } else if s[0] == '0' {
            9
        } else if s[0] == 'A' {
            10
        } else if s[0] == 'B' {
            11
        } else if s[0] == 'C' {
            12
        } else if s[0] == 'D' {
            13
        } else if s[0] == 'E' {
            14
        } else if s[0] == 'F' {
            15
        } else if s[0] == 'G' {
            16
        } else if s[0] == 'H' {
            17
        } else if s[0] == 'I' {
            18
        } else if s[0] == 'J' {
            19
        } else if s[0] == 'K' {
            20
        } else if s[0] == 'L' {
            21
        } else if s[0] == 'M' {
            22
        } else if s[0] == 'N' {
            23
        } else if s[0] == 'O' {
            24
        } else if s[0] == 'P' {
            25
        } else if s[0] == 'Q' {
            26
        } else if s[0] == 'R' {
            27
        } else if s[0] == 'S' {
            28
        } else if s[0] == 'T' {
            29
        } else if s[0] == 'U' {
            30
        } else if s[0] == 'V' {
            31
        } else if s[0] == 'W' {
            32
        } else if s[0] == 'X' {
            33
        } else if s[0] == 'Y' {
            34
        } else if s[0] == 'Z' {
            35
        } else {
            KEY_CODES as int
        }
    } else if s.len() == 2 {
        if s[1] == '1' {
            37
        } else if s[1] == '2' {
            38
        } else if s[1] == '3' {
            39
        } else if s[1] == '4' {
            40
        } else if s[1] == '5' {
            41
        } else if s[1] == '6' {
            42
        } else if s[1] == '7' {
            43
        } else if s[1] == '8' {
            44
        } else if s[1] == '9' {
            45
        } else if s[1] == 'p' {
            71
        } else if s[1] == 't' {
            97
        } else if s[1] == 'x' {
            98
        } else {
            KEY_CODES as int
        }
    } else if s.len() == 3 {
        if s[2] == '0' {
            if s[1] == '1' {
                46
            } else if s[1] == '2' {
                56
            } else {
                KEY_CODES as int
            }
        } else if s[2] == '1' {
            if s[1] == '1' {
                47
            } else if s[1] == '2' {
                57
            } else {
                KEY_CODES as int
            }
        } else if s[2] == '2' {
            if s[1] == '1' {
                48
            } else if s[1] == '2' {
                58
            } else {
                KEY_CODES as int
            }
        } else if s[2] == '3' {
            if s[1] == '1' {
                49
            } else if s[1] == '2' {
                59
            } else {
                KEY_CODES as int
            }
        } else if s[2] == '4' {
            if s[1] == '1' {
                50
            } else if s[1] == '2' {
                60
            } else {
                KEY_CODES as int
            }
        } else if s[2] == '5' {
            51
        } else if s[2] == '6' {
            52
        } else if s[2] == '7' {
            53
        } else if s[2] == '8' {
            54
        } else if s[2] == '9' {
            55
        } else if s[2] == 'd' {
            67
        } else if s[2] == 'b' {
            146
        } else if s[2] == 'n' {
            159
        } else if s[2] == 't' {
            162
        } else {
            KEY_CODES as int
        }
    } else if s.len() == 4 {
        if s[0] == 'H' {
            65
        } else if s[0] == 'L' {
            if s[1] == 'e' {
                70
            } else if s[1] == 'A' {
                111
            } else if s[1] == 'W' {
                115
            } else {
                KEY_CODES as int
            }
        } else if s[0] == 'D' {
            73
        } else if s[0] == 'B' {
            74
        } else if s[0] == 'A' {
            94
        } else if s[0] == 'P' {
            96
        } else if s[0] == 'K' {
            109
        } else if s[0] == 'M' {
            if s[1] == 'a' {
                116
            } else if s[1] == 'u' {
                121
            } else {
                KEY_CODES as int
            }
        } else if s[0] == 'R' {
            if s[1] == 'A' {
                135
            } else if s[1] == 'W' {
                139
            } else {
                KEY_CODES as int
            }
        } else if s[0] == 'S' {
            143
        } else if s[0] == 'W' {
            151
        } else if s[0] == 'C' {
            160
        } else {
            KEY_CODES as int
        }
    } else if s.len() == 5 {
        if s[3] == 's' {
            if s[0] == 'P' {
                63
            } else if s[0] == 'S' {
                141
            } else {
                KEY_CODES as int
            }
        } else if s[3] == 'h' {
            72
        } else if s[3] == 'c' {
            76
        } else if s[3] == 'e' {
            if s[0] == 'C' {
                78
            } else if s[0] == 'P' {
                133
            } else if s[0] == 'S' {
                142
            } else {
                KEY_CODES as int
            }
        } else if s[3] == 'o' {
            102
        } else if s[3] == 'm' {
            103
        } else if s[3] == 'v' {
            108
        } else if s[3] == 'j' {
            110
        } else if s[3] == 'u' {
            119
        } else if s[3] == 'r' {
            145
        } else if s[3] == 't' {
            161
        } else {
            KEY_CODES as int
        }
    } else if s.len() == 6 {
        if s[2] == 'c' {
            36
        } else if s[2] == 'r' {
            if s[0] == 'S' {
                62
            } else if s[0] == 'P' {
                131
            } else {
                KEY_CODES as int
            }
        } else if s[2] == 's' {
            64
        } else if s[2] == 'l' {
            66
        } else if s[2] == 'g' {
            69
        } else if s[2] == 't' {
            75
        } else if s[2] == 'n' {
            if s[5] == '1' {
                90
            } else if s[5] == '2' {
                91
            } else {
                KEY_CODES as int
            }
        } else if s[2] == 'u' {
            107
        } else if s[2] == 'h' {
            if s[0] == 'L' {
                114
            } else if s[0] == 'R' {
                138
            } else {
                KEY_CODES as int
            }
        } else if s[2] == 'm' {
            130
        } else {
            KEY_CODES as int
        }
    } else if s.len() == 7 {
        if s[6] == 'e' {
            if s[0] == 'C' {
                77
            } else if s[0] == 'W' {
                155
            } else {
                KEY_CODES as int
            }
        } else if s[6] == 'k' {
            if s[0] == 'N' {
                79
            } else if s[0] == 'W' {
                152
            } else {
                KEY_CODES as int
            }
        } else if s[6] == '0' {
            80
        } else if s[6] == '1' {
            81
        } else if s[6] == '2' {
            82
        } else if s[6] == '3' {
            83
        } else if s[6] == '4' {
            84
        } else if s[6] == '5' {
            85
        } else if s[6] == '6' {
            86
        } else if s[6] == '7' {
            87
        } else if s[6] == '8' {
            88
        } else if s[6] == '9' {
            89
        } else if s[6] == 'l' {
            101
        } else if s[6] == 't' {
            104
        } else if s[6] == 'p' {
            158
        } else {
            KEY_CODES as int
        }
    } else if s.len() == 8 {
        if s[0] == 'S' {
            61
        } else if s[0] == 'P' {
            68
        } else if s[0] == 'A' {
            95
        } else if s[0] == 'L' {
            if s[1] == 'B' {
                112
            } else if s[1] == 'C' {
                113
            } else {
                KEY_CODES as int
            }
        } else if s[0] == 'R' {
            if s[1] == 'B' {
                136
            } else if s[1] == 'C' {
                137
            } else {
                KEY_CODES as int
            }
        } else if s[0] == 'V' {
            150
        } else {
            KEY_CODES as int
        }
    } else if s.len() == 9 {
        if s[3] == 'p' {
            92
        } else if s[3] == 'k' {
            99
        } else if s[3] == 'i' {
            if s[0] == 'M' {
                118
            } else if s[0] == 'S' {
                140
            } else {
                KEY_CODES as int
            }
        } else if s[3] == 't' {
            125
        } else if s[3] == 'o' {
            126
        } else if s[3] == 'y' {
            132
        } else if s[3] == 'v' {
            134
        } else if s[3] == 'e' {
            147
        } else if s[3] == 'a' {
            148
        } else if s[3] == 'S' {
            157
        } else {
            KEY_CODES as int
        }
    } else if s.len() == 10 {
        if s[3] == 's' {
            93
        } else if s[3] == 'c' {
            100
        } else if s[3] == 'o' {
            122
        } else if s[3] == 'u' {
            149
        } else if s[3] == 'F' {
            154
        } else if s[3] == 'R' {
            156
        } else {
            KEY_CODES as int
        }
    } else if s.len() == 11 {
        if s[6] == 'e' {
            117
        } else if s[6] == 'C' {
            127
        } else if s[6] == 'E' {
            128
        } else {
            KEY_CODES as int
        }
    } else if s.len() == 12 {
        if s[6] == 'D' {
            106
        } else if s[6] == 'E' {
            129
        } else if s[6] == 'o' {
            153
        } else {
            KEY_CODES as int
        }
    } else if s.len() == 13 {
        105
    } else if s.len() == 14 {
        if s[6] == 'M' {
            120
        } else if s[6] == 'S' {
            144
        } else {
            KEY_CODES as int
        }
    } else if s.len() == 15 {
        123
    } else if s.len() == 16 {
        124
    } else {
        KEY_CODES as int
    }

}

/// Reading a key's name back gives the key's code.
proof fn lemma_name_gives_back_code(code: u32)
    requires
        code < KEY_CODES,
    ensures
        key_code_by_name(key_name(code)) == code,
{
    reveal_strlit("1");
    reveal_strlit("2");
    reveal_strlit("3");
    reveal_strlit("4");
    reveal_strlit("5");
    reveal_strlit("6");
    reveal_strlit("7");
    reveal_strlit("8");
    reveal_strlit("9");
    reveal_strlit("0");
    reveal_strlit("A");
    reveal_strlit("B");
    reveal_strlit("C");
    reveal_strlit("D");
    reveal_strlit("E");
    reveal_strlit("F");
    reveal_strlit("G");
    reveal_strlit("H");
    reveal_strlit("I");
    reveal_strlit("J");
    reveal_strlit("K");
    reveal_strlit("L");
    reveal_strlit("M");
    reveal_strlit("N");
    reveal_strlit("O");
    reveal_strlit("P");
    reveal_strlit("Q");
    reveal_strlit("R");
    reveal_strlit("S");
    reveal_strlit("T");
    reveal_strlit("U");
    reveal_strlit("V");
    reveal_strlit("W");
    reveal_strlit("X");
    reveal_strlit("Y");
    reveal_strlit("Z");
    reveal_strlit("Escape");
    reveal_strlit("F1");
    reveal_strlit("F2");
    reveal_strlit("F3");
    reveal_strlit("F4");
    reveal_strlit("F5");
    reveal_strlit("F6");
    reveal_strlit("F7");
    reveal_strlit("F8");
    reveal_strlit("F9");
    reveal_strlit("F10");
    reveal_strlit("F11");
    reveal_strlit("F12");
    reveal_strlit("F13");
    reveal_strlit("F14");
    reveal_strlit("F15");
    reveal_strlit("F16");
    reveal_strlit("F17");
    reveal_strlit("F18");
    reveal_strlit("F19");
    reveal_strlit("F20");
    reveal_strlit("F21");
    reveal_strlit("F22");
    reveal_strlit("F23");
    reveal_strlit("F24");
    reveal_strlit("Snapshot");
    reveal_strlit("Scroll");
    reveal_strlit("Pause");
    reveal_strlit("Insert");
    reveal_strlit("Home");
    reveal_strlit("Delete");
    reveal_strlit("End");
    reveal_strlit("PageDown");
    reveal_strlit("PageUp");
    reveal_strlit("Left");
    reveal_strlit("Up");
    reveal_strlit("Right");
    reveal_strlit("Down");
    reveal_strlit("Back");
    reveal_strlit("Return");
    reveal_strlit("Space");
    reveal_strlit("Compose");
    reveal_strlit("Caret");
    reveal_strlit("Numlock");
    reveal_strlit("Numpad0");
    reveal_strlit("Numpad1");
    reveal_strlit("Numpad2");
    reveal_strlit("Numpad3");
    reveal_strlit("Numpad4");
    reveal_strlit("Numpad5");
    reveal_strlit("Numpad6");
    reveal_strlit("Numpad7");
    reveal_strlit("Numpad8");
    reveal_strlit("Numpad9");
    reveal_strlit("AbntC1");
    reveal_strlit("AbntC2");
    reveal_strlit("NumpadAdd");
    reveal_strlit("Apostrophe");
    reveal_strlit("Apps");
    reveal_strlit("Asterisk");
    reveal_strlit("Plus");
    reveal_strlit("At");
    reveal_strlit("Ax");
    reveal_strlit("Backslash");
    reveal_strlit("Calculator");
    reveal_strlit("Capital");
    reveal_strlit("Colon");
    reveal_strlit("Comma");
    reveal_strlit("Convert");
    reveal_strlit("NumpadDecimal");
    reveal_strlit("NumpadDivide");
    reveal_strlit("Equals");
    reveal_strlit("Grave");
    reveal_strlit("Kana");
    reveal_strlit("Kanji");
    reveal_strlit("LAlt");
    reveal_strlit("LBracket");
    reveal_strlit("LControl");
    reveal_strlit("LShift");
    reveal_strlit("LWin");
    reveal_strlit("Mail");
    reveal_strlit("MediaSelect");
    reveal_strlit("MediaStop");
    reveal_strlit("Minus");
    reveal_strlit("NumpadMultiply");
    reveal_strlit("Mute");
    reveal_strlit("MyComputer");
    reveal_strlit("NavigateForward");
    reveal_strlit("NavigateBackward");
    reveal_strlit("NextTrack");
    reveal_strlit("NoConvert");
    reveal_strlit("NumpadComma");
    reveal_strlit("NumpadEnter");
    reveal_strlit("NumpadEquals");
    reveal_strlit("Oem102");
    reveal_strlit("Period");
    reveal_strlit("PlayPause");
    reveal_strlit("Power");
    reveal_strlit("PrevTrack");
    reveal_strlit("RAlt");
    reveal_strlit("RBracket");
    reveal_strlit("RControl");
    reveal_strlit("RShift");
    reveal_strlit("RWin");
    reveal_strlit("Semicolon");
    reveal_strlit("Slash");
    reveal_strlit("Sleep");
    reveal_strlit("Stop");
    reveal_strlit("NumpadSubtract");
    reveal_strlit("Sysrq");
    reveal_strlit("Tab");
    reveal_strlit("Underline");
    reveal_strlit("Unlabeled");
    reveal_strlit("VolumeDown");
    reveal_strlit("VolumeUp");
    reveal_strlit("Wake");
    reveal_strlit("WebBack");
    reveal_strlit("WebFavorites");
    reveal_strlit("WebForward");
    reveal_strlit("WebHome");
    reveal_strlit("WebRefresh");
    reveal_strlit("WebSearch");
    reveal_strlit("WebStop");
    reveal_strlit("Yen");
    reveal_strlit("Copy");
    reveal_strlit("Paste");
    reveal_strlit("Cut");
}

/// Every key of the table has a name of its own: two codes never share a name.
pub proof fn law_key_names_are_distinct(x: u32, y: u32)
    requires
        x < KEY_CODES,
        y < KEY_CODES,
        x != y,
    ensures
        key_name(x) != key_name(y),
{
    lemma_name_gives_back_code(x);
    lemma_name_gives_back_code(y);
}

/// Keys 0 to 8 are named by the digits 1 to 9 and key 9 by the digit 0, as
/// on a keyboard's top row; keys 10 to 35 are named by the capital letters A
/// to Z, in order.
pub proof fn law_digit_and_letter_names(n: u32)
    ensures
        n < 9 ==> key_name(n).len() == 1 && key_name(n)[0] as int == '1' as int + n,
        key_name(9).len() == 1 && key_name(9)[0] == '0',
        n < 26 ==> key_name((10 + n) as u32).len() == 1 && key_name((10 + n) as u32)[0] as int == 'A' as int + n,
{
    reveal_strlit("1");
    reveal_strlit("2");
    reveal_strlit("3");
    reveal_strlit("4");
    reveal_strlit("5");
    reveal_strlit("6");
    reveal_strlit("7");
    reveal_strlit("8");
    reveal_strlit("9");
    reveal_strlit("0");
    reveal_strlit("A");
    reveal_strlit("B");
    reveal_strlit("C");
    reveal_strlit("D");
    reveal_strlit("E");
    reveal_strlit("F");
    reveal_strlit("G");
    reveal_strlit("H");
    reveal_strlit("I");
    reveal_strlit("J");
    reveal_strlit("K");
    reveal_strlit("L");
    reveal_strlit("M");
    reveal_strlit("N");
    reveal_strlit("O");
    reveal_strlit("P");
    reveal_strlit("Q");
    reveal_strlit("R");
    reveal_strlit("S");
    reveal_strlit("T");
    reveal_strlit("U");
    reveal_strlit("V");
    reveal_strlit("W");
    reveal_strlit("X");
    reveal_strlit("Y");
    reveal_strlit("Z");
}

/// The name of the key with code `code`, as shown in the settings menu.
pub fn key_code_string(code: u32) -> (name: &'static str)
    requires
        code < KEY_CODES,
    ensures
        name@ == key_name(code),
{
    match code {
        0 => "1",
        1 => "2",
        2 => "3",
        3 => "4",
        4 => "5",
        5 => "6",
        6 => "7",
        7 => "8",
        8 => "9",
        9 => "0",
        10 => "A",
        11 => "B",
        12 => "C",
        13 => "D",
        14 => "E",
        15 => "F",
        16 => "G",
        17 => "H",
        18 => "I",
        19 => "J",
        20 => "K",
        21 => "L",
        22 => "M",
        23 => "N",
        24 => "O",
        25 => "P",
        26 => "Q",
        27 => "R",
        28 => "S",
        29 => "T",
        30 => "U",
        31 => "V",
        32 => "W",
        33 => "X",
        34 => "Y",
        35 => "Z",
        36 => "Escape",
        37 => "F1",
        38 => "F2",
        39 => "F3",
        40 => "F4",
        41 => "F5",
        42 => "F6",
        43 => "F7",
        44 => "F8",
        45 => "F9",
        46 => "F10",
        47 => "F11",
        48 => "F12",
        49 => "F13",
        50 => "F14",
        51 => "F15",
        52 => "F16",
        53 => "F17",
        54 => "F18",
        55 => "F19",
        56 => "F20",
        57 => "F21",
        58 => "F22",
        59 => "F23",
        60 => "F24",
        61 => "Snapshot",
        62 => "Scroll",
        63 => "Pause",
        64 => "Insert",
        65 => "Home",
        66 => "Delete",
        67 => "End",
        68 => "PageDown",
        69 => "PageUp",
        70 => "Left",
        71 => "Up",
        72 => "Right",
        73 => "Down",
        74 => "Back",
        75 => "Return",
        76 => "Space",
        77 => "Compose",
        78 => "Caret",
        79 => "Numlock",
        80 => "Numpad0",
        81 => "Numpad1",
        82 => "Numpad2",
        83 => "Numpad3",
        84 => "Numpad4",
        85 => "Numpad5",
        86 => "Numpad6",
        87 => "Numpad7",
        88 => "Numpad8",
        89 => "Numpad9",
        90 => "AbntC1",
        91 => "AbntC2",
        92 => "NumpadAdd",
        93 => "Apostrophe",
        94 => "Apps",
        95 => "Asterisk",
        96 => "Plus",
        97 => "At",
        98 => "Ax",
        99 => "Backslash",
        100 => "Calculator",
        101 => "Capital",
        102 => "Colon",
        103 => "Comma",
        104 => "Convert",
        105 => "NumpadDecimal",
        106 => "NumpadDivide",
        107 => "Equals",
        108 => "Grave",
        109 => "Kana",
        110 => "Kanji",
        111 => "LAlt",
        112 => "LBracket",
        113 => "LControl",
        114 => "LShift",
        115 => "LWin",
        116 => "Mail",
        117 => "MediaSelect",
        118 => "MediaStop",
        119 => "Minus",
        120 => "NumpadMultiply",
        121 => "Mute",
        122 => "MyComputer",
        123 => "NavigateForward",
        124 => "NavigateBackward",
        125 => "NextTrack",
        126 => "NoConvert",
        127 => "NumpadComma",
        128 => "NumpadEnter",
        129 => "NumpadEquals",
        130 => "Oem102",
        131 => "Period",
        132 => "PlayPause",
        133 => "Power",
        134 => "PrevTrack",
        135 => "RAlt",
        136 => "RBracket",
        137 => "RControl",
        138 => "RShift",
        139 => "RWin",
        140 => "Semicolon",
        141 => "Slash",
        142 => "Sleep",
        143 => "Stop",
        144 => "NumpadSubtract",
        145 => "Sysrq",
        146 => "Tab",
        147 => "Underline",
        148 => "Unlabeled",
        149 => "VolumeDown",
        150 => "VolumeUp",
        151 => "Wake",
        152 => "WebBack",
        153 => "WebFavorites",
        154 => "WebForward",
        155 => "WebHome",
        156 => "WebRefresh",
        157 => "WebSearch",
        158 => "WebStop",
        159 => "Yen",
        160 => "Copy",
        161 => "Paste",
        _ => "Cut",
    }
}

} // verus!
