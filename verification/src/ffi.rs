//! The value types of the vJoy driver interface.

use vstd::prelude::*;

pub mod layout;
pub mod position_laws;
pub mod rusty_structure;

pub use rusty_structure::{
    PositionV2, VJDAxis, VJDError, VJDPosition, VJDPovDisc, VJDPovNumber, VJDStatus, VJDevice,
};

verus! {

/// Describes a button state of a vJoy device.
#[derive(Debug, Copy, Clone, PartialEq, Eq, Structural, Hash)]
pub enum VJDButtonState {
    Pressed,
    Released,
}

impl VJDButtonState {
    /// The value the driver expects: 1 for pressed, 0 for released.
    pub open spec fn spec_code(self) -> int {
        match self {
            VJDButtonState::Pressed => 1,
            VJDButtonState::Released => 0,
        }
    }

    /// The value the driver expects: 1 for pressed, 0 for released.
    pub fn code(self) -> (r: u8)
        ensures
            r == self.spec_code(),
    {
        match self {
            VJDButtonState::Pressed => 1,
            VJDButtonState::Released => 0,
        }
    }

    /// Whether this state is `Pressed`.
    pub fn is_pressed(self) -> (r: bool)
        ensures
            r == (self == VJDButtonState::Pressed),
    {
        match self {
            VJDButtonState::Pressed => true,
            VJDButtonState::Released => false,
        }
    }

    /// `Pressed` for `true`, `Released` for `false`.
    pub fn get_from(pressed: bool) -> (r: VJDButtonState)
        ensures
            r == (if pressed { VJDButtonState::Pressed } else { VJDButtonState::Released }),
    {
        if pressed {
            VJDButtonState::Pressed
        } else {
            VJDButtonState::Released
        }
    }
}

/// The lowest button number of a vJoy device.
pub const MIN_BUTTON: u32 = 1;

/// The highest button number of a vJoy device.
pub const MAX_BUTTON: u32 = 128;

/// Describes a button of a vJoy device. Buttons are numbered from 1.
#[derive(Debug, Copy, Clone, PartialEq, Eq, Structural, Hash)]
pub enum VJDButton {
    B1, B2, B3, B4, B5, B6, B7, B8, B9, B10,
    B11, B12, B13, B14, B15, B16, B17, B18, B19, B20,
    B21, B22, B23, B24, B25, B26, B27, B28, B29, B30,
    B31, B32, B33, B34, B35, B36, B37, B38, B39, B40,
    B41, B42, B43, B44, B45, B46, B47, B48, B49, B50,
    B51, B52, B53, B54, B55, B56, B57, B58, B59, B60,
    B61, B62, B63, B64, B65, B66, B67, B68, B69, B70,
    B71, B72, B73, B74, B75, B76, B77, B78, B79, B80,
    B81, B82, B83, B84, B85, B86, B87, B88, B89, B90,
    B91, B92, B93, B94, B95, B96, B97, B98, B99, B100,
    B101, B102, B103, B104, B105, B106, B107, B108, B109, B110,
    B111, B112, B113, B114, B115, B116, B117, B118, B119, B120,
    B121, B122, B123, B124, B125, B126, B127, B128,
}

impl VJDButton {
    /// The number of the button, from 1 to 128.
    pub open spec fn spec_number(self) -> int {
        match self {
            VJDButton::B1 => 1, VJDButton::B2 => 2, VJDButton::B3 => 3, VJDButton::B4 => 4,
            VJDButton::B5 => 5, VJDButton::B6 => 6, VJDButton::B7 => 7, VJDButton::B8 => 8,
            VJDButton::B9 => 9, VJDButton::B10 => 10, VJDButton::B11 => 11, VJDButton::B12 => 12,
            VJDButton::B13 => 13, VJDButton::B14 => 14, VJDButton::B15 => 15, VJDButton::B16 => 16,
            VJDButton::B17 => 17, VJDButton::B18 => 18, VJDButton::B19 => 19, VJDButton::B20 => 20,
            VJDButton::B21 => 21, VJDButton::B22 => 22, VJDButton::B23 => 23, VJDButton::B24 => 24,
            VJDButton::B25 => 25, VJDButton::B26 => 26, VJDButton::B27 => 27, VJDButton::B28 => 28,
            VJDButton::B29 => 29, VJDButton::B30 => 30, VJDButton::B31 => 31, VJDButton::B32 => 32,
            VJDButton::B33 => 33, VJDButton::B34 => 34, VJDButton::B35 => 35, VJDButton::B36 => 36,
            VJDButton::B37 => 37, VJDButton::B38 => 38, VJDButton::B39 => 39, VJDButton::B40 => 40,
            VJDButton::B41 => 41, VJDButton::B42 => 42, VJDButton::B43 => 43, VJDButton::B44 => 44,
            VJDButton::B45 => 45, VJDButton::B46 => 46, VJDButton::B47 => 47, VJDButton::B48 => 48,
            VJDButton::B49 => 49, VJDButton::B50 => 50, VJDButton::B51 => 51, VJDButton::B52 => 52,
            VJDButton::B53 => 53, VJDButton::B54 => 54, VJDButton::B55 => 55, VJDButton::B56 => 56,
            VJDButton::B57 => 57, VJDButton::B58 => 58, VJDButton::B59 => 59, VJDButton::B60 => 60,
            VJDButton::B61 => 61, VJDButton::B62 => 62, VJDButton::B63 => 63, VJDButton::B64 => 64,
            VJDButton::B65 => 65, VJDButton::B66 => 66, VJDButton::B67 => 67, VJDButton::B68 => 68,
            VJDButton::B69 => 69, VJDButton::B70 => 70, VJDButton::B71 => 71, VJDButton::B72 => 72,
            VJDButton::B73 => 73, VJDButton::B74 => 74, VJDButton::B75 => 75, VJDButton::B76 => 76,
            VJDButton::B77 => 77, VJDButton::B78 => 78, VJDButton::B79 => 79, VJDButton::B80 => 80,
            VJDButton::B81 => 81, VJDButton::B82 => 82, VJDButton::B83 => 83, VJDButton::B84 => 84,
            VJDButton::B85 => 85, VJDButton::B86 => 86, VJDButton::B87 => 87, VJDButton::B88 => 88,
            VJDButton::B89 => 89, VJDButton::B90 => 90, VJDButton::B91 => 91, VJDButton::B92 => 92,
            VJDButton::B93 => 93, VJDButton::B94 => 94, VJDButton::B95 => 95, VJDButton::B96 => 96,
            VJDButton::B97 => 97, VJDButton::B98 => 98, VJDButton::B99 => 99,
            VJDButton::B100 => 100,
            VJDButton::B101 => 101, VJDButton::B102 => 102, VJDButton::B103 => 103,
            VJDButton::B104 => 104,
            VJDButton::B105 => 105, VJDButton::B106 => 106, VJDButton::B107 => 107,
            VJDButton::B108 => 108,
            VJDButton::B109 => 109, VJDButton::B110 => 110, VJDButton::B111 => 111,
            VJDButton::B112 => 112,
            VJDButton::B113 => 113, VJDButton::B114 => 114, VJDButton::B115 => 115,
            VJDButton::B116 => 116,
            VJDButton::B117 => 117, VJDButton::B118 => 118, VJDButton::B119 => 119,
            VJDButton::B120 => 120,
            VJDButton::B121 => 121, VJDButton::B122 => 122, VJDButton::B123 => 123,
            VJDButton::B124 => 124,
            VJDButton::B125 => 125, VJDButton::B126 => 126, VJDButton::B127 => 127,
            VJDButton::B128 => 128,
        }
    }

    /// The number of the button, from 1 to 128.
    pub fn number(self) -> (r: u8)
        ensures
            r == self.spec_number(),
            MIN_BUTTON <= r <= MAX_BUTTON,
    {
        match self {
            VJDButton::B1 => 1, VJDButton::B2 => 2, VJDButton::B3 => 3, VJDButton::B4 => 4,
            VJDButton::B5 => 5, VJDButton::B6 => 6, VJDButton::B7 => 7, VJDButton::B8 => 8,
            VJDButton::B9 => 9, VJDButton::B10 => 10, VJDButton::B11 => 11, VJDButton::B12 => 12,
            VJDButton::B13 => 13, VJDButton::B14 => 14, VJDButton::B15 => 15, VJDButton::B16 => 16,
            VJDButton::B17 => 17, VJDButton::B18 => 18, VJDButton::B19 => 19, VJDButton::B20 => 20,
            VJDButton::B21 => 21, VJDButton::B22 => 22, VJDButton::B23 => 23, VJDButton::B24 => 24,
            VJDButton::B25 => 25, VJDButton::B26 => 26, VJDButton::B27 => 27, VJDButton::B28 => 28,
            VJDButton::B29 => 29, VJDButton::B30 => 30, VJDButton::B31 => 31, VJDButton::B32 => 32,
            VJDButton::B33 => 33, VJDButton::B34 => 34, VJDButton::B35 => 35, VJDButton::B36 => 36,
            VJDButton::B37 => 37, VJDButton::B38 => 38, VJDButton::B39 => 39, VJDButton::B40 => 40,
            VJDButton::B41 => 41, VJDButton::B42 => 42, VJDButton::B43 => 43, VJDButton::B44 => 44,
            VJDButton::B45 => 45, VJDButton::B46 => 46, VJDButton::B47 => 47, VJDButton::B48 => 48,
            VJDButton::B49 => 49, VJDButton::B50 => 50, VJDButton::B51 => 51, VJDButton::B52 => 52,
            VJDButton::B53 => 53, VJDButton::B54 => 54, VJDButton::B55 => 55, VJDButton::B56 => 56,
            VJDButton::B57 => 57, VJDButton::B58 => 58, VJDButton::B59 => 59, VJDButton::B60 => 60,
            VJDButton::B61 => 61, VJDButton::B62 => 62, VJDButton::B63 => 63, VJDButton::B64 => 64,
            VJDButton::B65 => 65, VJDButton::B66 => 66, VJDButton::B67 => 67, VJDButton::B68 => 68,
            VJDButton::B69 => 69, VJDButton::B70 => 70, VJDButton::B71 => 71, VJDButton::B72 => 72,
            VJDButton::B73 => 73, VJDButton::B74 => 74, VJDButton::B75 => 75, VJDButton::B76 => 76,
            VJDButton::B77 => 77, VJDButton::B78 => 78, VJDButton::B79 => 79, VJDButton::B80 => 80,
            VJDButton::B81 => 81, VJDButton::B82 => 82, VJDButton::B83 => 83, VJDButton::B84 => 84,
            VJDButton::B85 => 85, VJDButton::B86 => 86, VJDButton::B87 => 87, VJDButton::B88 => 88,
            VJDButton::B89 => 89, VJDButton::B90 => 90, VJDButton::B91 => 91, VJDButton::B92 => 92,
            VJDButton::B93 => 93, VJDButton::B94 => 94, VJDButton::B95 => 95, VJDButton::B96 => 96,
            VJDButton::B97 => 97, VJDButton::B98 => 98, VJDButton::B99 => 99,
            VJDButton::B100 => 100,
            VJDButton::B101 => 101, VJDButton::B102 => 102, VJDButton::B103 => 103,
            VJDButton::B104 => 104,
            VJDButton::B105 => 105, VJDButton::B106 => 106, VJDButton::B107 => 107,
            VJDButton::B108 => 108,
            VJDButton::B109 => 109, VJDButton::B110 => 110, VJDButton::B111 => 111,
            VJDButton::B112 => 112,
            VJDButton::B113 => 113, VJDButton::B114 => 114, VJDButton::B115 => 115,
            VJDButton::B116 => 116,
            VJDButton::B117 => 117, VJDButton::B118 => 118, VJDButton::B119 => 119,
            VJDButton::B120 => 120,
            VJDButton::B121 => 121, VJDButton::B122 => 122, VJDButton::B123 => 123,
            VJDButton::B124 => 124,
            VJDButton::B125 => 125, VJDButton::B126 => 126, VJDButton::B127 => 127,
            VJDButton::B128 => 128,
        }
    }

    /// The button with the given number, if the number lies in 1..=128.
    pub fn get_from(value: u8) -> (r: Option<VJDButton>)
        ensures
            r is Some <==> MIN_BUTTON <= value <= MAX_BUTTON,
            r matches Some(button) ==> button.spec_number() == value,
    {
        match value {
            1 => Some(VJDButton::B1), 2 => Some(VJDButton::B2), 3 => Some(VJDButton::B3),
            4 => Some(VJDButton::B4),
            5 => Some(VJDButton::B5), 6 => Some(VJDButton::B6), 7 => Some(VJDButton::B7),
            8 => Some(VJDButton::B8),
            9 => Some(VJDButton::B9), 10 => Some(VJDButton::B10), 11 => Some(VJDButton::B11),
            12 => Some(VJDButton::B12),
            13 => Some(VJDButton::B13), 14 => Some(VJDButton::B14), 15 => Some(VJDButton::B15),
            16 => Some(VJDButton::B16),
            17 => Some(VJDButton::B17), 18 => Some(VJDButton::B18), 19 => Some(VJDButton::B19),
            20 => Some(VJDButton::B20),
            21 => Some(VJDButton::B21), 22 => Some(VJDButton::B22), 23 => Some(VJDButton::B23),
            24 => Some(VJDButton::B24),
            25 => Some(VJDButton::B25), 26 => Some(VJDButton::B26), 27 => Some(VJDButton::B27),
            28 => Some(VJDButton::B28),
            29 => Some(VJDButton::B29), 30 => Some(VJDButton::B30), 31 => Some(VJDButton::B31),
            32 => Some(VJDButton::B32),
            33 => Some(VJDButton::B33), 34 => Some(VJDButton::B34), 35 => Some(VJDButton::B35),
            36 => Some(VJDButton::B36),
            37 => Some(VJDButton::B37), 38 => Some(VJDButton::B38), 39 => Some(VJDButton::B39),
            40 => Some(VJDButton::B40),
            41 => Some(VJDButton::B41), 42 => Some(VJDButton::B42), 43 => Some(VJDButton::B43),
            44 => Some(VJDButton::B44),
            45 => Some(VJDButton::B45), 46 => Some(VJDButton::B46), 47 => Some(VJDButton::B47),
            48 => Some(VJDButton::B48),
            49 => Some(VJDButton::B49), 50 => Some(VJDButton::B50), 51 => Some(VJDButton::B51),
            52 => Some(VJDButton::B52),
            53 => Some(VJDButton::B53), 54 => Some(VJDButton::B54), 55 => Some(VJDButton::B55),
            56 => Some(VJDButton::B56),
            57 => Some(VJDButton::B57), 58 => Some(VJDButton::B58), 59 => Some(VJDButton::B59),
            60 => Some(VJDButton::B60),
            61 => Some(VJDButton::B61), 62 => Some(VJDButton::B62), 63 => Some(VJDButton::B63),
            64 => Some(VJDButton::B64),
            65 => Some(VJDButton::B65), 66 => Some(VJDButton::B66), 67 => Some(VJDButton::B67),
            68 => Some(VJDButton::B68),
            69 => Some(VJDButton::B69), 70 => Some(VJDButton::B70), 71 => Some(VJDButton::B71),
            72 => Some(VJDButton::B72),
            73 => Some(VJDButton::B73), 74 => Some(VJDButton::B74), 75 => Some(VJDButton::B75),
            76 => Some(VJDButton::B76),
            77 => Some(VJDButton::B77), 78 => Some(VJDButton::B78), 79 => Some(VJDButton::B79),
            80 => Some(VJDButton::B80),
            81 => Some(VJDButton::B81), 82 => Some(VJDButton::B82), 83 => Some(VJDButton::B83),
            84 => Some(VJDButton::B84),
            85 => Some(VJDButton::B85), 86 => Some(VJDButton::B86), 87 => Some(VJDButton::B87),
            88 => Some(VJDButton::B88),
            89 => Some(VJDButton::B89), 90 => Some(VJDButton::B90), 91 => Some(VJDButton::B91),
            92 => Some(VJDButton::B92),
            93 => Some(VJDButton::B93), 94 => Some(VJDButton::B94), 95 => Some(VJDButton::B95),
            96 => Some(VJDButton::B96),
            97 => Some(VJDButton::B97), 98 => Some(VJDButton::B98), 99 => Some(VJDButton::B99),
            100 => Some(VJDButton::B100),
            101 => Some(VJDButton::B101), 102 => Some(VJDButton::B102), 103 => Some(VJDButton::B103),
            104 => Some(VJDButton::B104),
            105 => Some(VJDButton::B105), 106 => Some(VJDButton::B106), 107 => Some(VJDButton::B107),
            108 => Some(VJDButton::B108),
            109 => Some(VJDButton::B109), 110 => Some(VJDButton::B110), 111 => Some(VJDButton::B111),
            112 => Some(VJDButton::B112),
            113 => Some(VJDButton::B113), 114 => Some(VJDButton::B114), 115 => Some(VJDButton::B115),
            116 => Some(VJDButton::B116),
            117 => Some(VJDButton::B117), 118 => Some(VJDButton::B118), 119 => Some(VJDButton::B119),
            120 => Some(VJDButton::B120),
            121 => Some(VJDButton::B121), 122 => Some(VJDButton::B122), 123 => Some(VJDButton::B123),
            124 => Some(VJDButton::B124),
            125 => Some(VJDButton::B125), 126 => Some(VJDButton::B126), 127 => Some(VJDButton::B127),
            128 => Some(VJDButton::B128),
            _ => None,
        }
    }
}

} // verus!
