use crate::board::TicTac;
use vstd::prelude::*;

verus! {

pub const X_ROW_0: &'static str = "    Y88b   d88P    ";
pub const X_ROW_1: &'static str = "     Y88b d88P     ";
pub const X_ROW_2: &'static str = "      Y88o88P      ";
pub const X_ROW_3: &'static str = "       Y888P       ";
pub const X_ROW_4: &'static str = "       d888b       ";
pub const X_ROW_5: &'static str = "      d88888b      ";
pub const X_ROW_6: &'static str = "     d88P Y88b     ";
pub const X_ROW_7: &'static str = "    d88P   Y88b    ";

pub const O_ROW_0: &'static str = "     .d88888b.     ";
pub const O_ROW_1: &'static str = "    d88P\" \"Y88b    ";
pub const O_ROW_2: &'static str = "    888     888    ";
pub const O_ROW_3: &'static str = "    888     888    ";
pub const O_ROW_4: &'static str = "    888     888    ";
pub const O_ROW_5: &'static str = "    888     888    ";
pub const O_ROW_6: &'static str = "    Y88b. .d88P    ";
pub const O_ROW_7: &'static str = "     \"Y88888P\"     ";

pub const BLANK: &'static str = "                   ";

/// Row `j` of the eight-row glyph of `X`.
pub open spec fn x_row(j: int) -> &'static str {
    if j == 0 {
        X_ROW_0
    } else if j == 1 {
        X_ROW_1
    } else if j == 2 {
        X_ROW_2
    } else if j == 3 {
        X_ROW_3
    } else if j == 4 {
        X_ROW_4
    } else if j == 5 {
        X_ROW_5
    } else if j == 6 {
        X_ROW_6
    } else {
        X_ROW_7
    }
}

/// Row `j` of the eight-row glyph of `O`.
pub open spec fn o_row(j: int) -> &'static str {
    if j == 0 {
        O_ROW_0
    } else if j == 1 {
        O_ROW_1
    } else if j == 2 {
        O_ROW_2
    } else if j == 3 {
        O_ROW_3
    } else if j == 4 {
        O_ROW_4
    } else if j == 5 {
        O_ROW_5
    } else if j == 6 {
        O_ROW_6
    } else {
        O_ROW_7
    }
}

/// Row `frame` of the glyph drawn for a cell; an empty cell is blank.
pub open spec fn frame_of(ascii: Option<TicTac>, frame: int) -> &'static str {
    match ascii {
        Some(TicTac::X) => x_row(frame),
        Some(TicTac::O) => o_row(frame),
        None => BLANK,
    }
}

/// Row `frame` (0 to 7) of the large glyph of a cell.
pub fn get_frame(ascii: Option<TicTac>, frame: usize) -> (r: &'static str)
    requires
        frame <= 7,
    ensures
        r == frame_of(ascii, frame as int),
{
    match ascii {
        Some(TicTac::X) => match frame {
            0 => X_ROW_0,
            1 => X_ROW_1,
            2 => X_ROW_2,
            3 => X_ROW_3,
            4 => X_ROW_4,
            5 => X_ROW_5,
            6 => X_ROW_6,
            _ => X_ROW_7,
        },
        Some(TicTac::O) => match frame {
            0 => O_ROW_0,
            1 => O_ROW_1,
            2 => O_ROW_2,
            3 => O_ROW_3,
            4 => O_ROW_4,
            5 => O_ROW_5,
            6 => O_ROW_6,
            _ => O_ROW_7,
        },
        None => BLANK,
    }
}

} // verus!
