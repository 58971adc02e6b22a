//! Value types used throughout the terminal session: cell coordinates,
//! terminal dimensions, and the normalized color model.

use vstd::prelude::*;
use vstd::string::StringExecFns;

verus! {

/// A zero-based terminal cell coordinate.
#[derive(Clone, Copy, Debug, PartialEq, Eq, Structural)]
pub struct Point {
    pub x: u16,
    pub y: u16,
}

/// Terminal dimensions in cells.
///
/// A `Size` is produced only by querying the driver or by a resize
/// notification; it is never fabricated elsewhere by the session itself.
#[derive(Clone, Copy, Debug, PartialEq, Eq, Structural)]
pub struct Size {
    pub width: u16,
    pub height: u16,
}

impl Size {
    /// A real cell grid: both dimensions above zero. A zero-sized
    /// terminal is a transient, unqueryable state and is never surfaced
    /// to the application.
    pub open spec fn is_positive(self) -> bool {
        self.width > 0 && self.height > 0
    }

    pub fn new(width: u16, height: u16) -> (s: Size)
        ensures
            s == (Size { width, height }),
    {
        Size { width, height }
    }
}

/// How the session takes over a driver-reported size: a positive answer is
/// adopted verbatim; a zero-sized answer reports a transient, unqueryable
/// state, so the fallback stands in for it and the zero is never surfaced.
pub fn adopt_size(queried: Size, fallback: Size) -> (r: Size)
    ensures
        r == (if queried.is_positive() {
            queried
        } else {
            fallback
        }),
{
    if queried.width > 0 && queried.height > 0 {
        queried
    } else {
        fallback
    }
}

/// The normalized color model: the sixteen named ANSI colors, a byte of the
/// 256-color palette, and 24-bit RGB.
#[derive(Clone, Copy, Debug, PartialEq, Eq, Structural)]
pub enum Color {
    Black,
    DarkGray,
    Red,
    DarkRed,
    Green,
    DarkGreen,
    Yellow,
    DarkYellow,
    Blue,
    DarkBlue,
    Magenta,
    DarkMagenta,
    Cyan,
    DarkCyan,
    White,
    Gray,
    Rgb { r: u8, g: u8, b: u8 },
    Byte(u8),
}

/// The driver-level color representation: an index into the 256-color
/// palette (whose first sixteen entries are the named ANSI colors), or a
/// 24-bit RGB triple.
#[derive(Clone, Copy, Debug, PartialEq, Eq, Structural)]
pub enum DriverColor {
    Ansi(u8),
    Rgb(u8, u8, u8),
}

/// The character for one decimal digit.
pub open spec fn digit_to_char(d: nat) -> char {
    if d == 0 {
        '0'
    } else if d == 1 {
        '1'
    } else if d == 2 {
        '2'
    } else if d == 3 {
        '3'
    } else if d == 4 {
        '4'
    } else if d == 5 {
        '5'
    } else if d == 6 {
        '6'
    } else if d == 7 {
        '7'
    } else if d == 8 {
        '8'
    } else {
        '9'
    }
}

/// The decimal rendering of a number: most significant digit first, no
/// leading zeros except for the number zero itself.
pub open spec fn spec_decimal(n: nat) -> Seq<char>
    decreases n,
{
    if n < 10 {
        seq![digit_to_char(n)]
    } else {
        spec_decimal(n / 10).push(digit_to_char(n % 10))
    }
}

fn digit_str(d: u8) -> (s: &'static str)
    requires
        d < 10,
    ensures
        s@ == seq![digit_to_char(d as nat)],
{
    match d {
        0 => {
            proof {
                reveal_strlit("0");
                assert("0"@ =~= seq![digit_to_char(0)]);
            }
            "0"
        },
        1 => {
            proof {
                reveal_strlit("1");
                assert("1"@ =~= seq![digit_to_char(1)]);
            }
            "1"
        },
        2 => {
            proof {
                reveal_strlit("2");
                assert("2"@ =~= seq![digit_to_char(2)]);
            }
            "2"
        },
        3 => {
            proof {
                reveal_strlit("3");
                assert("3"@ =~= seq![digit_to_char(3)]);
            }
            "3"
        },
        4 => {
            proof {
                reveal_strlit("4");
                assert("4"@ =~= seq![digit_to_char(4)]);
            }
            "4"
        },
        5 => {
            proof {
                reveal_strlit("5");
                assert("5"@ =~= seq![digit_to_char(5)]);
            }
            "5"
        },
        6 => {
            proof {
                reveal_strlit("6");
                assert("6"@ =~= seq![digit_to_char(6)]);
            }
            "6"
        },
        7 => {
            proof {
                reveal_strlit("7");
                assert("7"@ =~= seq![digit_to_char(7)]);
            }
            "7"
        },
        8 => {
            proof {
                reveal_strlit("8");
                assert("8"@ =~= seq![digit_to_char(8)]);
            }
            "8"
        },
        _ => {
            proof {
                reveal_strlit("9");
                assert("9"@ =~= seq![digit_to_char(d as nat)]);
            }
            "9"
        },
    }
}

/// Renders a number in decimal, most significant digit first.
pub fn decimal_string(n: usize) -> (s: String)
    ensures
        s@ == spec_decimal(n as nat),
    decreases n,
{
    if n < 10 {
        let s = digit_str(n as u8).to_owned();
        proof {
            assert(s@ =~= spec_decimal(n as nat));
        }
        s
    } else {
        let mut s = decimal_string(n / 10);
        s.append(digit_str((n % 10) as u8));
        proof {
            assert(s@ =~= spec_decimal(n as nat));
        }
        s
    }
}

} // verus!
