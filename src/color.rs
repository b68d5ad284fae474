//! Colours as three channel bytes, and the text encodings offered for them.
use vstd::prelude::*;
use vstd::string::StringExecFns;

verus! {

/// A colour as red, green and blue channel bytes; alpha is not kept.
#[derive(Clone, Copy, Debug, PartialEq, Eq, Structural)]
pub struct Rgb {
    pub r: u8,
    pub g: u8,
    pub b: u8,
}

/// Opaque black, the fill for grid cells that no captured pixel backs.
pub open spec fn black() -> Rgb {
    Rgb { r: 0, g: 0, b: 0 }
}

impl Rgb {
    /// The colour with the given channels.
    pub fn new(r: u8, g: u8, b: u8) -> (c: Rgb)
        ensures
            c == (Rgb { r, g, b }),
    {
        Rgb { r, g, b }
    }

    /// See [`black`].
    pub fn black() -> (c: Rgb)
        ensures
            c == black(),
    {
        Rgb { r: 0, g: 0, b: 0 }
    }
}

/// The text encodings a colour can be copied in.
#[derive(Clone, Copy, Debug, PartialEq, Eq, Structural)]
pub enum ColorFormat {
    Rgb,
    Hex,
    Hsv,
    Hsl,
    Oklch,
}

/// Digits of bases ten and sixteen, upper case.
pub open spec fn digits() -> Seq<char> {
    seq!['0', '1', '2', '3', '4', '5', '6', '7', '8', '9', 'A', 'B', 'C', 'D', 'E', 'F']
}

/// `n` in decimal, without leading zeros.
pub open spec fn decimal(n: nat) -> Seq<char>
    decreases n,
{
    if n < 10 {
        seq![digits()[n as int]]
    } else {
        decimal(n / 10).push(digits()[(n % 10) as int])
    }
}

/// `n` as two upper-case hexadecimal digits.
pub open spec fn hex_byte(n: u8) -> Seq<char> {
    seq![digits()[(n / 16) as int], digits()[(n % 16) as int]]
}

/// `rgb(R, G, B)` with decimal channels.
pub open spec fn rgb_text(c: Rgb) -> Seq<char> {
    "rgb("@ + decimal(c.r as nat) + ", "@ + decimal(c.g as nat) + ", "@ + decimal(c.b as nat) + ")"@
}

/// `#RRGGBB` with upper-case hexadecimal channels.
pub open spec fn hex_text(c: Rgb) -> Seq<char> {
    "#"@ + hex_byte(c.r) + hex_byte(c.g) + hex_byte(c.b)
}

/// The one-character text of digit `d`.
fn digit(d: u8) -> (s: &'static str)
    requires
        d < 16,
    ensures
        s@ == seq![digits()[d as int]],
{
    match d {
        0 => {
            proof {
                reveal_strlit("0");
            }
            "0"
        },
        1 => {
            proof {
                reveal_strlit("1");
            }
            "1"
        },
        2 => {
            proof {
                reveal_strlit("2");
            }
            "2"
        },
        3 => {
            proof {
                reveal_strlit("3");
            }
            "3"
        },
        4 => {
            proof {
                reveal_strlit("4");
            }
            "4"
        },
        5 => {
            proof {
                reveal_strlit("5");
            }
            "5"
        },
        6 => {
            proof {
                reveal_strlit("6");
            }
            "6"
        },
        7 => {
            proof {
                reveal_strlit("7");
            }
            "7"
        },
        8 => {
            proof {
                reveal_strlit("8");
            }
            "8"
        },
        9 => {
            proof {
                reveal_strlit("9");
            }
            "9"
        },
        10 => {
            proof {
                reveal_strlit("A");
            }
            "A"
        },
        11 => {
            proof {
                reveal_strlit("B");
            }
            "B"
        },
        12 => {
            proof {
                reveal_strlit("C");
            }
            "C"
        },
        13 => {
            proof {
                reveal_strlit("D");
            }
            "D"
        },
        14 => {
            proof {
                reveal_strlit("E");
            }
            "E"
        },
        _ => {
            proof {
                reveal_strlit("F");
            }
            "F"
        },
    }
}

/// Appends `n` in decimal to `out`.
fn push_decimal(out: &mut String, n: u8)
    ensures
        final(out)@ == old(out)@ + decimal(n as nat),
    decreases n,
{
    if n >= 10 {
        push_decimal(out, n / 10);
    }
    out.append(digit(n % 10));
    assert(decimal(n as nat) == if n < 10 {
        seq![digits()[n as int]]
    } else {
        decimal((n / 10) as nat).push(digits()[(n % 10) as int])
    });
}

impl Rgb {
    /// The colour as `rgb(R, G, B)`.
    pub fn to_rgb_text(&self) -> (s: String)
        ensures
            s@ == rgb_text(*self),
    {
        let mut s = String::new();
        s.append("rgb(");
        push_decimal(&mut s, self.r);
        s.append(", ");
        push_decimal(&mut s, self.g);
        s.append(", ");
        push_decimal(&mut s, self.b);
        s.append(")");
        s
    }

    /// The colour as `#RRGGBB`.
    pub fn to_hex_text(&self) -> (s: String)
        ensures
            s@ == hex_text(*self),
    {
        let mut s = String::new();
        s.append("#");
        s.append(digit(self.r / 16));
        s.append(digit(self.r % 16));
        s.append(digit(self.g / 16));
        s.append(digit(self.g % 16));
        s.append(digit(self.b / 16));
        s.append(digit(self.b % 16));
        s
    }
}

} // verus!
