//! Fixed-point lengths and their decimal rendering.
//!
//! Every length in this crate is a whole number of micrometers (thousandths
//! of a millimeter), wrapped in [`Mm`].  Working in integer micrometers keeps
//! repeated arithmetic drift-free, and lets the textual rendering rule --
//! shortest faithful decimal, with no trailing `.0` -- be stated and proved
//! exactly: `10.000 mm` renders as `10`, `0.170 mm` as `0.17`, `62.500 mm`
//! as `62.5`.

use vstd::prelude::*;
use vstd::string::StringExecFns;

verus! {

/// A length in millimeters, stored as a whole number of micrometers.
#[derive(Debug, Clone, Copy, PartialEq, Eq, Structural)]
pub struct Mm {
    /// The length in micrometers (thousandths of a millimeter).
    pub micros: i64,
}

impl Mm {
    /// Builds a length from a count of micrometers.
    pub fn from_micros(micros: i64) -> (r: Mm)
        ensures
            r.micros == micros,
    {
        Mm { micros }
    }

    /// Builds a length from a whole number of millimeters.
    pub fn from_mm(mm: i32) -> (r: Mm)
        ensures
            r.micros == mm * 1000,
    {
        Mm { micros: (mm as i64) * 1000 }
    }
}

/// Halving that rounds toward zero, as the reference hardware's division
/// does for both signs.
pub open spec fn half_toward_zero(x: int) -> int {
    if x >= 0 {
        x / 2
    } else {
        -((-x) / 2)
    }
}

impl Mm {
    /// Half of this length, rounded toward zero.
    pub fn halved(self) -> (r: Mm)
        ensures
            r.micros == half_toward_zero(self.micros as int),
    {
        if self.micros >= 0 {
            Mm { micros: ((self.micros as u64) / 2) as i64 }
        } else {
            let mag: u64 = if self.micros == i64::MIN {
                9223372036854775808u64
            } else {
                (-self.micros) as u64
            };
            Mm { micros: -((mag / 2) as i64) }
        }
    }
}

/// The decimal digit character for `d` (`0 <= d <= 9`).
pub open spec fn digit_char(d: int) -> char {
    if d == 0 {
        '0'
    } else if d == 1 {
        '1'
    } else if d == 2 {
        '2'
    } else if d == 3 {
        '3'
    } else if d == 4 {
        '4'
    } else if d == 5 {
        '5'
    } else if d == 6 {
        '6'
    } else if d == 7 {
        '7'
    } else if d == 8 {
        '8'
    } else {
        '9'
    }
}

/// The usual base-ten rendering of a non-negative integer, most significant
/// digit first, with no leading zeros (and `0` rendered as `"0"`).
pub open spec fn uint_str(n: nat) -> Seq<char>
    decreases n,
{
    if n < 10 {
        seq![digit_char(n as int)]
    } else {
        uint_str(n / 10) + seq![digit_char((n % 10) as int)]
    }
}

/// The fractional part of a fixed-point length: empty when the length is a
/// whole number of millimeters, otherwise a decimal point followed by the
/// three-digit micrometer remainder with trailing zeros dropped.
pub open spec fn frac_str(f: int) -> Seq<char> {
    if f == 0 {
        Seq::<char>::empty()
    } else if f % 100 == 0 {
        seq!['.', digit_char(f / 100)]
    } else if f % 10 == 0 {
        seq!['.', digit_char(f / 100), digit_char((f / 10) % 10)]
    } else {
        seq!['.', digit_char(f / 100), digit_char((f / 10) % 10), digit_char(f % 10)]
    }
}

/// The rendering of a non-negative count of micrometers as millimeters:
/// integer part, then the trimmed fractional part.
pub open spec fn magnitude_str(mag: int) -> Seq<char> {
    uint_str((mag / 1000) as nat) + frac_str(mag % 1000)
}

/// The rendering of any count of micrometers as millimeters, a leading
/// minus sign for negative lengths.
pub open spec fn fixed_str(micros: int) -> Seq<char> {
    if micros < 0 {
        seq!['-'] + magnitude_str(-micros)
    } else {
        magnitude_str(micros)
    }
}

/// The rendering of a length: shortest faithful decimal in millimeters.
pub open spec fn mm_str(m: Mm) -> Seq<char> {
    fixed_str(m.micros as int)
}

/// The one-character string for the decimal digit `d`.
fn digit_text(d: u64) -> (r: &'static str)
    requires
        d <= 9,
    ensures
        r@ == seq![digit_char(d as int)],
{
    proof {
        reveal_strlit("0");
        reveal_strlit("1");
        reveal_strlit("2");
        reveal_strlit("3");
        reveal_strlit("4");
        reveal_strlit("5");
        reveal_strlit("6");
        reveal_strlit("7");
        reveal_strlit("8");
        reveal_strlit("9");
    }
    let r: &'static str = if d == 0 {
        "0"
    } else if d == 1 {
        "1"
    } else if d == 2 {
        "2"
    } else if d == 3 {
        "3"
    } else if d == 4 {
        "4"
    } else if d == 5 {
        "5"
    } else if d == 6 {
        "6"
    } else if d == 7 {
        "7"
    } else if d == 8 {
        "8"
    } else {
        "9"
    };
    proof {
        assert(r@ =~= seq![digit_char(d as int)]);
    }
    r
}

/// Renders a non-negative integer in base ten.
pub fn uint_text(n: u64) -> (r: String)
    ensures
        r@ == uint_str(n as nat),
    decreases n,
{
    if n < 10 {
        String::from_str(digit_text(n))
    } else {
        let mut s = uint_text(n / 10);
        s.append(digit_text(n % 10));
        s
    }
}

/// Renders a length in millimeters: shortest faithful decimal, trailing
/// zeros of the fraction and any `.0` suppressed.
pub fn mm_text(m: Mm) -> (r: String)
    ensures
        r@ == mm_str(m),
{
    let mut s = String::new();
    let mag: u64;
    if m.micros < 0 {
        proof {
            reveal_strlit("-");
        }
        s.append("-");
        if m.micros == i64::MIN {
            mag = 9223372036854775808u64;
        } else {
            mag = (-m.micros) as u64;
        }
    } else {
        mag = m.micros as u64;
    }
    let whole = uint_text(mag / 1000);
    s.append(whole.as_str());
    let frac: u64 = mag % 1000;
    if frac != 0 {
        proof {
            reveal_strlit(".");
        }
        s.append(".");
        s.append(digit_text(frac / 100));
        if frac % 100 != 0 {
            s.append(digit_text((frac / 10) % 10));
            if frac % 10 != 0 {
                s.append(digit_text(frac % 10));
            }
        }
    }
    proof {
        assert(s@ =~= mm_str(m));
    }
    s
}

} // verus!
