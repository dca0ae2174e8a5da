//! The label color kept in three bits of the Finder flags.

use vstd::prelude::*;
use vstd::string::*;

verus! {

/// One of the seven Finder label colors.
#[derive(Clone, Copy, Debug, PartialEq, Eq, Structural)]
pub enum LabelColor {
    Gray,
    Green,
    Purple,
    Blue,
    Yellow,
    Red,
    Orange,
}

impl LabelColor {
    /// The color that the value of the color bits (mask `0x000e`) stands for.
    pub open spec fn spec_from_u8(b: u8) -> Option<LabelColor> {
        if b == 0x02 {
            Some(LabelColor::Gray)
        } else if b == 0x04 {
            Some(LabelColor::Green)
        } else if b == 0x06 {
            Some(LabelColor::Purple)
        } else if b == 0x08 {
            Some(LabelColor::Blue)
        } else if b == 0x0a {
            Some(LabelColor::Yellow)
        } else if b == 0x0c {
            Some(LabelColor::Red)
        } else if b == 0x0e {
            Some(LabelColor::Orange)
        } else {
            None
        }
    }

    /// The value of the color bits for a color, 0 for none.
    pub open spec fn spec_to_u8(c: Option<LabelColor>) -> u8 {
        match c {
            None => 0x00,
            Some(LabelColor::Gray) => 0x02,
            Some(LabelColor::Green) => 0x04,
            Some(LabelColor::Purple) => 0x06,
            Some(LabelColor::Blue) => 0x08,
            Some(LabelColor::Yellow) => 0x0a,
            Some(LabelColor::Red) => 0x0c,
            Some(LabelColor::Orange) => 0x0e,
        }
    }

    /// The name of a color, as written in Rust.
    pub open spec fn spec_name(c: LabelColor) -> Seq<char> {
        match c {
            LabelColor::Gray => "Gray"@,
            LabelColor::Green => "Green"@,
            LabelColor::Purple => "Purple"@,
            LabelColor::Blue => "Blue"@,
            LabelColor::Yellow => "Yellow"@,
            LabelColor::Red => "Red"@,
            LabelColor::Orange => "Orange"@,
        }
    }

    /// The color whose name is exactly `s`, if any.
    pub open spec fn spec_from_name(s: Seq<char>) -> Option<LabelColor> {
        if s == "Gray"@ {
            Some(LabelColor::Gray)
        } else if s == "Green"@ {
            Some(LabelColor::Green)
        } else if s == "Purple"@ {
            Some(LabelColor::Purple)
        } else if s == "Blue"@ {
            Some(LabelColor::Blue)
        } else if s == "Yellow"@ {
            Some(LabelColor::Yellow)
        } else if s == "Red"@ {
            Some(LabelColor::Red)
        } else if s == "Orange"@ {
            Some(LabelColor::Orange)
        } else {
            None
        }
    }

    /// Decodes the value of the color bits: 2, 4, ..., 14 are the seven colors,
    /// anything else is no color.
    pub fn from_u8(b: u8) -> (r: Option<LabelColor>)
        ensures
            r == Self::spec_from_u8(b),
    {
        match b {
            0x02 => Some(LabelColor::Gray),
            0x04 => Some(LabelColor::Green),
            0x06 => Some(LabelColor::Purple),
            0x08 => Some(LabelColor::Blue),
            0x0a => Some(LabelColor::Yellow),
            0x0c => Some(LabelColor::Red),
            0x0e => Some(LabelColor::Orange),
            _ => None,
        }
    }

    /// Encodes a color as the value of the color bits; no color is 0.
    pub fn to_u8(c: Option<LabelColor>) -> (r: u8)
        ensures
            r == Self::spec_to_u8(c),
    {
        match c {
            None => 0x00,
            Some(LabelColor::Gray) => 0x02,
            Some(LabelColor::Green) => 0x04,
            Some(LabelColor::Purple) => 0x06,
            Some(LabelColor::Blue) => 0x08,
            Some(LabelColor::Yellow) => 0x0a,
            Some(LabelColor::Red) => 0x0c,
            Some(LabelColor::Orange) => 0x0e,
        }
    }

    /// The name of a color: "Gray", "Green", ...
    pub fn to_str(c: LabelColor) -> (r: &'static str)
        ensures
            r@ == Self::spec_name(c),
    {
        match c {
            LabelColor::Gray => "Gray",
            LabelColor::Green => "Green",
            LabelColor::Purple => "Purple",
            LabelColor::Blue => "Blue",
            LabelColor::Yellow => "Yellow",
            LabelColor::Red => "Red",
            LabelColor::Orange => "Orange",
        }
    }

    /// The color with exactly this name (case matters), if any.
    pub fn from_str(s: &str) -> (r: Option<LabelColor>)
        ensures
            r == Self::spec_from_name(s@),
    {
        if same_text(s, "Gray") {
            Some(LabelColor::Gray)
        } else if same_text(s, "Green") {
            Some(LabelColor::Green)
        } else if same_text(s, "Purple") {
            Some(LabelColor::Purple)
        } else if same_text(s, "Blue") {
            Some(LabelColor::Blue)
        } else if same_text(s, "Yellow") {
            Some(LabelColor::Yellow)
        } else if same_text(s, "Red") {
            Some(LabelColor::Red)
        } else if same_text(s, "Orange") {
            Some(LabelColor::Orange)
        } else {
            None
        }
    }
}

/// Whether two strings hold the same characters.
fn same_text(a: &str, b: &str) -> (r: bool)
    ensures
        r == (a@ == b@),
{
    let n = a.unicode_len();
    if n != b.unicode_len() {
        return false;
    }
    let mut i: usize = 0;
    while i < n
        invariant
            n == a@.len(),
            n == b@.len(),
            i <= n,
            forall|j: int| 0 <= j < i ==> a@[j] == b@[j],
        decreases n - i,
    {
        if a.get_char(i) != b.get_char(i) {
            return false;
        }
        i = i + 1;
    }
    assert(a@ =~= b@);
    true
}

/// Every color survives encoding and decoding; no other code decodes to a color.
pub proof fn lemma_color_round_trip(c: LabelColor, b: u8)
    ensures
        LabelColor::spec_from_u8(LabelColor::spec_to_u8(Some(c))) == Some(c),
        LabelColor::spec_from_u8(0) == None::<LabelColor>,
        LabelColor::spec_from_u8(b) is Some <==> (b == 2 || b == 4 || b == 6 || b == 8 || b == 10
            || b == 12 || b == 14),
{
}

} // verus!
