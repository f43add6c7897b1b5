use vstd::prelude::*;
use core::cmp::Ordering;

verus! {

/// A negotiated capability tier: major and minor number packed into one
/// integer, the major number in bits 12 to 15 and the minor number in bits
/// 8 to 11.
///
/// Levels are totally ordered, by their packed value.
#[derive(Copy, Clone, PartialEq, Eq, Ord, Hash, Structural)]
pub struct FeatureLevel(pub u32);

impl FeatureLevel {
    pub const LEVEL_9_1: u32 = 0x9100;

    pub const LEVEL_9_2: u32 = 0x9200;

    pub const LEVEL_9_3: u32 = 0x9300;

    pub const LEVEL_10_0: u32 = 0xA000;

    pub const LEVEL_10_1: u32 = 0xA100;

    pub const LEVEL_11_0: u32 = 0xB000;

    pub const LEVEL_11_1: u32 = 0xB100;

    pub const LEVEL_12_0: u32 = 0xC000;

    pub const LEVEL_12_1: u32 = 0xC100;

    /// The major number of a packed level.
    pub open spec fn spec_major(self) -> u32 {
        (self.0 >> 12) & 0xF
    }

    /// The minor number of a packed level.
    pub open spec fn spec_minor(self) -> u32 {
        (self.0 >> 8) & 0xF
    }

    /// The major number: the packed value divided by 4096, modulo 16.
    pub fn major(&self) -> (m: u32)
        ensures
            m == self.spec_major(),
            m == (self.0 / 0x1000) % 16,
    {
        let v: u32 = self.0;
        assert((v >> 12) & 0xF == (v / 0x1000) % 16) by (bit_vector);
        (v >> 12) & 0xF
    }

    /// The minor number: the packed value divided by 256, modulo 16.
    pub fn minor(&self) -> (m: u32)
        ensures
            m == self.spec_minor(),
            m == (self.0 / 0x100) % 16,
    {
        let v: u32 = self.0;
        assert((v >> 8) & 0xF == (v / 0x100) % 16) by (bit_vector);
        (v >> 8) & 0xF
    }

    /// The decimal digits of a number below 16.
    pub open spec fn decimal(n: u32) -> Seq<char> {
        if n < 10 {
            seq![('0' as u8 + n as u8) as char]
        } else {
            seq!['1', ('0' as u8 + (n - 10) as u8) as char]
        }
    }

    /// The text of a level: `FeatureLevel(`, the major number, a dot, the
    /// minor number, `)`.
    pub open spec fn text(self) -> Seq<char> {
        "FeatureLevel("@ + Self::decimal((self.0 / 0x1000) % 16) + "."@ + Self::decimal(
            (self.0 / 0x100) % 16,
        ) + ")"@
    }

    /// Writes the level out as major and minor number.
    pub fn describe(&self) -> (text: String)
        ensures
            text@ == self.text(),
    {
        let mut text = String::from_str("FeatureLevel(");
        text.append(digits(self.major()));
        text.append(".");
        text.append(digits(self.minor()));
        text.append(")");
        text
    }
}

/// The decimal digits of a number below 16.
fn digits(n: u32) -> (text: &'static str)
    requires
        n < 16,
    ensures
        text@ == FeatureLevel::decimal(n),
{
    proof {
        reveal_strlit("0");
        reveal_strlit("1");
        reveal_strlit("2");
        reveal_strlit("3");
        reveal_strlit("4");
        reveal_strlit("5");
        reveal_strlit("6");
        reveal_strlit("7");
        reveal_strlit("8");
        reveal_strlit("9");
        reveal_strlit("10");
        reveal_strlit("11");
        reveal_strlit("12");
        reveal_strlit("13");
        reveal_strlit("14");
        reveal_strlit("15");
    }
    let text = match n {
        0 => "0",
        1 => "1",
        2 => "2",
        3 => "3",
        4 => "4",
        5 => "5",
        6 => "6",
        7 => "7",
        8 => "8",
        9 => "9",
        10 => "10",
        11 => "11",
        12 => "12",
        13 => "13",
        14 => "14",
        _ => "15",
    };
    assert(text@ =~= FeatureLevel::decimal(n));
    text
}

impl PartialOrd for FeatureLevel {
    fn partial_cmp(&self, other: &FeatureLevel) -> (r: Option<Ordering>) {
        if self.0 < other.0 {
            Some(Ordering::Less)
        } else if self.0 == other.0 {
            Some(Ordering::Equal)
        } else {
            Some(Ordering::Greater)
        }
    }
}

impl vstd::std_specs::cmp::PartialOrdSpecImpl for FeatureLevel {
    open spec fn obeys_partial_cmp_spec() -> bool {
        true
    }

    open spec fn partial_cmp_spec(&self, other: &FeatureLevel) -> Option<Ordering> {
        if self.0 < other.0 {
            Some(Ordering::Less)
        } else if self.0 == other.0 {
            Some(Ordering::Equal)
        } else {
            Some(Ordering::Greater)
        }
    }
}

} // verus!
