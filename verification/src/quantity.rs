//! Measured quantities in base units, exact to the millionth.

use vstd::prelude::*;
use vstd::string::*;
use crate::decimal::{
    append_decimal, append_fraction, decimal_text, fraction_text, integer_of, read_integer,
};

verus! {

/// How many millionths make one base unit.
pub const MICRO_PER_UNIT: u64 = 1_000_000;

/// A quantity in its base unit — volts, watt-hours, watts — held as a
/// fixed-point number with six decimal places: a sign and a count of
/// millionths. The operating system reports micro-units, so every reading
/// is held exactly.
#[derive(Debug, Clone, Copy, PartialEq, Eq)]
pub struct Quantity {
    /// The reading was written with a minus sign.
    pub negative: bool,
    /// Magnitude, in millionths of the base unit.
    pub micro: u64,
}

impl Quantity {
    /// The whole base units in the magnitude: the count of millionths
    /// divided by one million.
    pub open spec fn whole_part(self) -> nat {
        (self.micro / MICRO_PER_UNIT) as nat
    }

    /// The millionths that the whole units leave over.
    pub open spec fn fraction_part(self) -> nat {
        (self.micro % MICRO_PER_UNIT) as nat
    }

    /// The quantity that a raw reading in micro-units stands for: the
    /// reading's sign, and its magnitude taken as millionths of the base
    /// unit. `None` where the text is no numeral with sign or its magnitude
    /// is more than a `u64` holds.
    pub open spec fn of_micro_text(raw: Seq<char>) -> Option<Quantity> {
        match integer_of(raw) {
            Some((negative, magnitude)) => if magnitude <= u64::MAX {
                Some(Quantity { negative, micro: magnitude as u64 })
            } else {
                None
            },
            None => None,
        }
    }

    /// The quantity written in base units: a minus sign where it is
    /// negative, the whole units, and, where the fraction is not zero, a
    /// point and the decimal places up to the last that is not zero.
    pub open spec fn text(self) -> Seq<char> {
        let sign = if self.negative {
            seq!['-']
        } else {
            Seq::empty()
        };
        let places = if self.fraction_part() == 0 {
            Seq::empty()
        } else {
            seq!['.'] + fraction_text(self.fraction_part(), 100_000)
        };
        sign + decimal_text(self.whole_part()) + places
    }

    /// Converts a raw reading in micro-units to the quantity in base units.
    pub fn from_micro_text(raw: &str) -> (q: Option<Quantity>)
        ensures
            q == Quantity::of_micro_text(raw@),
    {
        match read_integer(raw) {
            Some((negative, micro)) => Some(Quantity { negative, micro }),
            None => None,
        }
    }

    /// The whole base units in the magnitude.
    pub fn whole(&self) -> (w: u64)
        ensures
            w == self.whole_part(),
    {
        self.micro / MICRO_PER_UNIT
    }

    /// The millionths beyond the whole units; always below one million.
    pub fn fraction(&self) -> (f: u32)
        ensures
            f == self.fraction_part(),
            f < 1_000_000,
    {
        (self.micro % MICRO_PER_UNIT) as u32
    }

    /// Appends the quantity, written in base units, to `out`.
    pub fn append_to(&self, out: &mut String)
        ensures
            final(out)@ == old(out)@ + self.text(),
    {
        if self.negative {
            out.append("-");
            proof {
                reveal_strlit("-");
                assert("-"@ =~= seq!['-']);
            }
        }
        append_decimal(out, self.whole());
        let f: u32 = self.fraction();
        if f != 0 {
            out.append(".");
            proof {
                reveal_strlit(".");
                assert("."@ =~= seq!['.']);
            }
            append_fraction(out, f);
        }
        assert(out@ =~= old(out)@ + self.text());
    }

    /// The quantity written in base units.
    pub fn to_string(&self) -> (out: String)
        ensures
            out@ == self.text(),
    {
        let mut out = String::new();
        self.append_to(&mut out);
        assert(Seq::<char>::empty() + self.text() =~= self.text());
        out
    }
}

} // verus!
