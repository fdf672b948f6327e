//! A fixed-point currency amount with eight decimal places, used for the
//! fee-rate settings of the daemon configuration files.  The daemons read
//! these settings as decimal text with exactly eight fraction digits, so
//! the amount is held as an integer count of the smallest unit.

use vstd::prelude::*;

use crate::text::{dec_digits, dec_digits_padded, push_dec, push_dec_padded};

verus! {

/// How many smallest units make one whole coin.
pub const UNITS_PER_COIN: u64 = 100_000_000;

/// An amount of coin, counted in the smallest unit (one hundred-millionth
/// of a coin).
#[derive(Clone, Copy, Debug, PartialEq, Eq, Structural)]
pub struct Amount {
    /// The number of smallest units.
    pub units: u64,
}

/// The configuration text of an amount: the whole coins, a decimal
/// point, and exactly eight fraction digits.
pub open spec fn amount_text(units: nat) -> Seq<char> {
    dec_digits(units / (UNITS_PER_COIN as nat)) + "."@ + dec_digits_padded(
        units % (UNITS_PER_COIN as nat),
        8,
    )
}

impl Amount {
    /// An amount from a count of smallest units.
    pub fn from_units(units: u64) -> (a: Amount)
        ensures
            a.units == units,
    {
        Amount { units }
    }

    /// Appends the configuration text of this amount to `out`.
    pub fn push_conf_text(&self, out: &mut String)
        ensures
            final(out)@ == old(out)@ + amount_text(self.units as nat),
    {
        push_dec(out, self.units / UNITS_PER_COIN);
        out.append(".");
        push_dec_padded(out, self.units % UNITS_PER_COIN, 8);
        assert(final(out)@ =~= old(out)@ + amount_text(self.units as nat));
    }

    /// The configuration text of this amount.
    pub fn conf_text(&self) -> (s: String)
        ensures
            s@ == amount_text(self.units as nat),
    {
        let mut s = String::new();
        self.push_conf_text(&mut s);
        assert(s@ =~= amount_text(self.units as nat));
        s
    }
}

} // verus!
