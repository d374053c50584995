//! Currency codes and amount formatting.
//!
//! Amounts are integers in the smallest currency unit (centavos); the only
//! supported currency is the Philippine Peso, with two decimal places.

use vstd::prelude::*;

use crate::strutil::push_char;
use crate::strutil::spec_dec_chars;
use crate::strutil::u64_to_string;

verus! {

/// A supported currency code.
#[derive(Debug, Clone, Copy, PartialEq, Eq, Hash, Structural)]
pub enum Currency {
    /// Philippine Peso.
    PHP,
}

/// The displayed form of an amount in the smallest currency unit: the
/// currency symbol, a minus sign when a whole major unit is owed back, the
/// major units, a point, and exactly two fraction digits.
pub open spec fn spec_format_amount_chars(amount: int) -> Seq<char> {
    let mag = if amount < 0 {
        -amount
    } else {
        amount
    };
    let major = mag / 100;
    let minor = mag % 100;
    seq!['\u{20b1}'] + (if amount < 0 && major > 0 {
        seq!['-']
    } else {
        Seq::empty()
    }) + spec_dec_chars(major as nat) + seq!['.'] + (if minor < 10 {
        seq!['0']
    } else {
        Seq::empty()
    }) + spec_dec_chars(minor as nat)
}

impl Currency {
    /// The three-letter ISO code.
    pub fn as_str(self) -> (r: &'static str)
        ensures
            r@ == "PHP"@,
    {
        match self {
            Currency::PHP => "PHP",
        }
    }

    /// The currency symbol.
    pub fn symbol(self) -> (r: &'static str)
        ensures
            r@ == seq!['\u{20b1}'],
    {
        proof {
            reveal_strlit("\u{20b1}");
            assert("\u{20b1}"@ =~= seq!['\u{20b1}']);
        }
        match self {
            Currency::PHP => "\u{20b1}",
        }
    }

    /// How many fraction digits the currency uses.
    pub fn decimal_places(self) -> (r: u8)
        ensures
            r == 2,
    {
        match self {
            Currency::PHP => 2,
        }
    }

    /// Formats an amount given in the smallest currency unit, e.g. centavos.
    pub fn format_amount(self, amount: i64) -> (r: String)
        ensures
            r@ == spec_format_amount_chars(amount as int),
    {
        let mag: u64 = if amount >= 0 {
            amount as u64
        } else {
            (-1i64 - amount) as u64 + 1
        };
        assert(mag == if amount < 0 {
            -(amount as int)
        } else {
            amount as int
        });
        let major = mag / 100;
        let minor = mag % 100;
        let mut s = String::new();
        push_char(&mut s, '\u{20b1}');
        if amount < 0 && major > 0 {
            push_char(&mut s, '-');
        }
        let mut s = s.concat(u64_to_string(major).as_str());
        push_char(&mut s, '.');
        if minor < 10 {
            push_char(&mut s, '0');
        }
        let r = s.concat(u64_to_string(minor).as_str());
        assert(r@ =~= spec_format_amount_chars(amount as int));
        r
    }
}

impl Default for Currency {
    /// The Philippine Peso.
    fn default() -> (r: Self)
        ensures
            r == Currency::PHP,
    {
        Currency::PHP
    }
}

} // verus!
