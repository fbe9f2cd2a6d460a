//! The unit in which temperatures are shown.

use vstd::prelude::*;

verus! {

/// Unit of the displayed temperatures. Stored values are always Celsius;
/// conversion happens only when a value is shown.
#[derive(Copy, Clone, Debug, PartialEq, Eq, Structural)]
pub enum Unit {
    Celsius,
    Fahrenheit,
}

/// The unit that follows `u` in the cycle Celsius, Fahrenheit, Celsius.
pub open spec fn next_unit(u: Unit) -> Unit {
    match u {
        Unit::Celsius => Unit::Fahrenheit,
        Unit::Fahrenheit => Unit::Celsius,
    }
}

/// The symbol written after a value shown in unit `u`.
pub open spec fn unit_symbol(u: Unit) -> Seq<char> {
    match u {
        Unit::Celsius => seq!['°', 'C'],
        Unit::Fahrenheit => seq!['°', 'F'],
    }
}

impl Default for Unit {
    fn default() -> (r: Self)
        ensures
            r == Unit::Celsius,
    {
        Unit::Celsius
    }
}

impl Unit {
    /// Moves to the next unit of the cycle and returns it.
    pub fn next(&mut self) -> (r: Self)
        ensures
            *final(self) == next_unit(*old(self)),
            r == *final(self),
    {
        *self = match self {
            Unit::Celsius => Unit::Fahrenheit,
            Unit::Fahrenheit => Unit::Celsius,
        };
        *self
    }

    /// The symbol of this unit, `°C` or `°F`.
    pub fn symbol(&self) -> (r: &'static str)
        ensures
            r@ == unit_symbol(*self),
    {
        match self {
            Unit::Celsius => {
                proof {
                    reveal_strlit("°C");
                }
                "°C"
            },
            Unit::Fahrenheit => {
                proof {
                    reveal_strlit("°F");
                }
                "°F"
            },
        }
    }
}

/// Moving to the next unit twice returns to the start, after visiting the
/// other unit.
pub proof fn lemma_unit_cycle(u: Unit)
    ensures
        next_unit(u) != u,
        next_unit(next_unit(u)) == u,
        u == Unit::Celsius || next_unit(u) == Unit::Celsius,
        u == Unit::Fahrenheit || next_unit(u) == Unit::Fahrenheit,
{
}

} // verus!
