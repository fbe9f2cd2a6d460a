//! Temperatures in hundredths of a degree Celsius, their conversion to
//! Fahrenheit and their text form.

use vstd::prelude::*;
use crate::unit::{unit_symbol, Unit};

verus! {

/// A temperature in degrees Celsius multiplied by 100 (`Temp(100)` is 1.00 °C).
#[derive(Debug, Default, Clone, Copy, PartialEq, Eq, Structural, PartialOrd)]
pub struct Temp(pub i16);

/// One temperature per probe.
pub type Temps = [Temp; 2];

impl From<i16> for Temp {
    fn from(t: i16) -> (r: Self)
        ensures
            r.0 == t,
    {
        Temp(t)
    }
}

impl vstd::std_specs::convert::FromSpecImpl<i16> for Temp {
    open spec fn obeys_from_spec() -> bool {
        true
    }

    open spec fn from_spec(t: i16) -> Self {
        Temp(t)
    }
}

/// `a / b` rounded toward zero, as Rust's integer division does (`b > 0`).
pub open spec fn trunc_div(a: int, b: int) -> int {
    if a >= 0 {
        a / b
    } else {
        -((-a) / b)
    }
}

/// Hundredths of a degree Celsius converted to hundredths of a degree
/// Fahrenheit, the division rounded toward zero and the result taken modulo
/// 2^16 into `i16`.
pub open spec fn spec_fahrenheit(degrees: i16) -> i16 {
    (trunc_div(degrees * 9, 5) + 3200) as i16
}

/// `degrees` is degrees multiplied by 100, eg 3.31 °C is 331; the result is
/// Fahrenheit multiplied by 100, eg 22.41 °F is 2241.
pub fn fahrenheit(degrees: i16) -> (r: i16)
    ensures
        r == spec_fahrenheit(degrees),
{
    let f = degrees as i32;
    let scaled = f * 9;
    let q = if scaled >= 0 {
        scaled / 5
    } else {
        -((-scaled) / 5)
    };
    (q + 3200) as i16
}

/// The character of decimal digit `d`.
pub open spec fn digit_char(d: int) -> char {
    if d == 0 {
        '0'
    } else if d == 1 {
        '1'
    } else if d == 2 {
        '2'
    } else if d == 3 {
        '3'
    } else if d == 4 {
        '4'
    } else if d == 5 {
        '5'
    } else if d == 6 {
        '6'
    } else if d == 7 {
        '7'
    } else if d == 8 {
        '8'
    } else {
        '9'
    }
}

/// The decimal digits of `n`, without leading zeros.
pub open spec fn decimal(n: nat) -> Seq<char>
    decreases n,
{
    if n < 10 {
        seq![digit_char(n as int)]
    } else {
        decimal(n / 10).push(digit_char((n % 10) as int))
    }
}

/// `n` spaces.
pub open spec fn spaces(n: nat) -> Seq<char> {
    Seq::new(n, |i: int| ' ')
}

/// Absolute value.
pub open spec fn abs(v: int) -> nat {
    if v < 0 {
        (-v) as nat
    } else {
        v as nat
    }
}

/// The value that a temperature shows in `unit`.
pub open spec fn shown_value(t: i16, unit: Unit) -> i16 {
    match unit {
        Unit::Celsius => t,
        Unit::Fahrenheit => spec_fahrenheit(t),
    }
}

/// Characters that the value `v` takes, sign included, before padding.
pub open spec fn value_width(v: i16) -> nat {
    let whole = abs(v as int) / 100;
    (if v < 0 {
        1nat
    } else {
        0nat
    }) + (if whole < 10 {
        3nat
    } else if whole < 100 {
        4nat
    } else {
        3nat
    })
}

/// Spaces written before a value of width `w` so that values align right.
pub open spec fn padding(w: nat) -> nat {
    if w == 3 {
        3
    } else if w == 4 {
        2
    } else if w == 5 {
        1
    } else {
        0
    }
}

/// Text of temperature `t` shown in `unit`: right-aligning spaces, a minus
/// sign for negative values, the whole part and, below 100, a point and the
/// tenths; then the unit's symbol when `show_unit`. A whole part of 1000 or
/// more shows as 999.
pub open spec fn temp_text(t: i16, unit: Unit, show_unit: bool) -> Seq<char> {
    let v = shown_value(t, unit);
    let a = abs(v as int);
    let whole = if a / 100 < 1000 {
        a / 100
    } else {
        999
    };
    let tenths = (a % 100) / 10;
    spaces(padding(value_width(v))) + (if v < 0 {
        seq!['-']
    } else {
        Seq::<char>::empty()
    }) + (if whole < 100 {
        decimal(whole) + seq!['.'] + decimal(tenths)
    } else {
        decimal(whole)
    }) + (if show_unit {
        unit_symbol(unit)
    } else {
        Seq::<char>::empty()
    })
}

/// Text of `val` hundredths with one decimal: a minus sign unless `val` is
/// positive, the whole part, a point and the tenths.
pub open spec fn hundredths_text(val: i16) -> Seq<char> {
    let a = abs(val as int);
    (if val > 0 {
        Seq::<char>::empty()
    } else {
        seq!['-']
    }) + decimal(a / 100) + seq!['.'] + decimal((a % 100) / 10)
}

/// The one-character string of digit `d`.
fn digit_str(d: u32) -> (r: &'static str)
    requires
        d < 10,
    ensures
        r@ == seq![digit_char(d as int)],
{
    proof {
        reveal_strlit("0");
        reveal_strlit("1");
        reveal_strlit("2");
        reveal_strlit("3");
        reveal_strlit("4");
        reveal_strlit("5");
        reveal_strlit("6");
        reveal_strlit("7");
        reveal_strlit("8");
        reveal_strlit("9");
    }
    match d {
        0 => "0",
        1 => "1",
        2 => "2",
        3 => "3",
        4 => "4",
        5 => "5",
        6 => "6",
        7 => "7",
        8 => "8",
        _ => "9",
    }
}

/// Appends the decimal digits of `n` to `buf`.
fn push_decimal(buf: &mut String, n: u32)
    ensures
        final(buf)@ == old(buf)@ + decimal(n as nat),
    decreases n,
{
    if n >= 10 {
        push_decimal(buf, n / 10);
    }
    buf.append(digit_str(n % 10));
    assert(final(buf)@ =~= old(buf)@ + decimal(n as nat)) by {
        if n >= 10 {
            assert(decimal(n as nat) == decimal((n / 10) as nat).push(digit_char((n % 10) as int)));
        }
    }
}

/// Appends `n` spaces to `buf`.
fn push_spaces(buf: &mut String, n: u32)
    ensures
        final(buf)@ == old(buf)@ + spaces(n as nat),
{
    let mut i: u32 = 0;
    while i < n
        invariant
            i <= n,
            buf@ == old(buf)@ + spaces(i as nat),
        decreases n - i,
    {
        proof {
            reveal_strlit(" ");
        }
        buf.append(" ");
        i = i + 1;
        assert(buf@ =~= old(buf)@ + spaces(i as nat));
    }
}

impl Temp {
    /// Appends to `buf` this temperature shown in `unit`, for example
    /// `  -12.3°C`: padded to the right, with the unit's symbol when
    /// `show_unit`.
    pub fn write_buffer(&self, unit: Unit, show_unit: bool, buf: &mut String)
        ensures
            final(buf)@ == old(buf)@ + temp_text(self.0, unit, show_unit),
    {
        let val = match unit {
            Unit::Fahrenheit => fahrenheit(self.0),
            Unit::Celsius => self.0,
        };
        let abs_val: u32 = if val < 0 {
            (-(val as i32)) as u32
        } else {
            val as u32
        };
        let mut before_comma = abs_val / 100;
        let after_comma = (abs_val % 100) / 10;

        // characters used by the value, the unit excluded
        let mut char_used: u32 = 0;
        if val < 0 {
            char_used += 1;
        }
        if before_comma < 10 {
            char_used += 3;
        } else if before_comma < 100 {
            char_used += 4;
        } else if before_comma < 1000 {
            char_used += 3;
        } else {
            char_used += 3;
            before_comma = 999;
        }
        let need_comma = before_comma < 100;
        let pad: u32 = if char_used == 3 {
            3
        } else if char_used == 4 {
            2
        } else if char_used == 5 {
            1
        } else {
            0
        };
        proof {
            reveal_strlit("-");
            reveal_strlit(".");
        }
        let ghost start = buf@;
        push_spaces(buf, pad);
        let ghost padded = buf@;
        if val < 0 {
            buf.append("-");
        }
        let ghost signed = buf@;
        push_decimal(buf, before_comma);
        if need_comma {
            buf.append(".");
            push_decimal(buf, after_comma);
        }
        let ghost body = buf@;
        if show_unit {
            buf.append(unit.symbol());
        }
        assert(buf@ =~= start + temp_text(self.0, unit, show_unit));
    }
}

/// Appends to `buf` the value `val` hundredths with one decimal, for example
/// `-1.2`; zero and negative values carry a minus sign.
pub fn format_100(val: i16, buf: &mut String)
    ensures
        final(buf)@ == old(buf)@ + hundredths_text(val),
{
    proof {
        reveal_strlit("-");
        reveal_strlit(".");
    }
    if val <= 0 {
        buf.append("-");
    }
    let abs_val: u32 = if val < 0 {
        (-(val as i32)) as u32
    } else {
        val as u32
    };
    push_decimal(buf, abs_val / 100);
    buf.append(".");
    push_decimal(buf, (abs_val % 100) / 10);
    assert(final(buf)@ =~= old(buf)@ + hundredths_text(val));
}

/// Colour in which a temperature is written.
#[derive(Copy, Clone, Debug, PartialEq, Eq, Structural)]
pub enum TextColor {
    Red,
    Yellow,
    Green,
}

/// Red below zero, yellow below 15 °C, green from there on.
pub open spec fn spec_color(degrees: i16) -> TextColor {
    if degrees < 0 {
        TextColor::Red
    } else if degrees < 1500 {
        TextColor::Yellow
    } else {
        TextColor::Green
    }
}

/// Colour of the text that shows `degrees` (hundredths of a degree Celsius).
pub fn color(degrees: i16) -> (r: TextColor)
    ensures
        r == spec_color(degrees),
{
    if degrees < 0 {
        TextColor::Red
    } else if degrees < 1500 {
        TextColor::Yellow
    } else {
        TextColor::Green
    }
}

} // verus!
