use aerotemp::temp::{color, fahrenheit, format_100, Temp, TextColor};
use aerotemp::unit::Unit;

fn shown(t: i16, unit: Unit, show_unit: bool) -> String {
    let mut buf = String::new();
    Temp(t).write_buffer(unit, show_unit, &mut buf);
    buf
}

#[test]
fn fahrenheit_conversion() {
    assert_eq!(fahrenheit(0), 3200);
    assert_eq!(fahrenheit(100), 3380);
    assert_eq!(fahrenheit(-4000), -4000);
    assert_eq!(fahrenheit(3700), 9860);
}

#[test]
fn fahrenheit_rounds_toward_zero() {
    assert_eq!(fahrenheit(-1), 3199);
    assert_eq!(fahrenheit(1), 3201);
}

#[test]
fn fahrenheit_wraps_past_the_range() {
    assert_eq!(fahrenheit(32767), -3356);
}

#[test]
fn temperature_text_is_right_aligned() {
    assert_eq!(shown(1234, Unit::Celsius, true), "  12.3°C");
    assert_eq!(shown(0, Unit::Celsius, true), "   0.0°C");
    assert_eq!(shown(-505, Unit::Celsius, true), "  -5.0°C");
    assert_eq!(shown(-1234, Unit::Celsius, true), " -12.3°C");
    assert_eq!(shown(12345, Unit::Celsius, true), "   123°C");
    assert_eq!(shown(-12345, Unit::Celsius, true), "  -123°C");
    assert_eq!(shown(-1, Unit::Celsius, true), "  -0.0°C");
}

#[test]
fn temperature_text_in_fahrenheit() {
    assert_eq!(shown(1000, Unit::Fahrenheit, true), "  50.0°F");
    assert_eq!(shown(-2000, Unit::Fahrenheit, true), "  -4.0°F");
}

#[test]
fn temperature_text_without_unit() {
    assert_eq!(shown(1234, Unit::Celsius, false), "  12.3");
    let mut buf = String::from("min:");
    Temp(-250).write_buffer(Unit::Celsius, false, &mut buf);
    assert_eq!(buf, "min:  -2.5");
}

#[test]
fn temperature_text_of_extremes() {
    assert_eq!(shown(i16::MIN, Unit::Celsius, false), "  -327");
    assert_eq!(shown(i16::MAX, Unit::Celsius, false), "   327");
}

#[test]
fn hundredths_with_one_decimal() {
    let mut buf = String::new();
    format_100(1234, &mut buf);
    assert_eq!(buf, "12.3");
    let mut buf = String::new();
    format_100(-505, &mut buf);
    assert_eq!(buf, "-5.0");
    let mut buf = String::new();
    format_100(0, &mut buf);
    assert_eq!(buf, "-0.0");
    let mut buf = String::new();
    format_100(i16::MIN, &mut buf);
    assert_eq!(buf, "-327.6");
}

#[test]
fn text_colour_by_temperature() {
    assert_eq!(color(-1), TextColor::Red);
    assert_eq!(color(0), TextColor::Yellow);
    assert_eq!(color(1499), TextColor::Yellow);
    assert_eq!(color(1500), TextColor::Green);
}

#[test]
fn temp_from_integer() {
    assert_eq!(Temp::from(-42), Temp(-42));
    assert_eq!(Temp::default(), Temp(0));
}
