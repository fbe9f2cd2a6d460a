use aerotemp::modes::{OnScreen, Scale, TimeSlice};
use aerotemp::screen::ScreenType;
use aerotemp::unit::Unit;

#[test]
fn screen_type_cycles_through_three_views() {
    let mut screen = ScreenType::default();
    assert_eq!(screen, ScreenType::Both);
    assert_eq!(screen.next(), ScreenType::Single(false));
    assert_eq!(screen.next(), ScreenType::Single(true));
    assert_eq!(screen.next(), ScreenType::Both);
    assert_eq!(screen, ScreenType::Both);
}

#[test]
fn unit_cycles_through_two_units() {
    let mut unit = Unit::default();
    assert_eq!(unit, Unit::Celsius);
    assert_eq!(unit.next(), Unit::Fahrenheit);
    assert_eq!(unit.next(), Unit::Celsius);
    assert_eq!(Unit::Celsius.symbol(), "°C");
    assert_eq!(Unit::Fahrenheit.symbol(), "°F");
}

#[test]
fn scale_cycles_and_spans() {
    let mut scale = Scale::Seconds;
    let mut seen = vec![];
    for _ in 0..3 {
        seen.push((scale.seconds(), scale.tier(), scale.label()));
        scale.next();
    }
    assert_eq!(scale, Scale::Seconds);
    assert_eq!(
        seen,
        vec![(1, 0, "1 second"), (10, 1, "10 seconds"), (60, 2, "1 minute")]
    );
}

#[test]
fn on_screen_cycles_through_four_quantities() {
    let mut on = OnScreen::Temperature;
    let mut seen = vec![];
    for _ in 0..4 {
        seen.push(on.title());
        on.next();
    }
    assert_eq!(on, OnScreen::Temperature);
    assert_eq!(seen, vec!["Temperature", "Humidity", "Battery", "Moisture"]);
}

#[test]
fn time_slice_cycles_through_three_spans() {
    let mut slice = TimeSlice::Second;
    let mut seen = vec![];
    for _ in 0..3 {
        seen.push((slice.tier(), slice.label()));
        slice.next();
    }
    assert_eq!(slice, TimeSlice::Second);
    assert_eq!(seen, vec![(0, "Second"), (1, "Minute"), (2, "Hour")]);
}
