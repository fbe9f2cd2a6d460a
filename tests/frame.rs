use aerotemp::frame::{draw_titles, plan_frame, title, DrawOp};
use aerotemp::hist::{Hist, Point, Size};
use aerotemp::screen::{Model, ModelChange, ScreenType};
use aerotemp::temp::Temp;
use aerotemp::unit::Unit;

fn plot(probe: usize, y: i32, height: u32) -> DrawOp {
    DrawOp::Plot {
        hist: Hist { upper_left: Point { x: 0, y }, size: Size { width: 128, height } },
        probe,
    }
}

#[test]
fn nothing_to_draw_without_a_change() {
    let mut model = Model::default();
    assert!(plan_frame(&model).is_empty());
    model.apply(ModelChange::Last([Temp(1), Temp(2)]));
    model.apply(ModelChange::Last([Temp(1), Temp(2)]));
    assert!(plan_frame(&model).is_empty());
}

#[test]
fn clear_redraws_titles_before_the_probes() {
    let mut model = Model::default();
    model.apply(ModelChange::Clear);
    assert_eq!(
        plan_frame(&model),
        vec![
            DrawOp::Clear,
            DrawOp::Title { probe: 0, x: 0, y: 0 },
            DrawOp::Title { probe: 1, x: 0, y: 64 },
            plot(0, 30, 30),
            plot(1, 94, 30),
        ]
    );
}

#[test]
fn new_temperatures_redraw_both_probes() {
    let mut model = Model::default();
    model.apply(ModelChange::Last([Temp(100), Temp(200)]));
    let temperature = |y: i32, t: i16| DrawOp::Temperature {
        x: 32,
        y,
        large: false,
        temp: Temp(t),
        unit: Unit::Celsius,
    };
    assert_eq!(
        plan_frame(&model),
        vec![temperature(6, 100), plot(0, 30, 30), temperature(70, 200), plot(1, 94, 30)]
    );
}

#[test]
fn single_screen_shows_one_probe_with_min_and_max() {
    let mut model = Model::default();
    model.apply(ModelChange::Last([Temp(100), Temp(200)]));
    model.apply(ModelChange::Last([Temp(100), Temp(150)]));
    model.apply(ModelChange::Unit(Unit::Fahrenheit));
    model.apply(ModelChange::ScreenType(ScreenType::Single(true)));
    let unit = Unit::Fahrenheit;
    assert_eq!(
        plan_frame(&model),
        vec![
            DrawOp::Clear,
            DrawOp::Title { probe: 1, x: 0, y: 0 },
            DrawOp::Temperature { x: 0, y: 20, large: true, temp: Temp(150), unit },
            plot(1, 53, 45),
            DrawOp::MinMax { x: 0, y: 110, max: false, temp: Temp(150), unit },
            DrawOp::MinMax { x: 68, y: 110, max: true, temp: Temp(200), unit },
        ]
    );
}

#[test]
fn probe_titles() {
    assert_eq!(title(0), "OAT");
    assert_eq!(title(1), "CAT");
}

#[test]
fn titles_follow_the_screen_type() {
    assert_eq!(
        draw_titles(ScreenType::Both),
        vec![DrawOp::Title { probe: 0, x: 0, y: 0 }, DrawOp::Title { probe: 1, x: 0, y: 64 }]
    );
    assert_eq!(draw_titles(ScreenType::Single(false)), vec![DrawOp::Title { probe: 0, x: 0, y: 0 }]);
    assert_eq!(draw_titles(ScreenType::Single(true)), vec![DrawOp::Title { probe: 1, x: 0, y: 0 }]);
}
