use aerotemp::screen::{Model, ModelChange, ScreenType};
use aerotemp::temp::Temp;
use aerotemp::unit::Unit;

fn history(model: &Model, i: usize) -> Vec<i16> {
    model.history[i].iter().map(|t| t.0).collect()
}

fn temps(a: i16, b: i16) -> [Temp; 2] {
    [Temp(a), Temp(b)]
}

#[test]
fn default_model_is_empty() {
    let model = Model::default();
    assert!(model.last.is_none());
    assert_eq!(model.mins, temps(i16::MAX, i16::MAX));
    assert_eq!(model.maxs, temps(i16::MIN, i16::MIN));
    assert_eq!(history(&model, 0), Vec::<i16>::new());
    assert_eq!(model.unit, Unit::Celsius);
    assert_eq!(model.screen_type, ScreenType::Both);
    assert!(!model.changed);
    assert!(!model.clear);
}

#[test]
fn same_last_is_not_a_change() {
    let mut model = Model::default();
    model.apply(ModelChange::Last(temps(100, 200)));
    assert!(model.changed);
    assert!(!model.clear);
    assert_eq!(model.last, Some(temps(100, 200)));
    model.apply(ModelChange::Last(temps(100, 200)));
    assert!(!model.changed);
    assert!(!model.clear);
    model.apply(ModelChange::Last(temps(100, 201)));
    assert!(model.changed);
}

#[test]
fn min_and_max_only_widen() {
    let mut model = Model::default();
    let seen = [(100, 200), (50, 300), (80, 250), (120, -10)];
    for (a, b) in seen {
        model.apply(ModelChange::Last(temps(a, b)));
    }
    assert_eq!(model.mins, temps(50, -10));
    assert_eq!(model.maxs, temps(120, 300));
    for (a, b) in seen {
        assert!(model.mins[0].0 <= a && a <= model.maxs[0].0);
        assert!(model.mins[1].0 <= b && b <= model.maxs[1].0);
    }
    assert_eq!(model.min_or_max(false, 0), Temp(50));
    assert_eq!(model.min_or_max(true, 0), Temp(120));
    assert_eq!(model.min_or_max(false, 1), Temp(-10));
    assert_eq!(model.min_or_max(true, 1), Temp(300));
}

#[test]
fn averages_join_history() {
    let mut model = Model::default();
    model.apply(ModelChange::LastAndAverage(temps(10, 20), temps(1, 2)));
    assert!(model.changed);
    assert!(!model.clear);
    assert_eq!(model.last, Some(temps(10, 20)));
    assert_eq!(model.mins, temps(10, 20));
    assert_eq!(history(&model, 0), vec![1]);
    assert_eq!(history(&model, 1), vec![2]);
    // the same latest values still count as a change when an average comes
    model.apply(ModelChange::LastAndAverage(temps(10, 20), temps(3, 4)));
    assert!(model.changed);
    assert_eq!(history(&model, 0), vec![1, 3]);
    assert_eq!(history(&model, 1), vec![2, 4]);
}

#[test]
fn full_history_evicts_the_oldest_point() {
    let mut model = Model::default();
    for i in 0..130i16 {
        model.apply(ModelChange::LastAndAverage(temps(i, i), temps(i, -i)));
    }
    let first: Vec<i16> = (2..130).collect();
    let second: Vec<i16> = (2..130).map(|i| -i).collect();
    assert_eq!(history(&model, 0), first);
    assert_eq!(history(&model, 1), second);
}

#[test]
fn choices_ask_for_a_clear() {
    let mut model = Model::default();
    model.apply(ModelChange::Last(temps(1, 2)));
    model.apply(ModelChange::Unit(Unit::Fahrenheit));
    assert!(model.changed && model.clear);
    assert_eq!(model.unit, Unit::Fahrenheit);
    model.apply(ModelChange::ScreenType(ScreenType::Single(true)));
    assert!(model.changed && model.clear);
    assert_eq!(model.screen_type, ScreenType::Single(true));
    model.apply(ModelChange::Last(temps(1, 2)));
    assert!(!model.changed && !model.clear);
    model.apply(ModelChange::Clear);
    assert!(model.changed && model.clear);
    assert_eq!(model.last, Some(temps(1, 2)));
    assert_eq!(model.unit, Unit::Fahrenheit);
}
