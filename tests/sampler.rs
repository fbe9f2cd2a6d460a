use aerotemp::sampler::{Sampler, PERIOD};
use aerotemp::screen::{Model, ModelChange};
use aerotemp::temp::Temp;

fn history(model: &Model, i: usize) -> Vec<i16> {
    model.history[i].iter().map(|t| t.0).collect()
}

#[test]
fn ten_ticks_make_two_history_points() {
    let mut sampler: Sampler<5> = Sampler::new();
    let mut model = Model::default();
    for tick in 0..10i16 {
        let changes = sampler.every_second([Temp(tick), Temp(0)]);
        for change in changes {
            model.apply(change);
        }
        if tick == 4 {
            assert_eq!(history(&model, 0), vec![2]);
            assert!(model.changed);
            assert!(!model.clear);
        }
    }
    assert_eq!(history(&model, 0), vec![2, 7]);
    assert_eq!(history(&model, 1), vec![0, 0]);
    assert_eq!(model.last, Some([Temp(9), Temp(0)]));
    assert_eq!(sampler.seconds, 10);
}

#[test]
fn first_tick_clears_first() {
    let mut sampler: Sampler<PERIOD> = Sampler::new();
    let changes = sampler.every_second([Temp(3), Temp(4)]);
    assert_eq!(changes.len(), 2);
    assert!(matches!(changes[0], ModelChange::Clear));
    assert!(matches!(changes[1], ModelChange::Last([Temp(3), Temp(4)])));
    let changes = sampler.every_second([Temp(6), Temp(-5)]);
    assert_eq!(changes.len(), 1);
    assert!(matches!(
        changes[0],
        ModelChange::LastAndAverage([Temp(6), Temp(-5)], [Temp(4), Temp(0)])
    ));
    let changes = sampler.every_second([Temp(1), Temp(1)]);
    assert!(matches!(changes[0], ModelChange::Last([Temp(1), Temp(1)])));
}

#[test]
fn period_average_rounds_toward_zero() {
    let mut sampler: Sampler<2> = Sampler::new();
    sampler.every_second([Temp(-1), Temp(1)]);
    let changes = sampler.every_second([Temp(-2), Temp(2)]);
    assert!(matches!(
        changes[0],
        ModelChange::LastAndAverage(_, [Temp(-1), Temp(1)])
    ));
    assert_eq!(sampler.latest_period, [[Temp(-1), Temp(1)], [Temp(-2), Temp(2)]]);
}

#[test]
fn seconds_wrap_at_the_largest_value() {
    let mut sampler: Sampler<1> = Sampler::new();
    sampler.seconds = usize::MAX;
    let changes = sampler.every_second([Temp(8), Temp(9)]);
    assert_eq!(sampler.seconds, 0);
    assert!(matches!(changes[0], ModelChange::LastAndAverage(_, [Temp(8), Temp(9)])));
}
