use aerotemp::hist::{min_max, Hist, Point, Size};
use aerotemp::temp::Temp;
use aerotemp::History;

fn history_of(values: &[i16]) -> History {
    let mut q = History::new();
    for v in values {
        q.enqueue(Temp(*v)).unwrap();
    }
    q
}

fn p(x: i32, y: i32) -> Point {
    Point { x, y }
}

#[test]
fn min_max_of_history() {
    assert_eq!(min_max(&history_of(&[])), (i16::MAX, i16::MIN));
    assert_eq!(min_max(&history_of(&[3, -7, 12, 0])), (-7, 12));
}

#[test]
fn columns_are_right_aligned_and_rescaled() {
    let hist = Hist::new(p(0, 30), Size { width: 128, height: 30 });
    let lines = hist.draw_lines(&history_of(&[100, 200, 300]));
    assert_eq!(
        lines,
        vec![
            [p(125, 60), p(125, 60), p(125, 31)],
            [p(126, 60), p(126, 45), p(126, 31)],
            [p(127, 60), p(127, 30), p(127, 31)],
        ]
    );
}

#[test]
fn equal_values_are_drawn_at_mid_height() {
    let hist = Hist::new(p(10, 0), Size { width: 20, height: 45 });
    let lines = hist.draw_lines(&history_of(&[5, 5]));
    assert_eq!(lines, vec![[p(28, 45), p(28, 23), p(28, 1)], [p(29, 45), p(29, 23), p(29, 1)]]);
}

#[test]
fn empty_history_has_no_columns() {
    let hist = Hist::new(p(0, 0), Size { width: 128, height: 30 });
    assert!(hist.draw_lines(&history_of(&[])).is_empty());
}

#[test]
fn rescale_rounds_down_over_the_full_range() {
    let hist = Hist::new(p(0, 0), Size { width: 3, height: 10 });
    let lines = hist.draw_lines(&history_of(&[i16::MIN, 0, i16::MAX]));
    assert_eq!(lines[0][1], p(0, 10));
    assert_eq!(lines[1][1], p(1, 5));
    assert_eq!(lines[2][1], p(2, 0));
}
