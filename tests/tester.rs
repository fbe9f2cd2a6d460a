use aerotemp::tester::{react, square_color, square_position, Last, Reaction, SquareColor};

#[test]
fn square_colours() {
    assert_eq!(square_color(0), SquareColor::White);
    assert_eq!(square_color(1), SquareColor::Red);
    assert_eq!(square_color(2), SquareColor::Green);
    assert_eq!(square_color(3), SquareColor::Blue);
    assert_eq!(square_color(4), SquareColor::Black);
    assert_eq!(square_color(255), SquareColor::Black);
}

#[test]
fn square_walks_rows_of_118() {
    assert_eq!(square_position(0), (0, 0));
    assert_eq!(square_position(117), (117, 0));
    assert_eq!(square_position(118), (0, 1));
    assert_eq!(square_position(118 * 118 + 5), (5, 0));
}

#[test]
fn release_after_one_button_draws_its_colour() {
    let held = react(Last::Neither, true, false);
    assert_eq!(held, Reaction { last: Last::Left, square: None, release_both: false });
    let released = react(held.last, false, false);
    assert_eq!(released, Reaction { last: Last::Neither, square: Some(1), release_both: false });
    let held = react(Last::Neither, false, true);
    assert_eq!(react(held.last, false, false).square, Some(2));
    assert_eq!(react(Last::Neither, false, false).square, None);
}

#[test]
fn both_buttons_draw_blue_and_release() {
    assert_eq!(
        react(Last::Left, true, true),
        Reaction { last: Last::Neither, square: Some(3), release_both: true }
    );
}

use aerotemp::tester::{panel_edge, Led, PanelButtons};

const IDLE: PanelButtons = PanelButtons { a_pressed: false, b_pressed: false };

#[test]
fn one_button_toggles_its_led_on_release() {
    let (held, led) = panel_edge(IDLE, true, false);
    assert_eq!(held, PanelButtons { a_pressed: true, b_pressed: false });
    assert_eq!(led, None);
    assert_eq!(panel_edge(held, false, false), (IDLE, Some(Led::A)));
    let (held, _) = panel_edge(IDLE, false, true);
    assert_eq!(panel_edge(held, false, false), (IDLE, Some(Led::B)));
}

#[test]
fn both_buttons_toggle_the_shared_led() {
    let (a, _) = panel_edge(IDLE, true, false);
    let (both, led) = panel_edge(a, true, true);
    assert_eq!(both, PanelButtons { a_pressed: true, b_pressed: true });
    assert_eq!(led, None);
    assert_eq!(panel_edge(both, true, false), (IDLE, Some(Led::Both)));
    assert_eq!(panel_edge(IDLE, false, false), (IDLE, None));
}
