//! Front-panel testers: two buttons, and a square drawn on release whose
//! colour tells which buttons were held, or an LED toggled for each.

use vstd::prelude::*;

verus! {

/// Which button was last seen held alone.
#[derive(Copy, Clone, Debug, PartialEq, Eq, Structural)]
pub enum Last {
    Neither,
    Left,
    Right,
}

/// Colour of a test square.
#[derive(Copy, Clone, Debug, PartialEq, Eq, Structural)]
pub enum SquareColor {
    White,
    Red,
    Green,
    Blue,
    Black,
}

/// Colour code 0 is white, 1 red, 2 green, 3 blue; any other is black.
pub open spec fn spec_square_color(code: u8) -> SquareColor {
    if code == 0 {
        SquareColor::White
    } else if code == 1 {
        SquareColor::Red
    } else if code == 2 {
        SquareColor::Green
    } else if code == 3 {
        SquareColor::Blue
    } else {
        SquareColor::Black
    }
}

/// The colour of colour code `code`.
pub fn square_color(code: u8) -> (r: SquareColor)
    ensures
        r == spec_square_color(code),
{
    match code {
        0u8 => SquareColor::White,
        1 => SquareColor::Red,
        2 => SquareColor::Green,
        3 => SquareColor::Blue,
        _ => SquareColor::Black,
    }
}

/// Where a square drawn `elapsed` ticks after the start goes: it moves one
/// pixel right per tick along rows of 118, and one row down per full row,
/// over a square of 118 by 118.
pub fn square_position(elapsed: u32) -> (r: (i32, i32))
    ensures
        r.0 == elapsed % 118,
        r.1 == (elapsed / 118) % 118,
{
    ((elapsed % 118) as i32, ((elapsed / 118) % 118) as i32)
}

/// What the tester does when the buttons change: the new `last`, the colour
/// code of the square to draw, if any, and whether both buttons are to be
/// taken as released.
#[derive(Copy, Clone, Debug, PartialEq, Eq, Structural)]
pub struct Reaction {
    pub last: Last,
    pub square: Option<u8>,
    pub release_both: bool,
}

/// The reaction to the buttons being held (`left`, `right`) after `last`:
/// holding one button alone remembers it; releasing both draws a red square
/// after the left one alone, a green one after the right one alone; holding
/// both draws a blue square and releases both.
pub open spec fn spec_react(last: Last, left: bool, right: bool) -> Reaction {
    if !left && !right {
        Reaction {
            last: Last::Neither,
            square: match last {
                Last::Left => Some(1u8),
                Last::Right => Some(2u8),
                Last::Neither => None,
            },
            release_both: false,
        }
    } else if left && !right {
        Reaction { last: Last::Left, square: None, release_both: false }
    } else if !left && right {
        Reaction { last: Last::Right, square: None, release_both: false }
    } else {
        Reaction { last: Last::Neither, square: Some(3u8), release_both: true }
    }
}

/// Reacts to the buttons being held (`left`, `right`) after `last` (see
/// `spec_react`).
pub fn react(last: Last, left: bool, right: bool) -> (r: Reaction)
    ensures
        r == spec_react(last, left, right),
{
    match (left, right) {
        (false, false) => {
            let square = match last {
                Last::Left => Some(1u8),
                Last::Right => Some(2u8),
                Last::Neither => None,
            };
            Reaction { last: Last::Neither, square, release_both: false }
        },
        (true, false) => Reaction { last: Last::Left, square: None, release_both: false },
        (false, true) => Reaction { last: Last::Right, square: None, release_both: false },
        (true, true) => Reaction { last: Last::Neither, square: Some(3u8), release_both: true },
    }
}

/// Which buttons of the LED panel are held.
#[derive(Copy, Clone, Debug, PartialEq, Eq, Structural)]
pub struct PanelButtons {
    pub a_pressed: bool,
    pub b_pressed: bool,
}

/// An LED of the panel: the one for both buttons, for button A, for button
/// B.
#[derive(Copy, Clone, Debug, PartialEq, Eq, Structural)]
pub enum Led {
    Both,
    A,
    B,
}

/// The panel after an edge on its pins, where `a_low` and `b_low` tell
/// which pins read low (a held button pulls its pin low), and the LED to
/// toggle, if any. Only the first of these that applies happens: A goes
/// down; A comes up, toggling the both-LED and releasing B if B was held,
/// or else A's LED; B goes down; B comes up, likewise.
pub open spec fn spec_panel_edge(s: PanelButtons, a_low: bool, b_low: bool) -> (PanelButtons, Option<Led>) {
    if !s.a_pressed && a_low {
        (PanelButtons { a_pressed: true, ..s }, None)
    } else if s.a_pressed && !a_low {
        if s.b_pressed {
            (PanelButtons { a_pressed: false, b_pressed: false }, Some(Led::Both))
        } else {
            (PanelButtons { a_pressed: false, ..s }, Some(Led::A))
        }
    } else if !s.b_pressed && b_low {
        (PanelButtons { b_pressed: true, ..s }, None)
    } else if s.b_pressed && !b_low {
        if s.a_pressed {
            (PanelButtons { a_pressed: false, b_pressed: false }, Some(Led::Both))
        } else {
            (PanelButtons { b_pressed: false, ..s }, Some(Led::B))
        }
    } else {
        (s, None)
    }
}

/// Handles an edge on the panel's pins (see `spec_panel_edge`).
pub fn panel_edge(s: PanelButtons, a_low: bool, b_low: bool) -> (r: (PanelButtons, Option<Led>))
    ensures
        r == spec_panel_edge(s, a_low, b_low),
{
    let mut next = s;
    let mut led = None;
    if !s.a_pressed && a_low {
        next.a_pressed = true;
    } else if s.a_pressed && !a_low {
        next.a_pressed = false;
        if s.b_pressed {
            next.b_pressed = false;
            led = Some(Led::Both);
        } else {
            led = Some(Led::A);
        }
    } else if !s.b_pressed && b_low {
        next.b_pressed = true;
    } else if s.b_pressed && !b_low {
        next.b_pressed = false;
        if s.a_pressed {
            next.a_pressed = false;
            led = Some(Led::Both);
        } else {
            led = Some(Led::B);
        }
    }
    (next, led)
}

} // verus!
