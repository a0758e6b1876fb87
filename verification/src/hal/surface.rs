//! Events of the Launchpad Pro surface, readings of its pads, and writes to its LEDs.

use crate::hal::color::Rgb;
use crate::hal::grid::Point;
use vstd::prelude::*;

verus! {

/// The types of button on the surface of the Launchpad Pro.
#[derive(Clone, Copy, Debug, PartialEq, Eq, Structural)]
pub enum Button {
    /// A pad button.
    Pad(Point),
    /// The setup button.
    Setup,
}

/// The types of event that can occur on a button.
#[derive(Clone, Copy, Debug, PartialEq, Eq, Structural)]
pub enum Event {
    /// A button has been pressed. Contains the value of the button press.
    Press(u8),
    /// A button has been released.
    Release,
}

/// Button events occur when a button is pressed or released on the Launchpad Pro.
#[derive(Clone, Copy, Debug, PartialEq, Eq, Structural)]
pub struct ButtonEvent {
    /// The button that was pressed or released.
    pub button: Button,
    /// Whether the button was pressed or released.
    pub event: Event,
}

/// Aftertouch events occur when an aftertouch (pad pressure) event is reported.
#[derive(Clone, Copy, Debug, PartialEq, Eq, Structural)]
pub struct AftertouchEvent {
    pub point: Point,
    pub value: u8,
}

/// One write to an LED of the grid: the raw values that the hardware takes.
#[derive(Clone, Copy, Debug, PartialEq, Eq, Structural)]
pub struct LedWrite {
    /// The linear index of the LED, below a hundred.
    pub index: u8,
    /// The six-bit intensity of red.
    pub red: u8,
    /// The six-bit intensity of green.
    pub green: u8,
    /// The six-bit intensity of blue.
    pub blue: u8,
}

/// The write that `set_led` makes for `point` and `color`.
pub open spec fn spec_set_led(point: Point, color: Rgb) -> LedWrite {
    LedWrite {
        index: point.spec_index() as u8,
        red: color@.0 as u8,
        green: color@.1 as u8,
        blue: color@.2 as u8,
    }
}

/// The write that sets the colour of an LED on the grid.
pub fn set_led(point: Point, color: Rgb) -> (w: LedWrite)
    ensures
        w == spec_set_led(point, color),
        w.index == point.spec_index(),
        (w.red as int, w.green as int, w.blue as int) == color@,
        w.index < 100,
{
    let (red, green, blue) = color.components();
    LedWrite { index: point.to_index(), red, green, blue }
}

/// The offset into the ADC readings of the pad at `pos`, if there is a pad there.
/// The pads fill columns and rows one to eight; the readings of rows one to four
/// take the even offsets and those of rows five to eight the odd ones.
pub open spec fn spec_point_to_offset(pos: Point) -> Option<int> {
    let (x, y) = pos@;
    if 1 <= y <= 4 && 1 <= x <= 8 {
        Some((x - 1) * 2 + (y - 1) * 16)
    } else if 5 <= y <= 8 && 1 <= x <= 8 {
        Some((x - 1) * 2 + (y - 5) * 16 + 1)
    } else {
        None
    }
}

/// The readings of the ADC of the pads, one 12-bit value for each of the 64 pads.
#[derive(Clone, Copy, Debug)]
pub struct Pads {
    adc: [u16; 64],
}

impl View for Pads {
    type V = Seq<u16>;

    /// The 64 readings, by offset.
    closed spec fn view(&self) -> Seq<u16> {
        self.adc@
    }
}

impl Pads {
    /// Construct a new Pads instance from the readings of the ADC.
    pub fn new(adc: [u16; 64]) -> (pads: Pads)
        ensures
            pads@ == adc@,
    {
        Pads { adc }
    }

    /// Read a 12-bit value from a pad at a given point on the grid. If there isn't a pad at
    /// the point provided then this function will return None.
    pub fn read(&self, pos: Point) -> (value: Option<u16>)
        ensures
            value == match spec_point_to_offset(pos) {
                Some(offset) => Some(self@[offset]),
                None => None,
            },
    {
        match Pads::point_to_offset(pos) {
            Some(offset) => Some(self.adc[offset]),
            None => None,
        }
    }

    /// For technical reasons the offsets into the ADC readings use a slightly odd scheme.
    /// This function converts points in the grid to the offset of the reading for that
    /// point. If there isn't a pad at the point provided then this function will return
    /// None.
    pub fn point_to_offset(pos: Point) -> (offset: Option<usize>)
        ensures
            match offset {
                Some(o) => spec_point_to_offset(pos) == Some(o as int) && o < 64,
                None => spec_point_to_offset(pos) is None,
            },
    {
        let x: i8 = pos.x();
        let y: i8 = pos.y();
        if y >= 1 && y <= 4 && x >= 1 && x <= 8 {
            let y_offset: i8 = (y - 1) * 16;
            let x_offset: i8 = (x - 1) * 2;
            Some((x_offset + y_offset) as usize)
        } else if y >= 5 && y <= 8 && x >= 1 && x <= 8 {
            let y_offset: i8 = (y - 5) * 16;
            let x_offset: i8 = (x - 1) * 2;
            Some((x_offset + y_offset + 1) as usize)
        } else {
            None
        }
    }
}

} // verus!
