//! Colours of the LEDs: three components of six bits each.

use vstd::prelude::*;

verus! {

/// The six-bit value that the eight-bit value `led` maps to.
pub open spec fn spec_convert_to_6_bit(led: int) -> int {
    (63 * led) / 255
}

/// Map an 8-bit value to a 6-bit range.
pub fn convert_to_6_bit(led: u8) -> (r: u8)
    ensures
        r == spec_convert_to_6_bit(led as int),
        r <= 63,
{
    let scaled: u16 = 63 * (led as u16);
    (scaled / 255) as u8
}

/// The red component of an RGB color.
#[derive(Clone, Copy, Debug, PartialEq, Eq, Structural)]
pub struct Red(u8);

/// The green component of an RGB color.
#[derive(Clone, Copy, Debug, PartialEq, Eq, Structural)]
pub struct Green(u8);

/// The blue component of an RGB color.
#[derive(Clone, Copy, Debug, PartialEq, Eq, Structural)]
pub struct Blue(u8);

/// An RGB color.
#[derive(Clone, Copy, Debug, PartialEq, Eq, Structural)]
pub struct Rgb(Red, Green, Blue);

impl View for Red {
    type V = int;

    /// The six-bit intensity.
    closed spec fn view(&self) -> int {
        self.0 as int
    }
}

impl View for Green {
    type V = int;

    /// The six-bit intensity.
    closed spec fn view(&self) -> int {
        self.0 as int
    }
}

impl View for Blue {
    type V = int;

    /// The six-bit intensity.
    closed spec fn view(&self) -> int {
        self.0 as int
    }
}

impl View for Rgb {
    type V = (int, int, int);

    /// The six-bit intensities of red, green and blue.
    closed spec fn view(&self) -> (int, int, int) {
        (self.0@, self.1@, self.2@)
    }
}

impl Red {
    /// The intensity fits in six bits.
    #[verifier::type_invariant]
    pub open spec fn wf(self) -> bool {
        0 <= self@ <= 63
    }

    /// The red component for an intensity in `[0, 255]`, stored as six bits.
    pub fn new(red: u8) -> (r: Red)
        ensures
            r@ == spec_convert_to_6_bit(red as int),
    {
        Red(convert_to_6_bit(red))
    }

    /// The six-bit intensity.
    pub fn value(&self) -> (v: u8)
        ensures
            v == self@,
            v <= 63,
    {
        proof {
            use_type_invariant(self);
        }
        self.0
    }
}

impl Green {
    /// The intensity fits in six bits.
    #[verifier::type_invariant]
    pub open spec fn wf(self) -> bool {
        0 <= self@ <= 63
    }

    /// The green component for an intensity in `[0, 255]`, stored as six bits.
    pub fn new(green: u8) -> (g: Green)
        ensures
            g@ == spec_convert_to_6_bit(green as int),
    {
        Green(convert_to_6_bit(green))
    }

    /// The six-bit intensity.
    pub fn value(&self) -> (v: u8)
        ensures
            v == self@,
            v <= 63,
    {
        proof {
            use_type_invariant(self);
        }
        self.0
    }
}

impl Blue {
    /// The intensity fits in six bits.
    #[verifier::type_invariant]
    pub open spec fn wf(self) -> bool {
        0 <= self@ <= 63
    }

    /// The blue component for an intensity in `[0, 255]`, stored as six bits.
    pub fn new(blue: u8) -> (b: Blue)
        ensures
            b@ == spec_convert_to_6_bit(blue as int),
    {
        Blue(convert_to_6_bit(blue))
    }

    /// The six-bit intensity.
    pub fn value(&self) -> (v: u8)
        ensures
            v == self@,
            v <= 63,
    {
        proof {
            use_type_invariant(self);
        }
        self.0
    }
}

impl Rgb {
    /// Construct a new 18-bit RGB color from its three components.
    pub fn new(red: Red, green: Green, blue: Blue) -> (c: Rgb)
        ensures
            c@ == (red@, green@, blue@),
    {
        Rgb(red, green, blue)
    }

    /// The colour with the given six-bit intensities, as the hardware reports them.
    /// There is none where an intensity does not fit in six bits.
    pub fn from_components(red: u8, green: u8, blue: u8) -> (c: Option<Rgb>)
        ensures
            red <= 63 && green <= 63 && blue <= 63 ==> c is Some && c->0@ == (
                red as int,
                green as int,
                blue as int,
            ),
            red > 63 || green > 63 || blue > 63 ==> c is None,
    {
        if red <= 63 && green <= 63 && blue <= 63 {
            Some(Rgb(Red(red), Green(green), Blue(blue)))
        } else {
            None
        }
    }

    /// The six-bit intensities of red, green and blue.
    pub fn components(&self) -> (c: (u8, u8, u8))
        ensures
            (c.0 as int, c.1 as int, c.2 as int) == self@,
            c.0 <= 63,
            c.1 <= 63,
            c.2 <= 63,
    {
        (self.0.value(), self.1.value(), self.2.value())
    }

    /// The colour red.
    pub fn red() -> (c: Rgb)
        ensures
            c@ == (63int, 0int, 0int),
    {
        Rgb(Red::new(255), Green::new(0), Blue::new(0))
    }

    /// The colour green.
    pub fn green() -> (c: Rgb)
        ensures
            c@ == (0int, 63int, 0int),
    {
        Rgb(Red::new(0), Green::new(255), Blue::new(0))
    }

    /// The colour blue.
    pub fn blue() -> (c: Rgb)
        ensures
            c@ == (0int, 0int, 63int),
    {
        Rgb(Red::new(0), Green::new(0), Blue::new(255))
    }

    /// The colour yellow.
    pub fn yellow() -> (c: Rgb)
        ensures
            c@ == (63int, 63int, 0int),
    {
        Rgb(Red::new(255), Green::new(255), Blue::new(0))
    }

    /// The colour cyan.
    pub fn cyan() -> (c: Rgb)
        ensures
            c@ == (0int, 63int, 63int),
    {
        Rgb(Red::new(0), Green::new(255), Blue::new(255))
    }

    /// The colour magenta.
    pub fn magenta() -> (c: Rgb)
        ensures
            c@ == (63int, 0int, 63int),
    {
        Rgb(Red::new(255), Green::new(0), Blue::new(255))
    }

    /// The colour white.
    pub fn white() -> (c: Rgb)
        ensures
            c@ == (63int, 63int, 63int),
    {
        Rgb(Red::new(255), Green::new(255), Blue::new(255))
    }

    /// The colour black.
    pub fn black() -> (c: Rgb)
        ensures
            c@ == (0int, 0int, 0int),
    {
        Rgb(Red::new(0), Green::new(0), Blue::new(0))
    }
}

} // verus!
