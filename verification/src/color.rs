use vstd::prelude::*;

verus! {

/// A colour with four 8-bit channels; `opacity` 255 is fully opaque.
#[derive(Clone, Copy, Debug, PartialEq, Eq, Structural)]
pub struct Color {
    pub red: u8,
    pub green: u8,
    pub blue: u8,
    pub opacity: u8,
}

impl Color {
    /// The pixel word of this colour: opacity in the top byte, then red,
    /// green and blue.
    pub open spec fn argb(self) -> u32 {
        (self.opacity * 0x100_0000 + self.red * 0x1_0000 + self.green * 0x100 + self.blue) as u32
    }

    pub fn new(red: u8, green: u8, blue: u8, opacity: u8) -> (c: Color)
        ensures
            c == (Color { red, green, blue, opacity }),
    {
        Color { red, green, blue, opacity }
    }

    /// The colour as one 32-bit pixel of the shared-memory format.
    pub fn as_argb8888(&self) -> (pixel: u32)
        ensures
            pixel == self.argb(),
    {
        let a: u32 = self.opacity as u32;
        let r: u32 = self.red as u32;
        let g: u32 = self.green as u32;
        let b: u32 = self.blue as u32;
        a * 0x100_0000 + r * 0x1_0000 + g * 0x100 + b
    }
}

} // verus!
