use vstd::prelude::*;

verus! {

/// Color of a pixel on a black/white panel.
#[derive(Clone, Copy, Debug, PartialEq, Eq, Structural)]
pub enum Color {
    Black,
    White,
}

impl Color {
    /// The byte that fills eight pixels of this color.
    pub open spec fn spec_byte_value(self) -> u8 {
        match self {
            Color::Black => 0x00u8,
            Color::White => 0xffu8,
        }
    }

    /// The byte that fills eight pixels of this color.
    pub fn get_byte_value(&self) -> (r: u8)
        ensures
            r == self.spec_byte_value(),
    {
        match self {
            Color::Black => 0x00,
            Color::White => 0xff,
        }
    }
}

/// Which of the two waveform tables drives a refresh.
#[derive(Clone, Copy, Debug, PartialEq, Eq, Structural)]
pub enum RefreshLut {
    /// Slow refresh with the best image quality.
    Full,
    /// Fast refresh that may leave ghosting behind.
    Quick,
}

/// Rotation of the logical drawing space onto the panel's buffer.
#[derive(Clone, Copy, Debug, PartialEq, Eq, Structural)]
pub enum DisplayRotation {
    Rotate0,
    Rotate90,
    Rotate180,
    Rotate270,
}

impl DisplayRotation {
    /// The rotation a new framebuffer starts with.
    pub fn default_rotation() -> (r: DisplayRotation)
        ensures
            r == DisplayRotation::Rotate0,
    {
        DisplayRotation::Rotate0
    }
}

} // verus!
