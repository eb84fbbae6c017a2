use vstd::prelude::*;

verus! {

/// The screen that the processor draws on, supplied by the host.
pub trait Display {
    /// Clears every pixel.
    fn clear(&mut self);

    /// XORs `sprite` (one byte per row) onto the screen at `(x, y)` and
    /// reports whether a pixel that was set became unset.
    fn draw_sprite(&mut self, x: u8, y: u8, sprite: &[u8]) -> bool;
}

/// A source of random bytes, supplied by the host.
pub trait RandomSource {
    /// The next random byte.
    fn next_byte(&mut self) -> u8;
}

} // verus!
