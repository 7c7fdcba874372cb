//! The background tint: a last-writer-wins RGBA value read once per frame.
use vstd::prelude::*;

verus! {

/// An 8-bit RGBA color; each channel `c` stands for the normalized value `c / 255`.
#[derive(Clone, Copy, Debug, PartialEq, Eq, Structural)]
pub struct Rgba8 {
    pub r: u8,
    pub g: u8,
    pub b: u8,
    pub a: u8,
}

/// Packs four channels into one word, red in the lowest byte.
pub open spec fn pack_spec(r: u8, g: u8, b: u8, a: u8) -> u32 {
    (r as u32) | ((g as u32) << 8u32) | ((b as u32) << 16u32) | ((a as u32) << 24u32)
}

/// Opaque black: all color channels zero, alpha full.
pub open spec fn opaque_black() -> Rgba8 {
    Rgba8 { r: 0, g: 0, b: 0, a: 255 }
}

/// A single-slot color store with opaque black as its default.
pub struct TintStore {
    packed: u32,
}

impl TintStore {
    /// The color the store currently holds.
    pub closed spec fn color(&self) -> Rgba8 {
        Rgba8 {
            r: (self.packed & 0xffu32) as u8,
            g: ((self.packed >> 8u32) & 0xffu32) as u8,
            b: ((self.packed >> 16u32) & 0xffu32) as u8,
            a: ((self.packed >> 24u32) & 0xffu32) as u8,
        }
    }

    /// A store that has never been written: it reads as opaque black.
    pub fn new() -> (s: TintStore)
        ensures
            s.color() == opaque_black(),
    {
        let s = TintStore { packed: 0xff00_0000u32 };
        assert(((0xff00_0000u32 & 0xffu32) as u8) == 0u8
            && (((0xff00_0000u32 >> 8u32) & 0xffu32) as u8) == 0u8
            && (((0xff00_0000u32 >> 16u32) & 0xffu32) as u8) == 0u8
            && (((0xff00_0000u32 >> 24u32) & 0xffu32) as u8) == 255u8) by (bit_vector);
        s
    }

    /// Reads the color for one frame.
    pub fn get_background_color(&self) -> (c: Rgba8)
        ensures
            c == self.color(),
    {
        Rgba8 {
            r: (self.packed & 0xffu32) as u8,
            g: ((self.packed >> 8u32) & 0xffu32) as u8,
            b: ((self.packed >> 16u32) & 0xffu32) as u8,
            a: ((self.packed >> 24u32) & 0xffu32) as u8,
        }
    }
}

/// Packs the four channels into the store's word layout.
pub fn pack_color(r: u8, g: u8, b: u8, a: u8) -> (w: u32)
    ensures
        w == pack_spec(r, g, b, a),
{
    (r as u32) | ((g as u32) << 8u32) | ((b as u32) << 16u32) | ((a as u32) << 24u32)
}

proof fn lemma_unpack(r: u8, g: u8, b: u8, a: u8)
    ensures
        (pack_spec(r, g, b, a) & 0xffu32) as u8 == r,
        ((pack_spec(r, g, b, a) >> 8u32) & 0xffu32) as u8 == g,
        ((pack_spec(r, g, b, a) >> 16u32) & 0xffu32) as u8 == b,
        ((pack_spec(r, g, b, a) >> 24u32) & 0xffu32) as u8 == a,
{
    let (r32, g32, b32, a32) = (r as u32, g as u32, b as u32, a as u32);
    assert(r32 < 256 && g32 < 256 && b32 < 256 && a32 < 256);
    assert(r32 < 256 && g32 < 256 && b32 < 256 && a32 < 256 ==> {
        let w = r32 | (g32 << 8u32) | (b32 << 16u32) | (a32 << 24u32);
        &&& (w & 0xffu32) == r32
        &&& ((w >> 8u32) & 0xffu32) == g32
        &&& ((w >> 16u32) & 0xffu32) == b32
        &&& ((w >> 24u32) & 0xffu32) == a32
    }) by (bit_vector);
}

/// Sets the background color; the next frame that reads the store sees it.
pub fn set_background_color(store: &mut TintStore, r: u8, g: u8, b: u8, a: u8)
    ensures
        final(store).color() == (Rgba8 { r, g, b, a }),
{
    store.packed = pack_color(r, g, b, a);
    proof {
        lemma_unpack(r, g, b, a);
    }
}

} // verus!
