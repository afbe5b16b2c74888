use vstd::prelude::*;
use crate::geometry::{sentinel, Point, SPRITE_SIZE};

verus! {

/// Draw colours of the fruit glyph.
pub const FRUIT_COLORS: u16 = 0x4320;

/// Host flag: the glyph holds two bits per pixel.
pub const BLIT_2BPP: u32 = 1;

/// A glyph copy for the host to perform, in pixels.
#[derive(Clone, Copy, PartialEq, Eq, Structural, Debug)]
pub struct Blit {
    pub colors: u16,
    pub x: i32,
    pub y: i32,
    pub width: u32,
    pub height: u32,
    pub flags: u32,
}

/// The fruit: one location, the sentinel before the first placement, and its glyph.
pub struct Fruit {
    location: Point,
    sprite: [u8; 16],
}

/// The fruit's 8 by 8 glyph, two bits per pixel.
pub open spec fn fruit_glyph() -> Seq<u8> {
    seq![
        0x00u8, 0xa0u8, 0x02u8, 0x00u8, 0x0eu8, 0xf0u8, 0x36u8, 0x5cu8, 0xd6u8, 0x57u8, 0xd5u8,
        0x57u8, 0x35u8, 0x5cu8, 0x0fu8, 0xf0u8,
    ]
}

/// The glyph copy that shows a fruit at `p`.
pub open spec fn fruit_blit(p: Point) -> Blit {
    Blit {
        colors: FRUIT_COLORS,
        x: (p.x * SPRITE_SIZE) as i32,
        y: (p.y * SPRITE_SIZE) as i32,
        width: SPRITE_SIZE as u32,
        height: SPRITE_SIZE as u32,
        flags: BLIT_2BPP,
    }
}

impl Fruit {
    pub closed spec fn spec_location(&self) -> Point {
        self.location
    }

    pub closed spec fn spec_sprite(&self) -> Seq<u8> {
        self.sprite@
    }

    /// A fruit not yet placed: its location is the sentinel.
    pub fn new() -> (r: Fruit)
        ensures
            r.spec_location() == sentinel(),
            r.spec_sprite() == fruit_glyph(),
    {
        let r = Fruit {
            location: Point::new(-1, -1),
            sprite: [
                0x00, 0xa0, 0x02, 0x00, 0x0e, 0xf0, 0x36, 0x5c, 0xd6, 0x57, 0xd5, 0x57, 0x35, 0x5c,
                0x0f, 0xf0,
            ],
        };
        assert(r.sprite@ =~= fruit_glyph());
        r
    }

    /// A fruit at `location` with the standard glyph.
    pub fn at(location: Point) -> (r: Fruit)
        ensures
            r.spec_location() == location,
            r.spec_sprite() == fruit_glyph(),
    {
        let mut r = Fruit::new();
        r.location = location;
        r
    }

    /// The glyph copy that shows the fruit at its location.
    pub fn draw(&self) -> (r: Blit)
        ensures
            r == fruit_blit(self.spec_location()),
    {
        let size: i32 = SPRITE_SIZE as i32;
        let x: i32 = self.location.x as i32;
        let y: i32 = self.location.y as i32;
        Blit {
            colors: FRUIT_COLORS,
            x: x * size,
            y: y * size,
            width: SPRITE_SIZE as u32,
            height: SPRITE_SIZE as u32,
            flags: BLIT_2BPP,
        }
    }

    pub fn location(&self) -> (r: Point)
        ensures
            r == self.spec_location(),
    {
        self.location
    }

    /// The glyph, 16 bytes at two bits per pixel.
    pub fn sprite(&self) -> (r: [u8; 16])
        ensures
            r@ == self.spec_sprite(),
    {
        self.sprite
    }
}

} // verus!
