use vstd::prelude::*;

verus! {

/// Width and height of a drawable, in pixels.
#[derive(Clone, Copy, Debug, PartialEq, Eq, Structural)]
pub struct Extent {
    pub width: i32,
    pub height: i32,
}

/// An axis-aligned rectangle given by two corners, as a blit takes it.
#[derive(Clone, Copy, Debug, PartialEq, Eq, Structural)]
pub struct Rect {
    pub x0: i32,
    pub y0: i32,
    pub x1: i32,
    pub y1: i32,
}

impl Extent {
    /// An extent is drawable when both sides are positive and an image of
    /// four bytes for each pixel can be read back in one call, which counts
    /// its bytes in 32 bits.
    pub open spec fn drawable(self) -> bool {
        self.width > 0 && self.height > 0 && self.width * self.height * 4 <= i32::MAX
    }

    /// Number of pixels that the extent covers.
    pub open spec fn area(self) -> int {
        self.width * self.height
    }

    /// The rectangle that starts at the origin and covers the whole extent.
    pub open spec fn full(self) -> Rect {
        Rect { x0: 0, y0: 0, x1: self.width, y1: self.height }
    }

    pub fn new(width: i32, height: i32) -> (e: Extent)
        ensures
            e.width == width,
            e.height == height,
    {
        Extent { width, height }
    }

    pub fn is_drawable(&self) -> (b: bool)
        ensures
            b == self.drawable(),
    {
        if self.width <= 0 || self.height <= 0 {
            return false;
        }
        let w: i64 = self.width as i64;
        let h: i64 = self.height as i64;
        assert(0 < w * h <= 0x7fff_ffff * 0x7fff_ffff) by (nonlinear_arith)
            requires
                0 < w <= 0x7fff_ffff,
                0 < h <= 0x7fff_ffff,
        ;
        w * h <= 0x1fff_ffff
    }

    /// Neither side is longer than the limit.
    pub open spec fn within(self, limit: i32) -> bool {
        self.width <= limit && self.height <= limit
    }

    pub fn is_within(&self, limit: i32) -> (b: bool)
        ensures
            b == self.within(limit),
    {
        self.width <= limit && self.height <= limit
    }

    /// The rectangle used on both sides of a one-to-one copy.
    pub fn full_rect(&self) -> (r: Rect)
        ensures
            r == self.full(),
    {
        Rect { x0: 0, y0: 0, x1: self.width, y1: self.height }
    }

    /// Number of bytes that an image of this extent takes with
    /// `channels` bytes for each pixel, where that number fits the machine.
    pub fn byte_len(&self, channels: u8) -> (n: Option<usize>)
        ensures
            n is Some <==> self.width >= 0 && self.height >= 0 && self.area() * channels
                <= usize::MAX,
            n is Some ==> n->0 == self.area() * channels,
    {
        if self.width < 0 || self.height < 0 {
            return None;
        }
        let w: u64 = self.width as u64;
        let h: u64 = self.height as u64;
        assert(w * h <= 0x7fff_ffff * 0x7fff_ffff) by (nonlinear_arith)
            requires
                w <= 0x7fff_ffff,
                h <= 0x7fff_ffff,
        ;
        let pixels: u64 = w * h;
        assert(pixels * channels <= 0x7fff_ffff * 0x7fff_ffff * 255) by (nonlinear_arith)
            requires
                pixels <= 0x7fff_ffff * 0x7fff_ffff,
                channels <= 255,
        ;
        let total: u128 = (pixels as u128) * (channels as u128);
        assert(total == self.area() * channels) by (nonlinear_arith)
            requires
                total == (w * h) * channels,
                w == self.width,
                h == self.height,
                self.area() == self.width * self.height,
        ;
        if total <= usize::MAX as u128 {
            Some(total as usize)
        } else {
            None
        }
    }
}

} // verus!
