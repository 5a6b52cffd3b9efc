use vstd::prelude::*;
use crate::geometry::Extent;

verus! {

/// A colour with eight bits for each channel.
#[derive(Clone, Copy, Debug, PartialEq, Eq, Structural)]
pub struct Rgba8 {
    pub r: u8,
    pub g: u8,
    pub b: u8,
    pub a: u8,
}

/// The format of a context or a surface: eight bits for each colour
/// channel, with or without alpha.
#[derive(Clone, Copy, Debug, PartialEq, Eq, Structural)]
pub enum PixelFormat {
    Rgb8,
    Rgba8,
}

/// The order in which the channels of a pixel follow each other in memory.
#[derive(Clone, Copy, Debug, PartialEq, Eq, Structural)]
pub enum ChannelOrder {
    Rgb,
    Bgr,
    Rgba,
    Bgra,
}

impl ChannelOrder {
    /// Bytes that one pixel takes.
    pub open spec fn channels(self) -> int {
        match self {
            ChannelOrder::Rgb | ChannelOrder::Bgr => 3,
            ChannelOrder::Rgba | ChannelOrder::Bgra => 4,
        }
    }

    pub fn channel_count(&self) -> (n: u8)
        ensures
            n == self.channels(),
    {
        match self {
            ChannelOrder::Rgb | ChannelOrder::Bgr => 3,
            ChannelOrder::Rgba | ChannelOrder::Bgra => 4,
        }
    }
}

impl Rgba8 {
    /// The bytes of one pixel of this colour.
    pub open spec fn encoded(self, order: ChannelOrder) -> Seq<u8> {
        match order {
            ChannelOrder::Rgb => seq![self.r, self.g, self.b],
            ChannelOrder::Bgr => seq![self.b, self.g, self.r],
            ChannelOrder::Rgba => seq![self.r, self.g, self.b, self.a],
            ChannelOrder::Bgra => seq![self.b, self.g, self.r, self.a],
        }
    }

    pub fn new(r: u8, g: u8, b: u8, a: u8) -> (c: Rgba8)
        ensures
            c == (Rgba8 { r, g, b, a }),
    {
        Rgba8 { r, g, b, a }
    }

    pub fn encode(&self, order: ChannelOrder) -> (v: Vec<u8>)
        ensures
            v@ == self.encoded(order),
    {
        let mut v: Vec<u8> = Vec::new();
        match order {
            ChannelOrder::Rgb => {
                v.push(self.r);
                v.push(self.g);
                v.push(self.b);
            },
            ChannelOrder::Bgr => {
                v.push(self.b);
                v.push(self.g);
                v.push(self.r);
            },
            ChannelOrder::Rgba => {
                v.push(self.r);
                v.push(self.g);
                v.push(self.b);
                v.push(self.a);
            },
            ChannelOrder::Bgra => {
                v.push(self.b);
                v.push(self.g);
                v.push(self.r);
                v.push(self.a);
            },
        }
        assert(v@ =~= self.encoded(order));
        v
    }
}

/// Number of bytes of an image: zero where a side is negative.
pub open spec fn image_len(extent: Extent, order: ChannelOrder) -> int {
    if extent.width >= 0 && extent.height >= 0 {
        extent.area() * order.channels()
    } else {
        0
    }
}

/// The image of the given extent in which every pixel has one colour,
/// row after row without padding.
pub open spec fn solid(extent: Extent, color: Rgba8, order: ChannelOrder) -> Seq<u8> {
    Seq::new(
        image_len(extent, order) as nat,
        |i: int| color.encoded(order)[i % order.channels()],
    )
}

/// Every pixel of a solid image is the encoded colour.
pub proof fn lemma_solid_pixels(extent: Extent, color: Rgba8, order: ChannelOrder, p: int)
    requires
        extent.width >= 0,
        extent.height >= 0,
        0 <= p < extent.area(),
    ensures
        solid(extent, color, order).len() == extent.area() * order.channels(),
        solid(extent, color, order).subrange(
            p * order.channels(),
            p * order.channels() + order.channels(),
        ) == color.encoded(order),
{
    let ch = order.channels();
    let image = solid(extent, color, order);
    assert(0 <= p * ch && p * ch + ch <= extent.area() * ch) by (nonlinear_arith)
        requires
            0 <= p < extent.area(),
            ch > 0,
    ;
    let pixel = image.subrange(p * ch, p * ch + ch);
    assert forall|j: int| 0 <= j < ch implies pixel[j] == color.encoded(order)[j] by {
        assert((p * ch + j) % ch == j) by (nonlinear_arith)
            requires
                0 <= j < ch,
                0 <= p,
        ;
    }
    assert(pixel =~= color.encoded(order));
}

/// Builds the image in which every pixel has one colour, unless a side is
/// negative or the image is too long for the machine.
pub fn solid_image(extent: Extent, color: Rgba8, order: ChannelOrder) -> (r: Option<Vec<u8>>)
    ensures
        r is Some <==> extent.width >= 0 && extent.height >= 0 && image_len(extent, order)
            <= usize::MAX,
        r is Some ==> r->0@ == solid(extent, color, order),
{
    let n: usize = match extent.byte_len(order.channel_count()) {
        Some(n) => n,
        None => {
            return None;
        },
    };
    let pixel = color.encode(order);
    let ch: usize = order.channel_count() as usize;
    let mut v: Vec<u8> = Vec::new();
    let mut i: usize = 0;
    while i < n
        invariant
            i <= n,
            n == image_len(extent, order),
            ch == order.channels(),
            pixel@ == color.encoded(order),
            v@.len() == i,
            forall|j: int| 0 <= j < i ==> v@[j] == color.encoded(order)[j % order.channels()],
        decreases n - i,
    {
        v.push(pixel[i % ch]);
        i = i + 1;
    }
    assert(v@ =~= solid(extent, color, order));
    Some(v)
}

/// Tells whether `data` is exactly the image of one colour.
pub fn is_solid(data: &Vec<u8>, extent: Extent, color: Rgba8, order: ChannelOrder) -> (b: bool)
    ensures
        b <==> extent.width >= 0 && extent.height >= 0 && data@ == solid(extent, color, order),
{
    let n: usize = match extent.byte_len(order.channel_count()) {
        Some(n) => n,
        None => {
            assert(data@.len() == data.len());
            assert(extent.width >= 0 && extent.height >= 0 ==> solid(extent, color, order).len()
                == image_len(extent, order));
            return false;
        },
    };
    if data.len() != n {
        assert(solid(extent, color, order).len() == n);
        return false;
    }
    let pixel = color.encode(order);
    let ch: usize = order.channel_count() as usize;
    let mut i: usize = 0;
    while i < n
        invariant
            i <= n,
            n == image_len(extent, order),
            data@.len() == n,
            ch == order.channels(),
            pixel@ == color.encoded(order),
            forall|j: int| 0 <= j < i ==> data@[j] == color.encoded(order)[j % order.channels()],
        decreases n - i,
    {
        if data[i] != pixel[i % ch] {
            assert(solid(extent, color, order)[i as int] != data@[i as int]);
            return false;
        }
        i = i + 1;
    }
    assert(data@ =~= solid(extent, color, order));
    true
}

} // verus!
