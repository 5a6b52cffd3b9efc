use vstd::prelude::*;
use crate::pixel::ChannelOrder;

verus! {

// The numbers by which OpenGL names the things that this library hands to
// the driver or gets from it.
/// Status of a framebuffer whose attachments are all usable.
pub const FRAMEBUFFER_COMPLETE: u32 = 0x8CD5;

/// Head of the driver's error queue when the queue is empty.
pub const NO_ERROR: u32 = 0;

/// Target that stands for both the read and the draw framebuffer.
pub const FRAMEBUFFER: u32 = 0x8D40;

/// Target from which copies and read-backs take their pixels.
pub const READ_FRAMEBUFFER: u32 = 0x8CA8;

/// Target into which drawing and copies put their pixels.
pub const DRAW_FRAMEBUFFER: u32 = 0x8CA9;

/// The first colour attachment of a framebuffer.
pub const COLOR_ATTACHMENT0: u32 = 0x8CE0;

/// Mask that selects the colour buffer.
pub const COLOR_BUFFER_BIT: u32 = 0x4000;

/// Sampling that takes the nearest pixel.
pub const NEAREST: u32 = 0x2600;

/// Component type of eight unsigned bits.
pub const UNSIGNED_BYTE: u32 = 0x1401;

pub const RGB: u32 = 0x1907;

pub const RGBA: u32 = 0x1908;

pub const BGR: u32 = 0x80E0;

pub const BGRA: u32 = 0x80E1;

/// Bit of a context's attribute flags that asks for an alpha channel.
pub const ALPHA_FLAG: u8 = 0x01;

impl ChannelOrder {
    /// The number by which OpenGL names this order of channels.
    pub open spec fn code(self) -> u32 {
        match self {
            ChannelOrder::Rgb => RGB,
            ChannelOrder::Bgr => BGR,
            ChannelOrder::Rgba => RGBA,
            ChannelOrder::Bgra => BGRA,
        }
    }

    pub fn gl_format(&self) -> (code: u32)
        ensures
            code == self.code(),
    {
        match self {
            ChannelOrder::Rgb => RGB,
            ChannelOrder::Bgr => BGR,
            ChannelOrder::Rgba => RGBA,
            ChannelOrder::Bgra => BGRA,
        }
    }
}

/// Bytes for each pixel in a format that this library reads back; zero for
/// any other number.
pub open spec fn format_channels(format: u32) -> int {
    if format == RGB || format == BGR {
        3
    } else if format == RGBA || format == BGRA {
        4
    } else {
        0
    }
}

} // verus!
