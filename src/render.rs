//! The presentation side's bookkeeping: which texture the display surface
//! needs for the frames that arrive.
use vstd::prelude::*;

use crate::format::{encoding, encoding_of, same_fourcc, Encoding, FrameMessage, NegotiatedFormat};

verus! {

/// The pixel layout of a streaming texture.
#[derive(Clone, Copy, Debug, PartialEq, Eq, Structural)]
pub enum TexturePixels {
    /// Packed luma-chroma, two bytes per pixel.
    Yuy2,
    /// Red, green, blue, alpha, four bytes per pixel.
    Rgba32,
}

/// A texture to create: its layout and size.
#[derive(Clone, Copy, Debug, PartialEq, Eq, Structural)]
pub struct TextureSpec {
    pub pixels: TexturePixels,
    pub width: u32,
    pub height: u32,
}

/// The texture layout that shows payloads of an encoding.
pub open spec fn pixels_of(e: Encoding) -> TexturePixels {
    match e {
        Encoding::Raw => TexturePixels::Yuy2,
        Encoding::Compressed => TexturePixels::Rgba32,
    }
}

/// The texture that shows frames of `format`, if its pixel format is known.
pub open spec fn texture_of(format: NegotiatedFormat) -> Option<TextureSpec> {
    match encoding_of(format.fourcc@) {
        Some(e) => Some(TextureSpec { pixels: pixels_of(e), width: format.width, height: format.height }),
        None => None,
    }
}

/// The texture that shows frames of `format`, if its pixel format is known.
pub fn texture_for(format: &NegotiatedFormat) -> (r: Option<TextureSpec>)
    ensures
        r == texture_of(*format),
{
    let pixels = match encoding(&format.fourcc) {
        Some(Encoding::Raw) => TexturePixels::Yuy2,
        Some(Encoding::Compressed) => TexturePixels::Rgba32,
        None => {
            return None;
        },
    };
    Some(TextureSpec { pixels, width: format.width, height: format.height })
}

/// The format that the display surface is set up for.
pub struct Render {
    width: u32,
    height: u32,
    fourcc: [u8; 4],
}

impl View for Render {
    type V = NegotiatedFormat;

    closed spec fn view(&self) -> NegotiatedFormat {
        NegotiatedFormat { fourcc: self.fourcc, width: self.width, height: self.height }
    }
}

impl Render {
    pub fn new(width: u32, height: u32, fourcc: &[u8; 4]) -> (r: Render)
        ensures
            r@ == (NegotiatedFormat { fourcc: *fourcc, width, height }),
    {
        Render { width, height, fourcc: *fourcc }
    }

    /// The format the surface is set up for.
    pub fn format(&self) -> (r: NegotiatedFormat)
        ensures
            r == self@,
    {
        NegotiatedFormat { fourcc: self.fourcc, width: self.width, height: self.height }
    }

    /// The texture for the current format.
    pub fn texture(&self) -> (r: Option<TextureSpec>)
        ensures
            r == texture_of(self@),
    {
        texture_for(&self.format())
    }

    /// Takes on the format of an arriving frame. Where it differs from the
    /// current one, returns the texture to create before the frame is shown.
    pub fn adopt(&mut self, msg: &FrameMessage) -> (r: Option<TextureSpec>)
        requires
            msg.wf(),
        ensures
            final(self)@.same_as(msg.format),
            old(self)@.same_as(msg.format) ==> r is None && final(self)@ == old(self)@,
            !old(self)@.same_as(msg.format) ==> r == texture_of(msg.format) && r is Some,
    {
        if self.width == msg.format.width && self.height == msg.format.height && same_fourcc(
            &self.fourcc,
            &msg.format.fourcc,
        ) {
            return None;
        }
        self.width = msg.format.width;
        self.height = msg.format.height;
        self.fourcc = msg.format.fourcc;
        texture_for(&msg.format)
    }
}

} // verus!
