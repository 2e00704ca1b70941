//! Pixel formats, the negotiated format and frame rate, and the frame message
//! that carries one decoded frame together with its format.
use vstd::prelude::*;

use crate::bytes::{be_word_of, from_bytes, to_bytes, words_to_bytes};

verus! {

/// How a captured buffer of a pixel format becomes a display payload.
#[derive(Clone, Copy, Debug, PartialEq, Eq, Structural)]
pub enum Encoding {
    /// Packed luma-chroma ("YUYV"): the captured bytes are the payload, two per pixel.
    Raw,
    /// Motion JPEG ("MJPG"): each buffer is decoded to RGBA, four bytes per pixel.
    Compressed,
}

/// `fourcc` is the four bytes `a`, `b`, `c`, `d`.
pub open spec fn is_tag(fourcc: Seq<u8>, a: u8, b: u8, c: u8, d: u8) -> bool {
    fourcc.len() == 4 && fourcc[0] == a && fourcc[1] == b && fourcc[2] == c && fourcc[3] == d
}

/// The encoding of the pixel format tagged `fourcc`, if the codec knows it:
/// the tags are the ASCII bytes of "YUYV" and "MJPG".
pub open spec fn encoding_of(fourcc: Seq<u8>) -> Option<Encoding> {
    if is_tag(fourcc, 0x59, 0x55, 0x59, 0x56) {
        Some(Encoding::Raw)
    } else if is_tag(fourcc, 0x4d, 0x4a, 0x50, 0x47) {
        Some(Encoding::Compressed)
    } else {
        None
    }
}

/// Bytes per pixel of the payload that an encoding yields.
pub open spec fn payload_bytes_per_pixel(e: Encoding) -> int {
    match e {
        Encoding::Raw => 2,
        Encoding::Compressed => 4,
    }
}

/// The payload size in bytes that a frame of this format must have.
pub open spec fn payload_size(fourcc: Seq<u8>, width: u32, height: u32) -> Option<int> {
    match encoding_of(fourcc) {
        Some(e) => Some(payload_bytes_per_pixel(e) * width * height),
        None => None,
    }
}

/// The encoding of the pixel format tagged `fourcc`.
pub fn encoding(fourcc: &[u8; 4]) -> (r: Option<Encoding>)
    ensures
        r == encoding_of(fourcc@),
{
    if fourcc[0] == 0x59 && fourcc[1] == 0x55 && fourcc[2] == 0x59 && fourcc[3] == 0x56 {
        Some(Encoding::Raw)
    } else if fourcc[0] == 0x4d && fourcc[1] == 0x4a && fourcc[2] == 0x50 && fourcc[3] == 0x47 {
        Some(Encoding::Compressed)
    } else {
        None
    }
}

/// Whether two pixel format tags are the same.
pub fn same_fourcc(a: &[u8; 4], b: &[u8; 4]) -> (r: bool)
    ensures
        r == (a@ == b@),
{
    let r = a[0] == b[0] && a[1] == b[1] && a[2] == b[2] && a[3] == b[3];
    proof {
        if r {
            assert(a@ =~= b@);
        }
    }
    r
}

/// The format that the device granted: pixel format tag and frame size.
#[derive(Clone, Copy, Debug, PartialEq, Eq)]
pub struct NegotiatedFormat {
    pub fourcc: [u8; 4],
    pub width: u32,
    pub height: u32,
}

/// A frame interval `numerator / denominator` seconds.
#[derive(Clone, Copy, Debug, PartialEq, Eq, Structural)]
pub struct StreamRate {
    pub numerator: u32,
    pub denominator: u32,
}

impl NegotiatedFormat {
    /// Both formats have the same tag and frame size.
    pub open spec fn same_as(self, other: NegotiatedFormat) -> bool {
        self.fourcc@ == other.fourcc@ && self.width == other.width && self.height == other.height
    }

    pub open spec fn size(self) -> Option<int> {
        payload_size(self.fourcc@, self.width, self.height)
    }

    /// Whether `self` and `other` have the same tag and frame size.
    pub fn same(&self, other: &NegotiatedFormat) -> (r: bool)
        ensures
            r == self.same_as(*other),
    {
        same_fourcc(&self.fourcc, &other.fourcc) && self.width == other.width && self.height
            == other.height
    }

    /// The payload size in bytes that a frame of this format has, where it is
    /// known and fits in `usize`.
    pub fn payload_len(&self) -> (r: Option<usize>)
        ensures
            r == (match self.size() {
                Some(n) => if n <= usize::MAX {
                    Some(n as usize)
                } else {
                    None::<usize>
                },
                None => None::<usize>,
            }),
    {
        let bpp: usize = match encoding(&self.fourcc) {
            Some(Encoding::Raw) => 2,
            Some(Encoding::Compressed) => 4,
            None => {
                return None;
            },
        };
        let w = self.width as usize;
        let h = self.height as usize;
        proof {
            let n = bpp as int * w as int * h as int;
            assert(bpp as int * w as int * h as int == bpp as int * (w as int * h as int))
                by (nonlinear_arith);
            assert(0 <= w as int * h as int) by (nonlinear_arith);
            assert(bpp as int * (w as int * h as int) >= w as int * h as int) by (nonlinear_arith)
                requires
                    bpp >= 1,
                    0 <= w as int * h as int,
            ;
        }
        match w.checked_mul(h) {
            Some(wh) => match wh.checked_mul(bpp) {
                Some(n) => {
                    assert(n == bpp as int * w as int * h as int) by (nonlinear_arith)
                        requires
                            n == wh * bpp,
                            wh == w * h,
                    ;
                    Some(n)
                },
                None => {
                    assert(wh as int * bpp as int == bpp as int * w as int * h as int)
                        by (nonlinear_arith)
                        requires
                            wh == w * h,
                    ;
                    None
                },
            },
            None => None,
        }
    }
}

/// The bytes that carry a frame message: the four tag bytes, width and height
/// as big-endian words, then the payload.
pub open spec fn wire_of(format: NegotiatedFormat, payload: Seq<u8>) -> Seq<u8> {
    format.fourcc@ + words_to_bytes(seq![format.width, format.height]) + payload
}

/// The tag in the header of a wire message.
pub open spec fn wire_fourcc(b: Seq<u8>) -> Seq<u8> {
    b.subrange(0, 4)
}

pub open spec fn wire_width(b: Seq<u8>) -> u32 {
    be_word_of(b.subrange(4, 8))
}

pub open spec fn wire_height(b: Seq<u8>) -> u32 {
    be_word_of(b.subrange(8, 12))
}

pub open spec fn wire_payload(b: Seq<u8>) -> Seq<u8> {
    b.subrange(12, b.len() as int)
}

/// A wire message is well formed when it holds a whole header and a payload
/// of the size that the header's format implies.
pub open spec fn wire_well_formed(b: Seq<u8>) -> bool {
    b.len() >= 12 && payload_size(wire_fourcc(b), wire_width(b), wire_height(b)) == Some(
        wire_payload(b).len() as int,
    )
}

/// One frame and the format it is in: the unit that crosses from capture to
/// presentation.
#[derive(Clone, Debug, PartialEq, Eq)]
pub struct FrameMessage {
    pub format: NegotiatedFormat,
    pub payload: Vec<u8>,
}

impl FrameMessage {
    /// The payload has the size that the format implies.
    pub open spec fn wf(&self) -> bool {
        self.format.size() == Some(self.payload@.len() as int)
    }

    /// A message of `format` and `payload`, or `None` where the payload's size
    /// is not the one that the format implies.
    pub fn new(format: NegotiatedFormat, payload: Vec<u8>) -> (r: Option<FrameMessage>)
        ensures
            r is Some <==> format.size() == Some(payload@.len() as int),
            r matches Some(m) ==> m.format == format && m.payload@ == payload@ && m.wf(),
    {
        let len = payload.len();
        match format.payload_len() {
            Some(n) => {
                if n == len {
                    Some(FrameMessage { format, payload })
                } else {
                    None
                }
            },
            None => None,
        }
    }

    /// The message in its wire form.
    pub fn to_wire(&self) -> (bytes: Vec<u8>)
        requires
            self.wf(),
            self.payload@.len() + 12 <= usize::MAX,
        ensures
            bytes@ == wire_of(self.format, self.payload@),
    {
        let mut bytes: Vec<u8> = Vec::new();
        bytes.push(self.format.fourcc[0]);
        bytes.push(self.format.fourcc[1]);
        bytes.push(self.format.fourcc[2]);
        bytes.push(self.format.fourcc[3]);
        let size: Vec<u32> = vec![self.format.width, self.format.height];
        let mut header = to_bytes(size.as_slice());
        bytes.append(&mut header);
        bytes.extend_from_slice(self.payload.as_slice());
        assert(bytes@ =~= wire_of(self.format, self.payload@));
        bytes
    }

    /// Reads a message back from its wire form; `None` where `bytes` is not a
    /// well-formed wire message.
    pub fn from_wire(bytes: &[u8]) -> (r: Option<FrameMessage>)
        ensures
            r is Some <==> wire_well_formed(bytes@),
            r matches Some(m) ==> {
                &&& m.format.fourcc@ == wire_fourcc(bytes@)
                &&& m.format.width == wire_width(bytes@)
                &&& m.format.height == wire_height(bytes@)
                &&& m.payload@ == wire_payload(bytes@)
                &&& m.wf()
            },
    {
        if bytes.len() < 12 {
            return None;
        }
        let fourcc: [u8; 4] = [bytes[0], bytes[1], bytes[2], bytes[3]];
        let (_, rest) = bytes.split_at(4);
        let (size_bytes, payload) = rest.split_at(8);
        let mut cursor: &[u8] = size_bytes;
        let size = from_bytes(&mut cursor);
        proof {
            assert(size_bytes@ =~= bytes@.subrange(4, 12));
            assert(size@.len() == 2);
            assert(size_bytes@.subrange(0, 4) =~= bytes@.subrange(4, 8));
            assert(size_bytes@.subrange(4, 8) =~= bytes@.subrange(8, 12));
            assert(fourcc@ =~= wire_fourcc(bytes@));
            assert(payload@ =~= wire_payload(bytes@));
        }
        let format = NegotiatedFormat { fourcc, width: size[0], height: size[1] };
        FrameMessage::new(format, vstd::slice::slice_to_vec(payload))
    }
}

/// Reading back the wire form of a well-formed message gives its format and
/// payload, and the wire form is well formed.
pub proof fn lemma_wire_round_trip(m: FrameMessage)
    requires
        m.wf(),
    ensures
        wire_well_formed(wire_of(m.format, m.payload@)),
        wire_fourcc(wire_of(m.format, m.payload@)) == m.format.fourcc@,
        wire_width(wire_of(m.format, m.payload@)) == m.format.width,
        wire_height(wire_of(m.format, m.payload@)) == m.format.height,
        wire_payload(wire_of(m.format, m.payload@)) == m.payload@,
{
    let w = wire_of(m.format, m.payload@);
    let words = seq![m.format.width, m.format.height];
    crate::bytes::lemma_words_to_bytes_len(words);
    assert(words_to_bytes(words) =~= crate::bytes::be_bytes_of(m.format.width)
        + crate::bytes::be_bytes_of(m.format.height)) by {
        let one = seq![m.format.width];
        assert(words.drop_last() =~= one);
        assert(one.drop_last() =~= Seq::<u32>::empty());
        assert(words_to_bytes(one) =~= crate::bytes::be_bytes_of(m.format.width));
    }
    assert(w.subrange(0, 4) =~= m.format.fourcc@);
    assert(w.subrange(4, 8) =~= crate::bytes::be_bytes_of(m.format.width));
    assert(w.subrange(8, 12) =~= crate::bytes::be_bytes_of(m.format.height));
    assert(w.subrange(12, w.len() as int) =~= m.payload@);
}

} // verus!
