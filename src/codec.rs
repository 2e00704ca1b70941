//! The frame codec: turns one captured buffer of a negotiated format into a
//! frame message whose payload is ready for presentation.
use vstd::prelude::*;

use zune_core::colorspace::ColorSpace;
use zune_core::options::DecoderOptions;
use zune_jpeg::errors::DecodeErrors;
use zune_jpeg::JpegDecoder;

use crate::format::{encoding, encoding_of, Encoding, FrameMessage, NegotiatedFormat};

verus! {

/// zune_jpeg's `DecodeErrors`, the error of `JpegDecoder::decode`; it is only
/// carried back from the decoder and mapped to [`DecodeError::Malformed`].
#[verifier::external_type_specification]
#[verifier::external_body]
pub struct ExDecodeErrors(DecodeErrors);

/// Why a captured buffer yields no frame. None of these ends the capture: the
/// buffer is dropped and the next one is read.
#[derive(Clone, Copy, Debug, PartialEq, Eq, Structural)]
pub enum DecodeError {
    /// The codec has no decoder for the negotiated pixel format.
    UnsupportedFormat,
    /// The compressed buffer could not be decoded.
    Malformed,
    /// The payload does not have the size that the negotiated format implies.
    SizeMismatch,
}

/// Relies on zune_jpeg's `JpegDecoder::decode`, with the output colour space
/// set to RGBA, to decode one JPEG image. Which SIMD routines it uses depends on
/// the machine, so nothing is stated of the pixels it returns.
#[verifier::external_body]
fn decode_jpeg_rgba(data: &[u8]) -> (r: Result<Vec<u8>, DecodeErrors>) {
    let options = DecoderOptions::default().jpeg_set_out_colorspace(ColorSpace::RGBA);
    let mut decoder = JpegDecoder::new_with_options(data, options);
    decoder.decode()
}

/// Pairs a decoded payload with the format it was captured in; a payload of
/// another size than the format implies is refused.
pub fn frame_from_payload(format: &NegotiatedFormat, payload: Vec<u8>) -> (r: Result<
    FrameMessage,
    DecodeError,
>)
    ensures
        r is Ok <==> format.size() == Some(payload@.len() as int),
        r matches Ok(m) ==> m.format == *format && m.payload@ == payload@ && m.wf(),
        r matches Err(e) ==> e == DecodeError::SizeMismatch,
{
    match FrameMessage::new(*format, payload) {
        Some(m) => Ok(m),
        None => Err(DecodeError::SizeMismatch),
    }
}

/// What decoding `raw` in `format` may give. Unknown formats are refused; a
/// raw buffer is the payload exactly when its size is the format's; a
/// compressed buffer either decodes to a payload of the format's size or is
/// refused as malformed or of the wrong size.
pub open spec fn decode_spec(
    format: NegotiatedFormat,
    raw: Seq<u8>,
    r: Result<FrameMessage, DecodeError>,
) -> bool {
    &&& encoding_of(format.fourcc@) is None ==> r == Err::<FrameMessage, DecodeError>(
        DecodeError::UnsupportedFormat,
    )
    &&& encoding_of(format.fourcc@) == Some(Encoding::Raw) ==> {
        &&& r is Ok <==> format.size() == Some(raw.len() as int)
        &&& r matches Ok(m) ==> m.payload@ == raw
        &&& r matches Err(e) ==> e == DecodeError::SizeMismatch
    }
    &&& encoding_of(format.fourcc@) == Some(Encoding::Compressed) ==> (r matches Err(e) ==> (e
        == DecodeError::Malformed || e == DecodeError::SizeMismatch))
    &&& r matches Ok(m) ==> m.format == format && m.wf()
}

/// Decodes one captured buffer `raw` of the negotiated `format`: a raw buffer
/// is the payload as it is, a compressed one is decoded to RGBA.
pub fn decode(format: &NegotiatedFormat, raw: &[u8]) -> (r: Result<FrameMessage, DecodeError>)
    ensures
        decode_spec(*format, raw@, r),
{
    match encoding(&format.fourcc) {
        Some(Encoding::Raw) => frame_from_payload(format, vstd::slice::slice_to_vec(raw)),
        Some(Encoding::Compressed) => match decode_jpeg_rgba(raw) {
            Ok(pixels) => frame_from_payload(format, pixels),
            Err(_) => Err(DecodeError::Malformed),
        },
        None => Err(DecodeError::UnsupportedFormat),
    }
}

} // verus!
