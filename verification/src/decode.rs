//! The frame-decoding boundary: opening a GIF decoder over a byte buffer and
//! draining it into the library's own frame sequence.
//!
//! The container format itself is decoded by the `gif` crate; this module
//! names what that decoding yields and verifies the loop that collects the
//! frames.

use vstd::prelude::*;

use crate::frame::Frame;
use crate::project::Error;

verus! {

/// The RGBA frame buffers that decoding `bytes` yields, in encoded order.
/// This is the sequence of frames the `gif` crate hands out before it stops,
/// a function of the bytes alone.
pub uninterp spec fn gif_frames(bytes: Seq<u8>) -> Seq<Seq<u8>>;

/// Whether `bytes` is a well-formed container that decodes to the end: the
/// header parses and, after the frames of `gif_frames(bytes)`, the stream
/// ends cleanly rather than in a decoding error.
pub uninterp spec fn gif_valid(bytes: Seq<u8>) -> bool;

/// The `gif` crate's streaming decoder, reading from an in-memory byte
/// buffer. Opaque to the verifier; what it yields is named by
/// `decoder_frames` and `decoder_clean`.
#[verifier::external_body]
pub struct FrameDecoder {
    inner: gif::Decoder<std::io::Cursor<Vec<u8>>>,
}

/// The RGBA frame buffers that `d` has yet to yield, in order.
pub uninterp spec fn decoder_frames(d: FrameDecoder) -> Seq<Seq<u8>>;

/// Whether the part of the stream that `d` has yet to read ends cleanly
/// (no frame left undecodable) after the frames of `decoder_frames(d)`.
pub uninterp spec fn decoder_clean(d: FrameDecoder) -> bool;

/// The `gif` crate's error type, carried opaquely out of the trusted calls
/// and mapped to the library's own `Error` in verified code.
#[verifier::external_type_specification]
#[verifier::external_body]
pub struct ExDecodingError(gif::DecodingError);

/// Relies on `gif::DecodeOptions::{new, set_color_output}` and
/// `gif::DecodeOptions::read_info`: reading the logical screen descriptor
/// either yields a decoder positioned before the first frame, configured to
/// emit RGBA output, or fails on a malformed header. Over a cursor on a fixed
/// byte buffer the outcome is a function of the bytes alone.
#[verifier::external_body]
fn open_decoder(bytes: &Vec<u8>) -> (r: Result<FrameDecoder, gif::DecodingError>)
    ensures
        (match r {
            Ok(d) => decoder_frames(d) == gif_frames(bytes@) && (decoder_clean(d) <==> gif_valid(
                bytes@,
            )),
            Err(_) => !gif_valid(bytes@),
        }),
{
    let mut options = gif::DecodeOptions::new();
    options.set_color_output(gif::ColorOutput::RGBA);
    match options.read_info(std::io::Cursor::new(bytes.clone())) {
        Ok(inner) => Ok(FrameDecoder { inner }),
        Err(e) => Err(e),
    }
}

/// Relies on `gif::Decoder::read_next_frame`: while frames remain it decodes
/// the next one in stream order, at the end of the stream it returns `None`,
/// and on a malformed frame it returns the decoding error. The returned
/// buffer is the frame's RGBA pixel data.
#[verifier::external_body]
fn read_frame(d: &mut FrameDecoder) -> (r: Result<Option<Vec<u8>>, gif::DecodingError>)
    ensures
        decoder_frames(*old(d)).len() > 0 ==> (match r {
            Ok(Some(buf)) => buf@ == decoder_frames(*old(d))[0] && decoder_frames(*final(d))
                == decoder_frames(*old(d)).drop_first() && (decoder_clean(*final(d))
                <==> decoder_clean(*old(d))),
            _ => false,
        }),
        decoder_frames(*old(d)).len() == 0 ==> (match r {
            Ok(buf) => buf is None && decoder_clean(*old(d)),
            Err(_) => !decoder_clean(*old(d)),
        }),
{
    match d.inner.read_next_frame() {
        Ok(Some(frame)) => Ok(Some(frame.buffer.to_vec())),
        Ok(None) => Ok(None),
        Err(e) => Err(e),
    }
}

/// The pixel buffers of a frame sequence, frame by frame.
pub open spec fn frame_views(frames: Seq<Frame>) -> Seq<Seq<u8>> {
    frames.map_values(|f: Frame| f@)
}

/// Decode a byte buffer into its full frame sequence.
///
/// Succeeds exactly on well-formed containers and then returns every encoded
/// frame in encoded order; any malformed input is reported as a decoding
/// error.
pub fn decode_frames(bytes: &Vec<u8>) -> (r: Result<Vec<Frame>, Error>)
    ensures
        (match r {
            Ok(frames) => gif_valid(bytes@) && frame_views(frames@) == gif_frames(bytes@),
            Err(e) => e == Error::DecodingError && !gif_valid(bytes@),
        }),
{
    let mut decoder = match open_decoder(bytes) {
        Ok(d) => d,
        Err(_) => {
            return Err(Error::DecodingError);
        },
    };
    let mut frames: Vec<Frame> = Vec::new();
    proof {
        assert(frame_views(frames@) + decoder_frames(decoder) =~= gif_frames(bytes@));
    }
    loop
        invariant
            frame_views(frames@) + decoder_frames(decoder) == gif_frames(bytes@),
            decoder_clean(decoder) <==> gif_valid(bytes@),
        decreases decoder_frames(decoder).len(),
    {
        match read_frame(&mut decoder) {
            Ok(Some(buf)) => {
                frames.push(Frame { data: buf });
                proof {
                    assert(frame_views(frames@) + decoder_frames(decoder) =~= gif_frames(bytes@));
                }
            },
            Ok(None) => {
                proof {
                    assert(frame_views(frames@) =~= gif_frames(bytes@));
                }
                return Ok(frames);
            },
            Err(_) => {
                return Err(Error::DecodingError);
            },
        }
    }
}

} // verus!
