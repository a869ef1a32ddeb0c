//! Tests of the frame-decoding pipeline against real GIF byte streams.

use gifhacker::decode::decode_frames;
use gifhacker::project::Error;
use gifhacker::project::GifProject;

/// Encode a 1x1-pixel GIF with one frame per given RGBA color.
fn encode_gif(colors: &[[u8; 4]]) -> Vec<u8> {
    let mut out: Vec<u8> = Vec::new();
    {
        let mut encoder = gif::Encoder::new(&mut out, 1, 1, &[]).unwrap();
        for color in colors {
            let mut pixels = color.to_vec();
            let frame = gif::Frame::from_rgba(1, 1, &mut pixels);
            encoder.write_frame(&frame).unwrap();
        }
    }
    out
}

const RED: [u8; 4] = [255, 0, 0, 255];
const GREEN: [u8; 4] = [0, 255, 0, 255];
const BLUE: [u8; 4] = [0, 0, 255, 255];

#[test]
fn decode_three_frames_in_order() {
    let bytes = encode_gif(&[RED, GREEN, BLUE]);
    let frames = decode_frames(&bytes).unwrap();
    assert_eq!(frames.len(), 3);
    assert_eq!(frames[0].data, RED.to_vec());
    assert_eq!(frames[1].data, GREEN.to_vec());
    assert_eq!(frames[2].data, BLUE.to_vec());
}

#[test]
fn decode_single_frame() {
    let bytes = encode_gif(&[GREEN]);
    let frames = decode_frames(&bytes).unwrap();
    assert_eq!(frames.len(), 1);
    assert_eq!(frames[0].data, GREEN.to_vec());
}

#[test]
fn decode_rejects_stream_ending_at_the_header() {
    // With nothing after the logical screen descriptor and trailer, the
    // decoder reports the missing image data while reading the header.
    let bytes = encode_gif(&[]);
    assert!(matches!(decode_frames(&bytes), Err(Error::DecodingError)));
}

#[test]
fn decode_zero_frames() {
    // A frameless container is readable when a byte follows the trailer.
    let mut bytes = encode_gif(&[]);
    bytes.push(0x3b);
    let frames = decode_frames(&bytes).unwrap();
    assert_eq!(frames.len(), 0);
}

#[test]
fn decode_rejects_garbage() {
    let bytes: Vec<u8> = b"this is not an animated image".to_vec();
    assert!(matches!(decode_frames(&bytes), Err(Error::DecodingError)));
}

#[test]
fn decode_rejects_empty_buffer() {
    let bytes: Vec<u8> = Vec::new();
    assert!(matches!(decode_frames(&bytes), Err(Error::DecodingError)));
}

#[test]
fn decode_rejects_truncated_stream() {
    let mut bytes = encode_gif(&[RED, GREEN, BLUE]);
    let cut = bytes.len() / 2;
    bytes.truncate(cut);
    assert!(matches!(decode_frames(&bytes), Err(Error::DecodingError)));
}

#[test]
fn load_maps_transport_failure_to_request_error() {
    assert!(matches!(GifProject::load(None), Err(Error::RequestError)));
}

#[test]
fn load_maps_garbage_to_decoding_error() {
    let bytes: Vec<u8> = vec![0x47, 0x49, 0x46, 0x38];
    assert!(matches!(GifProject::load(Some(bytes)), Err(Error::DecodingError)));
}

#[test]
fn load_rejects_container_without_frames() {
    let mut bytes = encode_gif(&[]);
    bytes.push(0x3b);
    assert!(matches!(GifProject::load(Some(bytes)), Err(Error::EmptyProject)));
}

#[test]
fn load_builds_editing_state_with_cursor_on_first_frame() {
    let bytes = encode_gif(&[RED, GREEN]);
    let project = GifProject::load(Some(bytes)).unwrap();
    match &project {
        GifProject::Editing { frames, current } => {
            assert_eq!(*current, 0);
            assert_eq!(frames.len(), 2);
            assert_eq!(frames[0].data, RED.to_vec());
            assert_eq!(frames[1].data, GREEN.to_vec());
        }
        _ => panic!("expected an editing state"),
    }
}
