use frame_animation::gif::{decode_gif_to_images, playable_frames, rgba_frames, PixelFormat};
use image::codecs::gif::GifEncoder;
use image::{Frame, ImageError, Rgba, RgbaImage};

fn solid(width: u32, height: u32, colour: [u8; 4]) -> Frame {
    Frame::new(RgbaImage::from_pixel(width, height, Rgba(colour)))
}

fn encode(frames: Vec<Frame>) -> Vec<u8> {
    let mut bytes = Vec::new();
    {
        let mut encoder = GifEncoder::new(&mut bytes);
        encoder.encode_frames(frames).expect("encoding");
    }
    bytes
}

fn repeated(colour: [u8; 4], pixels: usize) -> Vec<u8> {
    let mut data = Vec::new();
    for _ in 0..pixels {
        data.extend_from_slice(&colour);
    }
    data
}

const RED: [u8; 4] = [255, 0, 0, 255];
const GREEN: [u8; 4] = [0, 255, 0, 255];
const BLUE: [u8; 4] = [0, 0, 255, 255];

#[test]
fn decodes_every_frame_in_stream_order() {
    let bytes = encode(vec![solid(3, 2, RED), solid(3, 2, GREEN), solid(3, 2, BLUE)]);
    let frames = decode_gif_to_images(&bytes).expect("three frames");
    assert_eq!(frames.len(), 3);
    assert_eq!(frames[0].data, repeated(RED, 6));
    assert_eq!(frames[1].data, repeated(GREEN, 6));
    assert_eq!(frames[2].data, repeated(BLUE, 6));
}

#[test]
fn decoded_frames_have_the_declared_size() {
    let bytes = encode(vec![solid(5, 4, RED), solid(5, 4, BLUE)]);
    let frames = decode_gif_to_images(&bytes).expect("two frames");
    assert_eq!(frames.len(), 2);
    for frame in &frames {
        assert_eq!(frame.width, 5);
        assert_eq!(frame.height, 4);
        assert_eq!(frame.format, PixelFormat::Rgba8UnormSrgb);
        assert_eq!(frame.data.len(), 5 * 4 * 4);
    }
}

#[test]
fn decodes_a_single_frame() {
    let bytes = encode(vec![solid(1, 1, GREEN)]);
    let frames = decode_gif_to_images(&bytes).expect("one frame");
    assert_eq!(frames.len(), 1);
    assert_eq!(frames[0].width, 1);
    assert_eq!(frames[0].height, 1);
    assert_eq!(frames[0].data, vec![0, 255, 0, 255]);
}

#[test]
fn decodes_many_frames() {
    let mut input = Vec::new();
    for i in 0..40u8 {
        input.push(solid(2, 2, [i, 2 * i, 255 - i, 255]));
    }
    let frames = decode_gif_to_images(&encode(input)).expect("forty frames");
    assert_eq!(frames.len(), 40);
    for (i, frame) in frames.iter().enumerate() {
        let i = i as u8;
        assert_eq!(frame.data, repeated([i, 2 * i, 255 - i, 255], 4));
    }
}

#[test]
fn bytes_that_are_no_gif_give_nothing() {
    assert!(decode_gif_to_images(&[]).is_none());
    assert!(decode_gif_to_images(b"not a gif at all").is_none());
    assert!(decode_gif_to_images(b"\x89PNG\r\n\x1a\n").is_none());
    assert!(decode_gif_to_images(b"GIF").is_none());
}

#[test]
fn a_stream_broken_in_a_later_frame_gives_nothing() {
    let bytes = encode(vec![solid(8, 8, RED), solid(8, 8, GREEN), solid(8, 8, BLUE)]);
    assert!(decode_gif_to_images(&bytes).is_some());
    let cut = &bytes[..bytes.len() - 12];
    assert!(decode_gif_to_images(cut).is_none());
}

#[test]
fn a_stream_without_frames_gives_nothing() {
    let header_only: Vec<u8> = vec![
        b'G', b'I', b'F', b'8', b'9', b'a', 1, 0, 1, 0, 0, 0, 0, 0x3b,
    ];
    assert!(decode_gif_to_images(&header_only).is_none());
}

#[test]
fn turns_buffers_into_rgba_frames_in_order() {
    let frames = rgba_frames(vec![(2, 1, vec![1, 2, 3, 4, 5, 6, 7, 8]), (1, 1, vec![9, 9, 9, 9])]);
    assert_eq!(frames.len(), 2);
    assert_eq!((frames[0].width, frames[0].height), (2, 1));
    assert_eq!(frames[0].format, PixelFormat::Rgba8UnormSrgb);
    assert_eq!(frames[0].data, vec![1, 2, 3, 4, 5, 6, 7, 8]);
    assert_eq!((frames[1].width, frames[1].height), (1, 1));
    assert_eq!(frames[1].format, PixelFormat::Rgba8UnormSrgb);
    assert_eq!(frames[1].data, vec![9, 9, 9, 9]);
    assert!(rgba_frames(Vec::new()).is_empty());
}

#[test]
fn keeps_a_decoded_stream_with_frames() {
    let buffers = vec![(1, 1, vec![1, 2, 3, 4]), (1, 1, vec![5, 6, 7, 8])];
    let kept = playable_frames(Ok(buffers)).expect("kept");
    assert_eq!(kept.len(), 2);
    assert_eq!(kept[0].data, vec![1, 2, 3, 4]);
    assert_eq!(kept[1].data, vec![5, 6, 7, 8]);
}

#[test]
fn drops_an_empty_or_failed_decoding() {
    assert!(playable_frames(Ok(Vec::new())).is_none());
    let failure = ImageError::IoError(std::io::Error::new(std::io::ErrorKind::UnexpectedEof, "cut"));
    assert!(playable_frames(Err(failure)).is_none());
}
