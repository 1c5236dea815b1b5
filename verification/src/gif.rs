//! Decoding an animated GIF into raster frames.
//!
//! The decoding itself is the `image` crate's; this module fixes what is
//! handed to it, what is taken from it, and when a decoded stream is usable.

use image::codecs::gif::GifDecoder;
use image::AnimationDecoder;
use image::ImageError;
use std::io::Cursor;
use vstd::prelude::*;

verus! {

/// How the bytes of a raster frame are to be read.
#[derive(Clone, Copy, Debug, PartialEq, Eq, Structural)]
pub enum PixelFormat {
    /// Four bytes per pixel, red, green, blue and alpha, in the standard
    /// non-linear sRGB encoding.
    Rgba8UnormSrgb,
}

/// A fully decoded image.
#[derive(Debug)]
pub struct RasterFrame {
    /// The number of pixels in a row.
    pub width: u32,
    /// The number of rows.
    pub height: u32,
    /// How `data` is to be read.
    pub format: PixelFormat,
    /// The pixels, row by row.
    pub data: Vec<u8>,
}

/// What a raster frame holds, as plain values.
pub struct RasterImage {
    pub width: nat,
    pub height: nat,
    pub format: PixelFormat,
    pub pixels: Seq<u8>,
}

impl View for RasterFrame {
    type V = RasterImage;

    open spec fn view(&self) -> RasterImage {
        RasterImage {
            width: self.width as nat,
            height: self.height as nat,
            format: self.format,
            pixels: self.data@,
        }
    }
}

impl DeepView for RasterFrame {
    type V = RasterImage;

    open spec fn deep_view(&self) -> RasterImage {
        self@
    }
}

/// The `image` crate's error type, carried through unopened.
#[verifier::external_type_specification]
#[verifier::external_body]
pub struct ExImageError(ImageError);

/// What the `image` crate's GIF decoder makes of a byte stream: for each
/// frame of the stream, in stream order, the width, the height and the
/// RGBA bytes of the canvas after that frame; or `None` where the decoder
/// reports an error for the header or for any frame.
pub uninterp spec fn gif_frames(bytes: Seq<u8>) -> Option<Seq<(u32, u32, Seq<u8>)>>;

/// Runs `image::codecs::gif::GifDecoder::new` on the bytes and collects the
/// decoder's frames with `into_frames().collect_frames()`; each frame is
/// handed on as its buffer's width, height and raw bytes. The decoder's
/// answer depends on the bytes alone; the contract gives it the name
/// `gif_frames` and claims nothing else of it.
#[verifier::external_body]
fn read_gif_frames(bytes: &[u8]) -> (r: Result<Vec<(u32, u32, Vec<u8>)>, ImageError>)
    ensures
        gif_frames(bytes@) == match r {
            Ok(buffers) => Some(buffers.deep_view()),
            Err(_) => None,
        },
{
    let decoder = GifDecoder::new(Cursor::new(bytes))?;
    let frames = decoder.into_frames().collect_frames()?;
    Ok(frames.into_iter().map(|frame| {
        let buffer = frame.into_buffer();
        (buffer.width(), buffer.height(), buffer.into_raw())
    }).collect())
}

/// The raster image that a decoded RGBA buffer stands for.
pub open spec fn rgba_image(buffer: (u32, u32, Seq<u8>)) -> RasterImage {
    RasterImage {
        width: buffer.0 as nat,
        height: buffer.1 as nat,
        format: PixelFormat::Rgba8UnormSrgb,
        pixels: buffer.2,
    }
}

/// The frames of a decoded stream that can be played: all of them, as RGBA
/// images in stream order, unless decoding failed or the stream holds no
/// frame.
pub open spec fn usable_frames(decoded: Option<Seq<(u32, u32, Seq<u8>)>>) -> Option<
    Seq<RasterImage>,
> {
    match decoded {
        Some(buffers) => if buffers.len() > 0 {
            Some(buffers.map_values(|buffer: (u32, u32, Seq<u8>)| rgba_image(buffer)))
        } else {
            None
        },
        None => None,
    }
}

/// What a decoder's answer is as plain values: its buffers, or `None` for
/// an error.
pub open spec fn decoded_view(decoded: Result<Vec<(u32, u32, Vec<u8>)>, ImageError>) -> Option<
    Seq<(u32, u32, Seq<u8>)>,
> {
    match decoded {
        Ok(buffers) => Some(buffers.deep_view()),
        Err(_) => None,
    }
}

/// Turns decoded RGBA buffers into raster frames, one for one and in order.
pub fn rgba_frames(buffers: Vec<(u32, u32, Vec<u8>)>) -> (frames: Vec<RasterFrame>)
    ensures
        frames.deep_view() == buffers.deep_view().map_values(
            |buffer: (u32, u32, Seq<u8>)| rgba_image(buffer),
        ),
{
    let ghost all = buffers.deep_view();
    let mut frames: Vec<RasterFrame> = Vec::new();
    for buffer in it: buffers.into_iter()
        invariant
            it.seq() == buffers@,
            frames.len() == it.index(),
            forall|j: int|
                0 <= j < frames.len() ==> (#[trigger] frames@[j])@ == rgba_image(
                    buffers@[j].deep_view(),
                ),
    {
        let (width, height, data) = buffer;
        assert(data.deep_view() =~= data@);
        frames.push(RasterFrame { width, height, format: PixelFormat::Rgba8UnormSrgb, data });
    }
    assert(frames.deep_view() =~= all.map_values(|buffer: (u32, u32, Seq<u8>)| rgba_image(buffer)));
    frames
}

/// Keeps the frames of a decoded stream if there is at least one, in their
/// order; an error of the decoder and a stream without frames both give
/// `None`.
pub fn playable_frames(decoded: Result<Vec<(u32, u32, Vec<u8>)>, ImageError>) -> (r: Option<
    Vec<RasterFrame>,
>)
    ensures
        r.deep_view() == usable_frames(decoded_view(decoded)),
{
    match decoded {
        Ok(buffers) => if buffers.len() > 0 {
            Some(rgba_frames(buffers))
        } else {
            None
        },
        Err(_) => None,
    }
}

/// Decodes the bytes of an animated GIF into its frames, in stream order.
///
/// Decoding is all or nothing: if the bytes are no GIF, if any frame fails
/// to decode, or if the stream holds no frame, the result is `None` and no
/// partial sequence is returned.
pub fn decode_gif_to_images(bytes: &[u8]) -> (r: Option<Vec<RasterFrame>>)
    ensures
        r.deep_view() == usable_frames(gif_frames(bytes@)),
{
    playable_frames(read_gif_frames(bytes))
}

} // verus!
