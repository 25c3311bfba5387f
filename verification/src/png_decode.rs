//! PNG bytes to a frame (diagnostics and fixtures; the live path fills
//! frames from the desktop). The `png` crate reads the header and decodes
//! the first frame to 8 bits per sample; the library refuses an empty or
//! animated image and turns the decoder's output into an RGBA8 frame at the
//! screen origin.
use vstd::prelude::*;
use vstd::string::*;

use crate::frame::{expand_to_rgba, expanded_byte, kind_name, kind_samples, ColorKind, Frame, FrameError, FrameView, Point};

verus! {

/// Why a decoded header is refused, if it is.
pub open spec fn header_problem(width: u32, height: u32, animated: bool) -> Option<Seq<char>> {
    if width == 0 || height == 0 {
        Some("zero-sized image"@)
    } else if animated {
        Some("animated PNG frames are not supported"@)
    } else {
        None
    }
}

/// Refuses an empty image and an animated one.
pub fn check_header(width: u32, height: u32, animated: bool) -> (r: Result<(), FrameError>)
    ensures
        match (r, header_problem(width, height, animated)) {
            (Ok(()), None) => true,
            (Err(FrameError::Unsupported(d)), Some(t)) => d@ == t,
            _ => false,
        },
{
    if width == 0 || height == 0 {
        return Err(FrameError::Unsupported(String::from_str("zero-sized image")));
    }
    if animated {
        return Err(FrameError::Unsupported(String::from_str("animated PNG frames are not supported")));
    }
    Ok(())
}

/// The RGBA8 bytes of a decoded buffer: RGBA as is, other layouts padded
/// pixel by pixel.
pub open spec fn expanded(buffer: Seq<u8>, kind: ColorKind) -> Seq<u8> {
    if kind == ColorKind::Rgba {
        buffer
    } else {
        Seq::new(
            ((buffer.len() as int / kind_samples(kind) as int) * 4) as nat,
            |j: int| expanded_byte(buffer, kind, j),
        )
    }
}

/// What [`frame_from_decoded`] answers for a decoded buffer of `width` ×
/// `height` pixels: an indexed buffer is refused, so is a buffer whose RGBA8
/// expansion is not exactly four bytes per pixel; otherwise the frame at the
/// screen origin.
pub open spec fn decoded_frame_result(
    buffer: Seq<u8>,
    kind: ColorKind,
    width: u32,
    height: u32,
    r: Result<Frame, FrameError>,
) -> bool {
    if kind == ColorKind::Indexed {
        r matches Err(FrameError::Unsupported(d)) && d@ == "colour type "@ + kind_name(kind)
            + " is not supported"@
    } else {
        let rgba = expanded(buffer, kind);
        if width > 0 && height > 0 && rgba.len() == width * height * 4 {
            r matches Ok(f) && f@ == (FrameView {
                width: width as nat,
                height: height as nat,
                origin: Point { x: 0, y: 0 },
                rgba,
            })
        } else {
            r matches Err(FrameError::Unsupported(d)) && d@ == "unexpected pixel buffer size"@
        }
    }
}

/// The frame of a decoded image of `width` × `height` pixels at the screen
/// origin: the buffer expanded to RGBA8. An indexed buffer is refused, and so
/// is a buffer whose expansion is not exactly four bytes per pixel.
pub fn frame_from_decoded(buffer: &[u8], kind: ColorKind, line_size: usize, width: u32, height: u32) -> (r: Result<
    Frame,
    FrameError,
>)
    ensures
        decoded_frame_result(buffer@, kind, width, height, r),
{
    let rgba = match expand_to_rgba(buffer, kind, line_size) {
        Ok(bytes) => bytes,
        Err(e) => return Err(e),
    };
    proof {
        if kind != ColorKind::Indexed {
            assert(rgba@ =~= expanded(buffer@, kind));
        }
    }
    match Frame::new(width, height, Point::new(0, 0), rgba) {
        Some(frame) => Ok(frame),
        None => Err(FrameError::Unsupported(String::from_str("unexpected pixel buffer size"))),
    }
}

/// The header fields that decide whether a PNG is decoded at all.
#[derive(Clone, Copy, Debug, PartialEq, Eq, Structural)]
pub struct PngHeader {
    pub width: u32,
    pub height: u32,
    /// The image carries an animation control chunk.
    pub animated: bool,
}

/// The first frame of a PNG, decoded to 8 bits per sample.
#[derive(Clone, Debug)]
pub struct DecodedPng {
    pub buffer: Vec<u8>,
    /// The PNG colour type code of the output: 0 grayscale, 2 RGB,
    /// 3 indexed, 4 grayscale with alpha, 6 RGBA.
    pub color_type: u8,
    pub line_size: usize,
    pub width: u32,
    pub height: u32,
}

/// What a [`DecodedPng`] holds.
pub ghost struct DecodedPngView {
    pub buffer: Seq<u8>,
    pub color_type: u8,
    pub line_size: usize,
    pub width: u32,
    pub height: u32,
}

impl View for DecodedPng {
    type V = DecodedPngView;

    open spec fn view(&self) -> DecodedPngView {
        DecodedPngView {
            buffer: self.buffer@,
            color_type: self.color_type,
            line_size: self.line_size,
            width: self.width,
            height: self.height,
        }
    }
}

/// The layout of a PNG colour type code, if the code is one.
pub open spec fn kind_of_code(code: u8) -> Option<ColorKind> {
    if code == 0 {
        Some(ColorKind::Grayscale)
    } else if code == 2 {
        Some(ColorKind::Rgb)
    } else if code == 3 {
        Some(ColorKind::Indexed)
    } else if code == 4 {
        Some(ColorKind::GrayscaleAlpha)
    } else if code == 6 {
        Some(ColorKind::Rgba)
    } else {
        None
    }
}

/// The layout of a PNG colour type code.
pub fn color_kind_from_code(code: u8) -> (kind: Option<ColorKind>)
    ensures
        kind == kind_of_code(code),
{
    match code {
        0 => Some(ColorKind::Grayscale),
        2 => Some(ColorKind::Rgb),
        3 => Some(ColorKind::Indexed),
        4 => Some(ColorKind::GrayscaleAlpha),
        6 => Some(ColorKind::Rgba),
        _ => None,
    }
}

/// What the `png` crate reads from the header of `bytes`: the header fields,
/// or the text of its decoding error.
pub uninterp spec fn png_header(bytes: Seq<u8>) -> Result<PngHeader, Seq<char>>;

/// What the `png` crate decodes from `bytes` with the 8-bit normalising
/// transformations: the first frame, `Err(None)` where it gives no output
/// buffer size (the size does not fit in `usize` on the target), or
/// `Err(Some(text))` for its decoding error.
pub uninterp spec fn png_decoded(bytes: Seq<u8>) -> Result<DecodedPngView, Option<Seq<char>>>;

/// `r` by its view.
pub open spec fn header_result_view(r: Result<PngHeader, String>) -> Result<PngHeader, Seq<char>> {
    match r {
        Ok(h) => Ok(h),
        Err(m) => Err(m@),
    }
}

/// `r` by its view.
pub open spec fn decoded_result_view(r: Result<DecodedPng, Option<String>>) -> Result<
    DecodedPngView,
    Option<Seq<char>>,
> {
    match r {
        Ok(d) => Ok(d@),
        Err(None) => Err(None),
        Err(Some(m)) => Err(Some(m@)),
    }
}

/// Reads the header of a PNG with `png::Decoder::read_info` (after
/// `set_transformations(normalize_to_color8())`) and hands back `Info`'s
/// width, height and whether it has an animation control chunk. The
/// contract only names the answer: it is a function of the bytes alone.
#[verifier::external_body]
fn read_png_header(bytes: &[u8]) -> (r: Result<PngHeader, String>)
    ensures
        header_result_view(r) == png_header(bytes@),
{
    let mut decoder = png::Decoder::new(std::io::Cursor::new(bytes));
    decoder.set_transformations(png::Transformations::normalize_to_color8());
    let reader = decoder.read_info().map_err(|error| error.to_string())?;
    let info = reader.info();
    Ok(PngHeader { width: info.width, height: info.height, animated: info.animation_control.is_some() })
}

/// Decodes the first frame of a PNG with `png::Decoder::read_info`,
/// `Reader::output_buffer_size` and `Reader::next_frame` (after
/// `set_transformations(normalize_to_color8())`). The contract names the
/// answer, a function of the bytes alone, and states what `png::ColorType`
/// shows: its codes are 0, 2, 3, 4 and 6.
#[verifier::external_body]
fn decode_png(bytes: &[u8]) -> (r: Result<DecodedPng, Option<String>>)
    ensures
        decoded_result_view(r) == png_decoded(bytes@),
        r matches Ok(d) ==> kind_of_code(d.color_type) is Some,
{
    let mut decoder = png::Decoder::new(std::io::Cursor::new(bytes));
    decoder.set_transformations(png::Transformations::normalize_to_color8());
    let mut reader = decoder.read_info().map_err(|error| Some(error.to_string()))?;
    let mut buffer = vec![0u8; reader.output_buffer_size().ok_or(None)?];
    let out = reader.next_frame(&mut buffer).map_err(|error| Some(error.to_string()))?;
    let (line_size, width, height) = (out.line_size, out.width, out.height);
    Ok(DecodedPng { buffer, color_type: out.color_type as u8, line_size, width, height })
}

/// What [`frame_from_decode_result`] answers for the decoder's answer
/// `decoded`.
pub open spec fn decode_result_frame(
    decoded: Result<DecodedPngView, Option<Seq<char>>>,
    r: Result<Frame, FrameError>,
) -> bool {
    match decoded {
        Err(None) => r matches Err(FrameError::Unsupported(d)) && d@ == "image too large"@,
        Err(Some(m)) => r matches Err(FrameError::Decode(d)) && d@ == m,
        Ok(d) => decoded_frame_result(
            d.buffer,
            kind_of_code(d.color_type).unwrap(),
            d.width,
            d.height,
            r,
        ),
    }
}

/// The frame for the decoder's answer: no output buffer size means the image
/// is too large, a decoding error is passed on, and a decoded frame is
/// expanded to RGBA8.
pub fn frame_from_decode_result(decoded: Result<DecodedPng, Option<String>>) -> (r: Result<
    Frame,
    FrameError,
>)
    requires
        decoded matches Ok(d) ==> kind_of_code(d.color_type) is Some,
    ensures
        decode_result_frame(decoded_result_view(decoded), r),
{
    match decoded {
        Err(None) => Err(FrameError::Unsupported(String::from_str("image too large"))),
        Err(Some(m)) => Err(FrameError::Decode(m)),
        Ok(d) => {
            let kind = color_kind_from_code(d.color_type).unwrap();
            frame_from_decoded(d.buffer.as_slice(), kind, d.line_size, d.width, d.height)
        },
    }
}

/// What [`frame_from_png_bytes`] answers for `bytes`, given what the decoder
/// reads from them.
pub open spec fn png_bytes_frame(bytes: Seq<u8>, r: Result<Frame, FrameError>) -> bool {
    match png_header(bytes) {
        Err(m) => r matches Err(FrameError::Decode(d)) && d@ == m,
        Ok(h) => match header_problem(h.width, h.height, h.animated) {
            Some(t) => r matches Err(FrameError::Unsupported(d)) && d@ == t,
            None => decode_result_frame(png_decoded(bytes), r),
        },
    }
}

/// Decodes PNG bytes into a frame whose origin is `(0, 0)`: a header the
/// decoder cannot read is a decoding error, an empty or animated image is
/// refused before any pixel is decoded, and the first frame is then decoded
/// and expanded to RGBA8.
pub fn frame_from_png_bytes(bytes: &[u8]) -> (r: Result<Frame, FrameError>)
    ensures
        png_bytes_frame(bytes@, r),
{
    let header = match read_png_header(bytes) {
        Ok(header) => header,
        Err(m) => return Err(FrameError::Decode(m)),
    };
    match check_header(header.width, header.height, header.animated) {
        Ok(()) => {},
        Err(e) => return Err(e),
    }
    frame_from_decode_result(decode_png(bytes))
}

} // verus!
