//! The static tray icon, decoded from a PNG file.
//!
//! Decoding is left to the `png` crate. What it gives for a file and a buffer
//! is named by `png_buffer_size` and `png_frame`; everything done with it here
//! is proved.

use vstd::prelude::*;

use crate::icon::create_workspace_icon;
use crate::icon::icon_bytes;
use crate::icon::IconImage;
use crate::icon::WORKSPACE_ICON_SIZE;
use crate::tray_error::TrayError;

verus! {

/// How the samples of a decoded frame are to be read.
#[derive(Clone, Copy, Debug, PartialEq, Eq, Structural)]
pub enum ColorKind {
    Grayscale,
    Rgb,
    Indexed,
    GrayscaleAlpha,
    Rgba,
}

/// A decoded frame.
#[derive(Debug)]
pub struct PngFrame {
    /// The buffer it was decoded into.
    pub buffer: Vec<u8>,
    /// How much of the buffer the frame takes up.
    pub buffer_size: usize,
    pub width: u32,
    pub height: u32,
    pub color: ColorKind,
}

/// The mathematical content of a `PngFrame`.
#[verifier::ext_equal]
pub struct Frame {
    pub buffer: Seq<u8>,
    pub buffer_size: usize,
    pub width: u32,
    pub height: u32,
    pub color: ColorKind,
}

impl View for PngFrame {
    type V = Frame;

    open spec fn view(&self) -> Frame {
        Frame {
            buffer: self.buffer@,
            buffer_size: self.buffer_size,
            width: self.width,
            height: self.height,
            color: self.color,
        }
    }
}

/// The number of bytes that the frames of a PNG file need, `None` if they do
/// not fit into an address space whose largest address is `address_max`, or
/// what is wrong with the file.
pub uninterp spec fn png_buffer_size(file: Seq<u8>, address_max: nat) -> Result<
    Option<usize>,
    Seq<char>,
>;

/// The first frame of a PNG file decoded into a buffer, or what is wrong with
/// the file or the buffer.
pub uninterp spec fn png_frame(file: Seq<u8>, buffer: Seq<u8>, address_max: nat) -> Result<
    Frame,
    Seq<char>,
>;

/// The content of the outcome of reading a header.
pub open spec fn size_view(r: Result<Option<usize>, String>) -> Result<Option<usize>, Seq<char>> {
    match r {
        Ok(size) => Ok(size),
        Err(error) => Err(error@),
    }
}

/// The content of the outcome of decoding a frame.
pub open spec fn frame_view(r: Result<PngFrame, String>) -> Result<Frame, Seq<char>> {
    match r {
        Ok(frame) => Ok(frame@),
        Err(error) => Err(error@),
    }
}

/// `png::Reader::output_buffer_size`, on the reader that
/// `png::Decoder::read_info` gives for a file held in memory.
///
/// Claimed: the outcome, the text of the error included, is a function of the
/// file and of the width of an address; and a size is one that a vector can
/// have, as the documentation of `output_buffer_size` says.
#[verifier::external_body]
fn read_buffer_size(file: &[u8]) -> (r: Result<Option<usize>, String>)
    ensures
        size_view(r) == png_buffer_size(file@, usize::MAX as nat),
        r matches Ok(Some(size)) ==> size <= isize::MAX,
{
    let decoder = png::Decoder::new(std::io::Cursor::new(file));
    match decoder.read_info() {
        Ok(reader) => Ok(reader.output_buffer_size()),
        Err(error) => Err(error.to_string()),
    }
}

/// `png::Reader::next_frame`, on the reader that `png::Decoder::read_info`
/// gives for a file held in memory.
///
/// Claimed: the outcome, the text of the error included, is a function of the
/// file, of the buffer that was passed in, and of the width of an address.
#[verifier::external_body]
fn read_frame(file: &[u8], mut buffer: Vec<u8>) -> (r: Result<PngFrame, String>)
    ensures
        frame_view(r) == png_frame(file@, buffer@, usize::MAX as nat),
{
    let decoder = png::Decoder::new(std::io::Cursor::new(file));
    let mut reader = decoder.read_info().map_err(|e| e.to_string())?;
    let info = reader.next_frame(&mut buffer).map_err(|e| e.to_string())?;
    let color = match info.color_type {
        png::ColorType::Grayscale => ColorKind::Grayscale,
        png::ColorType::Rgb => ColorKind::Rgb,
        png::ColorType::Indexed => ColorKind::Indexed,
        png::ColorType::GrayscaleAlpha => ColorKind::GrayscaleAlpha,
        png::ColorType::Rgba => ColorKind::Rgba,
    };
    let buffer_size: usize = info.buffer_size();
    Ok(PngFrame { buffer, buffer_size, width: info.width, height: info.height, color })
}

/// Every three bytes followed by a full alpha; a shorter rest likewise.
pub open spec fn with_alpha(rgb: Seq<u8>) -> Seq<u8>
    decreases rgb.len(),
{
    if rgb.len() == 0 {
        Seq::empty()
    } else if rgb.len() <= 3 {
        rgb.push(255u8)
    } else {
        rgb.take(3).push(255u8) + with_alpha(rgb.skip(3))
    }
}

/// The part of the buffer that a frame takes up.
pub open spec fn frame_bytes(frame: Frame) -> Seq<u8> {
    if frame.buffer_size <= frame.buffer.len() {
        frame.buffer.take(frame.buffer_size as int)
    } else {
        frame.buffer
    }
}

/// The bytes of the icon that a frame becomes.
pub open spec fn frame_rgba(frame: Frame) -> Seq<u8> {
    if frame.color is Rgb {
        with_alpha(frame_bytes(frame))
    } else {
        frame_bytes(frame)
    }
}

/// Insert a full alpha after every three bytes.
fn add_alpha(rgb: &Vec<u8>) -> (rgba: Vec<u8>)
    ensures
        rgba@ == with_alpha(rgb@),
{
    let mut rgba: Vec<u8> = Vec::new();
    let mut i: usize = 0;
    assert(rgb@.skip(0) =~= rgb@);
    while i < rgb.len()
        invariant
            i <= rgb@.len(),
            rgba@ + with_alpha(rgb@.skip(i as int)) =~= with_alpha(rgb@),
        decreases rgb.len() - i,
    {
        let ghost before = rgba@;
        let ghost rest = rgb@.skip(i as int);
        let end: usize = if rgb.len() - i <= 3 {
            rgb.len()
        } else {
            i + 3
        };
        let start: usize = i;
        while i < end
            invariant
                start <= i <= end <= rgb@.len(),
                rgba@ =~= before + rgb@.subrange(start as int, i as int),
            decreases end - i,
        {
            rgba.push(rgb[i]);
            i = i + 1;
        }
        rgba.push(255);
        proof {
            assert(rgb@.skip(end as int) =~= rest.skip(end - start));
            if rest.len() <= 3 {
                assert(rgb@.subrange(start as int, end as int) =~= rest);
                assert(with_alpha(rgb@.skip(end as int)) =~= Seq::<u8>::empty());
            } else {
                assert(rgb@.subrange(start as int, end as int) =~= rest.take(3));
            }
        }
    }
    assert(with_alpha(rgb@.skip(i as int)) =~= Seq::<u8>::empty());
    rgba
}

/// The icon that a decoded frame becomes: the bytes of the frame, with alpha
/// added if it has red, green and blue only.
pub fn icon_from_frame(frame: PngFrame) -> (icon: IconImage)
    ensures
        icon.rgba@ == frame_rgba(frame@),
        icon.width == frame.width,
        icon.height == frame.height,
{
    let mut bytes = frame.buffer;
    bytes.truncate(frame.buffer_size);
    let rgba = if matches!(frame.color, ColorKind::Rgb) {
        add_alpha(&bytes)
    } else {
        bytes
    };
    IconImage { rgba, width: frame.width, height: frame.height }
}

/// The buffer that the frames of a file are decoded into: as many zeros as
/// they need, or none if they do not fit.
pub open spec fn frame_buffer(size: Option<usize>) -> Seq<u8> {
    Seq::new(
        match size {
            Some(size) => size as nat,
            None => 0,
        },
        |i: int| 0u8,
    )
}

/// The outcome of decoding the static icon from a PNG file.
pub open spec fn is_default_icon(r: Result<IconImage, TrayError>, file: Seq<u8>) -> bool {
    match png_buffer_size(file, usize::MAX as nat) {
        Err(cause) => r matches Err(TrayError::Icon(text)) && text@ == "PNG decode error: "@
            + cause,
        Ok(size) => match png_frame(file, frame_buffer(size), usize::MAX as nat) {
            Err(cause) => r matches Err(TrayError::Icon(text)) && text@ == "PNG frame error: "@
                + cause,
            Ok(frame) => r matches Ok(icon) && icon.rgba@ == frame_rgba(frame) && icon.width
                == frame.width && icon.height == frame.height,
        },
    }
}

/// The static icon, decoded from a PNG file.
pub fn create_default_icon(png_bytes: &[u8]) -> (r: Result<IconImage, TrayError>)
    ensures
        is_default_icon(r, png_bytes@),
{
    let size = match read_buffer_size(png_bytes) {
        Ok(size) => size,
        Err(cause) => {
            let mut text = "PNG decode error: ".to_owned();
            text.append(cause.as_str());
            return Err(TrayError::Icon(text));
        },
    };
    let length: usize = match size {
        Some(size) => size,
        None => 0,
    };
    let buffer: Vec<u8> = vec![0u8; length];
    assert(buffer@ =~= frame_buffer(size));
    match read_frame(png_bytes, buffer) {
        Ok(frame) => Ok(icon_from_frame(frame)),
        Err(cause) => {
            let mut text = "PNG frame error: ".to_owned();
            text.append(cause.as_str());
            Err(TrayError::Icon(text))
        },
    }
}

/// The icon to start with: that of the workspace, or the static one where the
/// workspace has none.
pub fn initial_icon(workspace: u8, png_bytes: &[u8]) -> (r: Result<IconImage, TrayError>)
    ensures
        1 <= workspace <= 9 ==> (r matches Ok(icon) && icon.rgba@ == icon_bytes(workspace)
            && icon.width == WORKSPACE_ICON_SIZE && icon.height == WORKSPACE_ICON_SIZE),
        !(1 <= workspace <= 9) ==> is_default_icon(r, png_bytes@),
{
    match create_workspace_icon(workspace) {
        Ok(icon) => Ok(icon),
        Err(_) => create_default_icon(png_bytes),
    }
}

/// Adding alpha to whole pixels gives four bytes for every three, and keeps
/// every color.
pub proof fn law_alpha_keeps_colors(rgb: Seq<u8>, i: int, c: int)
    requires
        rgb.len() % 3 == 0,
        0 <= i,
        3 * i + 3 <= rgb.len(),
        0 <= c < 3,
    ensures
        3 * with_alpha(rgb).len() == 4 * rgb.len(),
        with_alpha(rgb)[4 * i + c] == rgb[3 * i + c],
        with_alpha(rgb)[4 * i + 3] == 255,
    decreases rgb.len(),
{
    lemma_alpha_length(rgb);
    if rgb.len() > 3 {
        lemma_alpha_length(rgb.skip(3));
        if i > 0 {
            law_alpha_keeps_colors(rgb.skip(3), i - 1, c);
        }
    }
}

proof fn lemma_alpha_length(rgb: Seq<u8>)
    requires
        rgb.len() % 3 == 0,
    ensures
        3 * with_alpha(rgb).len() == 4 * rgb.len(),
    decreases rgb.len(),
{
    if rgb.len() > 3 {
        lemma_alpha_length(rgb.skip(3));
    }
}

/// Adding alpha keeps every byte in order and puts a full alpha after every
/// third, and after the last if it is not a third.
pub proof fn law_alpha_follows_every_third_byte(rgb: Seq<u8>, i: int)
    requires
        0 <= i < rgb.len(),
    ensures
        with_alpha(rgb).len() == rgb.len() + (rgb.len() + 2) / 3,
        with_alpha(rgb)[i + i / 3] == rgb[i],
        i % 3 == 2 || i == rgb.len() - 1 ==> with_alpha(rgb)[i + i / 3 + 1] == 255,
    decreases rgb.len(),
{
    if rgb.len() > 3 {
        let rest = rgb.skip(3);
        if i < 3 {
            law_alpha_follows_every_third_byte(rest, 0);
        } else {
            law_alpha_follows_every_third_byte(rest, i - 3);
            assert((i - 3) / 3 == i / 3 - 1);
        }
    }
}

/// The bytes of a frame are the first of its buffer, as many as it takes up.
/// They are the icon, with alpha added exactly if the frame has red, green and
/// blue only.
pub proof fn law_a_frame_becomes_an_icon(frame: Frame, i: int)
    ensures
        !(frame.color is Rgb) ==> frame_rgba(frame).len() == if frame.buffer_size
            < frame.buffer.len() {
            frame.buffer_size as nat
        } else {
            frame.buffer.len()
        },
        !(frame.color is Rgb) && 0 <= i < frame_rgba(frame).len() ==> frame_rgba(frame)[i]
            == frame.buffer[i],
        frame.color is Rgb && frame.buffer_size == frame.buffer.len() ==> frame_rgba(frame)
            == with_alpha(frame.buffer),
        frame.color is Rgb && frame.buffer_size < frame.buffer.len() ==> frame_rgba(frame)
            == with_alpha(frame.buffer.take(frame.buffer_size as int)),
{
    assert(frame.buffer.take(frame.buffer.len() as int) =~= frame.buffer);
}

/// A file is decoded into as many zeros as it needs, and into none if that is
/// not known.
pub proof fn law_frames_are_decoded_into_zeros(size: usize, i: int)
    ensures
        frame_buffer(Some(size)).len() == size,
        0 <= i < size ==> frame_buffer(Some(size))[i] == 0,
        frame_buffer(None).len() == 0,
{
}

/// The static icon is what the decoder gives, and its failures say at which
/// step it failed.
pub proof fn law_the_static_icon_is_what_was_decoded(
    r: Result<IconImage, TrayError>,
    file: Seq<u8>,
)
    requires
        is_default_icon(r, file),
    ensures
        png_buffer_size(file, usize::MAX as nat) matches Err(cause) ==> (
        r matches Err(TrayError::Icon(text)) && text@ == "PNG decode error: "@ + cause),
        png_buffer_size(file, usize::MAX as nat) matches Ok(size) ==> {
            let decoded = png_frame(file, frame_buffer(size), usize::MAX as nat);
            &&& decoded is Ok <==> r is Ok
            &&& decoded matches Err(cause) ==> (r matches Err(TrayError::Icon(text)) && text@
                == "PNG frame error: "@ + cause)
            &&& decoded matches Ok(frame) ==> (r matches Ok(icon) && icon.width == frame.width
                && icon.height == frame.height && icon.rgba@ == frame_rgba(frame))
        },
{
}

} // verus!
