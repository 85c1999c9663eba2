use vstd::prelude::*;
use vstd::slice::slice_to_vec;
use std::borrow::Cow;
use gif::DisposalMethod as GifDisposalMethod;
use gif::Frame as GifFrame;
use crate::color::{decode_hexes, hex_to_rgba, lemma_decode_error_kinds, views};
use crate::enums::{bytes_per_pixel, DisposalMethod, FrameBufType};
use crate::error::GifError;

verus! {

/// What a frame holds, as plain values.
pub ghost struct FrameView {
    pub delay: u16,
    pub dispose: DisposalMethod,
    pub transparent: Option<u8>,
    pub needs_user_input: bool,
    pub top: u16,
    pub left: u16,
    pub width: u16,
    pub height: u16,
    pub interlaced: bool,
    pub kind: FrameBufType,
    pub palette: Option<Seq<u8>>,
    pub buffer: Seq<u8>,
    pub speed: Option<i32>,
}

/// The buffer length that a frame of this size and encoding needs.
pub open spec fn expected_len(width: u16, height: u16, kind: FrameBufType) -> int {
    width * height * bytes_per_pixel(kind)
}

/// A quantisation speed that the codec accepts.
pub open spec fn speed_ok(speed: Option<i32>) -> bool {
    match speed {
        Some(s) => 1 <= s <= 30,
        None => true,
    }
}

/// The speed handed to the codec: the stored one, or 10.
pub open spec fn effective_speed(speed: Option<i32>) -> int {
    match speed {
        Some(s) => s as int,
        None => 10,
    }
}

/// A frame as the constructors make it: the given pixels and settings, with
/// `delay` 1, disposal `Keep`, and every other field zero or unset.
pub open spec fn fresh_frame(
    width: u16,
    height: u16,
    buffer: Seq<u8>,
    palette: Option<Seq<u8>>,
    kind: FrameBufType,
    speed: Option<i32>,
) -> FrameView {
    FrameView {
        delay: 1,
        dispose: DisposalMethod::Keep,
        transparent: None,
        needs_user_input: false,
        top: 0,
        left: 0,
        width,
        height,
        interlaced: false,
        kind,
        palette,
        buffer,
        speed,
    }
}

pub open spec fn opt_view(p: Option<Vec<u8>>) -> Option<Seq<u8>> {
    match p {
        Some(v) => Some(v@),
        None => None,
    }
}

pub open spec fn opt_slice_view(p: Option<&[u8]>) -> Option<Seq<u8>> {
    match p {
        Some(v) => Some(v@),
        None => None,
    }
}

/// One frame of an animation.
pub struct Frame {
    /// The delay for this frame in units of 10 ms.
    pub delay: u16,
    /// How the frame is disposed of when moving to the next one.
    pub dispose: DisposalMethod,
    /// An optional index of a transparent colour in the palette.
    pub transparent: Option<u8>,
    /// Whether this frame requires user input to proceed.
    pub needs_user_input: bool,
    /// Vertical offset of the frame on the canvas.
    pub top: u16,
    /// Horizontal offset of the frame on the canvas.
    pub left: u16,
    /// Whether the image is interlaced.
    pub interlaced: bool,
    width: u16,
    height: u16,
    buf_type: FrameBufType,
    palette: Option<Vec<u8>>,
    buf: Vec<u8>,
    speed: Option<i32>,
}

impl View for Frame {
    type V = FrameView;

    closed spec fn view(&self) -> FrameView {
        FrameView {
            delay: self.delay,
            dispose: self.dispose,
            transparent: self.transparent,
            needs_user_input: self.needs_user_input,
            top: self.top,
            left: self.left,
            width: self.width,
            height: self.height,
            interlaced: self.interlaced,
            kind: self.buf_type,
            palette: opt_view(self.palette),
            buffer: self.buf@,
            speed: self.speed,
        }
    }
}

/// The codec's disposal method for each of ours.
pub open spec fn gif_disposal(d: DisposalMethod) -> GifDisposalMethod {
    match d {
        DisposalMethod::Any => GifDisposalMethod::Any,
        DisposalMethod::Keep => GifDisposalMethod::Keep,
        DisposalMethod::Background => GifDisposalMethod::Background,
        DisposalMethod::Previous => GifDisposalMethod::Previous,
    }
}

/// Our disposal method for each of the codec's.
pub open spec fn own_disposal(d: GifDisposalMethod) -> DisposalMethod {
    match d {
        GifDisposalMethod::Any => DisposalMethod::Any,
        GifDisposalMethod::Keep => DisposalMethod::Keep,
        GifDisposalMethod::Background => DisposalMethod::Background,
        GifDisposalMethod::Previous => DisposalMethod::Previous,
    }
}

/// Maps a disposal method to the codec's.
pub fn to_gif_disposal(d: DisposalMethod) -> (r: GifDisposalMethod)
    ensures
        r == gif_disposal(d),
{
    match d {
        DisposalMethod::Any => GifDisposalMethod::Any,
        DisposalMethod::Keep => GifDisposalMethod::Keep,
        DisposalMethod::Background => GifDisposalMethod::Background,
        DisposalMethod::Previous => GifDisposalMethod::Previous,
    }
}

/// Maps the codec's disposal method to ours.
pub fn from_gif_disposal(d: GifDisposalMethod) -> (r: DisposalMethod)
    ensures
        r == own_disposal(d),
{
    match d {
        GifDisposalMethod::Any => DisposalMethod::Any,
        GifDisposalMethod::Keep => DisposalMethod::Keep,
        GifDisposalMethod::Background => DisposalMethod::Background,
        GifDisposalMethod::Previous => DisposalMethod::Previous,
    }
}

/// The buffer length that a frame of this size and encoding needs.
fn buffer_len(width: u16, height: u16, kind: FrameBufType) -> (r: u64)
    ensures
        r == expected_len(width, height, kind),
{
    let bpp = kind.bytes_per_pixel();
    proof {
        assert(width * height <= 65535 * 65535) by (nonlinear_arith)
            requires width <= 65535, height <= 65535;
        assert(width * height * bpp <= 65535 * 65535 * 4) by (nonlinear_arith)
            requires width * height <= 65535 * 65535, bpp <= 4;
    }
    width as u64 * height as u64 * bpp
}

/// A frame of the codec as this library sees it: every setting and the
/// buffer carried over, the buffer read as `kind`, no speed.
pub open spec fn view_of_gif_frame(f: GifFrame<'_>, kind: FrameBufType) -> FrameView {
    FrameView {
        delay: f.delay,
        dispose: own_disposal(f.dispose),
        transparent: f.transparent,
        needs_user_input: f.needs_user_input,
        top: f.top,
        left: f.left,
        width: f.width,
        height: f.height,
        interlaced: f.interlaced,
        kind,
        palette: opt_view(f.palette),
        buffer: f.buffer@,
        speed: None,
    }
}

/// Whether some RGBA pixel of `pixels` has alpha 0.
pub open spec fn has_clear_pixel(pixels: Seq<u8>) -> bool {
    exists|i: int| 0 <= i < pixels.len() / 4 && #[trigger] pixels[4 * i + 3] == 0
}

/// Settings that the codec's frame constructors leave at their defaults.
pub open spec fn codec_defaults(f: GifFrame<'static>, width: u16, height: u16) -> bool {
    &&& f.width == width
    &&& f.height == height
    &&& f.delay == 0
    &&& f.dispose == GifDisposalMethod::Keep
    &&& !f.needs_user_input
    &&& f.top == 0
    &&& f.left == 0
    &&& !f.interlaced
    &&& f.buffer@.len() == width * height
}

/// What `gif::Frame::from_rgba_speed` computes from RGBA pixels at a speed:
/// the palette indices, the palette, and the transparent index.
pub uninterp spec fn quantize_rgba(pixels: Seq<u8>, speed: int) -> (Seq<u8>, Seq<u8>, Option<u8>);

/// RGB pixels with an alpha of 255 added to each.
pub open spec fn opaque_rgba(rgb: Seq<u8>) -> Seq<u8> {
    Seq::new(rgb.len() / 3 * 4, |i: int| if i % 4 == 3 { 255u8 } else { rgb[i / 4 * 3 + i % 4] })
}

/// Relies on `gif::Frame::from_rgba_speed`: one palette index per pixel, a
/// palette of at most 256 colours, and a transparent index exactly when some
/// pixel has alpha 0. The result depends on the pixels and speed alone (the
/// exact colour set is sorted; NeuQuant is deterministic). It panics unless
/// the length is `width * height * 4` and `speed` is in 1..=30.
#[verifier::external_body]
fn gif_frame_from_rgba(width: u16, height: u16, pixels: Vec<u8>, speed: i32) -> (r: GifFrame<'static>)
    requires
        pixels@.len() == width * height * 4,
        1 <= speed <= 30,
    ensures
        codec_defaults(r, width, height),
        r.palette is Some,
        r.transparent is Some <==> has_clear_pixel(pixels@),
        r.palette is Some && r.palette->Some_0@.len() <= 768,
        r.buffer@ == quantize_rgba(pixels@, speed as int).0,
        r.palette->Some_0@ == quantize_rgba(pixels@, speed as int).1,
        r.transparent == quantize_rgba(pixels@, speed as int).2,
{
    let mut pixels = pixels;
    GifFrame::from_rgba_speed(width, height, &mut pixels, speed)
}

/// Relies on `gif::Frame::from_rgb_speed`, which adds an alpha of 255 to
/// each pixel and hands the result to `from_rgba_speed`: so no transparent
/// index. It panics unless the length is `width * height * 3` and `speed` is
/// in 1..=30.
#[verifier::external_body]
fn gif_frame_from_rgb(width: u16, height: u16, pixels: &[u8], speed: i32) -> (r: GifFrame<'static>)
    requires
        pixels@.len() == width * height * 3,
        1 <= speed <= 30,
    ensures
        codec_defaults(r, width, height),
        r.palette is Some,
        r.transparent is None,
        r.palette is Some && r.palette->Some_0@.len() <= 768,
        r.buffer@ == quantize_rgba(opaque_rgba(pixels@), speed as int).0,
        r.palette->Some_0@ == quantize_rgba(opaque_rgba(pixels@), speed as int).1,
{
    GifFrame::from_rgb_speed(width, height, pixels, speed)
}

/// Relies on `gif::Frame::from_indexed_pixels`: the indices become the buffer
/// as they are, with no local palette; it panics unless the length is
/// `width * height`.
#[verifier::external_body]
fn gif_frame_from_indexed(width: u16, height: u16, pixels: Vec<u8>, transparent: Option<u8>) -> (r: GifFrame<'static>)
    requires
        pixels@.len() == width * height,
    ensures
        codec_defaults(r, width, height),
        r.buffer@ == pixels@,
        r.palette is None,
        r.transparent == transparent,
{
    GifFrame::from_indexed_pixels(width, height, pixels, transparent)
}

fn cow_bytes(c: &Cow<'_, [u8]>) -> (r: Vec<u8>)
    ensures
        r@ == c@,
{
    match c {
        Cow::Borrowed(b) => slice_to_vec(b),
        Cow::Owned(v) => slice_to_vec(v.as_slice()),
    }
}

fn copy_palette(p: Option<&[u8]>) -> (r: Option<Vec<u8>>)
    ensures
        opt_view(r) == opt_slice_view(p),
{
    match p {
        Some(s) => Some(slice_to_vec(s)),
        None => None,
    }
}

fn clone_palette(p: &Option<Vec<u8>>) -> (r: Option<Vec<u8>>)
    ensures
        opt_view(r) == opt_view(*p),
{
    match p {
        Some(v) => Some(slice_to_vec(v.as_slice())),
        None => None,
    }
}

impl Frame {
    /// Whether the buffer fits the geometry and encoding and the speed is one
    /// the codec accepts.
    pub open spec fn wf(&self) -> bool {
        &&& self@.buffer.len() == expected_len(self@.width, self@.height, self@.kind)
        &&& speed_ok(self@.speed)
    }

    /// Whether the buffer fits the geometry and encoding and the speed is one
    /// the codec accepts.
    pub fn is_well_formed(&self) -> (r: bool)
        ensures
            r == self.wf(),
    {
        let expected = buffer_len(self.width, self.height, self.buf_type);
        let speed_fits = match self.speed {
            Some(s) => 1 <= s && s <= 30,
            None => true,
        };
        self.buf.len() as u64 == expected && speed_fits
    }

    fn new(
        width: u16,
        height: u16,
        buf: Vec<u8>,
        palette: Option<Vec<u8>>,
        buf_type: FrameBufType,
        speed: Option<i32>,
    ) -> (r: Result<Frame, GifError>)
        ensures
            buf@.len() != expected_len(width, height, buf_type) <==> r == Err::<Frame, GifError>(GifError::SizeMismatch),
            buf@.len() == expected_len(width, height, buf_type) <==> r is Ok,
            r is Ok ==> r->Ok_0@ == fresh_frame(width, height, buf@, opt_view(palette), buf_type, speed),
    {
        let expected = buffer_len(width, height, buf_type);
        if buf.len() as u64 != expected {
            return Err(GifError::SizeMismatch);
        }
        Ok(Frame {
            delay: 1,
            dispose: DisposalMethod::Keep,
            transparent: None,
            needs_user_input: false,
            top: 0,
            left: 0,
            interlaced: false,
            width,
            height,
            buf_type,
            palette,
            buf,
            speed,
        })
    }

    /// Creates a frame from RGBA pixel data. `speed`, where given, must be in
    /// 1..=30 (higher is faster and coarser); `buffer` must hold
    /// `width * height * 4` bytes.
    pub fn from_rgba(width: u16, height: u16, buffer: &[u8], speed: Option<i32>) -> (r: Result<Frame, GifError>)
        ensures
            !speed_ok(speed) <==> r == Err::<Frame, GifError>(GifError::RangeError),
            speed_ok(speed) && buffer@.len() != expected_len(width, height, FrameBufType::Rgba)
                <==> r == Err::<Frame, GifError>(GifError::SizeMismatch),
            r is Ok <==> speed_ok(speed) && buffer@.len() == expected_len(width, height, FrameBufType::Rgba),
            r is Ok ==> r->Ok_0@ == fresh_frame(width, height, buffer@, None, FrameBufType::Rgba, speed),
    {
        if let Some(s) = speed {
            if s < 1 || s > 30 {
                return Err(GifError::RangeError);
            }
        }
        Self::new(width, height, slice_to_vec(buffer), None, FrameBufType::Rgba, speed)
    }

    /// Creates a frame from RGB pixel data. `speed`, where given, must be in
    /// 1..=30; `buffer` must hold `width * height * 3` bytes.
    pub fn from_rgb(width: u16, height: u16, buffer: &[u8], speed: Option<i32>) -> (r: Result<Frame, GifError>)
        ensures
            !speed_ok(speed) <==> r == Err::<Frame, GifError>(GifError::RangeError),
            speed_ok(speed) && buffer@.len() != expected_len(width, height, FrameBufType::Rgb)
                <==> r == Err::<Frame, GifError>(GifError::SizeMismatch),
            r is Ok <==> speed_ok(speed) && buffer@.len() == expected_len(width, height, FrameBufType::Rgb),
            r is Ok ==> r->Ok_0@ == fresh_frame(width, height, buffer@, None, FrameBufType::Rgb, speed),
    {
        if let Some(s) = speed {
            if s < 1 || s > 30 {
                return Err(GifError::RangeError);
            }
        }
        Self::new(width, height, slice_to_vec(buffer), None, FrameBufType::Rgb, speed)
    }

    /// Creates a frame from hex colour strings, one per pixel, which are
    /// expanded to RGBA as `hex_to_rgba` does. `speed`, where given, must be
    /// in 1..=30.
    pub fn from_hex(width: u16, height: u16, buffer: Vec<String>, speed: Option<i32>) -> (r: Result<Frame, GifError>)
        ensures
            !speed_ok(speed) <==> r == Err::<Frame, GifError>(GifError::RangeError),
            speed_ok(speed) ==> match decode_hexes(views(buffer@), true) {
                Err(e) => r == Err::<Frame, GifError>(e),
                Ok(b) => {
                    &&& (b.len() != expected_len(width, height, FrameBufType::Hex)
                        <==> r == Err::<Frame, GifError>(GifError::SizeMismatch))
                    &&& (r is Ok <==> b.len() == expected_len(width, height, FrameBufType::Hex))
                    &&& (r is Ok ==> r->Ok_0@ == fresh_frame(width, height, b, None, FrameBufType::Hex, speed))
                },
            },
    {
        if let Some(s) = speed {
            if s < 1 || s > 30 {
                return Err(GifError::RangeError);
            }
        }
        proof {
            lemma_decode_error_kinds(views(buffer@), true);
        }
        let rgba = match hex_to_rgba(buffer) {
            Ok(b) => b,
            Err(e) => return Err(e),
        };
        Self::new(width, height, rgba, None, FrameBufType::Hex, speed)
    }

    /// Creates a frame from palette indices, one byte per pixel, with an
    /// optional local palette and transparent index.
    pub fn from_indexed_pixels(
        width: u16,
        height: u16,
        pixels: &[u8],
        palette: Option<&[u8]>,
        transparent: Option<u8>,
    ) -> (r: Result<Frame, GifError>)
        ensures
            pixels@.len() != expected_len(width, height, FrameBufType::IndexedPixels)
                <==> r == Err::<Frame, GifError>(GifError::SizeMismatch),
            r is Ok <==> pixels@.len() == expected_len(width, height, FrameBufType::IndexedPixels),
            r is Ok ==> r->Ok_0@ == (FrameView {
                transparent,
                ..fresh_frame(width, height, pixels@, opt_slice_view(palette), FrameBufType::IndexedPixels, None)
            }),
    {
        let mut frame = Self::new(
            width,
            height,
            slice_to_vec(pixels),
            copy_palette(palette),
            FrameBufType::IndexedPixels,
            None,
        )?;
        frame.transparent = transparent;
        Ok(frame)
    }

    /// Wraps a frame of the codec, whose buffer is read as `buf_type` says.
    pub fn from_gif_frame(f: &GifFrame<'_>, buf_type: FrameBufType) -> (r: Frame)
        ensures
            r@ == view_of_gif_frame(*f, buf_type),
    {
        Frame {
            delay: f.delay,
            dispose: from_gif_disposal(f.dispose),
            transparent: f.transparent,
            needs_user_input: f.needs_user_input,
            top: f.top,
            left: f.left,
            width: f.width,
            height: f.height,
            interlaced: f.interlaced,
            palette: clone_palette(&f.palette),
            buf: cow_bytes(&f.buffer),
            buf_type,
            speed: None,
        }
    }

    /// Builds the codec's frame: RGBA, hex-derived and RGB buffers are
    /// quantised at the stored speed (10 where none was given), indexed ones
    /// pass as they are. A local palette or transparent index that was set
    /// replaces the codec's own. The other settings are copied.
    pub fn to_gif_frame(&self) -> (r: GifFrame<'static>)
        requires
            self.wf(),
        ensures
            r.width == self@.width,
            r.height == self@.height,
            r.delay == self@.delay,
            r.dispose == gif_disposal(self@.dispose),
            r.needs_user_input == self@.needs_user_input,
            r.top == self@.top,
            r.left == self@.left,
            r.interlaced == self@.interlaced,
            r.palette is Some ==> r.palette->Some_0@.len() <= 768 || self@.palette == Some(r.palette->Some_0@),
            (self@.kind == FrameBufType::Rgba || self@.kind == FrameBufType::Hex) ==> {
                let q = quantize_rgba(self@.buffer, effective_speed(self@.speed));
                &&& r.buffer@ == q.0
                &&& (self@.palette is None ==> r.palette is Some && r.palette->Some_0@ == q.1)
                &&& (self@.transparent is None ==> r.transparent == q.2)
            },
            self@.kind == FrameBufType::Rgb ==> {
                let q = quantize_rgba(opaque_rgba(self@.buffer), effective_speed(self@.speed));
                &&& r.buffer@ == q.0
                &&& (self@.palette is None ==> r.palette is Some && r.palette->Some_0@ == q.1)
            },
            r.buffer@.len() == self@.width * self@.height,
            self@.palette is Some ==> opt_view(r.palette) == self@.palette,
            self@.palette is None ==> (r.palette is None <==> self@.kind == FrameBufType::IndexedPixels),
            self@.transparent is Some || self@.kind == FrameBufType::IndexedPixels ==> r.transparent == self@.transparent,
            self@.transparent is None && self@.kind == FrameBufType::Rgb ==> r.transparent is None,
            self@.transparent is None && (self@.kind == FrameBufType::Rgba || self@.kind == FrameBufType::Hex)
                ==> (r.transparent is Some <==> has_clear_pixel(self@.buffer)),
            self@.kind == FrameBufType::IndexedPixels ==> r.buffer@ == self@.buffer,
    {
        let speed: i32 = match self.speed {
            Some(s) => s,
            None => 10,
        };
        let mut frame = match self.buf_type {
            FrameBufType::Rgba | FrameBufType::Hex => gif_frame_from_rgba(
                self.width,
                self.height,
                slice_to_vec(self.buf.as_slice()),
                speed,
            ),
            FrameBufType::Rgb => gif_frame_from_rgb(self.width, self.height, self.buf.as_slice(), speed),
            FrameBufType::IndexedPixels => gif_frame_from_indexed(
                self.width,
                self.height,
                slice_to_vec(self.buf.as_slice()),
                self.transparent,
            ),
        };
        if self.palette.is_some() {
            frame.palette = clone_palette(&self.palette);
        }
        if self.transparent.is_some() {
            frame.transparent = self.transparent;
        }
        frame.delay = self.delay;
        frame.dispose = to_gif_disposal(self.dispose);
        frame.needs_user_input = self.needs_user_input;
        frame.top = self.top;
        frame.left = self.left;
        frame.interlaced = self.interlaced;
        frame
    }

    /// Width of the frame.
    pub fn width(&self) -> (r: u16)
        ensures
            r == self@.width,
    {
        self.width
    }

    /// Height of the frame.
    pub fn height(&self) -> (r: u16)
        ensures
            r == self@.height,
    {
        self.height
    }

    /// How the buffer's bytes are read.
    pub fn buf_type(&self) -> (r: FrameBufType)
        ensures
            r == self@.kind,
    {
        self.buf_type
    }

    /// The quantisation speed, where one was given.
    pub fn speed(&self) -> (r: Option<i32>)
        ensures
            r == self@.speed,
    {
        self.speed
    }

    /// The frame's local palette.
    pub fn get_palette(&self) -> (r: Option<Vec<u8>>)
        ensures
            opt_view(r) == self@.palette,
    {
        clone_palette(&self.palette)
    }

    /// Replaces the frame's local palette; `None` removes it.
    pub fn set_palette(&mut self, val: Option<&[u8]>)
        ensures
            final(self)@ == (FrameView { palette: opt_slice_view(val), ..old(self)@ }),
    {
        self.palette = copy_palette(val);
    }

    /// A copy of the frame's pixel buffer.
    pub fn get_buffer(&self) -> (r: Vec<u8>)
        ensures
            r@ == self@.buffer,
    {
        slice_to_vec(self.buf.as_slice())
    }

    /// Replaces the pixel buffer, which must have the length that the frame's
    /// size and encoding give.
    pub fn set_buffer(&mut self, val: &[u8]) -> (r: Result<(), GifError>)
        ensures
            val@.len() != expected_len(old(self)@.width, old(self)@.height, old(self)@.kind)
                <==> r == Err::<(), GifError>(GifError::SizeMismatch),
            r is Ok <==> val@.len() == expected_len(old(self)@.width, old(self)@.height, old(self)@.kind),
            r is Ok ==> final(self)@ == (FrameView { buffer: val@, ..old(self)@ }),
            r is Err ==> final(self)@ == old(self)@,
    {
        let expected = buffer_len(self.width, self.height, self.buf_type);
        if val.len() as u64 != expected {
            return Err(GifError::SizeMismatch);
        }
        self.buf = slice_to_vec(val);
        Ok(())
    }
}

} // verus!
