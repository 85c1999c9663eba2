use vstd::prelude::*;
use vstd::slice::slice_to_vec;
use std::io::Cursor;
use gif::Frame as GifFrame;
use gif::Repeat;
use crate::error::GifError;
use crate::enums::FrameBufType;
use crate::frame::{opt_slice_view, opt_view, Frame};

verus! {

/// The codec's encoder, writing into memory. (Verus does not take a
/// declaration of `gif::Encoder<W: Write>`, so it is held here.)
#[verifier::external_body]
pub struct GifWriter {
    inner: gif::Encoder<Cursor<Vec<u8>>>,
}

/// The bytes that the codec's encoder has written so far.
pub uninterp spec fn written(w: GifWriter) -> Seq<u8>;

/// Whether the codec's encoder has a global palette, which frames without a
/// local palette use.
pub uninterp spec fn has_global_palette(w: GifWriter) -> bool;

/// Relies on `gif::Encoder::new`: writes the header and the global palette
/// into a fresh in-memory buffer. Writing to memory cannot fail, so it fails
/// only on a palette of more than 256 colours; the palette counts as present
/// when it holds at least one colour.
#[verifier::external_body]
fn gif_writer_new(width: u16, height: u16, palette: &[u8]) -> (r: Result<GifWriter, gif::EncodingError>)
    ensures
        r is Ok <==> palette@.len() / 3 <= 256,
        r is Ok ==> has_global_palette(r->Ok_0) == (palette@.len() >= 3),
{
    gif::Encoder::new(Cursor::new(Vec::new()), width, height, palette).map(|inner| GifWriter { inner })
}

/// Relies on `gif::Encoder::write_frame`: appends one frame. Writing to
/// memory cannot fail, so it fails only where the frame's palette has more
/// than 256 colours, or where it has none and there is no global one. It
/// asserts (in debug builds) that a frame without pixels has no buffer.
#[verifier::external_body]
fn gif_write_frame(w: &mut GifWriter, frame: &GifFrame<'static>) -> (r: Result<(), gif::EncodingError>)
    requires
        frame.buffer@.len() == frame.width * frame.height,
    ensures
        has_global_palette(*final(w)) == has_global_palette(*old(w)),
        (frame.palette is Some ==> frame.palette->Some_0@.len() / 3 <= 256)
            && (frame.palette is None ==> has_global_palette(*old(w))) ==> r is Ok,
{
    w.inner.write_frame(frame)
}

/// Relies on `gif::Encoder::set_repeat`: writes the looping extension.
#[verifier::external_body]
fn gif_set_repeat(w: &mut GifWriter, repeat: Repeat) -> (r: Result<(), gif::EncodingError>)
    ensures
        has_global_palette(*final(w)) == has_global_palette(*old(w)),
{
    w.inner.set_repeat(repeat)
}

/// Relies on `gif::Encoder::get_ref`: the bytes written so far.
#[verifier::external_body]
fn gif_written(w: &GifWriter) -> (r: Vec<u8>)
    ensures
        r@ == written(*w),
{
    w.inner.get_ref().get_ref().clone()
}

/// The repeat setting for a loop count: `-1` or less loops forever.
pub open spec fn repeat_of(value: i16) -> Repeat {
    if value <= -1 {
        Repeat::Infinite
    } else {
        Repeat::Finite(value as u16)
    }
}

/// The codec's repeat setting for a loop count.
pub fn repeat_setting(value: i16) -> (r: Repeat)
    ensures
        r == repeat_of(value),
{
    if value <= -1 {
        Repeat::Infinite
    } else {
        Repeat::Finite(value as u16)
    }
}

/// The encoder's fixed settings.
pub ghost struct EncoderView {
    pub width: u16,
    pub height: u16,
    pub palette: Option<Seq<u8>>,
}

/// Writes frames of a fixed canvas size into an in-memory GIF.
pub struct Encoder {
    w: GifWriter,
    palette: Option<Vec<u8>>,
    width: u16,
    height: u16,
}

impl View for Encoder {
    type V = EncoderView;

    closed spec fn view(&self) -> EncoderView {
        EncoderView { width: self.width, height: self.height, palette: opt_view(self.palette) }
    }
}

impl Encoder {
    /// The bytes written so far.
    pub closed spec fn output(&self) -> Seq<u8> {
        written(self.w)
    }

    /// The codec has a global palette exactly when one with at least one
    /// colour was given.
    pub closed spec fn wf(&self) -> bool {
        has_global_palette(self.w) == (self.palette matches Some(g) && g@.len() >= 3)
    }

    /// Creates an encoder for a canvas of the given size, with an optional
    /// global palette of RGB triples.
    pub fn new(width: u16, height: u16, palette: Option<&[u8]>) -> (r: Result<Encoder, GifError>)
        ensures
            r is Ok ==> r->Ok_0@ == (EncoderView { width, height, palette: opt_slice_view(palette) }),
            r is Ok ==> r->Ok_0.wf(),
            r is Ok <==> (palette is Some ==> palette->Some_0@.len() / 3 <= 256),
            r is Err ==> r == Err::<Encoder, GifError>(GifError::CodecFailure),
    {
        let (kept, global) = match palette {
            Some(p) => (Some(slice_to_vec(p)), slice_to_vec(p)),
            None => (None, Vec::new()),
        };
        match gif_writer_new(width, height, global.as_slice()) {
            Ok(w) => Ok(Encoder { w, palette: kept, width, height }),
            Err(_) => Err(GifError::CodecFailure),
        }
    }

    /// The canvas width.
    pub fn width(&self) -> (r: u16)
        ensures
            r == self@.width,
    {
        self.width
    }

    /// The canvas height.
    pub fn height(&self) -> (r: u16)
        ensures
            r == self@.height,
    {
        self.height
    }

    /// The global palette given at creation.
    pub fn get_palette(&self) -> (r: Option<Vec<u8>>)
        ensures
            opt_view(r) == self@.palette,
    {
        match &self.palette {
            Some(p) => Some(slice_to_vec(p.as_slice())),
            None => None,
        }
    }

    /// Adds a frame. A frame whose size is not the canvas's is refused before
    /// anything else is looked at; so is one whose buffer does not fit its
    /// size and encoding.
    pub fn add_frame(&mut self, frame: &Frame) -> (r: Result<(), GifError>)
        requires
            old(self).wf(),
        ensures
            final(self)@ == old(self)@,
            final(self).wf(),
            r == Err::<(), GifError>(GifError::DimensionMismatch) || r == Err::<(), GifError>(GifError::SizeMismatch)
                ==> final(self).output() == old(self).output(),
            frame@.width == old(self)@.width && frame@.height == old(self)@.height && frame.wf()
                && (frame@.palette is Some ==> frame@.palette->Some_0.len() / 3 <= 256)
                && (frame@.palette is None && frame@.kind == FrameBufType::IndexedPixels
                    ==> old(self)@.palette is Some && old(self)@.palette->Some_0.len() >= 3)
                ==> r is Ok,
            frame@.width != old(self)@.width || frame@.height != old(self)@.height
                <==> r == Err::<(), GifError>(GifError::DimensionMismatch),
            frame@.width == old(self)@.width && frame@.height == old(self)@.height && !frame.wf()
                <==> r == Err::<(), GifError>(GifError::SizeMismatch),
            r is Err ==> r == Err::<(), GifError>(GifError::DimensionMismatch)
                || r == Err::<(), GifError>(GifError::SizeMismatch)
                || r == Err::<(), GifError>(GifError::CodecFailure),
    {
        if frame.width() != self.width || frame.height() != self.height {
            return Err(GifError::DimensionMismatch);
        }
        if !frame.is_well_formed() {
            return Err(GifError::SizeMismatch);
        }
        let f = frame.to_gif_frame();
        match gif_write_frame(&mut self.w, &f) {
            Ok(()) => Ok(()),
            Err(_) => Err(GifError::CodecFailure),
        }
    }

    /// Sets how often the animation repeats: `-1` or less for ever,
    /// otherwise `value` times. A failure to write the setting is ignored.
    pub fn set_repeat(&mut self, value: i16)
        requires
            old(self).wf(),
        ensures
            final(self)@ == old(self)@,
            final(self).wf(),
    {
        let _ = gif_set_repeat(&mut self.w, repeat_setting(value));
    }

    /// The GIF written so far, closed with the trailer byte `0x3B`.
    pub fn get_buffer(&mut self) -> (r: Vec<u8>)
        ensures
            final(self)@ == old(self)@,
            final(self).output() == old(self).output(),
            r@ == old(self).output() + seq![0x3Bu8],
    {
        let mut buf = gif_written(&self.w);
        buf.push(0x3B);
        buf
    }
}

} // verus!
