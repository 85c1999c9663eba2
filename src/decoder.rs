use vstd::prelude::*;
use std::io::Cursor;
use gif::ColorOutput as GifColorOutput;
use gif::DecodeOptions as GifDecodeOptions;
use gif::Frame as GifFrame;
use gif::MemoryLimit;
use gif::Repeat;
use crate::enums::{ColorOutput, FrameBufType};
use crate::error::GifError;
use crate::frame::{view_of_gif_frame, Frame};

verus! {

/// The codec's decoder, reading from memory.
#[verifier::external_body]
struct GifReader {
    inner: gif::Decoder<Cursor<Vec<u8>>>,
}

/// Whether the codec, with its default options, reads a GIF header and
/// global palette from these bytes.
pub uninterp spec fn header_readable(bytes: Seq<u8>) -> bool;

/// Relies on `gif::Decoder::new`: reads the header and global palette with
/// the codec's default options; whether that succeeds depends on the bytes
/// alone.
#[verifier::external_body]
fn gif_reader_new(bytes: Vec<u8>) -> (r: Result<GifReader, gif::DecodingError>)
    ensures
        r is Ok <==> header_readable(bytes@),
{
    gif::Decoder::new(Cursor::new(bytes)).map(|inner| GifReader { inner })
}

/// Relies on `gif::DecodeOptions::read_info`: reads the header and global
/// palette with the given options.
#[verifier::external_body]
fn gif_read_info(options: &GifDecodeOptions, bytes: Vec<u8>) -> (r: Result<GifReader, gif::DecodingError>) {
    options.clone().read_info(Cursor::new(bytes)).map(|inner| GifReader { inner })
}

/// Relies on `gif::Decoder::next_frame_info`: the next frame's settings,
/// without its pixels.
#[verifier::external_body]
fn gif_next_frame_info(r: &mut GifReader) -> (f: Result<Option<GifFrame<'static>>, gif::DecodingError>) {
    r.inner.next_frame_info().map(|f| f.cloned())
}

/// Relies on `gif::Decoder::read_next_frame`: the next frame with its pixels.
#[verifier::external_body]
fn gif_read_next_frame(r: &mut GifReader) -> (f: Result<Option<GifFrame<'static>>, gif::DecodingError>) {
    r.inner.read_next_frame().map(|f| f.cloned())
}

/// Relies on `gif::Decoder::buffer_size`.
#[verifier::external_body]
fn gif_buffer_size(r: &GifReader) -> (n: usize) {
    r.inner.buffer_size()
}

/// Relies on `gif::Decoder::line_length`.
#[verifier::external_body]
fn gif_line_length(r: &GifReader) -> (n: usize) {
    r.inner.line_length()
}

/// Relies on `gif::Decoder::palette`: the palette of the current frame.
#[verifier::external_body]
fn gif_palette(r: &GifReader) -> (p: Result<Vec<u8>, gif::DecodingError>) {
    r.inner.palette().map(|p| p.to_vec())
}

/// Relies on `gif::Decoder::global_palette`.
#[verifier::external_body]
fn gif_global_palette(r: &GifReader) -> (p: Option<Vec<u8>>) {
    r.inner.global_palette().map(|p| p.to_vec())
}

/// Relies on `gif::Decoder::width`.
#[verifier::external_body]
fn gif_width(r: &GifReader) -> (w: u16) {
    r.inner.width()
}

/// Relies on `gif::Decoder::height`.
#[verifier::external_body]
fn gif_height(r: &GifReader) -> (h: u16) {
    r.inner.height()
}

/// Relies on `gif::Decoder::bg_color`.
#[verifier::external_body]
fn gif_bg_color(r: &GifReader) -> (c: Option<usize>) {
    r.inner.bg_color()
}

/// Relies on `gif::Decoder::repeat`.
#[verifier::external_body]
fn gif_repeat(r: &GifReader) -> (rep: Repeat) {
    r.inner.repeat()
}

/// Relies on `gif::DecodeOptions::new`.
#[verifier::external_body]
fn gif_options_new() -> (o: GifDecodeOptions) {
    GifDecodeOptions::new()
}

/// Relies on `gif::DecodeOptions::set_color_output`.
#[verifier::external_body]
fn gif_set_color_output(o: &mut GifDecodeOptions, c: GifColorOutput) {
    o.set_color_output(c)
}

/// Relies on `gif::DecodeOptions::set_memory_limit`.
#[verifier::external_body]
fn gif_set_memory_limit(o: &mut GifDecodeOptions, limit: MemoryLimit) {
    o.set_memory_limit(limit)
}

/// Relies on `gif::MemoryLimit::Unlimited`.
#[verifier::external_body]
fn gif_unlimited() -> (l: MemoryLimit) {
    MemoryLimit::Unlimited
}

/// Relies on `gif::MemoryLimit::Bytes`, which takes a non-zero count: there
/// is a limit exactly for a count other than 0.
#[verifier::external_body]
fn gif_limit_bytes(n: u64) -> (l: Option<MemoryLimit>)
    ensures
        l is Some <==> n != 0,
{
    std::num::NonZeroU64::new(n).map(MemoryLimit::Bytes)
}

/// Relies on `gif::DecodeOptions::check_frame_consistency`.
#[verifier::external_body]
fn gif_check_frame_consistency(o: &mut GifDecodeOptions, value: bool) {
    o.check_frame_consistency(value)
}

/// Relies on `gif::DecodeOptions::skip_frame_decoding`.
#[verifier::external_body]
fn gif_skip_frame_decoding(o: &mut GifDecodeOptions, value: bool) {
    o.skip_frame_decoding(value)
}

/// Relies on `gif::DecodeOptions::check_lzw_end_code`.
#[verifier::external_body]
fn gif_check_lzw_end_code(o: &mut GifDecodeOptions, value: bool) {
    o.check_lzw_end_code(value)
}

/// Relies on `gif::DecodeOptions::allow_unknown_blocks`.
#[verifier::external_body]
fn gif_allow_unknown_blocks(o: &mut GifDecodeOptions, value: bool) {
    o.allow_unknown_blocks(value)
}

/// The buffer encoding of decoded frames in each output mode.
pub open spec fn kind_for_output(c: ColorOutput) -> FrameBufType {
    match c {
        ColorOutput::Rgba => FrameBufType::Rgba,
        ColorOutput::IndexedPixels => FrameBufType::IndexedPixels,
    }
}

/// The codec's output mode for each of ours.
pub open spec fn gif_output(c: ColorOutput) -> GifColorOutput {
    match c {
        ColorOutput::Rgba => GifColorOutput::RGBA,
        ColorOutput::IndexedPixels => GifColorOutput::Indexed,
    }
}

/// The loop count of a repeat setting: `-1` for ever.
pub open spec fn loops_of(rep: Repeat) -> i16 {
    match rep {
        Repeat::Finite(v) => v as i16,
        Repeat::Infinite => -1i16,
    }
}

/// The codec's output mode for each of ours.
pub fn codec_color_output(c: ColorOutput) -> (r: GifColorOutput)
    ensures
        r == gif_output(c),
{
    match c {
        ColorOutput::Rgba => GifColorOutput::RGBA,
        ColorOutput::IndexedPixels => GifColorOutput::Indexed,
    }
}

/// The loop count of a repeat setting: `-1` for ever.
pub fn loop_count(rep: Repeat) -> (r: i16)
    ensures
        r == loops_of(rep),
{
    match rep {
        Repeat::Finite(v) => v as i16,
        Repeat::Infinite => -1,
    }
}

#[derive(Clone, Copy)]
struct CustomOptions {
    frame_buf_type: FrameBufType,
}

/// Turns what the codec's decoder hands out into a library result: a frame
/// carries the codec frame's settings and buffer, read as `kind`; the end of
/// the stream stays `None`; a codec error becomes `CodecFailure`.
pub fn wrap_frame(f: Result<Option<GifFrame<'static>>, gif::DecodingError>, kind: FrameBufType) -> (r: Result<Option<Frame>, GifError>)
    ensures
        match f {
            Ok(Some(g)) => r matches Ok(Some(fr)) && fr@ == view_of_gif_frame(g, kind),
            Ok(None) => r matches Ok(None),
            Err(_) => r == Err::<Option<Frame>, GifError>(GifError::CodecFailure),
        },
        r is Err ==> r == Err::<Option<Frame>, GifError>(GifError::CodecFailure),
        r matches Ok(Some(fr)) ==> fr@.kind == kind && fr@.speed is None,
{
    match f {
        Ok(Some(g)) => Ok(Some(Frame::from_gif_frame(&g, kind))),
        Ok(None) => Ok(None),
        Err(_) => Err(GifError::CodecFailure),
    }
}

/// Reads the frames of a GIF held in memory.
pub struct Decoder {
    w: GifReader,
    custom_options: CustomOptions,
}

impl Decoder {
    /// The buffer encoding of the frames this decoder yields.
    pub closed spec fn kind(&self) -> FrameBufType {
        self.custom_options.frame_buf_type
    }

    /// Opens a GIF: with `options` as `DecodeOptions::read_info` does,
    /// otherwise with the defaults, which yield indexed frames.
    pub fn new(buffer: &[u8], options: Option<&DecodeOptions>) -> (r: Result<Decoder, GifError>)
        ensures
            r is Err ==> r == Err::<Decoder, GifError>(GifError::CodecFailure),
            options is None ==> (r is Ok <==> header_readable(buffer@)),
            r is Ok ==> r->Ok_0.kind() == match options {
                Some(o) => o.kind(),
                None => FrameBufType::IndexedPixels,
            },
    {
        if let Some(options) = options {
            return options.read_info(buffer);
        }
        match gif_reader_new(vstd::slice::slice_to_vec(buffer)) {
            Ok(w) => Ok(Decoder { w, custom_options: CustomOptions { frame_buf_type: FrameBufType::IndexedPixels } }),
            Err(_) => Err(GifError::CodecFailure),
        }
    }

    /// The settings of the next frame, without its pixels.
    pub fn next_frame_info(&mut self) -> (r: Result<Option<Frame>, GifError>)
        ensures
            final(self).kind() == old(self).kind(),
            r is Err ==> r == Err::<Option<Frame>, GifError>(GifError::CodecFailure),
            r matches Ok(Some(f)) ==> f@.kind == old(self).kind() && f@.speed is None,
    {
        let kind = self.custom_options.frame_buf_type;
        wrap_frame(gif_next_frame_info(&mut self.w), kind)
    }

    /// The next frame with its pixels, deinterlaced.
    pub fn read_next_frame(&mut self) -> (r: Result<Option<Frame>, GifError>)
        ensures
            final(self).kind() == old(self).kind(),
            r is Err ==> r == Err::<Option<Frame>, GifError>(GifError::CodecFailure),
            r matches Ok(Some(f)) ==> f@.kind == old(self).kind() && f@.speed is None,
    {
        let kind = self.custom_options.frame_buf_type;
        wrap_frame(gif_read_next_frame(&mut self.w), kind)
    }

    /// Size of the output buffer for the current frame.
    pub fn buffer_size(&self) -> u32 {
        gif_buffer_size(&self.w) as u32
    }

    /// Line length of the current frame.
    pub fn line_length(&self) -> u32 {
        gif_line_length(&self.w) as u32
    }

    /// The palette that applies to the frame last decoded.
    pub fn palette(&self) -> (r: Result<Vec<u8>, GifError>)
        ensures
            r is Err ==> r == Err::<Vec<u8>, GifError>(GifError::CodecFailure),
    {
        match gif_palette(&self.w) {
            Ok(p) => Ok(p),
            Err(_) => Err(GifError::CodecFailure),
        }
    }

    /// The global palette.
    pub fn global_palette(&self) -> Option<Vec<u8>> {
        gif_global_palette(&self.w)
    }

    /// Width of the canvas.
    pub fn width(&self) -> u16 {
        gif_width(&self.w)
    }

    /// Height of the canvas.
    pub fn height(&self) -> u16 {
        gif_height(&self.w)
    }

    /// Index of the background colour in the global palette.
    pub fn bg_color(&self) -> Option<u16> {
        match gif_bg_color(&self.w) {
            Some(c) => Some(c as u16),
            None => None,
        }
    }

    /// Number of loop repetitions; `-1` for ever.
    pub fn loops(&self) -> i16 {
        loop_count(gif_repeat(&self.w))
    }
}

/// Settings for opening a decoder.
pub struct DecodeOptions {
    w: GifDecodeOptions,
    custom_options: CustomOptions,
}

impl DecodeOptions {
    /// The buffer encoding of the frames a decoder opened with these options
    /// yields.
    pub closed spec fn kind(&self) -> FrameBufType {
        self.custom_options.frame_buf_type
    }

    /// The codec's defaults: indexed output.
    pub fn new() -> (r: DecodeOptions)
        ensures
            r.kind() == FrameBufType::IndexedPixels,
    {
        DecodeOptions {
            w: gif_options_new(),
            custom_options: CustomOptions { frame_buf_type: FrameBufType::IndexedPixels },
        }
    }

    /// Chooses whether frames come out as RGBA or as palette indices.
    pub fn set_color_output(&mut self, value: ColorOutput)
        ensures
            final(self).kind() == kind_for_output(value),
    {
        self.custom_options.frame_buf_type = match value {
            ColorOutput::Rgba => FrameBufType::Rgba,
            ColorOutput::IndexedPixels => FrameBufType::IndexedPixels,
        };
        gif_set_color_output(&mut self.w, codec_color_output(value));
    }

    /// Sets the memory limit per frame: `-1` or less for none, otherwise a
    /// positive number of bytes; 0 is refused.
    pub fn set_memory_limit(&mut self, value: i64) -> (r: Result<(), GifError>)
        ensures
            final(self).kind() == old(self).kind(),
            r is Err <==> value == 0,
            r is Err ==> r == Err::<(), GifError>(GifError::RangeError),
    {
        if value <= -1 {
            gif_set_memory_limit(&mut self.w, gif_unlimited());
            return Ok(());
        }
        match gif_limit_bytes(value as u64) {
            Some(limit) => {
                gif_set_memory_limit(&mut self.w, limit);
                Ok(())
            },
            None => Err(GifError::RangeError),
        }
    }

    /// Whether every frame must lie within the screen descriptor.
    pub fn check_frame_consistency(&mut self, value: bool)
        ensures
            final(self).kind() == old(self).kind(),
    {
        gif_check_frame_consistency(&mut self.w, value);
    }

    /// Whether to skip LZW decoding and hand out the compressed bytes.
    pub fn skip_frame_decoding(&mut self, value: bool)
        ensures
            final(self).kind() == old(self).kind(),
    {
        gif_skip_frame_decoding(&mut self.w, value);
    }

    /// Whether image data must end with the LZW end code.
    pub fn check_lzw_end_code(&mut self, value: bool)
        ensures
            final(self).kind() == old(self).kind(),
    {
        gif_check_lzw_end_code(&mut self.w, value);
    }

    /// Whether unknown blocks are let through.
    pub fn allow_unknown_blocks(&mut self, value: bool)
        ensures
            final(self).kind() == old(self).kind(),
    {
        gif_allow_unknown_blocks(&mut self.w, value);
    }

    /// Opens a GIF with these options.
    pub fn read_info(&self, buffer: &[u8]) -> (r: Result<Decoder, GifError>)
        ensures
            r is Err ==> r == Err::<Decoder, GifError>(GifError::CodecFailure),
            r is Ok ==> r->Ok_0.kind() == self.kind(),
    {
        match gif_read_info(&self.w, vstd::slice::slice_to_vec(buffer)) {
            Ok(w) => Ok(Decoder { w, custom_options: self.custom_options }),
            Err(_) => Err(GifError::CodecFailure),
        }
    }
}

} // verus!
