use gifcodec::decoder::{loop_count, DecodeOptions, Decoder};
use gifcodec::encoder::{repeat_setting, Encoder};
use gifcodec::enums::{ColorOutput, DisposalMethod, FrameBufType};
use gifcodec::error::GifError;
use gifcodec::frame::Frame;

fn indexed(w: u16, h: u16) -> Frame {
    Frame::from_indexed_pixels(w, h, &vec![1; w as usize * h as usize], Some(&[0, 0, 0, 255, 255, 255]), None).unwrap()
}

#[test]
fn add_frame_refuses_other_sizes() {
    let mut e = Encoder::new(2, 2, None).unwrap();
    assert_eq!(e.add_frame(&indexed(1, 2)), Err(GifError::DimensionMismatch));
    assert_eq!(e.add_frame(&indexed(2, 3)), Err(GifError::DimensionMismatch));
    assert_eq!(e.add_frame(&indexed(2, 2)), Ok(()));
}

#[test]
fn add_frame_refuses_bad_buffer() {
    let g = gif::Frame { width: 2, height: 2, ..gif::Frame::default() };
    let f = Frame::from_gif_frame(&g, FrameBufType::Rgba);
    let mut e = Encoder::new(2, 2, None).unwrap();
    assert_eq!(e.add_frame(&f), Err(GifError::SizeMismatch));
    let mut e = Encoder::new(3, 3, None).unwrap();
    assert_eq!(e.add_frame(&f), Err(GifError::DimensionMismatch));
}

#[test]
fn encoder_palette_limits() {
    assert!(Encoder::new(1, 1, Some(&[0; 768])).is_ok());
    assert!(matches!(Encoder::new(1, 1, Some(&[0; 771])), Err(GifError::CodecFailure)));
    // Without any palette an indexed frame has no colours to refer to.
    let mut e = Encoder::new(2, 1, None).unwrap();
    let f = Frame::from_indexed_pixels(2, 1, &[0, 1], None, None).unwrap();
    assert_eq!(e.add_frame(&f), Err(GifError::CodecFailure));
}

#[test]
fn refused_frame_writes_nothing() {
    let mut e = Encoder::new(2, 2, None).unwrap();
    let before = e.get_buffer();
    assert_eq!(e.add_frame(&indexed(1, 1)), Err(GifError::DimensionMismatch));
    assert_eq!(e.get_buffer(), before);
}

#[test]
fn encoder_keeps_settings() {
    let e = Encoder::new(4, 5, Some(&[1, 2, 3])).unwrap();
    assert_eq!((e.width(), e.height()), (4, 5));
    assert_eq!(e.get_palette(), Some(vec![1, 2, 3]));
}

#[test]
fn buffer_ends_with_trailer() {
    let mut e = Encoder::new(1, 1, None).unwrap();
    e.add_frame(&Frame::from_rgba(1, 1, &[10, 20, 30, 255], None).unwrap()).unwrap();
    let bytes = e.get_buffer();
    assert_eq!(&bytes[..6], b"GIF89a");
    assert_eq!(*bytes.last().unwrap(), 0x3B);
}

#[test]
fn disposal_survives_encoding_and_decoding() {
    let all = [DisposalMethod::Any, DisposalMethod::Keep, DisposalMethod::Background, DisposalMethod::Previous];
    let mut e = Encoder::new(2, 1, Some(&[0, 0, 0, 255, 255, 255])).unwrap();
    for (i, d) in all.iter().enumerate() {
        let mut f = Frame::from_indexed_pixels(2, 1, &[0, 1], None, None).unwrap();
        f.dispose = *d;
        f.delay = i as u16 + 2;
        e.add_frame(&f).unwrap();
    }
    let bytes = e.get_buffer();
    let mut dec = Decoder::new(&bytes, None).unwrap();
    assert_eq!((dec.width(), dec.height()), (2, 1));
    for (i, d) in all.iter().enumerate() {
        let f = dec.read_next_frame().unwrap().unwrap();
        assert_eq!(f.dispose, *d);
        assert_eq!(f.delay, i as u16 + 2);
        assert_eq!(f.buf_type(), FrameBufType::IndexedPixels);
        assert_eq!(f.get_buffer(), vec![0, 1]);
    }
    assert!(dec.read_next_frame().unwrap().is_none());
}

#[test]
fn decode_as_rgba() {
    let mut e = Encoder::new(2, 1, Some(&[0, 0, 0, 255, 255, 255])).unwrap();
    e.set_repeat(3);
    e.add_frame(&Frame::from_indexed_pixels(2, 1, &[0, 1], None, None).unwrap()).unwrap();
    let bytes = e.get_buffer();
    let mut opts = DecodeOptions::new();
    opts.set_color_output(ColorOutput::Rgba);
    let mut dec = opts.read_info(&bytes).unwrap();
    let f = dec.read_next_frame().unwrap().unwrap();
    assert_eq!(f.buf_type(), FrameBufType::Rgba);
    assert_eq!(f.get_buffer(), vec![0, 0, 0, 255, 255, 255, 255, 255]);
    assert_eq!(dec.loops(), 3);
    assert_eq!(dec.global_palette(), Some(vec![0, 0, 0, 255, 255, 255]));
}

#[test]
fn decoder_rejects_garbage() {
    assert!(matches!(Decoder::new(&[1, 2, 3], None), Err(GifError::CodecFailure)));
}

#[test]
fn memory_limit_values() {
    let mut opts = DecodeOptions::new();
    assert_eq!(opts.set_memory_limit(0), Err(GifError::RangeError));
    assert_eq!(opts.set_memory_limit(-1), Ok(()));
    assert_eq!(opts.set_memory_limit(1 << 20), Ok(()));
}

#[test]
fn repeat_and_loop_counts() {
    assert_eq!(repeat_setting(-1), gif::Repeat::Infinite);
    assert_eq!(repeat_setting(-7), gif::Repeat::Infinite);
    assert_eq!(repeat_setting(0), gif::Repeat::Finite(0));
    assert_eq!(repeat_setting(12), gif::Repeat::Finite(12));
    assert_eq!(loop_count(gif::Repeat::Infinite), -1);
    assert_eq!(loop_count(gif::Repeat::Finite(5)), 5);
}
