use gifcodec::enums::{DisposalMethod, FrameBufType};
use gifcodec::error::GifError;
use gifcodec::frame::{from_gif_disposal, to_gif_disposal, Frame};

#[test]
fn from_rgba_checks_size() {
    let f = Frame::from_rgba(2, 2, &[0; 16], Some(10)).unwrap();
    assert_eq!(f.width(), 2);
    assert_eq!(f.height(), 2);
    assert_eq!(f.buf_type(), FrameBufType::Rgba);
    assert_eq!(f.get_buffer(), vec![0; 16]);
    assert_eq!(f.delay, 1);
    assert_eq!(f.dispose, DisposalMethod::Keep);
    assert_eq!(f.transparent, None);
    assert_eq!(f.get_palette(), None);
    assert!(matches!(Frame::from_rgba(2, 2, &[0; 15], None), Err(GifError::SizeMismatch)));
    assert!(matches!(Frame::from_rgba(2, 2, &[0; 17], None), Err(GifError::SizeMismatch)));
}

#[test]
fn from_rgb_checks_size() {
    let f = Frame::from_rgb(1, 1, &[1, 2, 3], None).unwrap();
    assert_eq!(f.buf_type(), FrameBufType::Rgb);
    assert!(matches!(Frame::from_rgb(1, 1, &[1, 2, 3, 4], None), Err(GifError::SizeMismatch)));
    assert!(Frame::from_rgb(0, 5, &[], None).is_ok());
}

#[test]
fn speed_bounds() {
    for s in [0i32, 31, 200, -1, -226, i32::MIN, i32::MAX] {
        assert!(matches!(Frame::from_rgba(1, 1, &[0; 4], Some(s)), Err(GifError::RangeError)));
        assert!(matches!(Frame::from_rgb(1, 1, &[0; 3], Some(s)), Err(GifError::RangeError)));
        assert!(matches!(Frame::from_hex(1, 1, vec!["#000".to_string()], Some(s)), Err(GifError::RangeError)));
    }
    for s in [1i32, 30] {
        assert_eq!(Frame::from_rgba(1, 1, &[0; 4], Some(s)).unwrap().speed(), Some(s));
        assert!(Frame::from_rgb(1, 1, &[0; 3], Some(s)).is_ok());
        assert!(Frame::from_hex(1, 1, vec!["#000".to_string()], Some(s)).is_ok());
    }
    // The speed is checked before the size.
    assert!(matches!(Frame::from_rgba(1, 1, &[0; 3], Some(0)), Err(GifError::RangeError)));
}

#[test]
fn from_hex_expands_to_rgba() {
    let f = Frame::from_hex(1, 2, vec!["#FFF".to_string(), "#00000080".to_string()], None).unwrap();
    assert_eq!(f.buf_type(), FrameBufType::Hex);
    assert_eq!(f.get_buffer(), vec![255, 255, 255, 255, 0, 0, 0, 128]);
    assert!(matches!(Frame::from_hex(1, 1, vec!["#12".to_string()], None), Err(GifError::InvalidInput)));
    assert!(matches!(Frame::from_hex(1, 1, vec!["#XYZ".to_string()], None), Err(GifError::ParseError)));
    assert!(matches!(Frame::from_hex(2, 1, vec!["#FFF".to_string()], None), Err(GifError::SizeMismatch)));
}

#[test]
fn from_indexed_pixels_keeps_palette_and_transparent() {
    let f = Frame::from_indexed_pixels(2, 1, &[0, 1], Some(&[1, 2, 3, 4, 5, 6]), Some(1)).unwrap();
    assert_eq!(f.buf_type(), FrameBufType::IndexedPixels);
    assert_eq!(f.transparent, Some(1));
    assert_eq!(f.get_palette(), Some(vec![1, 2, 3, 4, 5, 6]));
    assert_eq!(f.speed(), None);
    assert!(matches!(Frame::from_indexed_pixels(2, 2, &[0, 1], None, None), Err(GifError::SizeMismatch)));
}

#[test]
fn set_buffer_revalidates() {
    let mut f = Frame::from_rgb(1, 1, &[1, 2, 3], None).unwrap();
    assert_eq!(f.set_buffer(&[1, 2]), Err(GifError::SizeMismatch));
    assert_eq!(f.get_buffer(), vec![1, 2, 3]);
    assert_eq!(f.set_buffer(&[7, 8, 9]), Ok(()));
    assert_eq!(f.get_buffer(), vec![7, 8, 9]);
}

#[test]
fn set_palette_replaces_wholesale() {
    let mut f = Frame::from_rgb(1, 1, &[1, 2, 3], None).unwrap();
    f.set_palette(Some(&[9, 9, 9]));
    assert_eq!(f.get_palette(), Some(vec![9, 9, 9]));
    f.set_palette(None);
    assert_eq!(f.get_palette(), None);
}

#[test]
fn disposal_mapping_round_trips() {
    for d in [DisposalMethod::Any, DisposalMethod::Keep, DisposalMethod::Background, DisposalMethod::Previous] {
        assert_eq!(from_gif_disposal(to_gif_disposal(d)), d);
    }
    assert_eq!(to_gif_disposal(DisposalMethod::Background), gif::DisposalMethod::Background);
    assert_eq!(from_gif_disposal(gif::DisposalMethod::Any), DisposalMethod::Any);
}

#[test]
fn to_gif_frame_copies_settings() {
    let mut f = Frame::from_indexed_pixels(2, 1, &[0, 1], Some(&[0, 0, 0, 255, 255, 255]), Some(1)).unwrap();
    f.delay = 7;
    f.dispose = DisposalMethod::Previous;
    f.top = 3;
    f.left = 4;
    f.needs_user_input = true;
    f.interlaced = true;
    let g = f.to_gif_frame();
    assert!(g.interlaced);
    assert_eq!(g.width, 2);
    assert_eq!(g.height, 1);
    assert_eq!(g.delay, 7);
    assert_eq!(g.dispose, gif::DisposalMethod::Previous);
    assert_eq!((g.top, g.left), (3, 4));
    assert!(g.needs_user_input);
    assert_eq!(g.transparent, Some(1));
    assert_eq!(g.palette, Some(vec![0, 0, 0, 255, 255, 255]));
    assert_eq!(&*g.buffer, &[0, 1]);
}

#[test]
fn to_gif_frame_quantises_rgba() {
    let f = Frame::from_rgba(2, 1, &[255, 0, 0, 255, 0, 0, 255, 0], None).unwrap();
    let g = f.to_gif_frame();
    assert_eq!(g.buffer.len(), 2);
    assert!(g.palette.is_some());
    assert!(g.transparent.is_some());
    let f = Frame::from_rgb(2, 1, &[255, 0, 0, 0, 0, 255], Some(5)).unwrap();
    let g = f.to_gif_frame();
    assert_eq!(g.buffer.len(), 2);
    assert_eq!(g.transparent, None);
    assert!(!g.interlaced);
    // Same pixels and speed as the codec's own constructor.
    let direct = gif::Frame::from_rgb_speed(2, 1, &[255, 0, 0, 0, 0, 255], 5);
    assert_eq!(g.buffer, direct.buffer);
    assert_eq!(g.palette, direct.palette);
    let f = Frame::from_rgba(2, 1, &[1, 2, 3, 255, 4, 5, 6, 255], None).unwrap();
    let mut px = vec![1, 2, 3, 255, 4, 5, 6, 255];
    let direct = gif::Frame::from_rgba_speed(2, 1, &mut px, 10);
    assert_eq!(f.to_gif_frame().palette, direct.palette);
}

#[test]
fn from_gif_frame_copies_fields() {
    let g = gif::Frame {
        delay: 5,
        dispose: gif::DisposalMethod::Background,
        transparent: Some(2),
        width: 1,
        height: 2,
        top: 1,
        left: 1,
        buffer: std::borrow::Cow::Owned(vec![4, 5]),
        ..gif::Frame::default()
    };
    let f = Frame::from_gif_frame(&g, FrameBufType::IndexedPixels);
    assert_eq!(f.delay, 5);
    assert_eq!(f.dispose, DisposalMethod::Background);
    assert_eq!(f.transparent, Some(2));
    assert_eq!((f.width(), f.height()), (1, 2));
    assert_eq!(f.get_buffer(), vec![4, 5]);
    assert_eq!(f.speed(), None);
}
