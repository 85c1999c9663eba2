use gifcodec::color::{hex_to_rgb, hex_to_rgba, indexed_to_hex, indexed_to_rgba, rgb_to_hex, rgba_to_hex};
use gifcodec::error::GifError;

fn strings(v: &[&str]) -> Vec<String> {
    v.iter().map(|s| s.to_string()).collect()
}

#[test]
fn rgba_to_hex_drops_opaque_alpha_only() {
    let r = rgba_to_hex(&[255, 0, 0, 255, 128, 0, 128, 128], Some(false), Some(false)).unwrap();
    assert_eq!(r, vec!["#FF0000".to_string(), "#80008080".to_string()]);
}

#[test]
fn rgba_to_hex_documented_example() {
    let r = rgba_to_hex(&[255, 0, 0, 255, 255, 128, 0, 128], None, None).unwrap();
    assert_eq!(r, strings(&["#FF0000", "#FF800080"]));
}

#[test]
fn rgba_to_hex_always_alpha() {
    let r = rgba_to_hex(&[1, 2, 3, 255], Some(true), None).unwrap();
    assert_eq!(r, strings(&["#010203FF"]));
}

#[test]
fn rgba_to_hex_short_forms() {
    let r = rgba_to_hex(&[255, 255, 255, 255, 0x11, 0x22, 0x33, 0x44, 0x11, 0x22, 0x34, 0xFF], None, Some(true)).unwrap();
    assert_eq!(r, strings(&["#FFF", "#1234", "#112234"]));
    let r = rgba_to_hex(&[0, 0, 0, 255], Some(true), Some(true)).unwrap();
    assert_eq!(r, strings(&["#000F"]));
}

#[test]
fn rgba_to_hex_rejects_partial_pixel() {
    assert_eq!(rgba_to_hex(&[1, 2, 3], None, None), Err(GifError::InvalidInput));
    assert_eq!(rgba_to_hex(&[], None, None), Ok(vec![]));
}

#[test]
fn rgb_to_hex_examples() {
    assert_eq!(rgb_to_hex(&[255, 0, 0, 255, 128, 0], None).unwrap(), strings(&["#FF0000", "#FF8000"]));
    assert_eq!(rgb_to_hex(&[0x11, 0x22, 0x33, 255, 128, 0], Some(true)).unwrap(), strings(&["#123", "#FF8000"]));
    assert_eq!(rgb_to_hex(&[1, 2], None), Err(GifError::InvalidInput));
}

#[test]
fn hex_to_rgba_full_forms() {
    let r = hex_to_rgba(strings(&["#FF0000FF", "#800080FF"])).unwrap();
    assert_eq!(r, vec![255, 0, 0, 255, 128, 0, 128, 255]);
}

#[test]
fn hex_to_rgba_short_and_opaque_forms() {
    let r = hex_to_rgba(strings(&["#F80", "1234", "#ff8000", "##abc"])).unwrap();
    assert_eq!(
        r,
        vec![255, 136, 0, 255, 0x11, 0x22, 0x33, 0x44, 255, 128, 0, 255, 0xAA, 0xBB, 0xCC, 255]
    );
}

#[test]
fn hex_to_rgba_errors() {
    assert_eq!(hex_to_rgba(strings(&["#12345"])), Err(GifError::InvalidInput));
    assert_eq!(hex_to_rgba(strings(&["#GG0000"])), Err(GifError::ParseError));
    assert_eq!(hex_to_rgba(strings(&["#FFF", "#12", "#GGG"])), Err(GifError::InvalidInput));
    assert_eq!(hex_to_rgba(strings(&["#GGG", "#12"])), Err(GifError::ParseError));
    assert_eq!(hex_to_rgba(vec![]), Ok(vec![]));
}

#[test]
fn hex_to_rgb_expands_short_form() {
    let r = hex_to_rgb(strings(&["#FF0000", "#F80"])).unwrap();
    assert_eq!(r, vec![255, 0, 0, 255, 136, 0]);
}

#[test]
fn hex_to_rgb_errors() {
    assert_eq!(hex_to_rgb(strings(&["#FFFF"])), Err(GifError::InvalidInput));
    assert_eq!(hex_to_rgb(strings(&["#FF0000FF"])), Err(GifError::InvalidInput));
    assert_eq!(hex_to_rgb(strings(&["#FF00Z0"])), Err(GifError::ParseError));
}

#[test]
fn rgba_hex_round_trip_on_values() {
    let px: Vec<u8> = vec![0, 1, 2, 3, 250, 128, 17, 255, 9, 200, 77, 0];
    let hex = rgba_to_hex(&px, Some(true), Some(false)).unwrap();
    assert_eq!(hex_to_rgba(hex).unwrap(), px);
}

#[test]
fn hex_reencodes_in_upper_case() {
    let rgba = hex_to_rgba(strings(&["#a0b1c2"])).unwrap();
    assert_eq!(rgba_to_hex(&rgba, Some(false), Some(false)).unwrap(), strings(&["#A0B1C2"]));
    let rgba = hex_to_rgba(strings(&["a0b1c2d3"])).unwrap();
    assert_eq!(rgba_to_hex(&rgba, Some(true), Some(false)).unwrap(), strings(&["#A0B1C2D3"]));
}

#[test]
fn short_hex_round_trip_on_values() {
    let px: Vec<u8> = vec![0x33, 0x66, 0x99, 0xCC];
    let hex = rgba_to_hex(&px, None, Some(true)).unwrap();
    assert_eq!(hex, strings(&["#369C"]));
    assert_eq!(hex_to_rgba(hex).unwrap(), px);
    let px: Vec<u8> = vec![0x33, 0x66, 0x99, 0xFF];
    let hex = rgba_to_hex(&px, None, Some(true)).unwrap();
    assert_eq!(hex, strings(&["#369"]));
    assert_eq!(hex_to_rgba(hex).unwrap(), px);
}

#[test]
fn indexed_to_rgba_alpha_follows_transparent_setting() {
    let palette = [1, 2, 3, 4, 5, 6];
    assert_eq!(indexed_to_rgba(&[0, 1], &palette, None), vec![1, 2, 3, 0, 4, 5, 6, 0]);
    assert_eq!(indexed_to_rgba(&[1, 1], &palette, Some(0)), vec![4, 5, 6, 255, 4, 5, 6, 255]);
    assert_eq!(indexed_to_rgba(&[], &palette, None), Vec::<u8>::new());
}

#[test]
fn indexed_to_hex_examples() {
    let palette = [0, 0, 0, 255, 255, 255];
    assert_eq!(indexed_to_hex(&[1], &palette, Some(0), None, Some(true)), strings(&["#FFF"]));
    assert_eq!(indexed_to_hex(&[1], &palette, None, None, Some(true)), strings(&["#FFF0"]));
    assert_eq!(indexed_to_hex(&[1, 0], &palette, None, None, None), strings(&["#FFFFFF00", "#00000000"]));
    assert_eq!(indexed_to_hex(&[0], &palette, Some(3), Some(true), None), strings(&["#000000FF"]));
}
