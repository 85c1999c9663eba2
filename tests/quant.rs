use gifcodec::error::GifError;
use gifcodec::quant::{NeuQuant, MAX_COLORS};

fn sample() -> Vec<u8> {
    let mut px = Vec::new();
    for i in 0..64u32 {
        px.extend_from_slice(&[(i * 4) as u8, (255 - i * 4) as u8, (i * 2) as u8, 255]);
    }
    px
}

#[test]
fn neuquant_palette_sizes() {
    let q = NeuQuant::new(1, 16, &sample()).unwrap();
    assert_eq!(q.color_map_rgba().len(), 64);
    assert_eq!(q.color_map_rgb().len(), 48);
    assert!(q.lookup(15).is_some());
    assert!(q.lookup(16).is_none());
    let rgba = q.color_map_rgba();
    assert_eq!(q.lookup(3).unwrap(), rgba[12..16].to_vec());
}

#[test]
fn neuquant_maps_to_its_entries() {
    let q = NeuQuant::new(1, 16, &sample()).unwrap();
    let p = vec![40, 200, 20, 255];
    let i = q.index_of(&p);
    assert!(i < 16);
    let mut m = p.clone();
    q.map_pixel(&mut m);
    assert_eq!(m, q.lookup(i).unwrap());
}

#[test]
fn neuquant_rejects_zero_settings() {
    assert!(matches!(NeuQuant::new(0, 16, &sample()), Err(GifError::RangeError)));
    assert!(matches!(NeuQuant::new(1, 0, &sample()), Err(GifError::RangeError)));
    assert!(matches!(NeuQuant::new(i32::MIN, 16, &sample()), Err(GifError::RangeError)));
    assert!(matches!(NeuQuant::new(1, MAX_COLORS + 1, &sample()), Err(GifError::RangeError)));
    assert!(NeuQuant::new(-3, 16, &sample()).is_ok());
}
