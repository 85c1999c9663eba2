use vstd::prelude::*;
use color_quant::NeuQuant as Network;
use crate::error::GifError;

verus! {

#[verifier::external_type_specification]
#[verifier::external_body]
pub struct ExNetwork(Network);

/// The colour map that a trained network holds, one RGBA entry per colour.
pub uninterp spec fn color_map(q: Network) -> Seq<(u8, u8, u8, u8)>;

/// The entry that `color_quant::NeuQuant` picks for an RGBA pixel: both its
/// `index_of` and its `map_pixel` run the same search on the colour map.
pub uninterp spec fn best_index(q: Network, pixel: Seq<u8>) -> int;

/// The largest colour count the network handles: above it, its starting
/// neighbourhood radius (a sixty-fourth of the count, scaled by 64 and by
/// 1/8) overflows an `i32`.
pub const MAX_COLORS: u32 = 268435455;

/// The colour map's entries, four bytes each.
pub open spec fn rgba_flat(cm: Seq<(u8, u8, u8, u8)>) -> Seq<u8>
    decreases cm.len(),
{
    if cm.len() == 0 {
        seq![]
    } else {
        let c = cm.last();
        rgba_flat(cm.drop_last()) + seq![c.0, c.1, c.2, c.3]
    }
}

/// The colour map's entries without alpha, three bytes each.
pub open spec fn rgb_flat(cm: Seq<(u8, u8, u8, u8)>) -> Seq<u8>
    decreases cm.len(),
{
    if cm.len() == 0 {
        seq![]
    } else {
        let c = cm.last();
        rgb_flat(cm.drop_last()) + seq![c.0, c.1, c.2]
    }
}

/// An entry as four bytes.
pub open spec fn entry_bytes(c: (u8, u8, u8, u8)) -> Seq<u8> {
    seq![c.0, c.1, c.2, c.3]
}

/// The bytes of some entry of the colour map.
pub open spec fn is_entry_of(px: Seq<u8>, cm: Seq<(u8, u8, u8, u8)>) -> bool {
    exists|i: int| 0 <= i < cm.len() && px == entry_bytes(#[trigger] cm[i])
}

/// The bytes of the entry picked for `pixel`.
pub open spec fn is_picked(px: Seq<u8>, q: Network, pixel: Seq<u8>) -> bool {
    &&& 0 <= best_index(q, pixel) < color_map(q).len()
    &&& px == entry_bytes(color_map(q)[best_index(q, pixel)])
}

/// Relies on `color_quant::NeuQuant::new`: a network of `colors` entries
/// trained on the RGBA sample. It divides by `sample` and subtracts 1 from
/// it, counts down from `colors`, and scales `colors / 8` by 64 in an `i32`:
/// so `sample` is neither 0 nor `i32::MIN`, and `colors` is in
/// 1..=`MAX_COLORS`.
#[verifier::external_body]
fn network_new(sample: i32, colors: usize, pixels: &[u8]) -> (q: Network)
    requires
        sample != 0,
        sample != i32::MIN,
        1 <= colors <= MAX_COLORS,
    ensures
        color_map(q).len() == colors,
{
    Network::new(sample, colors, pixels)
}

/// Relies on `color_quant::NeuQuant::index_of`: the index of an entry of the
/// colour map; it asserts that the pixel has four bytes.
#[verifier::external_body]
fn network_index_of(q: &Network, pixel: &[u8]) -> (i: usize)
    requires
        pixel@.len() == 4,
        color_map(*q).len() >= 1,
    ensures
        i < color_map(*q).len(),
        i == best_index(*q, pixel@),
{
    q.index_of(pixel)
}

/// Relies on `color_quant::NeuQuant::map_pixel`: the pixel becomes an entry
/// of the colour map; it asserts that the pixel has four bytes.
#[verifier::external_body]
fn network_map_pixel(q: &Network, pixel: &[u8]) -> (r: Vec<u8>)
    requires
        pixel@.len() == 4,
        color_map(*q).len() >= 1,
    ensures
        is_picked(r@, *q, pixel@),
{
    let mut mapped = pixel.to_vec();
    q.map_pixel(&mut mapped);
    mapped
}

/// Relies on `color_quant::NeuQuant::lookup`: the entry at `idx`, if there
/// is one.
#[verifier::external_body]
fn network_lookup(q: &Network, idx: usize) -> (r: Option<[u8; 4]>)
    ensures
        r is Some <==> idx < color_map(*q).len(),
        r is Some ==> r->Some_0@ == entry_bytes(color_map(*q)[idx as int]),
{
    q.lookup(idx)
}

/// Relies on `color_quant::NeuQuant::color_map_rgba`.
#[verifier::external_body]
fn network_color_map_rgba(q: &Network) -> (r: Vec<u8>)
    ensures
        r@ == rgba_flat(color_map(*q)),
{
    q.color_map_rgba()
}

/// Relies on `color_quant::NeuQuant::color_map_rgb`.
#[verifier::external_body]
fn network_color_map_rgb(q: &Network) -> (r: Vec<u8>)
    ensures
        r@ == rgb_flat(color_map(*q)),
{
    q.color_map_rgb()
}

/// A palette of at most a given number of colours, learnt from a sample of
/// RGBA pixels.
pub struct NeuQuant {
    w: Network,
}

impl NeuQuant {
    /// The learnt palette.
    pub closed spec fn colors(&self) -> Seq<(u8, u8, u8, u8)> {
        color_map(self.w)
    }

    /// The entry picked for an RGBA pixel, by the same search for
    /// `index_of` and `map_pixel`.
    pub closed spec fn best_index(&self, pixel: Seq<u8>) -> int {
        best_index(self.w, pixel)
    }

    /// Learns a palette of `colors` entries from RGBA `pixels`; larger
    /// `sample` values look at fewer pixels. `sample` may be neither 0 nor
    /// `i32::MIN`; `colors` must be in 1..=`MAX_COLORS`.
    pub fn new(sample: i32, colors: u32, pixels: &[u8]) -> (r: Result<NeuQuant, GifError>)
        ensures
            sample == 0 || sample == i32::MIN || colors == 0 || colors > MAX_COLORS
                <==> r == Err::<NeuQuant, GifError>(GifError::RangeError),
            r is Ok <==> sample != 0 && sample != i32::MIN && 1 <= colors <= MAX_COLORS,
            r is Ok ==> r->Ok_0.colors().len() == colors,
    {
        if sample == 0 || sample == i32::MIN || colors == 0 || colors > MAX_COLORS {
            return Err(GifError::RangeError);
        }
        Ok(NeuQuant { w: network_new(sample, colors as usize, pixels) })
    }

    /// Replaces an RGBA pixel with the palette entry that matches it best.
    pub fn map_pixel(&self, pixel: &mut Vec<u8>)
        requires
            old(pixel)@.len() == 4,
            self.colors().len() >= 1,
        ensures
            final(pixel)@ == entry_bytes(self.colors()[self.best_index(old(pixel)@)]),
            is_entry_of(final(pixel)@, self.colors()),
    {
        *pixel = network_map_pixel(&self.w, pixel.as_slice());
    }

    /// The index of the palette entry that matches an RGBA pixel best.
    pub fn index_of(&self, pixel: &[u8]) -> (r: u32)
        requires
            pixel@.len() == 4,
            1 <= self.colors().len() <= u32::MAX,
        ensures
            r < self.colors().len(),
            r == self.best_index(pixel@),
    {
        network_index_of(&self.w, pixel) as u32
    }

    /// The palette entry at `idx` as RGBA bytes, if there is one.
    pub fn lookup(&self, idx: u32) -> (r: Option<Vec<u8>>)
        ensures
            r is Some <==> idx < self.colors().len(),
            r is Some ==> r->Some_0@ == entry_bytes(self.colors()[idx as int]),
    {
        match network_lookup(&self.w, idx as usize) {
            Some(c) => Some(vec![c[0], c[1], c[2], c[3]]),
            None => None,
        }
    }

    /// The palette as RGBA bytes, four per entry.
    pub fn color_map_rgba(&self) -> (r: Vec<u8>)
        ensures
            r@ == rgba_flat(self.colors()),
    {
        network_color_map_rgba(&self.w)
    }

    /// The palette as RGB bytes, three per entry.
    pub fn color_map_rgb(&self) -> (r: Vec<u8>)
        ensures
            r@ == rgb_flat(self.colors()),
    {
        network_color_map_rgb(&self.w)
    }
}

} // verus!
