use vstd::prelude::*;
use crate::decoder::loops_of;
use crate::encoder::repeat_of;
use crate::enums::DisposalMethod;
use crate::frame::{gif_disposal, own_disposal};
use crate::color::{
    all_doubled, all_hex, byte_hex, color_hex, decode_hex, decode_hexes, digit_pair, digit_twice,
    digits_rgba, group, indexed_color, indexed_hexes, indexed_rgba, hex_char, hex_value, is_doubled, is_hex_digit, long_body, rgba_hex, rgba_hexes,
    short_body, shown_channels, strip_hash,
};

verus! {

proof fn lemma_hex_char_value(n: int)
    requires
        0 <= n < 16,
    ensures
        is_hex_digit(hex_char(n)),
        hex_value(hex_char(n)) == n,
        hex_char(n) != '#',
{
}

proof fn lemma_byte_hex(b: u8)
    ensures
        all_hex(byte_hex(b)),
        digit_pair(byte_hex(b), 0) == b,
{
    lemma_hex_char_value((b / 16) as int);
    lemma_hex_char_value((b % 16) as int);
}

proof fn lemma_doubled_digit(b: u8)
    requires
        is_doubled(b),
    ensures
        is_hex_digit(hex_char((b % 16) as int)),
        digit_twice(seq![hex_char((b % 16) as int)], 0) == b,
{
    lemma_hex_char_value((b % 16) as int);
}

/// A string that starts with a hex digit keeps all of it after `#` is stripped.
proof fn lemma_strip_one_hash(body: Seq<char>)
    requires
        body.len() > 0,
        is_hex_digit(body[0]),
    ensures
        strip_hash(seq!['#'] + body) == body,
{
    let s = seq!['#'] + body;
    assert(body[0] != '#');
    assert(strip_hash(body) == body);
    assert(s.drop_first() == body);
}

proof fn lemma_long_pixel(px: Seq<u8>)
    requires
        px.len() == 4,
    ensures
        decode_hex(color_hex(px, false), true) == Ok::<Seq<u8>, crate::error::GifError>(px),
{
    reveal_with_fuel(long_body, 5);
    assert(px.drop_last().drop_last().drop_last().drop_last() == Seq::<u8>::empty());
    let body = long_body(px);
    assert(body == byte_hex(px[0]) + byte_hex(px[1]) + byte_hex(px[2]) + byte_hex(px[3]));
    lemma_byte_hex(px[0]);
    lemma_byte_hex(px[1]);
    lemma_byte_hex(px[2]);
    lemma_byte_hex(px[3]);
    lemma_strip_one_hash(body);
    assert(all_hex(body));
    assert(digits_rgba(body) == px);
}

/// Writing RGBA bytes as hex with alpha always shown and no short forms, then
/// reading the strings back, gives the same bytes.
pub proof fn rgba_hex_round_trip(pixels: Seq<u8>)
    requires
        pixels.len() % 4 == 0,
    ensures
        decode_hexes(rgba_hexes(pixels, true, false), true) == Ok::<Seq<u8>, crate::error::GifError>(pixels),
    decreases pixels.len(),
{
    let hs = rgba_hexes(pixels, true, false);
    if pixels.len() == 0 {
        assert(hs.len() == 0);
        assert(pixels =~= Seq::<u8>::empty());
    } else {
        let m = pixels.len() - 4;
        let prefix = pixels.take(m);
        rgba_hex_round_trip(prefix);
        assert forall|i: int| 0 <= i < m / 4 implies group(prefix, 4, i) == group(pixels, 4, i) by {
            assert(group(prefix, 4, i) =~= group(pixels, 4, i));
        }
        assert(hs.drop_last() =~= rgba_hexes(prefix, true, false));
        let last = group(pixels, 4, pixels.len() / 4 - 1);
        assert(last == pixels.subrange(m, pixels.len() as int));
        assert(shown_channels(last, true) == last);
        lemma_long_pixel(last);
        assert(hs.last() == rgba_hex(last, true, false));
        assert(decode_hex(hs.last(), true) == Ok::<Seq<u8>, crate::error::GifError>(last));
        assert(prefix + last =~= pixels);
    }
}


/// A hex digit in upper case.
pub open spec fn upper_digit(c: char) -> char {
    if 97 <= c as u32 <= 102 {
        ((c as u32) - 32) as char
    } else {
        c
    }
}

proof fn lemma_digit_to_upper(c: char)
    requires
        is_hex_digit(c),
    ensures
        0 <= hex_value(c) < 16,
        hex_char(hex_value(c)) == upper_digit(c),
{
}

proof fn lemma_pair_hex(d: Seq<char>, i: int)
    requires
        0 <= i,
        i + 1 < d.len(),
        is_hex_digit(d[i]),
        is_hex_digit(d[i + 1]),
    ensures
        byte_hex(digit_pair(d, i)) == seq![upper_digit(d[i]), upper_digit(d[i + 1])],
{
    lemma_digit_to_upper(d[i]);
    lemma_digit_to_upper(d[i + 1]);
    let b = digit_pair(d, i);
    assert(b / 16 == hex_value(d[i]));
    assert(b % 16 == hex_value(d[i + 1]));
}

/// Reading a 6- or 8-digit hex colour and writing it back, with alpha shown
/// exactly when the input had it, gives the input's digits in upper case
/// after a single `#`.
pub proof fn hex_reencodes(s: Seq<char>)
    requires
        all_hex(strip_hash(s)),
        strip_hash(s).len() == 6 || strip_hash(s).len() == 8,
    ensures
        decode_hexes(seq![s], true) is Ok,
        rgba_hexes(decode_hexes(seq![s], true)->Ok_0, strip_hash(s).len() == 8, false)
            == seq![seq!['#'] + strip_hash(s).map_values(|c: char| upper_digit(c))],
{
    let d = strip_hash(s);
    let b = digits_rgba(d);
    let hs = seq![s];
    assert(hs.drop_last() == Seq::<Seq<char>>::empty());
    assert(decode_hexes(hs.drop_last(), true) == Ok::<Seq<u8>, crate::error::GifError>(Seq::<u8>::empty()));
    assert(hs.last() == s);
    assert(decode_hex(s, true) == Ok::<Seq<u8>, crate::error::GifError>(b));
    assert(decode_hexes(hs, true) == Ok::<Seq<u8>, crate::error::GifError>(Seq::<u8>::empty() + b));
    assert(Seq::<u8>::empty() + b == b);
    let always = d.len() == 8;
    assert(group(b, 4, 0) == b);
    let out = rgba_hexes(b, always, false);
    assert(out.len() == 1);
    lemma_pair_hex(d, 0);
    lemma_pair_hex(d, 2);
    lemma_pair_hex(d, 4);
    let up = d.map_values(|c: char| upper_digit(c));
    reveal_with_fuel(long_body, 5);
    if always {
        lemma_pair_hex(d, 6);
        let ch = shown_channels(b, always);
        assert(ch == b);
        assert(ch.drop_last().drop_last().drop_last().drop_last() == Seq::<u8>::empty());
        assert(long_body(ch) =~= up);
    } else {
        let ch = shown_channels(b, always);
        assert(ch == b.take(3));
        assert(ch.drop_last().drop_last().drop_last() == Seq::<u8>::empty());
        assert(long_body(ch) =~= up);
    }
    assert(out =~= seq![seq!['#'] + up]);
}

/// A colour whose channels are all doubled is written in short form (`#RGB`
/// or `#RGBA`), and reading that string back gives the same bytes.
pub proof fn short_hex_round_trip(px: Seq<u8>, always_alpha: bool)
    requires
        px.len() == 4,
        all_doubled(px),
    ensures
        rgba_hexes(px, always_alpha, true).len() == 1,
        rgba_hexes(px, always_alpha, true)[0].len() == 4 || rgba_hexes(px, always_alpha, true)[0].len() == 5,
        decode_hexes(rgba_hexes(px, always_alpha, true), true) == Ok::<Seq<u8>, crate::error::GifError>(px),
{
    let hs = rgba_hexes(px, always_alpha, true);
    assert(group(px, 4, 0) == px);
    let ch = shown_channels(px, always_alpha);
    assert(all_doubled(ch));
    lemma_doubled_digit(px[0]);
    lemma_doubled_digit(px[1]);
    lemma_doubled_digit(px[2]);
    lemma_doubled_digit(px[3]);
    reveal_with_fuel(short_body, 5);
    let body = short_body(ch);
    if !always_alpha && px[3] == 255 {
        assert(ch.drop_last().drop_last().drop_last() == Seq::<u8>::empty());
        assert(body =~= seq![hex_char((px[0] % 16) as int), hex_char((px[1] % 16) as int), hex_char((px[2] % 16) as int)]);
    } else {
        assert(ch.drop_last().drop_last().drop_last().drop_last() == Seq::<u8>::empty());
        assert(body =~= seq![hex_char((px[0] % 16) as int), hex_char((px[1] % 16) as int), hex_char((px[2] % 16) as int), hex_char((px[3] % 16) as int)]);
    }
    assert(hs[0] == seq!['#'] + body);
    lemma_strip_one_hash(body);
    assert(all_hex(body));
    assert(digit_twice(body, 0) == px[0]);
    assert(digit_twice(body, 1) == px[1]);
    assert(digit_twice(body, 2) == px[2]);
    assert(digits_rgba(body) =~= px);
    assert(hs.drop_last() == Seq::<Seq<char>>::empty());
    assert(decode_hexes(hs.drop_last(), true) == Ok::<Seq<u8>, crate::error::GifError>(Seq::<u8>::empty()));
    assert(hs.last() == hs[0]);
    assert(decode_hex(hs[0], true) == Ok::<Seq<u8>, crate::error::GifError>(px));
    assert(Seq::<u8>::empty() + px == px);
}


/// Handing a disposal method to the codec and reading it back gives the same
/// method, and the other way round: the two mappings are inverse bijections.
pub proof fn disposal_round_trip(d: DisposalMethod, g: gif::DisposalMethod)
    ensures
        own_disposal(gif_disposal(d)) == d,
        gif_disposal(own_disposal(g)) == g,
        gif_disposal(d) == g <==> own_disposal(g) == d,
{
}


/// A loop count handed to the encoder is the count a decoder reports: any
/// negative count reads back as `-1`, for ever.
pub proof fn repeat_round_trip(value: i16)
    ensures
        loops_of(repeat_of(value)) == if value <= -1 { -1i16 } else { value },
{
}


proof fn lemma_indexed_groups(pixels: Seq<u8>, palette: Seq<u8>, t: bool)
    ensures
        indexed_rgba(pixels, palette, t).len() == 4 * pixels.len(),
        forall|i: int| 0 <= i < pixels.len() ==> #[trigger] group(indexed_rgba(pixels, palette, t), 4, i)
            == indexed_color(palette, pixels[i], t),
    decreases pixels.len(),
{
    if pixels.len() > 0 {
        let prefix = pixels.drop_last();
        lemma_indexed_groups(prefix, palette, t);
        let all = indexed_rgba(pixels, palette, t);
        let head = indexed_rgba(prefix, palette, t);
        assert forall|i: int| 0 <= i < pixels.len() implies #[trigger] group(all, 4, i)
            == indexed_color(palette, pixels[i], t) by {
            if i < prefix.len() {
                assert(group(all, 4, i) =~= group(head, 4, i));
            } else {
                assert(group(all, 4, i) =~= indexed_color(palette, pixels.last(), t));
            }
        }
    }
}

/// Writing indexed pixels as hex gives what writing their RGBA expansion as
/// hex gives.
pub proof fn indexed_hex_is_rgba_hex(pixels: Seq<u8>, palette: Seq<u8>, t: bool, always_alpha: bool, short: bool)
    ensures
        indexed_rgba(pixels, palette, t).len() % 4 == 0,
        rgba_hexes(indexed_rgba(pixels, palette, t), always_alpha, short)
            == indexed_hexes(pixels, palette, t, always_alpha, short),
{
    lemma_indexed_groups(pixels, palette, t);
    assert(rgba_hexes(indexed_rgba(pixels, palette, t), always_alpha, short)
        =~= indexed_hexes(pixels, palette, t, always_alpha, short));
}

} // verus!
