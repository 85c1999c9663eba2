use vstd::prelude::*;
use crate::error::GifError;

verus! {

/// The upper-case hex digit for a value below 16.
pub open spec fn hex_char(n: int) -> char {
    if n < 10 {
        (n + 48) as char
    } else {
        (n + 55) as char
    }
}

/// The two upper-case hex digits of a byte.
pub open spec fn byte_hex(b: u8) -> Seq<char> {
    seq![hex_char((b / 16) as int), hex_char((b % 16) as int)]
}

/// A byte whose two hex digits are the same (`0x00`, `0x11`, ..., `0xFF`).
pub open spec fn is_doubled(b: u8) -> bool {
    b / 16 == b % 16
}

/// Every channel of a colour can be written with one hex digit.
pub open spec fn all_doubled(ch: Seq<u8>) -> bool {
    forall|i: int| 0 <= i < ch.len() ==> is_doubled(#[trigger] ch[i])
}

/// Two digits per channel.
pub open spec fn long_body(ch: Seq<u8>) -> Seq<char>
    decreases ch.len(),
{
    if ch.len() == 0 {
        seq![]
    } else {
        long_body(ch.drop_last()) + byte_hex(ch.last())
    }
}

/// One digit per channel.
pub open spec fn short_body(ch: Seq<u8>) -> Seq<char>
    decreases ch.len(),
{
    if ch.len() == 0 {
        seq![]
    } else {
        short_body(ch.drop_last()) + seq![hex_char((ch.last() % 16) as int)]
    }
}

/// `#` followed by the channels in hex: one digit each where `short` is
/// allowed and every channel is doubled, two digits each otherwise.
pub open spec fn color_hex(ch: Seq<u8>, short: bool) -> Seq<char> {
    if short && all_doubled(ch) {
        seq!['#'] + short_body(ch)
    } else {
        seq!['#'] + long_body(ch)
    }
}

/// The channels of an RGBA pixel that its hex form shows: alpha is left out
/// when it is 255 and not always wanted.
pub open spec fn shown_channels(px: Seq<u8>, always_alpha: bool) -> Seq<u8> {
    if !always_alpha && px[3] == 255 {
        px.take(3)
    } else {
        px
    }
}

/// The hex form of one RGBA pixel.
pub open spec fn rgba_hex(px: Seq<u8>, always_alpha: bool, short: bool) -> Seq<char> {
    color_hex(shown_channels(px, always_alpha), short)
}

/// The `i`-th group of `k` bytes.
pub open spec fn group(s: Seq<u8>, k: int, i: int) -> Seq<u8> {
    s.subrange(k * i, k * i + k)
}

fn digit_str(n: u8) -> (r: &'static str)
    requires
        n < 16,
    ensures
        r@ == seq![hex_char(n as int)],
{
    proof {
        reveal_strlit("0"); reveal_strlit("1"); reveal_strlit("2"); reveal_strlit("3");
        reveal_strlit("4"); reveal_strlit("5"); reveal_strlit("6"); reveal_strlit("7");
        reveal_strlit("8"); reveal_strlit("9"); reveal_strlit("A"); reveal_strlit("B");
        reveal_strlit("C"); reveal_strlit("D"); reveal_strlit("E"); reveal_strlit("F");
    }
    match n {
        0 => "0",
        1 => "1",
        2 => "2",
        3 => "3",
        4 => "4",
        5 => "5",
        6 => "6",
        7 => "7",
        8 => "8",
        9 => "9",
        10 => "A",
        11 => "B",
        12 => "C",
        13 => "D",
        14 => "E",
        _ => "F",
    }
}

/// Whether every channel can be written with one hex digit.
fn can_short(ch: &[u8]) -> (r: bool)
    ensures
        r == all_doubled(ch@),
{
    let mut i: usize = 0;
    while i < ch.len()
        invariant
            i <= ch@.len(),
            forall|j: int| 0 <= j < i ==> is_doubled(#[trigger] ch@[j]),
        decreases ch@.len() - i,
    {
        if ch[i] / 16 != ch[i] % 16 {
            return false;
        }
        i += 1;
    }
    true
}

/// Writes the channels as a hex colour string.
fn format_color(ch: &[u8], allow_short: bool) -> (r: String)
    ensures
        r@ == color_hex(ch@, allow_short),
{
    let short = allow_short && can_short(ch);
    let mut s = String::new();
    proof { reveal_strlit("#"); }
    s.append("#");
    let mut i: usize = 0;
    while i < ch.len()
        invariant
            i <= ch@.len(),
            short ==> s@ == seq!['#'] + short_body(ch@.take(i as int)),
            !short ==> s@ == seq!['#'] + long_body(ch@.take(i as int)),
        decreases ch@.len() - i,
    {
        let b = ch[i];
        proof {
            assert(ch@.take(i + 1).drop_last() == ch@.take(i as int));
        }
        if short {
            s.append(digit_str(b % 16));
        } else {
            s.append(digit_str(b / 16));
            s.append(digit_str(b % 16));
        }
        i += 1;
    }
    proof {
        assert(ch@.take(ch@.len() as int) == ch@);
    }
    s
}


/// Writes one RGBA pixel as a hex colour string.
fn pixel_hex(px: &Vec<u8>, always_alpha: bool, short: bool) -> (r: String)
    requires
        px@.len() == 4,
    ensures
        r@ == rgba_hex(px@, always_alpha, short),
{
    if !always_alpha && px[3] == 255 {
        let ch = vec![px[0], px[1], px[2]];
        proof {
            assert(ch@ == px@.take(3));
        }
        format_color(ch.as_slice(), short)
    } else {
        format_color(px.as_slice(), short)
    }
}

/// The hex form of each RGBA pixel of `pixels`, in order.
pub open spec fn rgba_hexes(pixels: Seq<u8>, always_alpha: bool, short: bool) -> Seq<Seq<char>> {
    Seq::new(pixels.len() / 4, |i: int| rgba_hex(group(pixels, 4, i), always_alpha, short))
}

/// The hex form of each RGB pixel of `pixels`, in order.
pub open spec fn rgb_hexes(pixels: Seq<u8>, short: bool) -> Seq<Seq<char>> {
    Seq::new(pixels.len() / 3, |i: int| color_hex(group(pixels, 3, i), short))
}

/// The views of a sequence of strings.
pub open spec fn views(v: Seq<String>) -> Seq<Seq<char>> {
    v.map_values(|s: String| s@)
}

/// Converts RGBA bytes to hex colour strings, one per pixel. Alpha is shown
/// when `always_include_alpha` is set or when it is not 255; with
/// `allow_short`, a colour whose channels are all doubled gets one digit each.
pub fn rgba_to_hex(rgba: &[u8], always_include_alpha: Option<bool>, allow_short: Option<bool>) -> (r: Result<Vec<String>, GifError>)
    ensures
        rgba@.len() % 4 != 0 <==> r == Err::<Vec<String>, GifError>(GifError::InvalidInput),
        rgba@.len() % 4 == 0 <==> r is Ok,
        r is Ok ==> views(r->Ok_0@) == rgba_hexes(rgba@, always_include_alpha == Some(true), allow_short == Some(true)),
{
    if rgba.len() % 4 != 0 {
        return Err(GifError::InvalidInput);
    }
    let always = match always_include_alpha { Some(b) => b, None => false };
    let short = match allow_short { Some(b) => b, None => false };
    let len = rgba.len();
    let n = len / 4;
    let mut out: Vec<String> = Vec::new();
    let mut i: usize = 0;
    while i < n
        invariant
            n == rgba@.len() / 4,
            4 * n == rgba@.len(),
            len == rgba@.len(),
            rgba@.len() % 4 == 0,
            i <= n,
            out@.len() == i,
            forall|j: int| 0 <= j < i ==> #[trigger] out@[j]@ == rgba_hex(group(rgba@, 4, j), always, short),
        decreases n - i,
    {
        let k = 4 * i;
        let px = vec![rgba[k], rgba[k + 1], rgba[k + 2], rgba[k + 3]];
        proof {
            assert(px@ == group(rgba@, 4, i as int));
        }
        out.push(pixel_hex(&px, always, short));
        i += 1;
    }
    proof {
        assert(views(out@) == rgba_hexes(rgba@, always, short));
    }
    Ok(out)
}

/// Converts RGB bytes to hex colour strings, one per pixel; with
/// `allow_short`, a colour whose channels are all doubled gets one digit each.
pub fn rgb_to_hex(rgb: &[u8], allow_short: Option<bool>) -> (r: Result<Vec<String>, GifError>)
    ensures
        rgb@.len() % 3 != 0 <==> r == Err::<Vec<String>, GifError>(GifError::InvalidInput),
        rgb@.len() % 3 == 0 <==> r is Ok,
        r is Ok ==> views(r->Ok_0@) == rgb_hexes(rgb@, allow_short == Some(true)),
{
    if rgb.len() % 3 != 0 {
        return Err(GifError::InvalidInput);
    }
    let short = match allow_short { Some(b) => b, None => false };
    let len = rgb.len();
    let n = len / 3;
    let mut out: Vec<String> = Vec::new();
    let mut i: usize = 0;
    while i < n
        invariant
            n == rgb@.len() / 3,
            3 * n == rgb@.len(),
            len == rgb@.len(),
            rgb@.len() % 3 == 0,
            i <= n,
            out@.len() == i,
            forall|j: int| 0 <= j < i ==> #[trigger] out@[j]@ == color_hex(group(rgb@, 3, j), short),
        decreases n - i,
    {
        let k = 3 * i;
        let ch = vec![rgb[k], rgb[k + 1], rgb[k + 2]];
        proof {
            assert(ch@ == group(rgb@, 3, i as int));
        }
        out.push(format_color(ch.as_slice(), short));
        i += 1;
    }
    proof {
        assert(views(out@) == rgb_hexes(rgb@, short));
    }
    Ok(out)
}


/// A base-16 digit, either case.
pub open spec fn is_hex_digit(c: char) -> bool {
    let v = c as u32;
    (48 <= v <= 57) || (65 <= v <= 70) || (97 <= v <= 102)
}

/// The value of a base-16 digit.
pub open spec fn hex_value(c: char) -> int {
    let v = c as u32 as int;
    if v <= 57 {
        v - 48
    } else if v <= 70 {
        v - 55
    } else {
        v - 87
    }
}

/// The string without its leading `#` characters.
pub open spec fn strip_hash(s: Seq<char>) -> Seq<char>
    decreases s.len(),
{
    if s.len() > 0 && s[0] == '#' {
        strip_hash(s.drop_first())
    } else {
        s
    }
}

pub open spec fn all_hex(d: Seq<char>) -> bool {
    forall|i: int| 0 <= i < d.len() ==> is_hex_digit(#[trigger] d[i])
}

/// The byte written by the two digits at `i` and `i + 1`.
pub open spec fn digit_pair(d: Seq<char>, i: int) -> u8 {
    (16 * hex_value(d[i]) + hex_value(d[i + 1])) as u8
}

/// The byte written by the digit at `i` repeated (`8` stands for `88`).
pub open spec fn digit_twice(d: Seq<char>, i: int) -> u8 {
    (17 * hex_value(d[i])) as u8
}

/// The RGBA bytes of a colour's digits, of which there are 3, 4, 6 or 8;
/// forms without alpha are fully opaque.
pub open spec fn digits_rgba(d: Seq<char>) -> Seq<u8> {
    if d.len() == 8 {
        seq![digit_pair(d, 0), digit_pair(d, 2), digit_pair(d, 4), digit_pair(d, 6)]
    } else if d.len() == 6 {
        seq![digit_pair(d, 0), digit_pair(d, 2), digit_pair(d, 4), 255u8]
    } else if d.len() == 4 {
        seq![digit_twice(d, 0), digit_twice(d, 1), digit_twice(d, 2), digit_twice(d, 3)]
    } else {
        seq![digit_twice(d, 0), digit_twice(d, 1), digit_twice(d, 2), 255u8]
    }
}

/// The digit counts accepted for a colour with alpha (`alpha`) or without.
pub open spec fn accepted_len(n: int, alpha: bool) -> bool {
    if alpha {
        n == 3 || n == 4 || n == 6 || n == 8
    } else {
        n == 3 || n == 6
    }
}

/// The bytes of one hex colour: four (RGBA) with `alpha`, three (RGB) without.
pub open spec fn decode_hex(s: Seq<char>, alpha: bool) -> Result<Seq<u8>, GifError> {
    let d = strip_hash(s);
    if !accepted_len(d.len() as int, alpha) {
        Err(GifError::InvalidInput)
    } else if !all_hex(d) {
        Err(GifError::ParseError)
    } else if alpha {
        Ok(digits_rgba(d))
    } else {
        Ok(digits_rgba(d).take(3))
    }
}

/// The bytes of all colours in order, or the error of the first that fails.
pub open spec fn decode_hexes(hs: Seq<Seq<char>>, alpha: bool) -> Result<Seq<u8>, GifError>
    decreases hs.len(),
{
    if hs.len() == 0 {
        Ok(seq![])
    } else {
        match decode_hexes(hs.drop_last(), alpha) {
            Err(e) => Err(e),
            Ok(prefix) => match decode_hex(hs.last(), alpha) {
                Err(e) => Err(e),
                Ok(b) => Ok(prefix + b),
            },
        }
    }
}

/// A byte vector result seen as a sequence.
pub open spec fn bytes_of(r: Result<Vec<u8>, GifError>) -> Result<Seq<u8>, GifError> {
    match r {
        Ok(v) => Ok(v@),
        Err(e) => Err(e),
    }
}

proof fn lemma_decode_error_stays(hs: Seq<Seq<char>>, i: int, alpha: bool)
    requires
        0 <= i <= hs.len(),
        decode_hexes(hs.take(i), alpha) is Err,
    ensures
        decode_hexes(hs, alpha) == decode_hexes(hs.take(i), alpha),
    decreases hs.len(),
{
    if i == hs.len() {
        assert(hs.take(i) == hs);
    } else {
        assert(hs.drop_last().take(i) == hs.take(i));
        lemma_decode_error_stays(hs.drop_last(), i, alpha);
    }
}

/// Reading hex colours fails only on a bad length or a bad digit.
pub proof fn lemma_decode_error_kinds(hs: Seq<Seq<char>>, alpha: bool)
    ensures
        decode_hexes(hs, alpha) is Err ==> decode_hexes(hs, alpha) == Err::<Seq<u8>, GifError>(GifError::InvalidInput)
            || decode_hexes(hs, alpha) == Err::<Seq<u8>, GifError>(GifError::ParseError),
    decreases hs.len(),
{
    if hs.len() > 0 {
        lemma_decode_error_kinds(hs.drop_last(), alpha);
    }
}

fn digit_value(c: char) -> (r: Option<u8>)
    ensures
        r is Some <==> is_hex_digit(c),
        r is Some ==> r->Some_0 as int == hex_value(c) && r->Some_0 < 16,
{
    let v = c as u32;
    if 48 <= v && v <= 57 {
        Some((v - 48) as u8)
    } else if 65 <= v && v <= 70 {
        Some((v - 55) as u8)
    } else if 97 <= v && v <= 102 {
        Some((v - 87) as u8)
    } else {
        None
    }
}

/// Number of leading `#` characters.
fn hash_prefix_len(s: &str) -> (k: usize)
    ensures
        k <= s@.len(),
        strip_hash(s@) == s@.subrange(k as int, s@.len() as int),
{
    let n = s.unicode_len();
    let mut k: usize = 0;
    proof {
        assert(s@.subrange(0, n as int) == s@);
    }
    while k < n && s.get_char(k) == '#'
        invariant
            n == s@.len(),
            k <= n,
            strip_hash(s@) == strip_hash(s@.subrange(k as int, n as int)),
        decreases n - k,
    {
        proof {
            assert(s@.subrange(k as int, n as int).drop_first() == s@.subrange(k + 1, n as int));
        }
        k += 1;
    }
    k
}

/// Decodes one hex colour to four bytes (`alpha`) or three.
fn decode_color(s: &str, alpha: bool) -> (r: Result<Vec<u8>, GifError>)
    ensures
        bytes_of(r) == decode_hex(s@, alpha),
{
    let k = hash_prefix_len(s);
    let len = s.unicode_len();
    let n = len - k;
    let ghost d = strip_hash(s@);
    let ok_len = if alpha { n == 3 || n == 4 || n == 6 || n == 8 } else { n == 3 || n == 6 };
    if !ok_len {
        return Err(GifError::InvalidInput);
    }
    let mut vals: Vec<u8> = Vec::new();
    let mut j: usize = 0;
    while j < n
        invariant
            d == strip_hash(s@),
            d == s@.subrange(k as int, s@.len() as int),
            n == d.len(),
            k + n == s@.len(),
            k + n == len,
            ok_len,
            ok_len == accepted_len(n as int, alpha),
            j <= n,
            vals@.len() == j,
            forall|t: int| 0 <= t < j ==> is_hex_digit(#[trigger] d[t]) && vals@[t] as int == hex_value(d[t]) && vals@[t] < 16,
        decreases n - j,
    {
        match digit_value(s.get_char(k + j)) {
            Some(v) => {
                proof {
                    assert(d[j as int] == s@[k + j]);
                }
                vals.push(v);
            },
            None => {
                proof {
                    assert(d[j as int] == s@[k + j]);
                    assert(!is_hex_digit(d[j as int]));
                    assert(!all_hex(d));
                    assert(accepted_len(d.len() as int, alpha));
                    assert(decode_hex(s@, alpha) == Err::<Seq<u8>, GifError>(GifError::ParseError));
                }
                return Err(GifError::ParseError);
            },
        }
        j += 1;
    }
    let bytes = if n == 8 {
        vec![16 * vals[0] + vals[1], 16 * vals[2] + vals[3], 16 * vals[4] + vals[5], 16 * vals[6] + vals[7]]
    } else if n == 6 {
        vec![16 * vals[0] + vals[1], 16 * vals[2] + vals[3], 16 * vals[4] + vals[5], 255]
    } else if n == 4 {
        vec![17 * vals[0], 17 * vals[1], 17 * vals[2], 17 * vals[3]]
    } else {
        vec![17 * vals[0], 17 * vals[1], 17 * vals[2], 255]
    };
    if alpha {
        Ok(bytes)
    } else {
        let rgb = vec![bytes[0], bytes[1], bytes[2]];
        proof {
            assert(rgb@ == digits_rgba(d).take(3));
        }
        Ok(rgb)
    }
}

fn decode_colors(hex: &Vec<String>, alpha: bool) -> (r: Result<Vec<u8>, GifError>)
    ensures
        bytes_of(r) == decode_hexes(views(hex@), alpha),
{
    let ghost hs = views(hex@);
    let mut out: Vec<u8> = Vec::new();
    let mut i: usize = 0;
    while i < hex.len()
        invariant
            hs == views(hex@),
            i <= hex@.len(),
            decode_hexes(hs.take(i as int), alpha) == Ok::<Seq<u8>, GifError>(out@),
        decreases hex@.len() - i,
    {
        proof {
            assert(hs.take(i + 1).drop_last() == hs.take(i as int));
        }
        match decode_color(hex[i].as_str(), alpha) {
            Ok(mut b) => out.append(&mut b),
            Err(e) => {
                proof {
                    lemma_decode_error_stays(hs, i + 1, alpha);
                }
                return Err(e);
            },
        }
        i += 1;
    }
    proof {
        assert(hs.take(hex@.len() as int) == hs);
    }
    Ok(out)
}

/// Converts hex colour strings (`#` optional; 3, 4, 6 or 8 digits) to RGBA
/// bytes, four per string in order. Short forms repeat each digit; forms
/// without alpha are fully opaque.
pub fn hex_to_rgba(hex: Vec<String>) -> (r: Result<Vec<u8>, GifError>)
    ensures
        bytes_of(r) == decode_hexes(views(hex@), true),
{
    decode_colors(&hex, true)
}

/// Converts hex colour strings (`#` optional; 3 or 6 digits) to RGB bytes,
/// three per string in order. The short form repeats each digit.
pub fn hex_to_rgb(hex: Vec<String>) -> (r: Result<Vec<u8>, GifError>)
    ensures
        bytes_of(r) == decode_hexes(views(hex@), false),
{
    decode_colors(&hex, false)
}


/// Every index of `pixels` names a full RGB entry of `palette`.
pub open spec fn palette_covers(pixels: Seq<u8>, palette: Seq<u8>) -> bool {
    forall|i: int| 0 <= i < pixels.len() ==> 3 * (#[trigger] pixels[i]) + 3 <= palette.len()
}

/// The RGBA colour of palette entry `idx`; its alpha is 255 when a
/// transparent index is configured at all, and 0 otherwise.
pub open spec fn indexed_color(palette: Seq<u8>, idx: u8, has_transparent: bool) -> Seq<u8> {
    seq![palette[3 * idx], palette[3 * idx + 1], palette[3 * idx + 2], if has_transparent { 255u8 } else { 0u8 }]
}

/// The RGBA bytes of indexed pixels, four per pixel in order.
pub open spec fn indexed_rgba(pixels: Seq<u8>, palette: Seq<u8>, has_transparent: bool) -> Seq<u8>
    decreases pixels.len(),
{
    if pixels.len() == 0 {
        seq![]
    } else {
        indexed_rgba(pixels.drop_last(), palette, has_transparent) + indexed_color(palette, pixels.last(), has_transparent)
    }
}

fn palette_color(palette: &[u8], idx: u8, has_transparent: bool) -> (r: Vec<u8>)
    requires
        3 * idx + 3 <= palette@.len(),
    ensures
        r@ == indexed_color(palette@, idx, has_transparent),
{
    let start = idx as usize * 3;
    let a: u8 = if has_transparent { 255 } else { 0 };
    vec![palette[start], palette[start + 1], palette[start + 2], a]
}

/// Looks every index up in an RGB palette and gives four RGBA bytes per
/// pixel. Alpha is 255 for every pixel when `transparent` is set, whatever
/// its value, and 0 otherwise.
pub fn indexed_to_rgba(pixels: &[u8], palette: &[u8], transparent: Option<u8>) -> (r: Vec<u8>)
    requires
        palette_covers(pixels@, palette@),
    ensures
        r@ == indexed_rgba(pixels@, palette@, transparent is Some),
{
    let has_t = transparent.is_some();
    let mut out: Vec<u8> = Vec::new();
    let mut i: usize = 0;
    while i < pixels.len()
        invariant
            palette_covers(pixels@, palette@),
            has_t == transparent is Some,
            i <= pixels@.len(),
            out@ == indexed_rgba(pixels@.take(i as int), palette@, has_t),
        decreases pixels@.len() - i,
    {
        proof {
            assert(pixels@.take(i + 1).drop_last() == pixels@.take(i as int));
        }
        let mut c = palette_color(palette, pixels[i], has_t);
        out.append(&mut c);
        i += 1;
    }
    proof {
        assert(pixels@.take(pixels@.len() as int) == pixels@);
    }
    out
}

/// The hex form of each indexed pixel's colour, in order.
pub open spec fn indexed_hexes(pixels: Seq<u8>, palette: Seq<u8>, has_transparent: bool, always_alpha: bool, short: bool) -> Seq<Seq<char>> {
    Seq::new(pixels.len(), |i: int| rgba_hex(indexed_color(palette, pixels[i], has_transparent), always_alpha, short))
}

/// Looks every index up in an RGB palette, with the alpha rule of
/// `indexed_to_rgba`, and writes each colour as `rgba_to_hex` does.
pub fn indexed_to_hex(
    pixels: &[u8],
    palette: &[u8],
    transparent: Option<u8>,
    always_include_alpha: Option<bool>,
    allow_short: Option<bool>,
) -> (r: Vec<String>)
    requires
        palette_covers(pixels@, palette@),
    ensures
        views(r@) == indexed_hexes(pixels@, palette@, transparent is Some, always_include_alpha == Some(true), allow_short == Some(true)),
{
    let has_t = transparent.is_some();
    let always = match always_include_alpha { Some(b) => b, None => false };
    let short = match allow_short { Some(b) => b, None => false };
    let mut out: Vec<String> = Vec::new();
    let mut i: usize = 0;
    while i < pixels.len()
        invariant
            palette_covers(pixels@, palette@),
            i <= pixels@.len(),
            out@.len() == i,
            forall|j: int| 0 <= j < i ==> #[trigger] out@[j]@ == rgba_hex(indexed_color(palette@, pixels@[j], has_t), always, short),
        decreases pixels@.len() - i,
    {
        let px = palette_color(palette, pixels[i], has_t);
        out.push(pixel_hex(&px, always, short));
        i += 1;
    }
    proof {
        assert(views(out@) == indexed_hexes(pixels@, palette@, has_t, always, short));
    }
    out
}

} // verus!
