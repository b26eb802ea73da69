//! Pixel widths of texts set in one font.
//!
//! Widths are in millipixels. A text is measured in its canonical composed
//! form (Unicode NFC), from the advance of each of its glyphs in font units.
//! Fonts are read with ttf-parser, the parser under rusttype, directly:
//! rusttype's glyph metrics unwrap tables that a readable font may lack.

use ttf_parser::{Face, GlyphId};
use unicode_normalization::UnicodeNormalization;
use vstd::prelude::*;
use vstd::string::*;

use crate::error::BadgeError;
use crate::layout::MAX_TEXT_WIDTH;

verus! {

/// Extra room given to each character, in millipixels (0.8 px).
pub const KERNING_MPX: u32 = 800;

/// Size at which badge texts are set, in pixels.
pub const FONT_SIZE: u32 = 11;

/// The canonical composed form (NFC) of a text.
pub uninterp spec fn nfc_of(s: Seq<char>) -> Seq<char>;

/// Relies on `UnicodeNormalization::nfc` of unicode-normalization: the NFC form
/// of the characters of `s`.
#[verifier::external_body]
pub(crate) fn normalize_nfc(s: &str) -> (r: String)
    ensures
        r@ == nfc_of(s@),
{
    s.nfc().collect::<String>()
}

/// Whether ttf-parser reads `bytes` as a font (the first face of a collection).
pub uninterp spec fn parses_as_font(bytes: Seq<u8>) -> bool;

/// The ascender of the font in `bytes`, in font units.
pub uninterp spec fn ascender_of(bytes: Seq<u8>) -> i16;

/// The descender of the font in `bytes`, in font units.
pub uninterp spec fn descender_of(bytes: Seq<u8>) -> i16;

/// The glyph that the font in `bytes` maps `c` to, if any.
pub uninterp spec fn glyph_index_of(bytes: Seq<u8>, c: char) -> Option<u16>;

/// The horizontal advance of a glyph of the font in `bytes`, in font units,
/// where the font has one.
pub uninterp spec fn hor_advance_of(bytes: Seq<u8>, glyph: u16) -> Option<u16>;

/// Relies on `Face::from_slice` of ttf-parser: whether `bytes` hold a font
/// that it reads.
#[verifier::external_body]
fn face_parses(bytes: &[u8]) -> (r: bool)
    ensures
        r == parses_as_font(bytes@),
{
    Face::from_slice(bytes, 0).is_ok()
}

/// Relies on `Face::ascender` of ttf-parser.
#[verifier::external_body]
fn face_ascender(bytes: &[u8]) -> (r: i16)
    requires
        parses_as_font(bytes@),
    ensures
        r == ascender_of(bytes@),
{
    match Face::from_slice(bytes, 0) {
        Ok(face) => face.ascender(),
        Err(_) => 0,
    }
}

/// Relies on `Face::descender` of ttf-parser.
#[verifier::external_body]
fn face_descender(bytes: &[u8]) -> (r: i16)
    requires
        parses_as_font(bytes@),
    ensures
        r == descender_of(bytes@),
{
    match Face::from_slice(bytes, 0) {
        Ok(face) => face.descender(),
        Err(_) => 0,
    }
}

/// Relies on `Face::glyph_index` of ttf-parser: the glyph for `c`, `None`
/// where the font has none.
#[verifier::external_body]
fn face_glyph_index(bytes: &[u8], c: char) -> (r: Option<u16>)
    requires
        parses_as_font(bytes@),
    ensures
        r == glyph_index_of(bytes@, c),
{
    match Face::from_slice(bytes, 0) {
        Ok(face) => face.glyph_index(c).map(|g| g.0),
        Err(_) => None,
    }
}

/// Relies on `Face::glyph_hor_advance` of ttf-parser: the advance of `glyph`,
/// `None` where the font has no horizontal metrics for it.
#[verifier::external_body]
fn face_hor_advance(bytes: &[u8], glyph: u16) -> (r: Option<u16>)
    requires
        parses_as_font(bytes@),
    ensures
        r == hor_advance_of(bytes@, glyph),
{
    match Face::from_slice(bytes, 0) {
        Ok(face) => face.glyph_hor_advance(GlyphId(glyph)),
        Err(_) => None,
    }
}

/// Height of the font in `bytes`, ascender less descender, in font units.
pub open spec fn font_height_of(bytes: Seq<u8>) -> int {
    ascender_of(bytes) - descender_of(bytes)
}

/// The glyph a character is drawn with: glyph 0 (".notdef") where the font
/// maps it to none.
pub open spec fn glyph_of(bytes: Seq<u8>, c: char) -> u16 {
    match glyph_index_of(bytes, c) {
        Some(g) => g,
        None => 0,
    }
}

/// The advance of the glyph a character is drawn with; a glyph without
/// horizontal metrics takes no room.
pub open spec fn advance_of(bytes: Seq<u8>, c: char) -> u16 {
    match hor_advance_of(bytes, glyph_of(bytes, c)) {
        Some(a) => a,
        None => 0,
    }
}

/// The advances of the glyphs of a text, one per character.
pub open spec fn advances_of(bytes: Seq<u8>, text: Seq<char>) -> Seq<u16> {
    text.map_values(|c: char| advance_of(bytes, c))
}

/// A font that badge texts are measured in: its file contents and its
/// height in font units.
#[derive(Clone, Copy, Debug)]
pub struct BadgeFont<'a> {
    pub bytes: &'a [u8],
    pub height: u16,
}

impl<'a> BadgeFont<'a> {
    /// The bytes hold a readable font whose height is the stored, positive one.
    pub open spec fn wf(&self) -> bool {
        &&& parses_as_font(self.bytes@)
        &&& self.height > 0
        &&& self.height as int == font_height_of(self.bytes@)
    }
}

/// Reads a font from its file contents. Fails where the bytes hold no font,
/// or a font whose ascender is not above its descender.
pub fn load_font<'a>(bytes: &'a [u8]) -> (r: Result<BadgeFont<'a>, BadgeError>)
    ensures
        r is Ok <==> parses_as_font(bytes@) && ascender_of(bytes@) > descender_of(bytes@),
        r matches Ok(f) ==> f.bytes@ == bytes@ && f.wf(),
        r matches Err(e) ==> e == BadgeError::CannotLoadFont,
{
    if !face_parses(bytes) {
        return Err(BadgeError::CannotLoadFont);
    }
    let ascent = face_ascender(bytes);
    let descent = face_descender(bytes);
    if ascent <= descent {
        return Err(BadgeError::CannotLoadFont);
    }
    Ok(BadgeFont { bytes, height: (ascent as i32 - descent as i32) as u16 })
}

/// The advance, in font units, of the glyph that `c` is drawn with.
pub fn char_advance(font: &BadgeFont, c: char) -> (r: u16)
    requires
        font.wf(),
    ensures
        r == advance_of(font.bytes@, c),
{
    let glyph = match face_glyph_index(font.bytes, c) {
        Some(g) => g,
        None => 0,
    };
    match face_hor_advance(font.bytes, glyph) {
        Some(a) => a,
        None => 0,
    }
}

/// The characters of the upper-case mapping of a character.
pub uninterp spec fn uppercase_of(c: char) -> Seq<char>;

/// Relies on `char::to_uppercase` of std: the upper-case mapping of `c`,
/// which is one or more characters.
#[verifier::external_body]
fn char_to_uppercase(c: char) -> (r: String)
    ensures
        r@ == uppercase_of(c),
        r@.len() >= 1,
{
    c.to_uppercase().collect::<String>()
}

/// Sum of a sequence of glyph advances.
pub open spec fn sum_units(units: Seq<u16>) -> int
    decreases units.len(),
{
    if units.len() == 0 {
        0
    } else {
        sum_units(units.drop_last()) + units.last()
    }
}

/// Exact width in millipixels, truncated, of glyphs with the given advances in
/// a font `height` units tall set at `font_size` pixels, plus `kerning` per glyph.
pub open spec fn raw_width(units: Seq<u16>, height: int, font_size: int, kerning: int) -> int {
    sum_units(units) * font_size * 1000 / height + kerning * units.len()
}

/// A width whose whole pixels are even is widened by one pixel, so that every
/// text takes an odd number of whole pixels.
pub open spec fn odd_width(w: int) -> int {
    if (w / 1000) % 2 == 0 {
        w + 1000
    } else {
        w
    }
}

/// The measured width of glyphs with the given advances.
pub open spec fn text_width_of(units: Seq<u16>, height: int, font_size: int, kerning: int) -> int {
    odd_width(raw_width(units, height, font_size, kerning))
}

proof fn lemma_sum_units_bound(units: Seq<u16>)
    ensures
        0 <= sum_units(units) <= 65535 * units.len(),
    decreases units.len(),
{
    if units.len() > 0 {
        lemma_sum_units_bound(units.drop_last());
    }
}

/// Measures glyphs with the given advances (in font units) of a font `height`
/// units tall, set at `font_size` pixels, with `kerning` millipixels added per glyph.
pub fn text_width(units: &Vec<u16>, height: u32, font_size: u32, kerning: u32) -> (r: u128)
    requires
        height > 0,
    ensures
        r == text_width_of(units@, height as int, font_size as int, kerning as int),
        (r / 1000) % 2 == 1,
        r <= MAX_TEXT_WIDTH,
{
    let mut sum: u128 = 0;
    let mut i: usize = 0;
    while i < units.len()
        invariant
            i <= units.len(),
            sum == sum_units(units@.subrange(0, i as int)),
            sum <= 65535 * i,
        decreases units.len() - i,
    {
        assert(units@.subrange(0, i + 1).drop_last() =~= units@.subrange(0, i as int));
        sum = sum + units[i] as u128;
        i = i + 1;
    }
    assert(units@.subrange(0, units.len() as int) =~= units@);
    let n: u128 = units.len() as u128;
    assert(sum * font_size * 1000 <= 0x0400_0000_0000_0000_0000_0000_0000_0000) by (nonlinear_arith)
        requires
            sum <= 65535 * n,
            n <= 0xFFFF_FFFF_FFFF_FFFF,
            font_size <= 0xFFFF_FFFF,
    ;
    assert(kerning * n <= 0x1_0000_0000_0000_0000_0000_0000) by (nonlinear_arith)
        requires
            n <= 0xFFFF_FFFF_FFFF_FFFF,
            kerning <= 0xFFFF_FFFF,
    ;
    let scaled: u128 = sum * font_size as u128 * 1000;
    assert(scaled / height as u128 <= scaled) by (nonlinear_arith)
        requires
            height > 0,
    ;
    let w: u128 = scaled / height as u128 + kerning as u128 * n;
    if (w / 1000) % 2 == 0 {
        w + 1000
    } else {
        w
    }
}

/// The advance, in font units, of the glyph of each character of `text`.
pub fn glyph_units(font: &BadgeFont, text: &str) -> (r: Vec<u16>)
    requires
        font.wf(),
    ensures
        r@ == advances_of(font.bytes@, text@),
{
    let n: usize = text.unicode_len();
    let mut units: Vec<u16> = Vec::new();
    let mut i: usize = 0;
    while i < n
        invariant
            font.wf(),
            i <= n,
            n == text@.len(),
            units@.len() == i,
            forall|j: int| 0 <= j < i ==> units@[j] == advance_of(font.bytes@, text@[j]),
        decreases n - i,
    {
        units.push(char_advance(font, text.get_char(i)));
        i = i + 1;
    }
    assert(units@ =~= advances_of(font.bytes@, text@));
    units
}

/// Width, in millipixels, of `text` as it stands in the font of `bytes`,
/// `height` units tall, at `font_size` pixels with `kerning` per character.
pub open spec fn measured_width(
    bytes: Seq<u8>,
    height: int,
    text: Seq<char>,
    font_size: int,
    kerning: int,
) -> int {
    text_width_of(advances_of(bytes, text), height, font_size, kerning)
}

/// Measures `text` as it stands in `font` at `font_size` pixels, adding
/// `kerning` millipixels per character.
pub fn measure_text(font: &BadgeFont, text: &str, font_size: u32, kerning: u32) -> (r: u128)
    requires
        font.wf(),
    ensures
        r == measured_width(font.bytes@, font.height as int, text@, font_size as int, kerning as int),
        (r / 1000) % 2 == 1,
        r <= MAX_TEXT_WIDTH,
{
    let units = glyph_units(font, text);
    text_width(&units, font.height as u32, font_size, kerning)
}

/// Normalizes `text` to NFC and measures it in `font` at `font_size` pixels,
/// adding `kerning` millipixels per character.
pub fn get_text_dims(font: &BadgeFont, text: &str, font_size: u32, kerning: u32) -> (r: (
    String,
    u128,
))
    requires
        font.wf(),
    ensures
        r.0@ == nfc_of(text@),
        r.1 == measured_width(
            font.bytes@,
            font.height as int,
            nfc_of(text@),
            font_size as int,
            kerning as int,
        ),
        (r.1 / 1000) % 2 == 1,
{
    let norm = normalize_nfc(text);
    let width = measure_text(font, norm.as_str(), font_size, kerning);
    (norm, width)
}

/// Every measured width takes an odd number of whole pixels.
pub proof fn lemma_measured_width_is_odd(
    units: Seq<u16>,
    height: int,
    font_size: int,
    kerning: int,
)
    requires
        0 < height,
        0 <= font_size,
        0 <= kerning,
    ensures
        (text_width_of(units, height, font_size, kerning) / 1000) % 2 == 1,
{
    lemma_sum_units_bound(units);
    let s = sum_units(units);
    assert(s * font_size * 1000 / height >= 0) by (nonlinear_arith)
        requires
            s >= 0,
            font_size >= 0,
            height > 0,
    ;
    assert(kerning * units.len() >= 0) by (nonlinear_arith)
        requires
            kerning >= 0,
    ;
}

/// Texts with the same canonical composed form, such as "\u{e9}" and "e"
/// followed by a combining acute accent, measure alike: `get_text_dims`
/// measures each as that form, so both get the same width in any font.
pub proof fn lemma_canonical_equivalents_measure_alike(
    bytes: Seq<u8>,
    height: int,
    a: Seq<char>,
    b: Seq<char>,
    font_size: int,
    kerning: int,
)
    requires
        nfc_of(a) == nfc_of(b),
    ensures
        measured_width(bytes, height, nfc_of(a), font_size, kerning) == measured_width(
            bytes,
            height,
            nfc_of(b),
            font_size,
            kerning,
        ),
{
}

/// Makes the first character of `s` upper case and keeps the rest.
pub fn uppercase_first_letter(s: &str) -> (r: String)
    ensures
        s@.len() == 0 ==> r@.len() == 0,
        s@.len() > 0 ==> r@ == uppercase_of(s@[0]) + s@.subrange(1, s@.len() as int),
{
    let n: usize = s.unicode_len();
    if n == 0 {
        String::new()
    } else {
        let first = char_to_uppercase(s.get_char(0));
        first.concat(s.substring_char(1, n))
    }
}

} // verus!
