//! Choice of readable text and shadow colours against a background colour.

use vstd::prelude::*;

verus! {

/// Text colour used on dark backgrounds.
pub const LIGHT_TEXT_COLOR: &'static str = "#fff";

/// Text colour used on light backgrounds.
pub const DARK_TEXT_COLOR: &'static str = "#333";

/// Shadow colour used under dark text.
pub const LIGHT_SHADOW_COLOR: &'static str = "#ccc";

/// Shadow colour used under light text.
pub const DARK_SHADOW_COLOR: &'static str = "#010101";

/// Relative luminance at or under which a background counts as dark,
/// in units of 1e-10 (0.579).
pub const BRIGHTNESS_THRESHOLD: u64 = 5_790_000_000;

/// An sRGB colour with 8-bit channels; a channel `v` stands for `v / 255`.
#[derive(Clone, Copy, Debug, PartialEq, Eq, Structural)]
pub struct Color {
    pub red: u8,
    pub green: u8,
    pub blue: u8,
}

/// The text and shadow colours to draw over one background.
#[derive(Clone, Copy, Debug)]
pub struct AccentColors {
    pub text_color: &'static str,
    pub shadow_color: &'static str,
}

/// Linear-light value of each 8-bit sRGB channel value, in millionths:
/// `v / 255 / 12.92` when `v / 255 <= 0.03928`, else `((v / 255 + 0.055) / 1.055)^2.4`,
/// rounded to the nearest millionth.
pub open spec fn linear_table() -> Seq<u64> {
    seq![
        0, 304, 607, 911, 1214, 1518, 1821, 2125, 2428, 2732, 3035, 3347,
        3677, 4025, 4391, 4777, 5182, 5605, 6049, 6512, 6995, 7499, 8023, 8568,
        9134, 9721, 10330, 10960, 11612, 12286, 12983, 13702, 14444, 15209, 15996, 16807,
        17642, 18500, 19382, 20289, 21219, 22174, 23153, 24158, 25187, 26241, 27321, 28426,
        29557, 30713, 31896, 33105, 34340, 35601, 36889, 38204, 39546, 40915, 42311, 43735,
        45186, 46665, 48172, 49707, 51269, 52861, 54480, 56128, 57805, 59511, 61246, 63010,
        64803, 66626, 68478, 70360, 72272, 74214, 76185, 78187, 80220, 82283, 84376, 86500,
        88656, 90842, 93059, 95307, 97587, 99899, 102242, 104616, 107023, 109462, 111932, 114435,
        116971, 119538, 122139, 124772, 127438, 130136, 132868, 135633, 138432, 141263, 144128, 147027,
        149960, 152926, 155926, 158961, 162029, 165132, 168269, 171441, 174647, 177888, 181164, 184475,
        187821, 191202, 194618, 198069, 201556, 205079, 208637, 212231, 215861, 219526, 223228, 226966,
        230740, 234551, 238398, 242281, 246201, 250158, 254152, 258183, 262251, 266356, 270498, 274677,
        278894, 283149, 287441, 291771, 296138, 300544, 304987, 309469, 313989, 318547, 323143, 327778,
        332452, 337164, 341914, 346704, 351533, 356400, 361307, 366253, 371238, 376262, 381326, 386429,
        391572, 396755, 401978, 407240, 412543, 417885, 423268, 428690, 434154, 439657, 445201, 450786,
        456411, 462077, 467784, 473531, 479320, 485150, 491021, 496933, 502886, 508881, 514918, 520996,
        527115, 533276, 539479, 545724, 552011, 558340, 564712, 571125, 577580, 584078, 590619, 597202,
        603827, 610496, 617207, 623960, 630757, 637597, 644480, 651406, 658375, 665387, 672443, 679542,
        686685, 693872, 701102, 708376, 715694, 723055, 730461, 737910, 745404, 752942, 760525, 768151,
        775822, 783538, 791298, 799103, 806952, 814847, 822786, 830770, 838799, 846873, 854993, 863157,
        871367, 879622, 887923, 896269, 904661, 913099, 921582, 930111, 938686, 947307, 955973, 964686,
        973445, 982251, 991102, 1000000,    ]
}

/// Linear-light value of one channel, in millionths.
pub open spec fn linear_ppm(v: u8) -> int {
    linear_table()[v as int] as int
}

/// Relative luminance (CIE XYZ weights 0.2126, 0.7152, 0.0722) in units of 1e-10.
pub open spec fn luminance(c: Color) -> int {
    2126 * linear_ppm(c.red) + 7152 * linear_ppm(c.green) + 722 * linear_ppm(c.blue)
}

/// A background takes light text when its luminance is at most the threshold.
pub open spec fn takes_light_text(c: Color) -> bool {
    luminance(c) <= BRIGHTNESS_THRESHOLD
}

/// Black takes light text and white takes dark text; a background whose
/// luminance equals the threshold exactly takes light text.
pub proof fn lemma_accent_boundaries(c: Color)
    ensures
        takes_light_text(Color { red: 0, green: 0, blue: 0 }),
        !takes_light_text(Color { red: 255, green: 255, blue: 255 }),
        luminance(c) == BRIGHTNESS_THRESHOLD ==> takes_light_text(c),
{
    assert(linear_table()[0] == 0);
    assert(linear_table()[255] == 1_000_000);
}

/// Converts one sRGB channel value to linear light, in millionths.
pub fn rgb_to_xyz(v: u8) -> (r: u64)
    ensures
        r == linear_ppm(v),
        r <= 1_000_000,
{
    let table: Vec<u64> = vec![
        0, 304, 607, 911, 1214, 1518, 1821, 2125, 2428, 2732, 3035, 3347,
        3677, 4025, 4391, 4777, 5182, 5605, 6049, 6512, 6995, 7499, 8023, 8568,
        9134, 9721, 10330, 10960, 11612, 12286, 12983, 13702, 14444, 15209, 15996, 16807,
        17642, 18500, 19382, 20289, 21219, 22174, 23153, 24158, 25187, 26241, 27321, 28426,
        29557, 30713, 31896, 33105, 34340, 35601, 36889, 38204, 39546, 40915, 42311, 43735,
        45186, 46665, 48172, 49707, 51269, 52861, 54480, 56128, 57805, 59511, 61246, 63010,
        64803, 66626, 68478, 70360, 72272, 74214, 76185, 78187, 80220, 82283, 84376, 86500,
        88656, 90842, 93059, 95307, 97587, 99899, 102242, 104616, 107023, 109462, 111932, 114435,
        116971, 119538, 122139, 124772, 127438, 130136, 132868, 135633, 138432, 141263, 144128, 147027,
        149960, 152926, 155926, 158961, 162029, 165132, 168269, 171441, 174647, 177888, 181164, 184475,
        187821, 191202, 194618, 198069, 201556, 205079, 208637, 212231, 215861, 219526, 223228, 226966,
        230740, 234551, 238398, 242281, 246201, 250158, 254152, 258183, 262251, 266356, 270498, 274677,
        278894, 283149, 287441, 291771, 296138, 300544, 304987, 309469, 313989, 318547, 323143, 327778,
        332452, 337164, 341914, 346704, 351533, 356400, 361307, 366253, 371238, 376262, 381326, 386429,
        391572, 396755, 401978, 407240, 412543, 417885, 423268, 428690, 434154, 439657, 445201, 450786,
        456411, 462077, 467784, 473531, 479320, 485150, 491021, 496933, 502886, 508881, 514918, 520996,
        527115, 533276, 539479, 545724, 552011, 558340, 564712, 571125, 577580, 584078, 590619, 597202,
        603827, 610496, 617207, 623960, 630757, 637597, 644480, 651406, 658375, 665387, 672443, 679542,
        686685, 693872, 701102, 708376, 715694, 723055, 730461, 737910, 745404, 752942, 760525, 768151,
        775822, 783538, 791298, 799103, 806952, 814847, 822786, 830770, 838799, 846873, 854993, 863157,
        871367, 879622, 887923, 896269, 904661, 913099, 921582, 930111, 938686, 947307, 955973, 964686,
        973445, 982251, 991102, 1000000,    ];
    assert(table@ =~= linear_table());
    table[v as usize]
}

/// Picks light text on a dark shadow for a background whose luminance is at
/// most the threshold, and dark text on a light shadow otherwise.
pub fn get_accent_colors(background_color: &Color) -> (r: AccentColors)
    ensures
        takes_light_text(*background_color) ==> r.text_color == LIGHT_TEXT_COLOR
            && r.shadow_color == DARK_SHADOW_COLOR,
        !takes_light_text(*background_color) ==> r.text_color == DARK_TEXT_COLOR
            && r.shadow_color == LIGHT_SHADOW_COLOR,
{
    let brightness: u64 = rgb_to_xyz(background_color.red) * 2126
        + rgb_to_xyz(background_color.green) * 7152
        + rgb_to_xyz(background_color.blue) * 722;
    if brightness <= BRIGHTNESS_THRESHOLD {
        AccentColors { text_color: LIGHT_TEXT_COLOR, shadow_color: DARK_SHADOW_COLOR }
    } else {
        AccentColors { text_color: DARK_TEXT_COLOR, shadow_color: LIGHT_SHADOW_COLOR }
    }
}

} // verus!
