use rsbadges::accent::{get_accent_colors, Color, DARK_SHADOW_COLOR, LIGHT_TEXT_COLOR};
use rsbadges::layout::{derive_layout, DerivedInfo, Flavor};
use rsbadges::text::{text_width, FONT_SIZE, KERNING_MPX};

// Glyph advances in font units of a font 2384 units tall (ascender 1901,
// descender -483).
const HEIGHT: u32 = 2384;

fn expect(
    info: DerivedInfo,
    sizes: (u64, u128, u128, u128, u128, u128, u128),
    logo: (u64, u64, u64, u64),
) {
    assert_eq!(info.badge_height, sizes.0);
    assert_eq!(info.label_text_width, sizes.1);
    assert_eq!(info.msg_text_width, sizes.2);
    assert_eq!(info.label_text_x, sizes.3);
    assert_eq!(info.msg_text_x, sizes.4);
    assert_eq!(info.label_total_width, sizes.5);
    assert_eq!(info.msg_total_width, sizes.6);
    assert_eq!(info.logo_width, logo.0);
    assert_eq!(info.logo_padding, logo.1);
    assert_eq!(info.logo_x, logo.2);
    assert_eq!(info.logo_y, logo.3);
}

#[test]
fn flat_layout_without_logo() {
    let info = derive_layout(45123, 33987, Flavor::Flat, false, true, true);
    expect(info, (20, 451, 339, 285, 761, 55, 43), (0, 0, 0, 0));
}

#[test]
fn plastic_layout_with_logo() {
    let info = derive_layout(45123, 33987, Flavor::Plastic, true, true, true);
    expect(info, (18, 451, 339, 455, 931, 72, 43), (14, 3, 5, 2));
}

#[test]
fn logo_with_empty_label() {
    let info = derive_layout(0, 33987, Flavor::Flat, true, false, true);
    expect(info, (20, 0, 339, 200, 399, 0, 61), (14, 0, 5, 3));
    let bare = derive_layout(0, 33987, Flavor::Flat, false, false, true);
    assert_eq!(bare.label_total_width, 0);
    assert_eq!(info.msg_total_width, bare.msg_total_width + 14 + 5 - 1);
}

#[test]
fn empty_label_without_logo() {
    let info = derive_layout(0, 12000, Flavor::FlatSquare, false, false, true);
    assert_eq!(info.label_total_width, 0);
    assert_eq!(info.msg_total_width, 22);
}

#[test]
fn for_the_badge_with_empty_message() {
    let info = derive_layout(45123, 0, Flavor::ForTheBadge, true, true, false);
    expect(info, (28, 451, 0, 455, 771, 72, 10), (14, 3, 5, 7));
}

#[test]
fn both_texts_empty() {
    let info = derive_layout(0, 0, Flavor::Social, false, false, false);
    expect(info, (20, 0, 0, 60, 60, 0, 10), (0, 0, 0, 0));
}

#[test]
fn largest_widths_are_laid_out() {
    let max = rsbadges::layout::MAX_TEXT_WIDTH;
    let info = derive_layout(max, max, Flavor::Flat, true, true, true);
    assert_eq!(info.label_total_width, max / 1000 + 27);
    assert_eq!(info.msg_total_width, max / 1000 + 10);
}

#[test]
fn plain_badge() {
    // "version" and "1.2.3" with plausible advances.
    let label = text_width(&vec![1300, 1260, 842, 1067, 569, 1253, 1298], HEIGHT, FONT_SIZE, KERNING_MPX);
    let msg = text_width(&vec![1303, 651, 1303, 651, 1303], HEIGHT, FONT_SIZE, KERNING_MPX);
    let info = derive_layout(label, msg, Flavor::Flat, false, true, true);
    assert!(info.label_total_width > 0);
    assert!(info.msg_total_width > 0);
    assert_eq!(info.label_total_width, label / 1000 + 10);
    assert_eq!(info.msg_total_width, msg / 1000 + 10);
    let total = info.label_total_width + info.msg_total_width;
    assert_eq!(total, (label / 1000 + 10) + (msg / 1000 + 10));
    let grey = get_accent_colors(&Color { red: 0x55, green: 0x55, blue: 0x55 });
    let blue = get_accent_colors(&Color { red: 0x00, green: 0x7e, blue: 0xc6 });
    for accents in [grey, blue] {
        assert_eq!(accents.text_color, "#fff");
        assert_eq!(accents.shadow_color, "#010101");
        assert_eq!(accents.text_color, LIGHT_TEXT_COLOR);
        assert_eq!(accents.shadow_color, DARK_SHADOW_COLOR);
    }
}
