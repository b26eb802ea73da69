use rsbadges::badge::Badge;
use rsbadges::error::BadgeError;
use rsbadges::text::{load_font, text_width, uppercase_first_letter, FONT_SIZE, KERNING_MPX};

const HEIGHT: u32 = 2384;

#[test]
fn mandarin_widths_are_positive_and_odd() {
    let one = text_width(&vec![2048], HEIGHT, FONT_SIZE, KERNING_MPX);
    let three = text_width(&vec![2048, 2048, 2048], HEIGHT, FONT_SIZE, KERNING_MPX);
    assert_eq!(one, 11249);
    assert_eq!(three, 31748);
    assert!(one / 1000 > 0 && (one / 1000) % 2 == 1);
    assert!(three / 1000 > 0 && (three / 1000) % 2 == 1);
}

#[test]
fn even_widths_are_widened() {
    // 2048 units: 9449 mpx and 800 of kerning, 10 whole pixels, so one more.
    assert_eq!(text_width(&vec![2048], HEIGHT, FONT_SIZE, KERNING_MPX), 11249);
    assert_eq!(text_width(&vec![], HEIGHT, FONT_SIZE, KERNING_MPX), 1000);
    assert_eq!(text_width(&vec![], HEIGHT, FONT_SIZE, 0), 1000);
}

#[test]
fn odd_widths_are_kept() {
    // 2384 units at 11 px are exactly 11 px.
    assert_eq!(text_width(&vec![2384], HEIGHT, FONT_SIZE, 0), 11000);
    assert_eq!(text_width(&vec![2384, 2384], HEIGHT, FONT_SIZE, 0), 23000);
    // 1000 + 1200 units: 10151 mpx and 1600 of kerning, 11 whole pixels.
    assert_eq!(text_width(&vec![1000, 1200], HEIGHT, FONT_SIZE, KERNING_MPX), 11751);
}

#[test]
fn widths_for_many_sizes_are_odd() {
    for size in 1..40u32 {
        for kerning in [0u32, 800, 1234] {
            let w = text_width(&vec![1000, 1500, 700], HEIGHT, size, kerning);
            assert_eq!((w / 1000) % 2, 1);
        }
    }
}

#[test]
fn composed_and_decomposed_texts_normalize_alike() {
    let mut composed = Badge {
        label_text: String::from("r\u{f6}ck d\u{f6}ts"),
        msg_text: String::from("caf\u{e9}"),
        ..Default::default()
    };
    let mut decomposed = Badge {
        label_text: String::from("ro\u{308}ck do\u{308}ts"),
        msg_text: String::from("cafe\u{301}"),
        ..Default::default()
    };
    composed.normalize_text();
    decomposed.normalize_text();
    assert_eq!(decomposed.label_text, "r\u{f6}ck d\u{f6}ts");
    assert_eq!(decomposed.msg_text, "caf\u{e9}");
    assert_eq!(composed.label_text, decomposed.label_text);
    assert_eq!(composed.msg_text, decomposed.msg_text);
}

#[test]
fn default_badge() {
    let b = Badge::default();
    assert_eq!(b.label_text, "test");
    assert_eq!(b.msg_text, "test");
    assert_eq!(b.label_color.red, 0x55);
    assert_eq!(b.msg_color.green, 0x7e);
    assert_eq!(b.msg_color.blue, 0xc6);
    assert!(b.logo.is_empty());
    assert!(!b.embed_logo);
    assert!(!b.open_in_browser);
}

#[test]
fn unreadable_font_is_refused() {
    assert!(matches!(load_font(&[1, 2, 3, 4]), Err(BadgeError::CannotLoadFont)));
    assert!(matches!(load_font(&[]), Err(BadgeError::CannotLoadFont)));
}

#[test]
fn first_letter_is_upper_cased() {
    assert_eq!(uppercase_first_letter("hello"), "Hello");
    assert_eq!(uppercase_first_letter("Hello"), "Hello");
    assert_eq!(uppercase_first_letter(""), "");
    assert_eq!(uppercase_first_letter("\u{df}ig"), "SSig");
    assert_eq!(uppercase_first_letter("\u{e9}t\u{e9}"), "\u{c9}t\u{e9}");
}

#[test]
fn element_ids_carry_the_suffix() {
    let (smooth, round) = rsbadges::badge::svg_element_ids("Ab3xY9q");
    assert_eq!(smooth, "smoothAb3xY9q");
    assert_eq!(round, "roundAb3xY9q");
}
