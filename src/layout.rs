//! Box widths, paddings and text anchors of a two-segment badge.
//!
//! Text widths come in millipixels (thousandths of a pixel). Widths of boxes
//! come out in whole pixels and text anchors in tenths of a pixel, each
//! truncated from the exact value.

use vstd::prelude::*;

verus! {

/// Millipixels in one pixel.
pub const MPX_PER_PX: u128 = 1000;

/// Space left and right of each text, in pixels.
pub const HORIZ_PADDING: u64 = 5;

/// Width and height of a logo, in pixels.
pub const LOGO_SIZE: u64 = 14;

/// Space between a logo and the label text, in pixels.
pub const LOGO_PADDING: u64 = 3;

/// Largest text width, in millipixels, that the layout accepts.
pub const MAX_TEXT_WIDTH: u128 = 0x0800_0000_0000_0000_0000_0000_0000_0000;

/// The visual styles a badge can be drawn in.
#[derive(Clone, Copy, Debug, PartialEq, Eq, Structural)]
pub enum Flavor {
    Plastic,
    Flat,
    FlatSquare,
    Social,
    ForTheBadge,
}

/// Everything a template needs to place the parts of a badge.
#[derive(Clone, Copy, Debug, PartialEq, Eq, Structural)]
pub struct DerivedInfo {
    /// Height of the badge, in pixels.
    pub badge_height: u64,
    /// Width of the label text, in tenths of a pixel.
    pub label_text_width: u128,
    /// Width of the message text, in tenths of a pixel.
    pub msg_text_width: u128,
    /// Width of the label box, in pixels.
    pub label_total_width: u128,
    /// Width of the message box, in pixels.
    pub msg_total_width: u128,
    /// Centre of the label text, in tenths of a pixel.
    pub label_text_x: u128,
    /// Centre of the message text, in tenths of a pixel.
    pub msg_text_x: u128,
    /// Space between the logo and the label text, in pixels.
    pub logo_padding: u64,
    /// Width of the logo, in pixels (0 without a logo).
    pub logo_width: u64,
    /// Left edge of the logo, in pixels (0 without a logo).
    pub logo_x: u64,
    /// Top edge of the logo, in pixels (0 without a logo).
    pub logo_y: u64,
}

/// Height of a badge of the given flavor, in pixels.
pub open spec fn badge_height_of(flavor: Flavor) -> int {
    match flavor {
        Flavor::ForTheBadge => 28,
        Flavor::Plastic => 18,
        _ => 20,
    }
}

/// Padding between logo and label: only a label gives the logo something to pad against.
pub open spec fn logo_padding_of(has_logo: bool, has_label: bool) -> int {
    if has_logo && has_label { LOGO_PADDING as int } else { 0 }
}

/// Horizontal room taken by the logo, in pixels.
pub open spec fn total_logo_width(has_logo: bool, has_label: bool) -> int {
    if has_logo { LOGO_SIZE + logo_padding_of(has_logo, has_label) } else { 0 }
}

/// Exact width of the label box, in millipixels.
pub open spec fn label_box_mpx(label_width: int, has_logo: bool, has_label: bool) -> int {
    if has_label {
        label_width + 1000 * (2 * HORIZ_PADDING + total_logo_width(has_logo, has_label))
    } else {
        0
    }
}

/// Exact width of the message box, in millipixels.
pub open spec fn msg_box_mpx(msg_width: int, has_logo: bool, has_label: bool) -> int {
    msg_width + 1000 * (2 * HORIZ_PADDING) + if has_logo && !has_label {
        1000 * (LOGO_SIZE + HORIZ_PADDING - 1)
    } else {
        0
    }
}

/// Left edge of the label text area, in millipixels.
pub open spec fn label_margin_mpx(has_logo: bool, has_label: bool) -> int {
    1000 * (total_logo_width(has_logo, has_label) + 1)
}

/// Left edge of the message text area, in millipixels: the label box, one
/// pixel less where a message shares the seam, and room for a logo (or the
/// missing seam) where there is no label.
pub open spec fn msg_margin_mpx(
    label_width: int,
    has_logo: bool,
    has_label: bool,
    has_msg: bool,
) -> int {
    label_box_mpx(label_width, has_logo, has_label) - (if has_msg { 1000int } else { 0int }) + if !has_label {
        if has_logo { 1000 * (LOGO_SIZE + HORIZ_PADDING) } else { 1000int }
    } else {
        0int
    }
}

/// Centre of a text of width `width` that starts after `margin` and the
/// padding, in tenths of a pixel, truncated: `10 * (margin + width / 2 + padding)`.
pub open spec fn text_x_tenths(margin: int, width: int) -> int {
    (2 * margin + width + 2000 * HORIZ_PADDING) / 200
}

/// The complete layout for the given text widths (in millipixels) and flags.
pub open spec fn layout_of(
    label_width: int,
    msg_width: int,
    flavor: Flavor,
    has_logo: bool,
    has_label: bool,
    has_msg: bool,
) -> DerivedInfo {
    DerivedInfo {
        badge_height: badge_height_of(flavor) as u64,
        label_text_width: (label_width / 100) as u128,
        msg_text_width: (msg_width / 100) as u128,
        label_total_width: (label_box_mpx(label_width, has_logo, has_label) / 1000) as u128,
        msg_total_width: (msg_box_mpx(msg_width, has_logo, has_label) / 1000) as u128,
        label_text_x: text_x_tenths(label_margin_mpx(has_logo, has_label), label_width) as u128,
        msg_text_x: text_x_tenths(
            msg_margin_mpx(label_width, has_logo, has_label, has_msg),
            msg_width,
        ) as u128,
        logo_padding: logo_padding_of(has_logo, has_label) as u64,
        logo_width: if has_logo { LOGO_SIZE } else { 0 },
        logo_x: if has_logo { HORIZ_PADDING } else { 0 },
        logo_y: if has_logo { ((badge_height_of(flavor) - LOGO_SIZE) / 2) as u64 } else { 0 },
    }
}

/// Lays out a badge from the measured widths (in millipixels) of its two texts.
pub fn derive_layout(
    label_width: u128,
    msg_width: u128,
    flavor: Flavor,
    has_logo: bool,
    has_label: bool,
    has_msg: bool,
) -> (r: DerivedInfo)
    requires
        label_width <= MAX_TEXT_WIDTH,
        msg_width <= MAX_TEXT_WIDTH,
    ensures
        r == layout_of(label_width as int, msg_width as int, flavor, has_logo, has_label, has_msg),
        has_label ==> r.label_total_width >= 2 * HORIZ_PADDING + total_logo_width(has_logo, has_label),
        !has_label ==> r.label_total_width == 0,
{
    let badge_height: u64 = match flavor {
        Flavor::ForTheBadge => 28,
        Flavor::Plastic => 18,
        Flavor::Flat => 20,
        Flavor::FlatSquare => 20,
        Flavor::Social => 20,
    };

    let mut logo_width: u64 = 0;
    let mut logo_padding: u64 = 0;
    let mut logo_x: u64 = 0;
    let mut logo_y: u64 = 0;
    if has_logo {
        if has_label {
            logo_padding = LOGO_PADDING;
        }
        logo_y = (badge_height - LOGO_SIZE) / 2;
        logo_x = HORIZ_PADDING;
        logo_width = LOGO_SIZE;
    }
    let total_logo_mpx: u128 = (logo_width + logo_padding) as u128 * MPX_PER_PX;
    let padding_mpx: u128 = HORIZ_PADDING as u128 * MPX_PER_PX;

    let label_margin: u128 = total_logo_mpx + MPX_PER_PX;
    let mut label_total: u128 = 0;
    if has_label {
        label_total = label_width + 2 * padding_mpx + total_logo_mpx;
    }

    let mut msg_margin: u128 = label_total;
    if !has_label {
        if has_logo {
            msg_margin = msg_margin + (LOGO_SIZE + HORIZ_PADDING) as u128 * MPX_PER_PX;
        } else {
            msg_margin = msg_margin + MPX_PER_PX;
        }
    }
    if has_msg {
        msg_margin = msg_margin - MPX_PER_PX;
    }

    let mut msg_total: u128 = msg_width + 2 * padding_mpx;
    if has_logo && !has_label {
        msg_total = msg_total + (LOGO_SIZE + HORIZ_PADDING - 1) as u128 * MPX_PER_PX;
    }

    DerivedInfo {
        badge_height,
        label_text_width: label_width / 100,
        msg_text_width: msg_width / 100,
        label_total_width: label_total / MPX_PER_PX,
        msg_total_width: msg_total / MPX_PER_PX,
        label_text_x: (2 * label_margin + label_width + 2 * padding_mpx) / 200,
        msg_text_x: (2 * msg_margin + msg_width + 2 * padding_mpx) / 200,
        logo_padding,
        logo_width,
        logo_x,
        logo_y,
    }
}

/// Without label text the label box has no width, and the message box holds
/// the message, its padding and, where there is a logo, the logo and the
/// padding after it less the seam that no label shares: with a logo it is
/// wider by exactly that much than without.
pub proof fn lemma_empty_label(label_width: int, msg_width: int, flavor: Flavor, has_logo: bool)
    requires
        0 <= msg_width <= MAX_TEXT_WIDTH,
    ensures
        layout_of(label_width, msg_width, flavor, has_logo, false, true).label_total_width == 0,
        layout_of(label_width, msg_width, flavor, has_logo, false, true).msg_total_width
            == msg_width / 1000 + 2 * HORIZ_PADDING + if has_logo {
            LOGO_SIZE + HORIZ_PADDING - 1
        } else {
            0
        },
        layout_of(label_width, msg_width, flavor, true, false, true).msg_total_width
            == layout_of(label_width, msg_width, flavor, false, false, true).msg_total_width
            + LOGO_SIZE + HORIZ_PADDING - 1,
{
    assert((msg_width + 10000) / 1000 == msg_width / 1000 + 10);
    assert((msg_width + 10000 + 18000) / 1000 == msg_width / 1000 + 28);
}

} // verus!
