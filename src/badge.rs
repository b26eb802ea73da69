//! A badge description and the derivation of its layout.

use vstd::prelude::*;
use vstd::string::*;

use crate::accent::Color;
use crate::layout::{derive_layout, layout_of, DerivedInfo, Flavor};
use crate::text::{
    measure_text, measured_width, nfc_of, normalize_nfc, BadgeFont, FONT_SIZE, KERNING_MPX,
};

verus! {

/// What a badge shows and links to.
#[derive(Clone, Debug)]
pub struct Badge {
    pub label_text: String,
    pub msg_text: String,
    pub badge_link: String,
    pub label_link: String,
    pub msg_link: String,
    pub label_color: Color,
    pub msg_color: Color,
    /// Logo markup or data URI; empty for no logo.
    pub logo: String,
    pub embed_logo: bool,
    pub badge_title: String,
    pub label_title: String,
    pub msg_title: String,
    pub open_in_browser: bool,
}

/// Ids of the smoothing gradient and the rounding clip path of one badge,
/// kept apart from those of other badges in the same document by `suffix`.
pub fn svg_element_ids(suffix: &str) -> (r: (String, String))
    ensures
        r.0@ == "smooth"@ + suffix@,
        r.1@ == "round"@ + suffix@,
{
    ("smooth".to_owned().concat(suffix), "round".to_owned().concat(suffix))
}

/// A badge whose two texts are replaced by the given ones.
pub open spec fn with_texts(b: Badge, label_text: String, msg_text: String) -> Badge {
    Badge { label_text, msg_text, ..b }
}

/// Layout of badge `b` whose texts measure `label_width` and `msg_width`
/// millipixels: a logo is present when its markup is not empty, and a text
/// when it is not empty.
pub open spec fn badge_layout(label_width: int, msg_width: int, flavor: Flavor, b: Badge) -> DerivedInfo {
    layout_of(
        label_width,
        msg_width,
        flavor,
        b.logo@.len() > 0,
        b.label_text@.len() > 0,
        b.msg_text@.len() > 0,
    )
}

impl Default for Badge {
    /// A "test" / "test" badge on grey (#555) and blue (#007ec6), with no
    /// links, logo or titles.
    fn default() -> (r: Badge)
        ensures
            r.label_text@ == "test"@,
            r.msg_text@ == "test"@,
            r.badge_link@.len() == 0,
            r.label_link@.len() == 0,
            r.msg_link@.len() == 0,
            r.label_color == (Color { red: 0x55, green: 0x55, blue: 0x55 }),
            r.msg_color == (Color { red: 0x00, green: 0x7e, blue: 0xc6 }),
            r.logo@.len() == 0,
            !r.embed_logo,
            r.badge_title@.len() == 0,
            r.label_title@.len() == 0,
            r.msg_title@.len() == 0,
            !r.open_in_browser,
    {
        Badge {
            label_text: "test".to_owned(),
            msg_text: "test".to_owned(),
            badge_link: String::new(),
            label_link: String::new(),
            msg_link: String::new(),
            label_color: Color { red: 0x55, green: 0x55, blue: 0x55 },
            msg_color: Color { red: 0x00, green: 0x7e, blue: 0xc6 },
            logo: String::new(),
            embed_logo: false,
            badge_title: String::new(),
            label_title: String::new(),
            msg_title: String::new(),
            open_in_browser: false,
        }
    }
}

impl Badge {
    /// Replaces the label and message texts by their canonical composed form
    /// (NFC), which is the form that is measured and drawn.
    pub fn normalize_text(&mut self)
        ensures
            *final(self) == with_texts(*old(self), final(self).label_text, final(self).msg_text),
            final(self).label_text@ == nfc_of(old(self).label_text@),
            final(self).msg_text@ == nfc_of(old(self).msg_text@),
    {
        self.label_text = normalize_nfc(self.label_text.as_str());
        self.msg_text = normalize_nfc(self.msg_text.as_str());
    }

    /// Normalizes the texts, measures them in `font` and lays out the badge
    /// in the given flavor.
    pub fn derive_construction_info(&mut self, font: &BadgeFont, flavor: Flavor) -> (r: DerivedInfo)
        requires
            font.wf(),
        ensures
            *final(self) == with_texts(*old(self), final(self).label_text, final(self).msg_text),
            final(self).label_text@ == nfc_of(old(self).label_text@),
            final(self).msg_text@ == nfc_of(old(self).msg_text@),
            r == badge_layout(
                measured_width(
                    font.bytes@,
                    font.height as int,
                    final(self).label_text@,
                    FONT_SIZE as int,
                    KERNING_MPX as int,
                ),
                measured_width(
                    font.bytes@,
                    font.height as int,
                    final(self).msg_text@,
                    FONT_SIZE as int,
                    KERNING_MPX as int,
                ),
                flavor,
                *final(self),
            ),
    {
        self.normalize_text();
        let label_width = measure_text(font, self.label_text.as_str(), FONT_SIZE, KERNING_MPX);
        let msg_width = measure_text(font, self.msg_text.as_str(), FONT_SIZE, KERNING_MPX);
        let info = derive_layout(
            label_width,
            msg_width,
            flavor,
            !self.logo.as_str().is_empty(),
            !self.label_text.as_str().is_empty(),
            !self.msg_text.as_str().is_empty(),
        );
        assert(info == badge_layout(label_width as int, msg_width as int, flavor, *self));
        info
    }
}

} // verus!
