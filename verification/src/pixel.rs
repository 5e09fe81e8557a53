//! Pixel samples and their reduction to a binary brightness class.

use vstd::prelude::*;

verus! {

/// One sample of a decoded image: four 8-bit channels.
#[derive(Clone, Copy, Debug, PartialEq, Eq, Structural)]
pub struct PixelSample {
    pub red: u8,
    pub green: u8,
    pub blue: u8,
    pub alpha: u8,
}

/// The two brightness classes a sample can fall into.
#[derive(Clone, Copy, Debug, PartialEq, Eq, Structural)]
pub enum BrightnessClass {
    Dark,
    Light,
}

/// The midpoint of the luminance range, in thousandths.
pub const LUMINANCE_MIDPOINT: u32 = 128_000;

/// Perceptual luminance of a sample in thousandths of a channel step:
/// `1000 * (0.299 R + 0.587 G + 0.114 B)`. The alpha channel takes no part.
pub open spec fn luminance(sample: PixelSample) -> int {
    299 * sample.red + 587 * sample.green + 114 * sample.blue
}

/// A sample is light when its luminance lies strictly above the midpoint.
pub open spec fn brightness_of(sample: PixelSample) -> BrightnessClass {
    if luminance(sample) > LUMINANCE_MIDPOINT {
        BrightnessClass::Light
    } else {
        BrightnessClass::Dark
    }
}

/// Whether a pixel of class `class` produces a dot: light pixels do unless
/// the selection is inverted, dark pixels do when it is.
pub open spec fn selects(class: BrightnessClass, inverted: bool) -> bool {
    (class == BrightnessClass::Light && !inverted) || (class == BrightnessClass::Dark && inverted)
}

/// Luminance of `color` in thousandths.
pub fn luminance_of(color: PixelSample) -> (value: u32)
    ensures
        value == luminance(color),
        value <= 255_000,
{
    let red: u32 = color.red as u32;
    let green: u32 = color.green as u32;
    let blue: u32 = color.blue as u32;
    299 * red + 587 * green + 114 * blue
}

/// Classifies a sample as dark or light.
pub fn rgba_to_bw(color: PixelSample) -> (class: BrightnessClass)
    ensures
        class == brightness_of(color),
{
    if luminance_of(color) > LUMINANCE_MIDPOINT {
        BrightnessClass::Light
    } else {
        BrightnessClass::Dark
    }
}

/// Applies the inclusion policy to a brightness class.
pub fn is_included(class: BrightnessClass, inverted: bool) -> (included: bool)
    ensures
        included == selects(class, inverted),
{
    match class {
        BrightnessClass::Light => !inverted,
        BrightnessClass::Dark => inverted,
    }
}

/// Every class is selected by exactly one of the two settings of `inverted`.
pub proof fn lemma_selection_is_complementary(class: BrightnessClass)
    ensures
        selects(class, false) != selects(class, true),
{
}

/// The alpha channel has no influence on the class of a sample.
pub proof fn lemma_alpha_is_ignored(a: PixelSample, b: PixelSample)
    requires
        a.red == b.red,
        a.green == b.green,
        a.blue == b.blue,
    ensures
        brightness_of(a) == brightness_of(b),
{
}

} // verus!
