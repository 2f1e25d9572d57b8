//! The palette: colours as four single-precision channels.

use crate::scalar::Scalar;
use vstd::prelude::*;

verus! {

/// A colour with red, green, blue and alpha channels.
#[derive(Debug, Clone, Copy, PartialEq, Eq, Structural)]
pub struct Color {
    pub r: Scalar,
    pub g: Scalar,
    pub b: Scalar,
    pub a: Scalar,
}

/// The colour whose channels have the given encodings.
pub open spec fn rgba(r: u32, g: u32, b: u32, a: u32) -> Color {
    Color { r: Scalar { bits: r }, g: Scalar { bits: g }, b: Scalar { bits: b }, a: Scalar { bits: a } }
}

/// Red, green, blue: 0.203, 0.59375, 0.85547; opaque.
pub open spec fn spec_light_blue() -> Color {
    rgba(0x3e4f_df3b, 0x3f18_0000, 0x3f5b_0015, 0x3f80_0000)
}

#[verifier::when_used_as_spec(spec_light_blue)]
pub fn light_blue() -> (color: Color)
    ensures
        color == spec_light_blue(),
{
    Color::from_bits(0x3e4f_df3b, 0x3f18_0000, 0x3f5b_0015, 0x3f80_0000)
}

/// Red, green, blue: 0.1601, 0.5, 0.72265; opaque.
pub open spec fn spec_dark_blue() -> Color {
    rgba(0x3e23_f141, 0x3f00_0000, 0x3f38_ff97, 0x3f80_0000)
}

#[verifier::when_used_as_spec(spec_dark_blue)]
pub fn dark_blue() -> (color: Color)
    ensures
        color == spec_dark_blue(),
{
    Color::from_bits(0x3e23_f141, 0x3f00_0000, 0x3f38_ff97, 0x3f80_0000)
}

/// Red, green, blue: 0.17968, 0.7968, 0.4414; opaque.
pub open spec fn spec_light_green() -> Color {
    rgba(0x3e37_fe09, 0x3f4b_fb16, 0x3ee1_ff2e, 0x3f80_0000)
}

#[verifier::when_used_as_spec(spec_light_green)]
pub fn light_green() -> (color: Color)
    ensures
        color == spec_light_green(),
{
    Color::from_bits(0x3e37_fe09, 0x3f4b_fb16, 0x3ee1_ff2e, 0x3f80_0000)
}

/// Red, green, blue: 0.905, 0.298, 0.235; opaque.
pub open spec fn spec_light_red() -> Color {
    rgba(0x3f67_ae14, 0x3e98_9375, 0x3e70_a3d7, 0x3f80_0000)
}

#[verifier::when_used_as_spec(spec_light_red)]
pub fn light_red() -> (color: Color)
    ensures
        color == spec_light_red(),
{
    Color::from_bits(0x3f67_ae14, 0x3e98_9375, 0x3e70_a3d7, 0x3f80_0000)
}

/// Red, green, blue: 0.943, 0.768, 0.059; opaque.
pub open spec fn spec_light_yellow() -> Color {
    rgba(0x3f71_6873, 0x3f44_9ba6, 0x3d71_a9fc, 0x3f80_0000)
}

#[verifier::when_used_as_spec(spec_light_yellow)]
pub fn light_yellow() -> (color: Color)
    ensures
        color == spec_light_yellow(),
{
    Color::from_bits(0x3f71_6873, 0x3f44_9ba6, 0x3d71_a9fc, 0x3f80_0000)
}

/// Red, green, blue: 0.925, 0.941, 0.943; opaque.
pub open spec fn spec_white() -> Color {
    rgba(0x3f6c_cccd, 0x3f70_e560, 0x3f71_6873, 0x3f80_0000)
}

#[verifier::when_used_as_spec(spec_white)]
pub fn white() -> (color: Color)
    ensures
        color == spec_white(),
{
    Color::from_bits(0x3f6c_cccd, 0x3f70_e560, 0x3f71_6873, 0x3f80_0000)
}

/// Red, green, blue: 0.2421, 0.1406, 0.1406; opaque.
pub open spec fn spec_brown() -> Color {
    rgba(0x3e77_e910, 0x3e0f_f972, 0x3e0f_f972, 0x3f80_0000)
}

#[verifier::when_used_as_spec(spec_brown)]
pub fn brown() -> (color: Color)
    ensures
        color == spec_brown(),
{
    Color::from_bits(0x3e77_e910, 0x3e0f_f972, 0x3e0f_f972, 0x3f80_0000)
}

impl Color {
    /// The colour whose channels have the given encodings.
    pub fn from_bits(r: u32, g: u32, b: u32, a: u32) -> (color: Color)
        ensures
            color == rgba(r, g, b, a),
    {
        Color {
            r: Scalar::from_bits(r),
            g: Scalar::from_bits(g),
            b: Scalar::from_bits(b),
            a: Scalar::from_bits(a),
        }
    }

    /// The red, green and blue channels.
    pub fn into(self) -> (channels: [Scalar; 3])
        ensures
            channels@ == seq![self.r, self.g, self.b],
    {
        let channels = [self.r, self.g, self.b];
        assert(channels@ =~= seq![self.r, self.g, self.b]);
        channels
    }

    /// The red, green, blue and alpha channels.
    pub fn into_with_a(self) -> (channels: [Scalar; 4])
        ensures
            channels@ == seq![self.r, self.g, self.b, self.a],
    {
        let channels = [self.r, self.g, self.b, self.a];
        assert(channels@ =~= seq![self.r, self.g, self.b, self.a]);
        channels
    }
}

} // verus!
