//! RGB color values with the channel widths of the supported pixel formats.
//!
//! Each color keeps its channels as plain integers below the channel's
//! maximum (5/6/5 bits for [`Rgb565Color`], 8/8/8 bits for [`Rgb888Color`]).

use vstd::prelude::*;

verus! {

/// An RGB color whose channels are bounded by per-type maxima.
pub trait RgbColor: Copy + Sized {
    /// Red channel of the color.
    spec fn spec_r(self) -> u8;

    /// Green channel of the color.
    spec fn spec_g(self) -> u8;

    /// Blue channel of the color.
    spec fn spec_b(self) -> u8;

    /// Largest value of the red channel.
    spec fn spec_max_r() -> u8;

    /// Largest value of the green channel.
    spec fn spec_max_g() -> u8;

    /// Largest value of the blue channel.
    spec fn spec_max_b() -> u8;

    /// Black.
    spec fn spec_black() -> Self;

    /// Red.
    spec fn spec_red() -> Self;

    /// Green.
    spec fn spec_green() -> Self;

    /// Blue.
    spec fn spec_blue() -> Self;

    /// Yellow.
    spec fn spec_yellow() -> Self;

    /// Returns the red channel.
    fn r(&self) -> (v: u8)
        ensures
            v == self.spec_r(),
    ;

    /// Returns the green channel.
    fn g(&self) -> (v: u8)
        ensures
            v == self.spec_g(),
    ;

    /// Returns the blue channel.
    fn b(&self) -> (v: u8)
        ensures
            v == self.spec_b(),
    ;

    /// Black: every channel at zero.
    fn black() -> (c: Self)
        ensures
            c == Self::spec_black(),
            c.spec_r() == 0,
            c.spec_g() == 0,
            c.spec_b() == 0,
    ;

    /// Red: red channel at its maximum, the others at zero.
    fn red() -> (c: Self)
        ensures
            c == Self::spec_red(),
            c.spec_r() == Self::spec_max_r(),
            c.spec_g() == 0,
            c.spec_b() == 0,
    ;

    /// Green: green channel at its maximum, the others at zero.
    fn green() -> (c: Self)
        ensures
            c == Self::spec_green(),
            c.spec_r() == 0,
            c.spec_g() == Self::spec_max_g(),
            c.spec_b() == 0,
    ;

    /// Blue: blue channel at its maximum, the others at zero.
    fn blue() -> (c: Self)
        ensures
            c == Self::spec_blue(),
            c.spec_r() == 0,
            c.spec_g() == 0,
            c.spec_b() == Self::spec_max_b(),
    ;

    /// Yellow: red and green channels at their maxima, blue at zero.
    fn yellow() -> (c: Self)
        ensures
            c == Self::spec_yellow(),
            c.spec_r() == Self::spec_max_r(),
            c.spec_g() == Self::spec_max_g(),
            c.spec_b() == 0,
    ;
}

/// 16-bit color with 5 bits of red, 6 bits of green and 5 bits of blue.
#[derive(Clone, Copy, Debug, PartialEq, Eq, Structural)]
pub struct Rgb565Color {
    r: u8,
    g: u8,
    b: u8,
}

impl Rgb565Color {
    /// Channels stay within 5/6/5 bits.
    #[verifier::type_invariant]
    spec fn channels_in_range(self) -> bool {
        self.r <= 31 && self.g <= 63 && self.b <= 31
    }

    /// The color with the given channels, each already within its width.
    pub closed spec fn spec_new(r: u8, g: u8, b: u8) -> Self {
        Rgb565Color { r, g, b }
    }

    /// The channels of a color built with [`spec_new`](Self::spec_new).
    pub proof fn lemma_spec_new(r: u8, g: u8, b: u8)
        ensures
            Self::spec_new(r, g, b).spec_r() == r,
            Self::spec_new(r, g, b).spec_g() == g,
            Self::spec_new(r, g, b).spec_b() == b,
    {
    }

    /// Creates a color; bits above each channel's width are cleared.
    pub fn new(r: u8, g: u8, b: u8) -> (c: Self)
        ensures
            c.spec_r() == r & 31,
            c.spec_g() == g & 63,
            c.spec_b() == b & 31,
    {
        assert(r & 31 <= 31 && g & 63 <= 63 && b & 31 <= 31) by (bit_vector);
        Rgb565Color { r: r & 31, g: g & 63, b: b & 31 }
    }

    /// The 16-bit storage of the color: red in bits 11..16, green in
    /// bits 5..11, blue in bits 0..5.
    pub open spec fn spec_storage(self) -> u16 {
        ((self.spec_r() as u16) << 11u16) | ((self.spec_g() as u16) << 5u16) | (
        self.spec_b() as u16)
    }

    /// Returns the 16-bit storage of the color.
    pub fn into_storage(self) -> (v: u16)
        ensures
            v == self.spec_storage(),
    {
        ((self.r as u16) << 11u16) | ((self.g as u16) << 5u16) | (self.b as u16)
    }
}

impl RgbColor for Rgb565Color {
    open spec fn spec_black() -> Self {
        Rgb565Color::spec_new(0, 0, 0)
    }

    open spec fn spec_red() -> Self {
        Rgb565Color::spec_new(31, 0, 0)
    }

    open spec fn spec_green() -> Self {
        Rgb565Color::spec_new(0, 63, 0)
    }

    open spec fn spec_blue() -> Self {
        Rgb565Color::spec_new(0, 0, 31)
    }

    open spec fn spec_yellow() -> Self {
        Rgb565Color::spec_new(31, 63, 0)
    }

    closed spec fn spec_r(self) -> u8 {
        self.r
    }

    closed spec fn spec_g(self) -> u8 {
        self.g
    }

    closed spec fn spec_b(self) -> u8 {
        self.b
    }

    open spec fn spec_max_r() -> u8 {
        31
    }

    open spec fn spec_max_g() -> u8 {
        63
    }

    open spec fn spec_max_b() -> u8 {
        31
    }

    fn r(&self) -> (v: u8) {
        self.r
    }

    fn g(&self) -> (v: u8) {
        self.g
    }

    fn b(&self) -> (v: u8) {
        self.b
    }

    fn black() -> (c: Self) {
        Rgb565Color { r: 0, g: 0, b: 0 }
    }

    fn red() -> (c: Self) {
        Rgb565Color { r: 31, g: 0, b: 0 }
    }

    fn green() -> (c: Self) {
        Rgb565Color { r: 0, g: 63, b: 0 }
    }

    fn blue() -> (c: Self) {
        Rgb565Color { r: 0, g: 0, b: 31 }
    }

    fn yellow() -> (c: Self) {
        Rgb565Color { r: 31, g: 63, b: 0 }
    }
}

/// 24-bit color with 8 bits per channel.
#[derive(Clone, Copy, Debug, PartialEq, Eq, Structural)]
pub struct Rgb888Color {
    r: u8,
    g: u8,
    b: u8,
}

impl Rgb888Color {
    /// The color with the given channels.
    pub closed spec fn spec_new(r: u8, g: u8, b: u8) -> Self {
        Rgb888Color { r, g, b }
    }

    /// The channels of a color built with [`spec_new`](Self::spec_new).
    pub proof fn lemma_spec_new(r: u8, g: u8, b: u8)
        ensures
            Self::spec_new(r, g, b).spec_r() == r,
            Self::spec_new(r, g, b).spec_g() == g,
            Self::spec_new(r, g, b).spec_b() == b,
    {
    }

    /// Creates a color from its three channels.
    pub fn new(r: u8, g: u8, b: u8) -> (c: Self)
        ensures
            c.spec_r() == r,
            c.spec_g() == g,
            c.spec_b() == b,
    {
        Rgb888Color { r, g, b }
    }
}

impl RgbColor for Rgb888Color {
    open spec fn spec_black() -> Self {
        Rgb888Color::spec_new(0, 0, 0)
    }

    open spec fn spec_red() -> Self {
        Rgb888Color::spec_new(255, 0, 0)
    }

    open spec fn spec_green() -> Self {
        Rgb888Color::spec_new(0, 255, 0)
    }

    open spec fn spec_blue() -> Self {
        Rgb888Color::spec_new(0, 0, 255)
    }

    open spec fn spec_yellow() -> Self {
        Rgb888Color::spec_new(255, 255, 0)
    }

    closed spec fn spec_r(self) -> u8 {
        self.r
    }

    closed spec fn spec_g(self) -> u8 {
        self.g
    }

    closed spec fn spec_b(self) -> u8 {
        self.b
    }

    open spec fn spec_max_r() -> u8 {
        255
    }

    open spec fn spec_max_g() -> u8 {
        255
    }

    open spec fn spec_max_b() -> u8 {
        255
    }

    fn r(&self) -> (v: u8) {
        self.r
    }

    fn g(&self) -> (v: u8) {
        self.g
    }

    fn b(&self) -> (v: u8) {
        self.b
    }

    fn black() -> (c: Self) {
        Rgb888Color { r: 0, g: 0, b: 0 }
    }

    fn red() -> (c: Self) {
        Rgb888Color { r: 255, g: 0, b: 0 }
    }

    fn green() -> (c: Self) {
        Rgb888Color { r: 0, g: 255, b: 0 }
    }

    fn blue() -> (c: Self) {
        Rgb888Color { r: 0, g: 0, b: 255 }
    }

    fn yellow() -> (c: Self) {
        Rgb888Color { r: 255, g: 255, b: 0 }
    }
}

} // verus!
