//! Display geometry, pixel formats and display initialization errors.

use vstd::prelude::*;

use crate::color::{Rgb565Color, Rgb888Color, RgbColor};

verus! {

/// Panel height in pixels (portrait).
pub const FB_HEIGHT: u16 = 800;

/// Panel width in pixels (portrait).
pub const FB_WIDTH: u16 = 480;

/// Total framebuffer pixel count (480 × 800 = 384,000).
pub const FB_SIZE: usize = 384000;

/// Orientation mode handed to the NT35510 panel driver.
#[derive(Clone, Copy, Debug, PartialEq, Eq, Structural)]
pub enum PanelMode {
    /// Portrait orientation (480x800).
    Portrait,
    /// Landscape orientation (800x480).
    Landscape,
}

/// Color format handed to the NT35510 panel driver.
#[derive(Clone, Copy, Debug, PartialEq, Eq, Structural)]
pub enum PanelColorFormat {
    /// 16-bit RGB565.
    Rgb565,
    /// 24-bit RGB888.
    Rgb888,
}

/// Pixel format for display controller configuration.
///
/// Implementors define how colors are encoded for LTDC, DSI, and the panel IC.
/// Two formats are provided: [`Argb8888`] (4 bytes/pixel) and [`Rgb565`] (2 bytes/pixel).
pub trait DisplayFormat: Copy + Sized {
    /// Raw pixel type stored in the framebuffer.
    type Pixel: Copy;

    /// Color type drawn into the framebuffer.
    type Color: RgbColor;

    /// LTDC pixel format register value.
    spec fn spec_ltdc_pf() -> u8;

    /// DSI color coding byte.
    spec fn spec_dsi_color_coding() -> u8;

    /// Panel color format.
    spec fn spec_color_format() -> PanelColorFormat;

    /// Bytes per pixel.
    spec fn spec_bpp() -> usize;

    /// Raw pixel value of a color.
    spec fn spec_encode(color: Self::Color) -> Self::Pixel;

    /// Raw pixel value representing black.
    spec fn spec_black() -> Self::Pixel;

    /// LTDC pixel format register value (0=ARGB8888, 2=RGB565, etc.).
    fn ltdc_pf() -> (v: u8)
        ensures
            v == Self::spec_ltdc_pf(),
    ;

    /// DSI color coding byte.
    fn dsi_color_coding() -> (v: u8)
        ensures
            v == Self::spec_dsi_color_coding(),
    ;

    /// NT35510 color format for this pixel format.
    fn nt35510_color_format() -> (v: PanelColorFormat)
        ensures
            v == Self::spec_color_format(),
    ;

    /// Bytes per pixel.
    fn bpp() -> (v: usize)
        ensures
            v == Self::spec_bpp(),
    ;

    /// Convert a color to a raw pixel value.
    fn encode(color: Self::Color) -> (p: Self::Pixel)
        ensures
            p == Self::spec_encode(color),
    ;

    /// Raw pixel value representing black.
    fn black() -> (p: Self::Pixel)
        ensures
            p == Self::spec_black(),
    ;

    /// Default color (black).
    fn default_color() -> (c: Self::Color)
        ensures
            c == Self::Color::spec_black(),
            c.spec_r() == 0,
            c.spec_g() == 0,
            c.spec_b() == 0,
    ;

    /// Whether two raw pixel values are the same.
    fn same_pixel(a: Self::Pixel, b: Self::Pixel) -> (r: bool)
        ensures
            r == (a == b),
    ;
}

/// ARGB8888 pixel format (4 bytes/pixel, 32-bit).
#[derive(Clone, Copy, Debug, Default, PartialEq, Eq, Structural)]
pub struct Argb8888;

/// Opaque ARGB8888 value of an RGB888 color: alpha 0xFF, then red, green, blue.
pub open spec fn argb8888_of(color: Rgb888Color) -> u32 {
    0xFF00_0000u32 | ((color.spec_r() as u32) << 16u32) | ((color.spec_g() as u32) << 8u32) | (
    color.spec_b() as u32)
}

impl DisplayFormat for Argb8888 {
    type Pixel = u32;

    type Color = Rgb888Color;

    open spec fn spec_ltdc_pf() -> u8 {
        0
    }

    open spec fn spec_dsi_color_coding() -> u8 {
        0x05
    }

    open spec fn spec_color_format() -> PanelColorFormat {
        PanelColorFormat::Rgb888
    }

    open spec fn spec_bpp() -> usize {
        4
    }

    open spec fn spec_encode(color: Rgb888Color) -> u32 {
        argb8888_of(color)
    }

    open spec fn spec_black() -> u32 {
        0xFF00_0000
    }

    fn ltdc_pf() -> (v: u8) {
        0
    }

    fn dsi_color_coding() -> (v: u8) {
        0x05
    }

    fn nt35510_color_format() -> (v: PanelColorFormat) {
        PanelColorFormat::Rgb888
    }

    fn bpp() -> (v: usize) {
        4
    }

    fn encode(color: Rgb888Color) -> (p: u32) {
        0xFF00_0000u32 | ((color.r() as u32) << 16u32) | ((color.g() as u32) << 8u32) | (
        color.b() as u32)
    }

    fn black() -> (p: u32) {
        0xFF00_0000
    }

    fn default_color() -> (c: Rgb888Color) {
        Rgb888Color::black()
    }

    fn same_pixel(a: u32, b: u32) -> (r: bool) {
        a == b
    }
}

/// RGB565 pixel format (2 bytes/pixel, 16-bit).
#[derive(Clone, Copy, Debug, Default, PartialEq, Eq, Structural)]
pub struct Rgb565;

impl DisplayFormat for Rgb565 {
    type Pixel = u16;

    type Color = Rgb565Color;

    open spec fn spec_ltdc_pf() -> u8 {
        2
    }

    open spec fn spec_dsi_color_coding() -> u8 {
        0x00
    }

    open spec fn spec_color_format() -> PanelColorFormat {
        PanelColorFormat::Rgb565
    }

    open spec fn spec_bpp() -> usize {
        2
    }

    open spec fn spec_encode(color: Rgb565Color) -> u16 {
        color.spec_storage()
    }

    open spec fn spec_black() -> u16 {
        0
    }

    fn ltdc_pf() -> (v: u8) {
        2
    }

    fn dsi_color_coding() -> (v: u8) {
        0x00
    }

    fn nt35510_color_format() -> (v: PanelColorFormat) {
        PanelColorFormat::Rgb565
    }

    fn bpp() -> (v: usize) {
        2
    }

    fn encode(color: Rgb565Color) -> (p: u16) {
        color.into_storage()
    }

    fn black() -> (p: u16) {
        0
    }

    fn default_color() -> (c: Rgb565Color) {
        Rgb565Color::black()
    }

    fn same_pixel(a: u16, b: u16) -> (r: bool) {
        a == b
    }
}

/// An ARGB8888 pixel carries the color's blue channel in byte 0, green in
/// byte 1, red in byte 2 and full alpha (0xFF) in byte 3, for every color.
pub proof fn lemma_argb8888_channels(c: Rgb888Color)
    ensures
        ({
            let p = Argb8888::spec_encode(c);
            &&& p & 0xFF == c.spec_b() as u32
            &&& (p >> 8u32) & 0xFF == c.spec_g() as u32
            &&& (p >> 16u32) & 0xFF == c.spec_r() as u32
            &&& p >> 24u32 == 0xFF
            &&& p as int == 0xFF00_0000 + c.spec_r() as int * 0x1_0000 + c.spec_g() as int * 0x100
                + c.spec_b() as int
        }),
{
    let r = c.spec_r();
    let g = c.spec_g();
    let b = c.spec_b();
    let p = 0xFF00_0000u32 | ((r as u32) << 16u32) | ((g as u32) << 8u32) | (b as u32);
    assert(p == Argb8888::spec_encode(c));
    assert(p & 0xFF == b as u32 && (p >> 8u32) & 0xFF == g as u32 && (p >> 16u32) & 0xFF
        == r as u32 && p >> 24u32 == 0xFF) by (bit_vector)
        requires
            p == 0xFF00_0000u32 | ((r as u32) << 16u32) | ((g as u32) << 8u32) | (b as u32),
    ;
    assert(p == 0xFF00_0000u32 + (r as u32) * 0x1_0000u32 + (g as u32) * 0x100u32 + (b as u32))
        by (bit_vector)
        requires
            p == 0xFF00_0000u32 | ((r as u32) << 16u32) | ((g as u32) << 8u32) | (b as u32),
    ;
}

/// An RGB565 pixel carries the color's blue channel in bits 0..5, green in
/// bits 5..11 and red in bits 11..16, for every color whose channels are
/// within their 5/6/5-bit widths.
pub proof fn lemma_rgb565_channels(c: Rgb565Color)
    requires
        c.spec_r() <= 31,
        c.spec_g() <= 63,
        c.spec_b() <= 31,
    ensures
        ({
            let p = Rgb565::spec_encode(c);
            &&& p & 0x1F == c.spec_b() as u16
            &&& (p >> 5u16) & 0x3F == c.spec_g() as u16
            &&& p >> 11u16 == c.spec_r() as u16
            &&& p as int == c.spec_r() as int * 2048 + c.spec_g() as int * 32 + c.spec_b() as int
        }),
{
    let r = c.spec_r();
    let g = c.spec_g();
    let b = c.spec_b();
    let p = ((r as u16) << 11u16) | ((g as u16) << 5u16) | (b as u16);
    assert(p == Rgb565::spec_encode(c));
    assert(p & 0x1F == b as u16 && (p >> 5u16) & 0x3F == g as u16 && p >> 11u16 == r as u16
        && p == (r as u16) * 2048u16 + (g as u16) * 32u16 + (b as u16)) by (bit_vector)
        requires
            p == ((r as u16) << 11u16) | ((g as u16) << 5u16) | (b as u16),
            r <= 31,
            g <= 63,
            b <= 31,
    ;
}

/// In both pixel formats, the raw black pixel is the encoding of the default color.
pub proof fn lemma_black_is_default_color()
    ensures
        Argb8888::spec_black() == Argb8888::spec_encode(Rgb888Color::spec_black()),
        Rgb565::spec_black() == Rgb565::spec_encode(Rgb565Color::spec_black()),
{
    let a = Rgb888Color::spec_black();
    let b = Rgb565Color::spec_black();
    Rgb888Color::lemma_spec_new(0, 0, 0);
    Rgb565Color::lemma_spec_new(0, 0, 0);
    assert(a.spec_r() == 0 && a.spec_g() == 0 && a.spec_b() == 0);
    assert(b.spec_r() == 0 && b.spec_g() == 0 && b.spec_b() == 0);
    assert(0xFF00_0000u32 | ((0u8 as u32) << 16u32) | ((0u8 as u32) << 8u32) | (0u8 as u32)
        == 0xFF00_0000u32) by (bit_vector);
    assert(((0u8 as u16) << 11u16) | ((0u8 as u16) << 5u16) | (0u8 as u16) == 0u16) by (bit_vector);
}

/// Errors that can occur during display initialization.
#[derive(Debug, Clone, Copy, PartialEq, Eq, Structural)]
#[non_exhaustive]
pub enum DisplayInitError {
    /// DSI host voltage regulator did not become ready within the timeout.
    DsiRegulatorTimeout,
    /// DSI host PLL did not lock within the timeout.
    DsiPllTimeout,
    /// DSI command write to the panel failed.
    DsiWrite,
    /// Panel initialization sequence failed.
    PanelInit,
    /// The framebuffer byte count `len_pixels * F::bpp()` does not fit in `usize`.
    FramebufferSizeOverflow,
    /// Caller-supplied framebuffer byte slice is too small for the requested resolution.
    ///
    /// Returned when the slice length is less than `len_pixels * F::bpp()`.
    FramebufferTooSmall {
        /// Actual number of bytes provided by the caller.
        provided_bytes: usize,
        /// Minimum number of bytes required for the requested resolution.
        required_bytes: usize,
    },
    /// Caller-supplied framebuffer byte slice is not properly aligned.
    ///
    /// Returned when the slice start address is not aligned to `align_of::<F::Pixel>()`.
    FramebufferMisaligned {
        /// Actual address of the slice pointer.
        ptr_addr: usize,
        /// Required alignment for the pixel type.
        required_align: usize,
    },
}

/// Display orientation (portrait or landscape).
#[derive(Clone, Copy, Debug, PartialEq, Eq, Structural)]
pub enum DisplayOrientation {
    /// Portrait mode: 480 wide × 800 tall.
    Portrait,
    /// Landscape mode: 800 wide × 480 tall.
    Landscape,
}

impl DisplayOrientation {
    /// Pixel width of the orientation.
    pub open spec fn spec_width(self) -> u16 {
        match self {
            DisplayOrientation::Portrait => FB_WIDTH,
            DisplayOrientation::Landscape => FB_HEIGHT,
        }
    }

    /// Pixel height of the orientation.
    pub open spec fn spec_height(self) -> u16 {
        match self {
            DisplayOrientation::Portrait => FB_HEIGHT,
            DisplayOrientation::Landscape => FB_WIDTH,
        }
    }

    /// Pixel width for this orientation.
    pub fn width(self) -> (w: u16)
        ensures
            w == self.spec_width(),
    {
        match self {
            DisplayOrientation::Portrait => FB_WIDTH,
            DisplayOrientation::Landscape => FB_HEIGHT,
        }
    }

    /// Pixel height for this orientation.
    pub fn height(self) -> (h: u16)
        ensures
            h == self.spec_height(),
    {
        match self {
            DisplayOrientation::Portrait => FB_HEIGHT,
            DisplayOrientation::Landscape => FB_WIDTH,
        }
    }

    /// Total framebuffer pixel count for this orientation.
    pub fn fb_size(self) -> (n: usize)
        ensures
            n == self.spec_width() * self.spec_height(),
            n == FB_SIZE,
    {
        (self.width() as usize) * (self.height() as usize)
    }

    /// NT35510 panel mode corresponding to this orientation.
    pub fn nt35510_mode(self) -> (m: PanelMode)
        ensures
            m == (match self {
                DisplayOrientation::Portrait => PanelMode::Portrait,
                DisplayOrientation::Landscape => PanelMode::Landscape,
            }),
    {
        match self {
            DisplayOrientation::Portrait => PanelMode::Portrait,
            DisplayOrientation::Landscape => PanelMode::Landscape,
        }
    }
}

} // verus!
