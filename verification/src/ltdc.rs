//! LTDC timing and layer configuration values.
//!
//! The vertical blanking intervals are larger than the NT35510 standard
//! portrait timing (V_SYNC=1, V_BACK_PORCH=15, V_FRONT_PORCH=16) because the
//! ~54 MHz PLLSAI pixel clock needs them; the two sets are not interchangeable.

use vstd::prelude::*;

use crate::display::{DisplayFormat, DisplayOrientation, FB_HEIGHT, FB_WIDTH};

verus! {

/// Horizontal sync width (portrait).
pub const H_SYNC: u16 = 2;

/// Horizontal back porch (portrait).
pub const H_BACK_PORCH: u16 = 34;

/// Horizontal front porch (portrait).
pub const H_FRONT_PORCH: u16 = 34;

/// Vertical sync height (portrait).
pub const V_SYNC: u16 = 120;

/// Vertical back porch (portrait).
pub const V_BACK_PORCH: u16 = 150;

/// Vertical front porch (portrait).
pub const V_FRONT_PORCH: u16 = 150;

/// Horizontal sync width (landscape).
pub const H_SYNC_LANDSCAPE: u16 = 120;

/// Horizontal back porch (landscape).
pub const H_BACK_PORCH_LANDSCAPE: u16 = 150;

/// Horizontal front porch (landscape).
pub const H_FRONT_PORCH_LANDSCAPE: u16 = 150;

/// Vertical sync height (landscape).
pub const V_SYNC_LANDSCAPE: u16 = 2;

/// Vertical back porch (landscape).
pub const V_BACK_PORCH_LANDSCAPE: u16 = 34;

/// Vertical front porch (landscape).
pub const V_FRONT_PORCH_LANDSCAPE: u16 = 34;

/// Sync, porch and active-area sizes of one orientation, in pixels and lines.
#[derive(Clone, Copy, Debug, PartialEq, Eq, Structural)]
pub struct VideoTiming {
    /// Horizontal sync width.
    pub h_sync: u16,
    /// Horizontal back porch.
    pub h_back_porch: u16,
    /// Horizontal front porch.
    pub h_front_porch: u16,
    /// Vertical sync height.
    pub v_sync: u16,
    /// Vertical back porch.
    pub v_back_porch: u16,
    /// Vertical front porch.
    pub v_front_porch: u16,
    /// Active width in pixels.
    pub width: u16,
    /// Active height in lines.
    pub height: u16,
}

/// Timing of an orientation: the portrait constants, or the landscape ones with
/// the active area rotated.
pub open spec fn spec_video_timing(orientation: DisplayOrientation) -> VideoTiming {
    match orientation {
        DisplayOrientation::Portrait => VideoTiming {
            h_sync: H_SYNC,
            h_back_porch: H_BACK_PORCH,
            h_front_porch: H_FRONT_PORCH,
            v_sync: V_SYNC,
            v_back_porch: V_BACK_PORCH,
            v_front_porch: V_FRONT_PORCH,
            width: FB_WIDTH,
            height: FB_HEIGHT,
        },
        DisplayOrientation::Landscape => VideoTiming {
            h_sync: H_SYNC_LANDSCAPE,
            h_back_porch: H_BACK_PORCH_LANDSCAPE,
            h_front_porch: H_FRONT_PORCH_LANDSCAPE,
            v_sync: V_SYNC_LANDSCAPE,
            v_back_porch: V_BACK_PORCH_LANDSCAPE,
            v_front_porch: V_FRONT_PORCH_LANDSCAPE,
            width: FB_HEIGHT,
            height: FB_WIDTH,
        },
    }
}

/// Sync, porch and active-area sizes for an orientation.
pub fn video_timing(orientation: DisplayOrientation) -> (t: VideoTiming)
    ensures
        t == spec_video_timing(orientation),
        t.width == orientation.spec_width(),
        t.height == orientation.spec_height(),
{
    match orientation {
        DisplayOrientation::Portrait => VideoTiming {
            h_sync: H_SYNC,
            h_back_porch: H_BACK_PORCH,
            h_front_porch: H_FRONT_PORCH,
            v_sync: V_SYNC,
            v_back_porch: V_BACK_PORCH,
            v_front_porch: V_FRONT_PORCH,
            width: FB_WIDTH,
            height: FB_HEIGHT,
        },
        DisplayOrientation::Landscape => VideoTiming {
            h_sync: H_SYNC_LANDSCAPE,
            h_back_porch: H_BACK_PORCH_LANDSCAPE,
            h_front_porch: H_FRONT_PORCH_LANDSCAPE,
            v_sync: V_SYNC_LANDSCAPE,
            v_back_porch: V_BACK_PORCH_LANDSCAPE,
            v_front_porch: V_FRONT_PORCH_LANDSCAPE,
            width: FB_HEIGHT,
            height: FB_WIDTH,
        },
    }
}

/// The landscape timing is the portrait timing turned a quarter: its
/// horizontal sync and porches are the portrait's vertical ones and the other
/// way round, and its active width and height are the portrait's height and
/// width.
pub proof fn lemma_landscape_is_rotated_portrait()
    ensures
        ({
            let p = spec_video_timing(DisplayOrientation::Portrait);
            let l = spec_video_timing(DisplayOrientation::Landscape);
            &&& l.h_sync == p.v_sync && l.v_sync == p.h_sync
            &&& l.h_back_porch == p.v_back_porch && l.v_back_porch == p.h_back_porch
            &&& l.h_front_porch == p.v_front_porch && l.v_front_porch == p.h_front_porch
            &&& l.width == p.height && l.height == p.width
            &&& p.width == DisplayOrientation::Portrait.spec_width()
            &&& p.height == DisplayOrientation::Portrait.spec_height()
        }),
{
}

/// LTDC synchronization register values (each an accumulated position minus one).
#[derive(Clone, Copy, Debug, PartialEq, Eq, Structural)]
pub struct LtdcTiming {
    /// SSCR.HSW: horizontal sync width - 1.
    pub hsw: u16,
    /// SSCR.VSH: vertical sync height - 1.
    pub vsh: u16,
    /// BPCR.AHBP: accumulated horizontal back porch.
    pub ahbp: u16,
    /// BPCR.AVBP: accumulated vertical back porch.
    pub avbp: u16,
    /// AWCR.AAH: accumulated active height.
    pub aah: u16,
    /// AWCR.AAW: accumulated active width.
    pub aaw: u16,
    /// TWCR.TOTALH: total height.
    pub totalh: u16,
    /// TWCR.TOTALW: total width.
    pub totalw: u16,
}

/// LTDC synchronization values of a video timing.
pub open spec fn spec_ltdc_timing(t: VideoTiming) -> LtdcTiming {
    LtdcTiming {
        hsw: (t.h_sync - 1) as u16,
        vsh: (t.v_sync - 1) as u16,
        ahbp: (t.h_sync + t.h_back_porch - 1) as u16,
        avbp: (t.v_sync + t.v_back_porch - 1) as u16,
        aah: (t.v_sync + t.v_back_porch + t.height - 1) as u16,
        aaw: (t.width + t.h_sync + t.h_back_porch - 1) as u16,
        totalh: (t.v_sync + t.v_back_porch + t.height + t.v_front_porch - 1) as u16,
        totalw: (t.width + t.h_sync + t.h_back_porch + t.h_front_porch - 1) as u16,
    }
}

/// LTDC synchronization register values for an orientation.
pub fn ltdc_timing(orientation: DisplayOrientation) -> (r: LtdcTiming)
    ensures
        r == spec_ltdc_timing(spec_video_timing(orientation)),
{
    let t = video_timing(orientation);
    LtdcTiming {
        hsw: t.h_sync - 1,
        vsh: t.v_sync - 1,
        ahbp: t.h_sync + t.h_back_porch - 1,
        avbp: t.v_sync + t.v_back_porch - 1,
        aah: t.v_sync + t.v_back_porch + t.height - 1,
        aaw: t.width + t.h_sync + t.h_back_porch - 1,
        totalh: t.v_sync + t.v_back_porch + t.height + t.v_front_porch - 1,
        totalw: t.width + t.h_sync + t.h_back_porch + t.h_front_porch - 1,
    }
}

/// LTDC layer pixel formats.
#[derive(Clone, Copy, Debug, PartialEq, Eq, Structural)]
pub enum LtdcPixelFormat {
    /// 32-bit ARGB.
    Argb8888,
    /// 24-bit RGB.
    Rgb888,
    /// 16-bit RGB.
    Rgb565,
    /// 16-bit ARGB with 1-bit alpha.
    Argb1555,
    /// 16-bit ARGB with 4-bit alpha.
    Argb4444,
}

/// Layer pixel format selected by an LTDC pixel format register value; unknown
/// values select ARGB8888.
pub open spec fn spec_ltdc_pixel_format(pf: u8) -> LtdcPixelFormat {
    if pf == 1 {
        LtdcPixelFormat::Rgb888
    } else if pf == 2 {
        LtdcPixelFormat::Rgb565
    } else if pf == 3 {
        LtdcPixelFormat::Argb1555
    } else if pf == 4 {
        LtdcPixelFormat::Argb4444
    } else {
        LtdcPixelFormat::Argb8888
    }
}

/// Layer pixel format for an LTDC pixel format register value.
pub fn ltdc_pixel_format(pf: u8) -> (r: LtdcPixelFormat)
    ensures
        r == spec_ltdc_pixel_format(pf),
{
    match pf {
        0 => LtdcPixelFormat::Argb8888,
        1 => LtdcPixelFormat::Rgb888,
        2 => LtdcPixelFormat::Rgb565,
        3 => LtdcPixelFormat::Argb1555,
        4 => LtdcPixelFormat::Argb4444,
        _ => LtdcPixelFormat::Argb8888,
    }
}

/// Pixel clock edge on which the LTDC drives its outputs.
#[derive(Clone, Copy, Debug, PartialEq, Eq, Structural)]
pub enum PixelClockPolarity {
    /// Outputs change on the rising edge of the pixel clock.
    RisingEdge,
    /// Outputs change on the falling edge (inverted pixel clock).
    FallingEdge,
}

/// LTDC global settings: signal polarities (GCR), background color (BCCR) and
/// interrupt enables (IER).
#[derive(Clone, Copy, Debug, PartialEq, Eq, Structural)]
pub struct LtdcGlobalConfig {
    /// GCR.HSPOL: horizontal sync active high.
    pub hsync_active_high: bool,
    /// GCR.VSPOL: vertical sync active high.
    pub vsync_active_high: bool,
    /// GCR.DEPOL: data enable active high.
    pub data_enable_active_high: bool,
    /// GCR.PCPOL: pixel clock polarity.
    pub pixel_clock: PixelClockPolarity,
    /// BCCR.BCRED: background red.
    pub background_red: u8,
    /// BCCR.BCGREEN: background green.
    pub background_green: u8,
    /// BCCR.BCBLUE: background blue.
    pub background_blue: u8,
    /// IER.TERRIE: transfer error interrupt enabled.
    pub transfer_error_interrupt: bool,
    /// IER.FUIE: FIFO underrun interrupt enabled.
    pub fifo_underrun_interrupt: bool,
}

/// Global LTDC settings for the DSI video bridge: sync pulses active high,
/// data enable active low, outputs on the rising pixel clock edge, black
/// background, and interrupts on transfer errors and FIFO underruns.
pub fn ltdc_global_config() -> (c: LtdcGlobalConfig)
    ensures
        c.hsync_active_high,
        c.vsync_active_high,
        !c.data_enable_active_high,
        c.pixel_clock == PixelClockPolarity::RisingEdge,
        c.background_red == 0,
        c.background_green == 0,
        c.background_blue == 0,
        c.transfer_error_interrupt,
        c.fifo_underrun_interrupt,
{
    LtdcGlobalConfig {
        hsync_active_high: true,
        vsync_active_high: true,
        data_enable_active_high: false,
        pixel_clock: PixelClockPolarity::RisingEdge,
        background_red: 0,
        background_green: 0,
        background_blue: 0,
        transfer_error_interrupt: true,
        fifo_underrun_interrupt: true,
    }
}

/// Constant alpha of layer 0 (opaque).
pub const LAYER_CONSTANT_ALPHA: u8 = 255;

/// Alpha of the layer's default color (transparent).
pub const LAYER_DEFAULT_ALPHA: u8 = 0;

/// LTDC layer 0 register values.
#[derive(Clone, Copy, Debug, PartialEq, Eq, Structural)]
pub struct LtdcLayerConfig {
    /// WHPCR.WHSTPOS: first column of the window.
    pub whstpos: u16,
    /// WHPCR.WHSPPOS: last column of the window.
    pub whsppos: u16,
    /// WVPCR.WVSTPOS: first line of the window.
    pub wvstpos: u16,
    /// WVPCR.WVSPPOS: last line of the window.
    pub wvsppos: u16,
    /// PFCR.PF: pixel format.
    pub pixel_format: LtdcPixelFormat,
    /// CFBAR.CFBADD: framebuffer start address.
    pub cfbadd: u32,
    /// CFBLR.CFBP: line pitch in bytes.
    pub cfbp: u16,
    /// CFBLR.CFBLL: line length in bytes + 3.
    pub cfbll: u16,
    /// CFBLNR.CFBLNBR: number of lines.
    pub cfblnbr: u16,
}

/// Layer 0 register values for a framebuffer at `fb_addr` holding pixels of
/// format `F`, given the accumulated back porches `ahbp`/`avbp` read from BPCR.
pub open spec fn spec_ltdc_layer_config<F: DisplayFormat>(
    orientation: DisplayOrientation,
    ahbp: u16,
    avbp: u16,
    fb_addr: u32,
) -> LtdcLayerConfig {
    let w = orientation.spec_width();
    let h = orientation.spec_height();
    let pitch = (w * (F::spec_bpp() as u16)) as u16;
    LtdcLayerConfig {
        whstpos: (ahbp + 1) as u16,
        whsppos: (ahbp + w) as u16,
        wvstpos: (avbp + 1) as u16,
        wvsppos: (avbp + h) as u16,
        pixel_format: spec_ltdc_pixel_format(F::spec_ltdc_pf()),
        cfbadd: fb_addr,
        cfbp: pitch,
        cfbll: (pitch + 3) as u16,
        cfblnbr: h,
    }
}

/// Layer 0 register values for a framebuffer at `fb_addr` holding pixels of
/// format `F`, given the accumulated back porches `ahbp`/`avbp` read from BPCR
/// (12-bit and 11-bit register fields).
pub fn ltdc_layer_config<F: DisplayFormat>(
    orientation: DisplayOrientation,
    ahbp: u16,
    avbp: u16,
    fb_addr: u32,
) -> (r: LtdcLayerConfig)
    requires
        ahbp < 4096,
        avbp < 4096,
        orientation.spec_width() * (F::spec_bpp() as u16) + 3 <= u16::MAX,
    ensures
        r == spec_ltdc_layer_config::<F>(orientation, ahbp, avbp, fb_addr),
{
    let window_x1 = orientation.width();
    let window_y1 = orientation.height();
    let pixel_size = F::bpp() as u16;
    let pitch = window_x1 * pixel_size;
    LtdcLayerConfig {
        whstpos: ahbp + 1,
        whsppos: ahbp + window_x1,
        wvstpos: avbp + 1,
        wvsppos: avbp + window_y1,
        pixel_format: ltdc_pixel_format(F::ltdc_pf()),
        cfbadd: fb_addr,
        cfbp: pitch,
        cfbll: pitch + 3,
        cfblnbr: window_y1,
    }
}

/// The LTDC timing of an orientation brackets its active area: the active width
/// and height lie between the accumulated back porches and the accumulated active
/// positions, and the totals add the front porches.
pub proof fn lemma_ltdc_active_area(orientation: DisplayOrientation)
    ensures
        ({
            let t = spec_video_timing(orientation);
            let l = spec_ltdc_timing(t);
            &&& l.hsw + 1 == t.h_sync
            &&& l.vsh + 1 == t.v_sync
            &&& l.ahbp - l.hsw == t.h_back_porch
            &&& l.avbp - l.vsh == t.v_back_porch
            &&& l.aaw - l.ahbp == orientation.spec_width()
            &&& l.aah - l.avbp == orientation.spec_height()
            &&& l.totalw - l.aaw == t.h_front_porch
            &&& l.totalh - l.aah == t.v_front_porch
            &&& l.hsw < l.ahbp < l.aaw < l.totalw
            &&& l.vsh < l.avbp < l.aah < l.totalh
        }),
{
}

/// The layer window set up from the LTDC timing covers exactly the active area,
/// and the layer reads `height` lines of `width * bpp` bytes.
pub proof fn lemma_layer_window_is_active_area<F: DisplayFormat>(
    orientation: DisplayOrientation,
    fb_addr: u32,
)
    requires
        orientation.spec_width() * (F::spec_bpp() as u16) + 3 <= u16::MAX,
    ensures
        ({
            let l = spec_ltdc_timing(spec_video_timing(orientation));
            let c = spec_ltdc_layer_config::<F>(orientation, l.ahbp, l.avbp, fb_addr);
            &&& c.whstpos == l.ahbp + 1
            &&& c.whsppos == l.aaw
            &&& c.wvstpos == l.avbp + 1
            &&& c.wvsppos == l.aah
            &&& c.cfblnbr == orientation.spec_height()
            &&& c.cfbp as int == orientation.spec_width() as int * (F::spec_bpp() as u16) as int
            &&& c.cfbll == c.cfbp + 3
            &&& c.cfbadd == fb_addr
        }),
{
}

} // verus!
