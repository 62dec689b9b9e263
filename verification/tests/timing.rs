use embassy_stm32f469i_disco::dsi::{dsi_video_config, scaled_dsi_cycles, DsiVideoConfig};
use embassy_stm32f469i_disco::ltdc::{
    ltdc_layer_config, ltdc_pixel_format, ltdc_timing, video_timing, LtdcPixelFormat, LtdcTiming,
};
use embassy_stm32f469i_disco::{Argb8888, DisplayOrientation, Rgb565};

#[test]
fn scaled_cycles_formula() {
    assert_eq!(scaled_dsi_cycles(0), 0);
    assert_eq!(scaled_dsi_cycles(2), 4);
    assert_eq!(scaled_dsi_cycles(34), 77);
    assert_eq!(scaled_dsi_cycles(550), 1253);
    assert_eq!(scaled_dsi_cycles(1220), 2779);
    // 65535 * 62500 / 27429 = 149328, truncated to 16 bits.
    assert_eq!(scaled_dsi_cycles(65535), 18256);
}

#[test]
fn ltdc_timing_portrait() {
    assert_eq!(
        ltdc_timing(DisplayOrientation::Portrait),
        LtdcTiming { hsw: 1, vsh: 119, ahbp: 35, avbp: 269, aah: 1069, aaw: 515, totalh: 1219, totalw: 549 }
    );
}

#[test]
fn ltdc_timing_landscape() {
    assert_eq!(
        ltdc_timing(DisplayOrientation::Landscape),
        LtdcTiming { hsw: 119, vsh: 1, ahbp: 269, avbp: 35, aah: 515, aaw: 1069, totalh: 549, totalw: 1219 }
    );
}

#[test]
fn dsi_video_config_portrait_and_landscape() {
    assert_eq!(
        dsi_video_config(DisplayOrientation::Portrait, 0x05),
        DsiVideoConfig { vpsize: 480, hsa: 4, hbp: 77, hline: 1253, vsa: 120, vbp: 150, vfp: 150, va: 800, color_coding: 0x05 }
    );
    let l = dsi_video_config(DisplayOrientation::Landscape, 0x00);
    assert_eq!((l.vpsize, l.va, l.vsa, l.vbp, l.vfp), (800, 480, 2, 34, 34));
    assert_eq!(l.hline, scaled_dsi_cycles(1220));
    assert_eq!(l.hsa, scaled_dsi_cycles(120));
}

#[test]
fn layer_window_matches_active_area() {
    let t = ltdc_timing(DisplayOrientation::Portrait);
    let c = ltdc_layer_config::<Argb8888>(DisplayOrientation::Portrait, t.ahbp, t.avbp, 0xC000_0000);
    assert_eq!((c.whstpos, c.whsppos), (t.ahbp + 1, t.aaw));
    assert_eq!((c.wvstpos, c.wvsppos), (t.avbp + 1, t.aah));
    assert_eq!((c.cfbp, c.cfbll, c.cfblnbr), (1920, 1923, 800));
    assert_eq!(c.pixel_format, LtdcPixelFormat::Argb8888);
    assert_eq!(c.cfbadd, 0xC000_0000);
    let l = ltdc_layer_config::<Rgb565>(DisplayOrientation::Landscape, 269, 35, 0);
    assert_eq!((l.cfbp, l.cfblnbr, l.whsppos, l.wvsppos), (1600, 480, 1069, 515));
    assert_eq!(l.pixel_format, LtdcPixelFormat::Rgb565);
}

#[test]
fn ltdc_pixel_format_mapping() {
    assert_eq!(ltdc_pixel_format(0), LtdcPixelFormat::Argb8888);
    assert_eq!(ltdc_pixel_format(1), LtdcPixelFormat::Rgb888);
    assert_eq!(ltdc_pixel_format(2), LtdcPixelFormat::Rgb565);
    assert_eq!(ltdc_pixel_format(3), LtdcPixelFormat::Argb1555);
    assert_eq!(ltdc_pixel_format(4), LtdcPixelFormat::Argb4444);
    assert_eq!(ltdc_pixel_format(9), LtdcPixelFormat::Argb8888);
}

#[test]
fn video_timing_rotates_with_orientation() {
    let p = video_timing(DisplayOrientation::Portrait);
    let l = video_timing(DisplayOrientation::Landscape);
    assert_eq!((p.width, p.height, p.h_sync, p.v_sync), (480, 800, 2, 120));
    assert_eq!((l.width, l.height, l.h_sync, l.v_sync), (800, 480, 120, 2));
}
