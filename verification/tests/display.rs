use embassy_stm32f469i_disco::display::{PanelColorFormat, PanelMode, FB_SIZE};
use embassy_stm32f469i_disco::{
    Argb8888, DisplayFormat, DisplayOrientation, Rgb565, Rgb565Color, Rgb888Color, RgbColor,
    FB_HEIGHT, FB_WIDTH,
};

#[test]
fn orientation_dimensions() {
    assert_eq!(FB_WIDTH, 480);
    assert_eq!(FB_HEIGHT, 800);
    assert_eq!(DisplayOrientation::Portrait.width(), 480);
    assert_eq!(DisplayOrientation::Portrait.height(), 800);
    assert_eq!(DisplayOrientation::Landscape.width(), 800);
    assert_eq!(DisplayOrientation::Landscape.height(), 480);
    assert_eq!(DisplayOrientation::Portrait.fb_size(), 384_000);
    assert_eq!(DisplayOrientation::Landscape.fb_size(), FB_SIZE);
}

#[test]
fn orientation_panel_mode() {
    assert_eq!(DisplayOrientation::Portrait.nt35510_mode(), PanelMode::Portrait);
    assert_eq!(DisplayOrientation::Landscape.nt35510_mode(), PanelMode::Landscape);
}

#[test]
fn argb8888_format_values() {
    assert_eq!(Argb8888::ltdc_pf(), 0);
    assert_eq!(Argb8888::dsi_color_coding(), 0x05);
    assert_eq!(Argb8888::nt35510_color_format(), PanelColorFormat::Rgb888);
    assert_eq!(Argb8888::bpp(), 4);
    assert_eq!(Argb8888::black(), 0xFF00_0000);
    assert_eq!(Argb8888::encode(Rgb888Color::new(0x12, 0x34, 0x56)), 0xFF12_3456);
    assert_eq!(Argb8888::encode(Rgb888Color::red()), 0xFFFF_0000);
    assert_eq!(Argb8888::encode(Rgb888Color::yellow()), 0xFFFF_FF00);
    assert_eq!(Argb8888::encode(Argb8888::default_color()), Argb8888::black());
}

#[test]
fn rgb565_format_values() {
    assert_eq!(Rgb565::ltdc_pf(), 2);
    assert_eq!(Rgb565::dsi_color_coding(), 0x00);
    assert_eq!(Rgb565::nt35510_color_format(), PanelColorFormat::Rgb565);
    assert_eq!(Rgb565::bpp(), 2);
    assert_eq!(Rgb565::black(), 0);
    assert_eq!(Rgb565::encode(Rgb565Color::new(0b10001, 0, 0)), 0b10001 << 11);
    assert_eq!(Rgb565::encode(Rgb565Color::new(0, 0b100001, 0)), 0b100001 << 5);
    assert_eq!(Rgb565::encode(Rgb565Color::new(0, 0, 0b10001)), 0b10001);
    assert_eq!(Rgb565::encode(Rgb565Color::red()), 0xF800);
    assert_eq!(Rgb565::encode(Rgb565Color::green()), 0x07E0);
    assert_eq!(Rgb565::encode(Rgb565Color::blue()), 0x001F);
    assert_eq!(Rgb565::encode(Rgb565Color::yellow()), 0xFFE0);
    assert_eq!(Rgb565::encode(Rgb565::default_color()), Rgb565::black());
}

#[test]
fn rgb565_new_masks_channels() {
    let c = Rgb565Color::new(0xFF, 0xFF, 0xFF);
    assert_eq!((c.r(), c.g(), c.b()), (31, 63, 31));
    assert_eq!(c.into_storage(), 0xFFFF);
}
