use embassy_stm32f469i_disco::clock::{
    Clk48Source, HseConfig, HseMode, PllConfig, PllSource, SysclkSource, CLK48_HZ, HSE_HZ,
};
use embassy_stm32f469i_disco::{config_168, config_180, config_usb_only, SYSCLK_HZ_168, SYSCLK_HZ_180};

fn hz(input: u32, p: &PllConfig, div: u32) -> u64 {
    input as u64 / p.prediv as u64 * p.mul as u64 / div as u64
}

#[test]
fn preset_180_clock_tree() {
    let c = config_180();
    assert_eq!(c.hse, Some(HseConfig { freq_hz: HSE_HZ, mode: HseMode::Oscillator }));
    assert_eq!(c.pll_src, PllSource::Hse);
    assert_eq!(c.sys, SysclkSource::Pll1P);
    assert_eq!(c.clk48sel, Clk48Source::PllSai1Q);
    let pll = c.pll.unwrap();
    let sai = c.pllsai.unwrap();
    assert_eq!(hz(HSE_HZ, &pll, pll.divp.unwrap()), SYSCLK_HZ_180 as u64);
    assert_eq!(hz(HSE_HZ, &sai, sai.divq.unwrap()), CLK48_HZ as u64);
    assert_eq!(hz(HSE_HZ, &sai, sai.divr.unwrap()), 54_857_142);
    assert_eq!(hz(HSE_HZ, &pll, pll.divq.unwrap()), 51_428_571);
    assert_eq!((c.ahb_pre, c.apb1_pre, c.apb2_pre), (1, 4, 2));
}

#[test]
fn preset_168_clock_tree() {
    let c = config_168();
    assert_eq!(c.clk48sel, Clk48Source::Pll1Q);
    let pll = c.pll.unwrap();
    assert_eq!(hz(HSE_HZ, &pll, pll.divp.unwrap()), SYSCLK_HZ_168 as u64);
    assert_eq!(hz(HSE_HZ, &pll, pll.divq.unwrap()), 48_000_000);
    assert_eq!(pll.divr, None);
    let sai = c.pllsai.unwrap();
    assert_eq!(hz(HSE_HZ, &sai, sai.divr.unwrap()), 54_857_142);
}

#[test]
fn preset_usb_only_has_no_display_pll() {
    let c = config_usb_only();
    assert!(c.pllsai.is_none());
    assert_eq!(c.clk48sel, Clk48Source::Pll1Q);
    let pll = c.pll.unwrap();
    assert_eq!(hz(HSE_HZ, &pll, pll.divp.unwrap()), 168_000_000);
    assert_eq!(hz(HSE_HZ, &pll, pll.divq.unwrap()), 48_000_000);
}
