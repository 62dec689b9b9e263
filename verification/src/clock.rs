//! Clock configuration presets for STM32F469I-Discovery.
//!
//! | Preset | Sysclk | USB/RNG | Display | Use case |
//! |--------|--------|---------|---------|----------|
//! | [`config_180`] | 180 MHz | 48 MHz via PLLSAI | 54.86 MHz LTDC | Full speed, all peripherals |
//! | [`config_168`] | 168 MHz | 48 MHz via PLL1_Q | 54.86 MHz LTDC | USB+display, simpler clock |
//! | [`config_usb_only`] | 168 MHz | 48 MHz via PLL1_Q | unavailable | USB CDC without display |
//!
//! USB OTG FS and RNG both require 48 MHz ±0.25%. At 180 MHz sysclk, PLL1_Q
//! produces 51.4 MHz (unusable), so the 180 MHz preset takes 48 MHz from PLLSAI.
//! All presets run from the 8 MHz HSE crystal.

use vstd::prelude::*;

verus! {

/// System clock of [`config_180`] in Hz.
pub const SYSCLK_HZ_180: u32 = 180_000_000;

/// System clock of [`config_168`] and [`config_usb_only`] in Hz.
pub const SYSCLK_HZ_168: u32 = 168_000_000;

/// Frequency of the HSE crystal on the board in Hz.
pub const HSE_HZ: u32 = 8_000_000;

/// Frequency required by USB OTG FS and RNG in Hz.
pub const CLK48_HZ: u32 = 48_000_000;

/// How the HSE is driven.
#[derive(Clone, Copy, Debug, PartialEq, Eq, Structural)]
pub enum HseMode {
    /// Crystal oscillator.
    Oscillator,
    /// External clock signal.
    Bypass,
}

/// Input of the main PLL and PLLSAI.
#[derive(Clone, Copy, Debug, PartialEq, Eq, Structural)]
pub enum PllSource {
    /// Internal 16 MHz oscillator.
    Hsi,
    /// External oscillator.
    Hse,
}

/// Source of the system clock.
#[derive(Clone, Copy, Debug, PartialEq, Eq, Structural)]
pub enum SysclkSource {
    /// Internal 16 MHz oscillator.
    Hsi,
    /// External oscillator.
    Hse,
    /// P output of the main PLL.
    Pll1P,
}

/// Source of the 48 MHz clock for USB and RNG (CK48MSEL).
#[derive(Clone, Copy, Debug, PartialEq, Eq, Structural)]
pub enum Clk48Source {
    /// Q output of the main PLL.
    Pll1Q,
    /// Q output of PLLSAI.
    PllSai1Q,
}

/// High-speed external oscillator setting.
#[derive(Clone, Copy, Debug, PartialEq, Eq, Structural)]
pub struct HseConfig {
    /// Frequency in Hz.
    pub freq_hz: u32,
    /// Drive mode.
    pub mode: HseMode,
}

/// Dividers and multiplier of a PLL.
#[derive(Clone, Copy, Debug, PartialEq, Eq, Structural)]
pub struct PllConfig {
    /// Input divider (M).
    pub prediv: u32,
    /// VCO multiplier (N).
    pub mul: u32,
    /// P output divider, if the output is enabled.
    pub divp: Option<u32>,
    /// Q output divider, if the output is enabled.
    pub divq: Option<u32>,
    /// R output divider, if the output is enabled.
    pub divr: Option<u32>,
}

/// Reset and clock control settings.
#[derive(Clone, Copy, Debug, PartialEq, Eq, Structural)]
pub struct ClockConfig {
    /// HSE setting, if the HSE is used.
    pub hse: Option<HseConfig>,
    /// Input of the PLLs.
    pub pll_src: PllSource,
    /// Main PLL.
    pub pll: Option<PllConfig>,
    /// PLLSAI (display and 48 MHz).
    pub pllsai: Option<PllConfig>,
    /// AHB prescaler.
    pub ahb_pre: u32,
    /// APB1 prescaler.
    pub apb1_pre: u32,
    /// APB2 prescaler.
    pub apb2_pre: u32,
    /// System clock source.
    pub sys: SysclkSource,
    /// 48 MHz clock source.
    pub clk48sel: Clk48Source,
}

/// Frequency of the PLL input in Hz (0 when its source is not configured).
pub open spec fn pll_input_hz(cfg: ClockConfig) -> int {
    match cfg.pll_src {
        PllSource::Hsi => 16_000_000,
        PllSource::Hse => match cfg.hse {
            Some(h) => h.freq_hz as int,
            None => 0,
        },
    }
}

/// Frequency of one PLL output in Hz: input / M * N / divider (0 when the PLL or
/// the output is disabled).
pub open spec fn pll_output_hz(input_hz: int, pll: Option<PllConfig>, div: spec_fn(PllConfig) -> Option<u32>) -> int {
    match pll {
        Some(p) => match div(p) {
            Some(d) => if p.prediv == 0 || d == 0 {
                0
            } else {
                input_hz / p.prediv as int * p.mul as int / d as int
            },
            None => 0,
        },
        None => 0,
    }
}

/// Frequency of the main PLL's P output in Hz.
pub open spec fn pll1_p_hz(cfg: ClockConfig) -> int {
    pll_output_hz(pll_input_hz(cfg), cfg.pll, |p: PllConfig| p.divp)
}

/// Frequency of the main PLL's Q output in Hz.
pub open spec fn pll1_q_hz(cfg: ClockConfig) -> int {
    pll_output_hz(pll_input_hz(cfg), cfg.pll, |p: PllConfig| p.divq)
}

/// Frequency of PLLSAI's Q output in Hz.
pub open spec fn pllsai_q_hz(cfg: ClockConfig) -> int {
    pll_output_hz(pll_input_hz(cfg), cfg.pllsai, |p: PllConfig| p.divq)
}

/// Frequency of PLLSAI's R output (the LTDC pixel clock source) in Hz.
pub open spec fn pllsai_r_hz(cfg: ClockConfig) -> int {
    pll_output_hz(pll_input_hz(cfg), cfg.pllsai, |p: PllConfig| p.divr)
}

/// System clock frequency in Hz.
pub open spec fn sysclk_hz(cfg: ClockConfig) -> int {
    match cfg.sys {
        SysclkSource::Hsi => 16_000_000,
        SysclkSource::Hse => match cfg.hse {
            Some(h) => h.freq_hz as int,
            None => 0,
        },
        SysclkSource::Pll1P => pll1_p_hz(cfg),
    }
}

/// AHB clock frequency in Hz.
pub open spec fn hclk_hz(cfg: ClockConfig) -> int {
    if cfg.ahb_pre == 0 {
        0
    } else {
        sysclk_hz(cfg) / cfg.ahb_pre as int
    }
}

/// APB1 clock frequency in Hz.
pub open spec fn pclk1_hz(cfg: ClockConfig) -> int {
    if cfg.apb1_pre == 0 {
        0
    } else {
        hclk_hz(cfg) / cfg.apb1_pre as int
    }
}

/// APB2 clock frequency in Hz.
pub open spec fn pclk2_hz(cfg: ClockConfig) -> int {
    if cfg.apb2_pre == 0 {
        0
    } else {
        hclk_hz(cfg) / cfg.apb2_pre as int
    }
}

/// Frequency of the 48 MHz domain (USB OTG FS, RNG) in Hz.
pub open spec fn clk48_hz(cfg: ClockConfig) -> int {
    match cfg.clk48sel {
        Clk48Source::Pll1Q => pll1_q_hz(cfg),
        Clk48Source::PllSai1Q => pllsai_q_hz(cfg),
    }
}

/// Whether a frequency is usable by USB OTG FS and RNG: 48 MHz ±0.25%.
pub open spec fn usable_for_usb(hz: int) -> bool {
    48_000_000 - 120_000 <= hz <= 48_000_000 + 120_000
}

/// PLLSAI setting shared by the display presets: 1 MHz × 384 = 384 MHz VCO,
/// P and Q at 48 MHz, R at 54.86 MHz.
fn display_pllsai() -> (p: PllConfig)
    ensures
        p == (PllConfig { prediv: 8, mul: 384, divp: Some(8), divq: Some(8), divr: Some(7) }),
{
    PllConfig { prediv: 8, mul: 384, divp: Some(8), divq: Some(8), divr: Some(7) }
}

/// 180 MHz sysclk + 48 MHz USB/RNG via PLLSAI + 54.86 MHz LTDC via PLLSAI_R.
///
/// All peripherals work simultaneously. Recommended for full-featured firmware.
pub fn config_180() -> (cfg: ClockConfig)
    ensures
        cfg.hse == Some(HseConfig { freq_hz: HSE_HZ, mode: HseMode::Oscillator }),
        cfg.pll_src == PllSource::Hse,
        cfg.pll == Some(
            PllConfig { prediv: 8, mul: 360, divp: Some(2), divq: Some(7), divr: Some(6) },
        ),
        cfg.pllsai == Some(
            PllConfig { prediv: 8, mul: 384, divp: Some(8), divq: Some(8), divr: Some(7) },
        ),
        cfg.ahb_pre == 1 && cfg.apb1_pre == 4 && cfg.apb2_pre == 2,
        cfg.sys == SysclkSource::Pll1P,
        cfg.clk48sel == Clk48Source::PllSai1Q,
        sysclk_hz(cfg) == SYSCLK_HZ_180,
        hclk_hz(cfg) == 180_000_000,
        pclk1_hz(cfg) == 45_000_000,
        pclk2_hz(cfg) == 90_000_000,
        clk48_hz(cfg) == CLK48_HZ,
        usable_for_usb(clk48_hz(cfg)),
        pllsai_r_hz(cfg) == 54_857_142,
        pll1_q_hz(cfg) == 51_428_571,
        !usable_for_usb(pll1_q_hz(cfg)),
{
    let cfg = ClockConfig {
        hse: Some(HseConfig { freq_hz: HSE_HZ, mode: HseMode::Oscillator }),
        pll_src: PllSource::Hse,
        pll: Some(PllConfig { prediv: 8, mul: 360, divp: Some(2), divq: Some(7), divr: Some(6) }),
        pllsai: Some(display_pllsai()),
        ahb_pre: 1,
        apb1_pre: 4,
        apb2_pre: 2,
        sys: SysclkSource::Pll1P,
        clk48sel: Clk48Source::PllSai1Q,
    };
    assert(8_000_000int / 8 * 360 / 7 == 51_428_571) by (nonlinear_arith);
    assert(8_000_000int / 8 * 384 / 7 == 54_857_142) by (nonlinear_arith);
    cfg
}

/// 168 MHz sysclk + 48 MHz USB/RNG via PLL1_Q + 54.86 MHz LTDC via PLLSAI_R.
///
/// Simpler clock tree: PLL1_Q produces exact 48 MHz, so no PLLSAI needed for USB.
pub fn config_168() -> (cfg: ClockConfig)
    ensures
        cfg.hse == Some(HseConfig { freq_hz: HSE_HZ, mode: HseMode::Oscillator }),
        cfg.pll_src == PllSource::Hse,
        cfg.pll == Some(
            PllConfig { prediv: 4, mul: 168, divp: Some(2), divq: Some(7), divr: None },
        ),
        cfg.pllsai == Some(
            PllConfig { prediv: 8, mul: 384, divp: Some(8), divq: Some(8), divr: Some(7) },
        ),
        cfg.ahb_pre == 1 && cfg.apb1_pre == 4 && cfg.apb2_pre == 2,
        cfg.sys == SysclkSource::Pll1P,
        cfg.clk48sel == Clk48Source::Pll1Q,
        sysclk_hz(cfg) == SYSCLK_HZ_168,
        hclk_hz(cfg) == 168_000_000,
        pclk1_hz(cfg) == 42_000_000,
        pclk2_hz(cfg) == 84_000_000,
        clk48_hz(cfg) == CLK48_HZ,
        usable_for_usb(clk48_hz(cfg)),
        pllsai_r_hz(cfg) == 54_857_142,
{
    let cfg = ClockConfig {
        hse: Some(HseConfig { freq_hz: HSE_HZ, mode: HseMode::Oscillator }),
        pll_src: PllSource::Hse,
        pll: Some(PllConfig { prediv: 4, mul: 168, divp: Some(2), divq: Some(7), divr: None }),
        pllsai: Some(display_pllsai()),
        ahb_pre: 1,
        apb1_pre: 4,
        apb2_pre: 2,
        sys: SysclkSource::Pll1P,
        clk48sel: Clk48Source::Pll1Q,
    };
    assert(8_000_000int / 8 * 384 / 7 == 54_857_142) by (nonlinear_arith);
    cfg
}

/// 168 MHz sysclk + 48 MHz USB/RNG via PLL1_Q, no display/PLLSAI.
///
/// For USB-only firmware that doesn't need SDRAM or display.
pub fn config_usb_only() -> (cfg: ClockConfig)
    ensures
        cfg.hse == Some(HseConfig { freq_hz: HSE_HZ, mode: HseMode::Oscillator }),
        cfg.pll_src == PllSource::Hse,
        cfg.pll == Some(
            PllConfig { prediv: 4, mul: 168, divp: Some(2), divq: Some(7), divr: None },
        ),
        cfg.pllsai is None,
        cfg.ahb_pre == 1 && cfg.apb1_pre == 4 && cfg.apb2_pre == 2,
        cfg.sys == SysclkSource::Pll1P,
        cfg.clk48sel == Clk48Source::Pll1Q,
        sysclk_hz(cfg) == SYSCLK_HZ_168,
        clk48_hz(cfg) == CLK48_HZ,
        usable_for_usb(clk48_hz(cfg)),
        pllsai_r_hz(cfg) == 0,
{
    ClockConfig {
        hse: Some(HseConfig { freq_hz: HSE_HZ, mode: HseMode::Oscillator }),
        pll_src: PllSource::Hse,
        pll: Some(PllConfig { prediv: 4, mul: 168, divp: Some(2), divq: Some(7), divr: None }),
        pllsai: None,
        ahb_pre: 1,
        apb1_pre: 4,
        apb2_pre: 2,
        sys: SysclkSource::Pll1P,
        clk48sel: Clk48Source::Pll1Q,
    }
}

} // verus!
