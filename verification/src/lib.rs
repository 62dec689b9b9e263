//! Board support logic for the STM32F469I-Discovery board: display geometry
//! and timing, pixel formats and framebuffer drawing, panel detection, touch
//! decoding, clock presets, SDRAM layout, USB packetisation and boot self-test
//! bookkeeping.
//!
//! # Clock presets
//!
//! Use [`config_180`], [`config_168`], or [`config_usb_only`] instead of manually
//! configuring PLL/PLLSAI. See the [`clock`] module for details.

pub mod bist;
pub mod board;
pub mod clock;
pub mod color;
pub mod display;
pub mod dsi;
pub mod framebuffer;
pub mod loadtest;
pub mod ltdc;
pub mod panel;
pub mod poll;
pub mod sdram;
pub mod touch;
pub mod usb;

pub use bist::{BootTestResults, TestEntry, TestResult};
pub use board::BoardInitError;
pub use clock::{config_168, config_180, config_usb_only, SYSCLK_HZ_168, SYSCLK_HZ_180};
pub use color::{Rgb565Color, Rgb888Color, RgbColor};
pub use display::{
    Argb8888, DisplayFormat, DisplayInitError, DisplayOrientation, Rgb565, FB_HEIGHT, FB_WIDTH,
};
pub use framebuffer::FramebufferView;
pub use panel::{BoardHint, LcdController};
pub use sdram::{SdramCtrl, SDRAM_SIZE_BYTES};
pub use touch::{EdgeFilter, TouchError, TouchPoint};
pub use usb::PacketSplitter;
