//! DSI host configuration values and DCS short-read bookkeeping.
//!
//! DSI command-mode reads can fail with BTA/PHY timing issues; use
//! [`crate::panel::BoardHint::ForceNt35510`] to skip the panel probe.

use vstd::prelude::*;

use crate::display::{DisplayInitError, DisplayOrientation};
use crate::ltdc::{spec_ltdc_timing, spec_video_timing, video_timing};

verus! {

/// DSI lane byte clock in kHz.
pub const DSI_LANE_BYTE_CLK_KHZ: u32 = 62_500;

/// LTDC pixel clock in kHz.
pub const LTDC_PIXEL_CLK_KHZ: u32 = 27_429;

/// TX escape clock division: lane byte clock / 15.62 MHz.
pub const TX_ESCAPE_CKDIV: u8 = 4;

/// DSI PLL loop division factor (WRPCR.NDIV).
pub const DSI_PLL_NDIV: u8 = 125;

/// DSI PLL input division factor (WRPCR.IDF).
pub const DSI_PLL_IDF: u8 = 2;

/// DSI PLL output division factor (WRPCR.ODF).
pub const DSI_PLL_ODF: u8 = 0;

/// Number of data lanes minus one (PCONFR.NL): two lanes.
pub const DSI_NUMBER_OF_LANES: u8 = 1;

/// Unit interval in quarter nanoseconds (WPCR0.UIX4).
pub const DSI_UIX4: u8 = 8;

/// Video mode type (VMCR.VMT): burst mode.
pub const DSI_VIDEO_MODE: u8 = 2;

/// Null packet size (VNPCR.NPSIZE).
pub const DSI_NULL_PACKET_SIZE: u16 = 0x0FFF;

/// Number of chunks (VCCR.NUMC).
pub const DSI_NUMBER_OF_CHUNKS: u16 = 0;

/// Largest low-power packet size (LPMCR.LPSIZE).
pub const DSI_LP_LARGEST_PACKET_SIZE: u8 = 16;

/// Largest low-power packet size during VACT (LPMCR.VLPSIZE).
pub const DSI_LPVACT_LARGEST_PACKET_SIZE: u8 = 0;

/// Clock lane HS-to-LP and LP-to-HS time: the larger of the two transition times.
pub const DSI_CLOCK_LANE_TIME: u16 = 35;

/// Data lane HS-to-LP time.
pub const DSI_DATA_LANE_HS2LP_TIME: u8 = 35;

/// Data lane LP-to-HS time.
pub const DSI_DATA_LANE_LP2HS_TIME: u8 = 35;

/// Data lane maximum read time.
pub const DSI_DATA_LANE_MAX_READ_TIME: u16 = 0;

/// Stop wait time (PCONFR.SW_TIME).
pub const DSI_STOP_WAIT_TIME: u8 = 10;

/// Number of 1 ms polls granted to the DSI regulator, PLL and FIFOs.
pub const DSI_POLL_ATTEMPTS: u32 = 1000;

/// Data type of the "set maximum return packet size" command.
pub const DSI_DT_SET_MAX_RETURN_PACKET_SIZE: u8 = 0x37;

/// Data type of a DCS short read without parameters.
pub const DSI_DT_DCS_SHORT_READ: u8 = 0x06;

/// Pixel count converted to lane byte clock cycles, truncated to 16 bits.
pub open spec fn spec_scaled_dsi_cycles(pixels: u16) -> u16 {
    ((pixels as int * DSI_LANE_BYTE_CLK_KHZ as int) / LTDC_PIXEL_CLK_KHZ as int) as u16
}

/// Converts a duration in LTDC pixel clocks to DSI lane byte clock cycles.
pub fn scaled_dsi_cycles(pixels: u16) -> (c: u16)
    ensures
        c == spec_scaled_dsi_cycles(pixels),
        c as int == (pixels as int * 62_500) / 27_429 || (pixels as int * 62_500) / 27_429
            > u16::MAX,
{
    let v = (pixels as u32 * DSI_LANE_BYTE_CLK_KHZ) / LTDC_PIXEL_CLK_KHZ;
    v as u16
}

/// DSI video-mode register values that depend on the orientation.
#[derive(Clone, Copy, Debug, PartialEq, Eq, Structural)]
pub struct DsiVideoConfig {
    /// VPCR.VPSIZE: video packet size (active width in pixels).
    pub vpsize: u16,
    /// VHSACR.HSA: horizontal sync active, in lane byte clocks.
    pub hsa: u16,
    /// VHBPCR.HBP: horizontal back porch, in lane byte clocks.
    pub hbp: u16,
    /// VLCR.HLINE: whole line time, in lane byte clocks.
    pub hline: u16,
    /// VVSACR.VSA: vertical sync active, in lines.
    pub vsa: u16,
    /// VVBPCR.VBP: vertical back porch, in lines.
    pub vbp: u16,
    /// VVFPCR.VFP: vertical front porch, in lines.
    pub vfp: u16,
    /// VVACR.VA: vertical active, in lines.
    pub va: u16,
    /// LCOLCR.COLC and WCFGR.COLMUX: color coding.
    pub color_coding: u8,
}

/// DSI video-mode register values of an orientation and color coding.
pub open spec fn spec_dsi_video_config(
    orientation: DisplayOrientation,
    color_coding: u8,
) -> DsiVideoConfig {
    let t = spec_video_timing(orientation);
    DsiVideoConfig {
        vpsize: t.width,
        hsa: spec_scaled_dsi_cycles(t.h_sync),
        hbp: spec_scaled_dsi_cycles(t.h_back_porch),
        hline: spec_scaled_dsi_cycles(
            (t.width + t.h_sync + t.h_back_porch + t.h_front_porch) as u16,
        ),
        vsa: t.v_sync,
        vbp: t.v_back_porch,
        vfp: t.v_front_porch,
        va: t.height,
        color_coding,
    }
}

/// DSI video-mode register values for an orientation and color coding.
pub fn dsi_video_config(orientation: DisplayOrientation, color_coding: u8) -> (r: DsiVideoConfig)
    ensures
        r == spec_dsi_video_config(orientation, color_coding),
{
    let t = video_timing(orientation);
    DsiVideoConfig {
        vpsize: t.width,
        hsa: scaled_dsi_cycles(t.h_sync),
        hbp: scaled_dsi_cycles(t.h_back_porch),
        hline: scaled_dsi_cycles(t.width + t.h_sync + t.h_back_porch + t.h_front_porch),
        vsa: t.v_sync,
        vbp: t.v_back_porch,
        vfp: t.v_front_porch,
        va: t.height,
        color_coding,
    }
}

/// The DSI video timing agrees with the LTDC timing of the same orientation: the
/// same active area, the same vertical sync and porches in lines, and horizontal
/// sync, back porch and whole line converted from pixel clocks to lane byte clocks.
pub proof fn lemma_dsi_matches_ltdc(orientation: DisplayOrientation, color_coding: u8)
    ensures
        ({
            let d = spec_dsi_video_config(orientation, color_coding);
            let l = spec_ltdc_timing(spec_video_timing(orientation));
            &&& d.vpsize == l.aaw - l.ahbp
            &&& d.va == l.aah - l.avbp
            &&& d.vsa == l.vsh + 1
            &&& d.vbp == l.avbp - l.vsh
            &&& d.vfp == l.totalh - l.aah
            &&& d.hsa == spec_scaled_dsi_cycles((l.hsw + 1) as u16)
            &&& d.hbp == spec_scaled_dsi_cycles((l.ahbp - l.hsw) as u16)
            &&& d.hline == spec_scaled_dsi_cycles((l.totalw + 1) as u16)
            &&& d.color_coding == color_coding
        }),
{
}

/// Errors of DSI host command transfers.
#[derive(Clone, Copy, Debug, PartialEq, Eq, Structural)]
pub enum DsiError {
    /// The command FIFO did not drain in time.
    FifoTimeout,
    /// The read buffer is larger than a DSI packet can carry.
    InvalidReadSize,
    /// The panel did not return all requested bytes.
    ReadError,
}

/// Word count to send with "set maximum return packet size" before a DCS
/// short read into a buffer of `len` bytes: `None` for reads of at most 2 bytes,
/// otherwise the low and high bytes of `len`; reads longer than a 16-bit word
/// count are refused.
pub fn dcs_read_packet_size(len: usize) -> (r: Result<Option<(u8, u8)>, DsiError>)
    ensures
        len > u16::MAX ==> r == Err::<Option<(u8, u8)>, DsiError>(DsiError::InvalidReadSize),
        len <= 2 ==> r == Ok::<Option<(u8, u8)>, DsiError>(None),
        2 < len <= u16::MAX ==> (r matches Ok(Some((lsb, msb))) && lsb as int == len % 256
            && msb as int == len / 256),
{
    if len > 0xFFFF {
        return Err(DsiError::InvalidReadSize);
    }
    if len > 2 {
        let lsb = (len & 0xff) as u8;
        let msb = ((len >> 8) & 0xff) as u8;
        assert(len & 0xff == len % 256 && (len >> 8) & 0xff == len / 256) by (bit_vector)
            requires
                len <= 0xFFFF,
        ;
        Ok(Some((lsb, msb)))
    } else {
        Ok(None)
    }
}

/// Progress of a DCS short read: bytes already stored and bytes still expected.
pub struct DcsReadProgress {
    idx: usize,
    bytes_left: usize,
}

impl DcsReadProgress {
    /// Number of bytes already stored.
    pub closed spec fn stored(&self) -> nat {
        self.idx as nat
    }

    /// Number of bytes still expected.
    pub closed spec fn remaining(&self) -> nat {
        self.bytes_left as nat
    }

    /// Progress of a read into a buffer of `len` bytes, nothing received yet.
    pub fn new(len: usize) -> (p: Self)
        ensures
            p.stored() == 0,
            p.remaining() == len,
    {
        DcsReadProgress { idx: 0, bytes_left: len }
    }

    /// Whether all requested bytes have been received.
    pub fn is_complete(&self) -> (r: bool)
        ensures
            r == (self.remaining() == 0),
    {
        self.bytes_left == 0
    }

    /// Stores the bytes of one generic payload data word (up to four) that are
    /// still expected, in order, after the bytes already stored.
    pub fn absorb(&mut self, buf: &mut [u8], word: [u8; 4])
        requires
            old(buf)@.len() == old(self).stored() + old(self).remaining(),
        ensures
            ({
                let n = vstd::math::min(old(self).remaining() as int, 4);
                &&& final(self).stored() == old(self).stored() + n
                &&& final(self).remaining() == old(self).remaining() - n
                &&& final(buf)@ == old(buf)@.subrange(0, old(self).stored() as int) + word@.subrange(
                    0,
                    n,
                ) + old(buf)@.subrange(old(self).stored() + n, old(buf)@.len() as int)
            }),
    {
        let ghost buf0 = buf@;
        let ghost idx0 = self.idx as int;
        let n: usize = if self.bytes_left < 4 {
            self.bytes_left
        } else {
            4
        };
        let mut i: usize = 0;
        while i < n
            invariant
                n == vstd::math::min(old(self).remaining() as int, 4),
                0 <= i <= n,
                idx0 == old(self).stored(),
                buf0 == old(buf)@,
                buf@.len() == buf0.len(),
                buf0.len() == idx0 + old(self).remaining(),
                self.idx == idx0 + i,
                self.bytes_left == old(self).remaining() - i,
                buf@ == buf0.subrange(0, idx0) + word@.subrange(0, i as int) + buf0.subrange(
                    idx0 + i,
                    buf0.len() as int,
                ),
            decreases n - i,
        {
            buf[self.idx] = word[i];
            proof {
                assert(word@.subrange(0, i + 1) == word@.subrange(0, i as int).push(word[i as int]));
            }
            self.bytes_left = self.bytes_left - 1;
            self.idx = self.idx + 1;
            i = i + 1;
            proof {
                assert(buf@ =~= buf0.subrange(0, idx0) + word@.subrange(0, i as int) + buf0.subrange(
                    idx0 + i,
                    buf0.len() as int,
                ));
            }
        }
    }

    /// Outcome of the read once polling has stopped: an error unless every
    /// requested byte arrived.
    pub fn finish(&self) -> (r: Result<(), DsiError>)
        ensures
            r == if self.remaining() == 0 {
                Ok::<(), DsiError>(())
            } else {
                Err(DsiError::ReadError)
            },
    {
        if self.bytes_left > 0 {
            Err(DsiError::ReadError)
        } else {
            Ok(())
        }
    }
}

/// A wait of the DSI host bring-up that can time out.
#[derive(Clone, Copy, Debug, PartialEq, Eq, Structural)]
pub enum DsiWait {
    /// The voltage regulator becoming ready (WISR.RRS).
    Regulator,
    /// The DSI PLL locking (WISR.PLLLS).
    Pll,
}

/// The error that a wait that timed out is reported as.
pub open spec fn spec_dsi_wait_error(wait: DsiWait) -> DisplayInitError {
    match wait {
        DsiWait::Regulator => DisplayInitError::DsiRegulatorTimeout,
        DsiWait::Pll => DisplayInitError::DsiPllTimeout,
    }
}

/// Outcome of a bring-up wait: `Ok` once the condition was seen, else the
/// timeout error of that wait, which ends the bring-up.
pub fn dsi_wait_outcome(wait: DsiWait, ready: bool) -> (r: Result<(), DisplayInitError>)
    ensures
        ready ==> r == Ok::<(), DisplayInitError>(()),
        !ready ==> r == Err::<(), DisplayInitError>(spec_dsi_wait_error(wait)),
{
    if ready {
        Ok(())
    } else {
        match wait {
            DsiWait::Regulator => Err(DisplayInitError::DsiRegulatorTimeout),
            DsiWait::Pll => Err(DisplayInitError::DsiPllTimeout),
        }
    }
}

} // verus!
