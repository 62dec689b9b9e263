use embassy_stm32f469i_disco::board::sdram_source_clock_hz;
use embassy_stm32f469i_disco::dsi::{
    dcs_read_packet_size, dsi_wait_outcome, DcsReadProgress, DsiError, DsiWait,
};
use embassy_stm32f469i_disco::ltdc::{ltdc_global_config, PixelClockPolarity};
use embassy_stm32f469i_disco::loadtest::{report_line, EchoCounter};
use embassy_stm32f469i_disco::poll::{PollStep, RetryBudget};
use embassy_stm32f469i_disco::{BoardInitError, DisplayInitError};

#[test]
fn board_error_from_display_error() {
    let e: BoardInitError = BoardInitError::from(DisplayInitError::PanelInit);
    assert_eq!(e, BoardInitError::Display(DisplayInitError::PanelInit));
    assert_eq!(sdram_source_clock_hz(Some(180_000_000)), Ok(180_000_000));
    assert_eq!(sdram_source_clock_hz(None), Err(BoardInitError::HclkUnavailable));
}

#[test]
fn retry_budget_times_out_after_retries() {
    let mut b = RetryBudget::new(2);
    assert_eq!(b.step(false), PollStep::Retry);
    assert_eq!(b.step(false), PollStep::Retry);
    assert_eq!(b.step(false), PollStep::TimedOut);
    let mut c = RetryBudget::new(2);
    assert_eq!(c.step(false), PollStep::Retry);
    assert_eq!(c.step(true), PollStep::Ready);
}

#[test]
fn dcs_read_packet_size_cases() {
    assert_eq!(dcs_read_packet_size(1), Ok(None));
    assert_eq!(dcs_read_packet_size(2), Ok(None));
    assert_eq!(dcs_read_packet_size(3), Ok(Some((3, 0))));
    assert_eq!(dcs_read_packet_size(0x1234), Ok(Some((0x34, 0x12))));
    assert_eq!(dcs_read_packet_size(0x10000), Err(DsiError::InvalidReadSize));
}

#[test]
fn dcs_read_progress_copies_words_in_order() {
    let mut buf = [0u8; 6];
    let mut p = DcsReadProgress::new(buf.len());
    assert!(!p.is_complete());
    assert_eq!(p.finish(), Err(DsiError::ReadError));
    p.absorb(&mut buf, [1, 2, 3, 4]);
    assert_eq!(buf, [1, 2, 3, 4, 0, 0]);
    p.absorb(&mut buf, [5, 6, 7, 8]);
    assert_eq!(buf, [1, 2, 3, 4, 5, 6]);
    assert!(p.is_complete());
    assert_eq!(p.finish(), Ok(()));
}

#[test]
fn report_line_format() {
    let (line, len) = report_line(65536);
    assert_eq!(&line[..len], b"SPIKE bytes=65536\n");
    let (line, len) = report_line(u64::MAX);
    assert_eq!(&line[..len], b"SPIKE bytes=18446744073709551615\n");
    let (line, len) = report_line(0);
    assert_eq!(&line[..len], b"SPIKE bytes=\n");
}

#[test]
fn echo_counter_reports_every_64k() {
    let mut c = EchoCounter::new();
    let mut reports = Vec::new();
    for _ in 0..3000 {
        if let Some(v) = c.record(64) {
            reports.push(v);
            c.report_sent();
        }
    }
    assert_eq!(reports, vec![65536, 131072]);
    assert_eq!(c.total(), 192_000);
    assert_eq!(c.next_report(), 196_608);
}

#[test]
fn echo_counter_repeats_unsent_report() {
    let mut c = EchoCounter::new();
    assert_eq!(c.record(65_000), None);
    assert_eq!(c.record(600), Some(65_536));
    // The write of that report failed: the same count is reported again.
    assert_eq!(c.record(64), Some(65_536));
    assert_eq!(c.next_report(), 65_536);
    c.report_sent();
    assert_eq!(c.next_report(), 131_072);
    assert_eq!(c.record(64), None);
    assert_eq!(c.total(), 65_728);
}

#[test]
fn dsi_wait_timeouts_map_to_their_errors() {
    assert_eq!(dsi_wait_outcome(DsiWait::Regulator, true), Ok(()));
    assert_eq!(dsi_wait_outcome(DsiWait::Pll, true), Ok(()));
    assert_eq!(
        dsi_wait_outcome(DsiWait::Regulator, false),
        Err(DisplayInitError::DsiRegulatorTimeout)
    );
    assert_eq!(dsi_wait_outcome(DsiWait::Pll, false), Err(DisplayInitError::DsiPllTimeout));
}

#[test]
fn ltdc_global_settings() {
    let g = ltdc_global_config();
    assert!(g.hsync_active_high && g.vsync_active_high);
    assert!(!g.data_enable_active_high);
    assert_eq!(g.pixel_clock, PixelClockPolarity::RisingEdge);
    assert_eq!((g.background_red, g.background_green, g.background_blue), (0, 0, 0));
    assert!(g.transfer_error_interrupt && g.fifo_underrun_interrupt);
}
