use embassy_stm32f469i_disco::panel::{
    after_otm8009a_check, first_step, DetectStep, PanelDetector, ProbeOutcome,
};
use embassy_stm32f469i_disco::{BoardHint, LcdController};

fn run(outcomes: &[ProbeOutcome]) -> (DetectStep, usize) {
    let mut d = PanelDetector::new();
    let mut probes = 0;
    for &o in outcomes {
        probes += 1;
        let s = d.on_probe(o);
        if s != DetectStep::Probe {
            return (s, probes);
        }
    }
    (DetectStep::Probe, probes)
}

#[test]
fn forced_hints_skip_probe() {
    assert_eq!(first_step(BoardHint::ForceNt35510), DetectStep::Done(LcdController::Nt35510));
    assert_eq!(first_step(BoardHint::ForceOtm8009a), DetectStep::Done(LcdController::Otm8009a));
    assert_eq!(first_step(BoardHint::Auto), DetectStep::Probe);
}

#[test]
fn detected_on_second_attempt() {
    let (s, probes) = run(&[ProbeOutcome::ReadFailed, ProbeOutcome::Detected]);
    assert_eq!(s, DetectStep::Done(LcdController::Nt35510));
    assert_eq!(probes, 2);
}

#[test]
fn all_read_failures_fall_back_to_nt35510() {
    let (s, probes) = run(&[ProbeOutcome::ReadFailed; 5]);
    assert_eq!(s, DetectStep::Done(LcdController::Nt35510));
    assert_eq!(probes, 3);
}

#[test]
fn two_mismatches_ask_otm8009a() {
    let (s, probes) = run(&[
        ProbeOutcome::Mismatch(0x40),
        ProbeOutcome::OtherError,
        ProbeOutcome::Mismatch(0x00),
    ]);
    assert_eq!(s, DetectStep::CheckOtm8009a);
    assert_eq!(probes, 3);
    assert_eq!(after_otm8009a_check(true), LcdController::Otm8009a);
    assert_eq!(after_otm8009a_check(false), LcdController::Nt35510);
}

#[test]
fn zero_first_mismatch_id_falls_back() {
    let (s, _) = run(&[
        ProbeOutcome::Mismatch(0x00),
        ProbeOutcome::Mismatch(0x40),
        ProbeOutcome::Mismatch(0x40),
    ]);
    assert_eq!(s, DetectStep::Done(LcdController::Nt35510));
}

#[test]
fn single_mismatch_falls_back() {
    let (s, _) = run(&[ProbeOutcome::Mismatch(0x40), ProbeOutcome::ReadFailed, ProbeOutcome::ReadFailed]);
    assert_eq!(s, DetectStep::Done(LcdController::Nt35510));
}
