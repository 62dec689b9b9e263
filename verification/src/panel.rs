//! Panel controllers, board hints and the panel detection procedure.
//!
//! With [`BoardHint::Auto`], detection probes for an NT35510 up to
//! [`PANEL_PROBE_ATTEMPTS`] times over DSI command-mode reads, waiting
//! [`PANEL_PROBE_RETRY_DELAY_MS`] after each failed probe. If every probe fails,
//! it asks the OTM8009A driver whether its ID matches only when at least two
//! probes read back a mismatching ID and the first such ID was nonzero; in every
//! other case it falls back to the NT35510 (DSI reads are unreliable on this
//! board). Forced hints skip the probe entirely.
//!
//! The probes themselves are DSI transfers made by the caller; [`PanelDetector`]
//! holds the decisions between them.

use vstd::prelude::*;

verus! {

/// Supported LCD panel controllers.
#[derive(Debug, Clone, Copy, PartialEq, Eq, Structural)]
pub enum LcdController {
    /// NT35510 panel (default on STM32F469I-Discovery).
    Nt35510,
    /// OTM8009A panel (alternate).
    Otm8009a,
}

/// Hint for panel auto-detection during display initialization.
#[derive(Debug, Clone, Copy, PartialEq, Eq, Structural)]
pub enum BoardHint {
    /// Probe the panel via DSI reads and fall back to NT35510 on failure.
    Auto,
    /// Skip probe, assume NT35510. Recommended when DSI reads are unreliable.
    ForceNt35510,
    /// Skip probe, assume OTM8009A.
    ForceOtm8009a,
}

/// Number of NT35510 probes made with [`BoardHint::Auto`].
pub const PANEL_PROBE_ATTEMPTS: u32 = 3;

/// Milliseconds to wait after a failed probe.
pub const PANEL_PROBE_RETRY_DELAY_MS: u32 = 5;

/// Outcome of one NT35510 probe.
#[derive(Debug, Clone, Copy, PartialEq, Eq, Structural)]
pub enum ProbeOutcome {
    /// The panel answered with the NT35510 ID.
    Detected,
    /// The panel answered with another ID.
    Mismatch(u8),
    /// The DSI read failed.
    ReadFailed,
    /// The probe failed for another reason.
    OtherError,
}

/// Next step of panel detection.
#[derive(Debug, Clone, Copy, PartialEq, Eq, Structural)]
pub enum DetectStep {
    /// Detection is over: this is the panel.
    Done(LcdController),
    /// Probe for an NT35510 (again).
    Probe,
    /// Ask the OTM8009A driver whether the panel ID matches.
    CheckOtm8009a,
}

/// First step of detection for a hint: forced hints decide at once, `Auto` probes.
pub open spec fn spec_first_step(hint: BoardHint) -> DetectStep {
    match hint {
        BoardHint::ForceNt35510 => DetectStep::Done(LcdController::Nt35510),
        BoardHint::ForceOtm8009a => DetectStep::Done(LcdController::Otm8009a),
        BoardHint::Auto => DetectStep::Probe,
    }
}

/// First step of detection for a hint.
pub fn first_step(hint: BoardHint) -> (s: DetectStep)
    ensures
        s == spec_first_step(hint),
{
    match hint {
        BoardHint::ForceNt35510 => DetectStep::Done(LcdController::Nt35510),
        BoardHint::ForceOtm8009a => DetectStep::Done(LcdController::Otm8009a),
        BoardHint::Auto => DetectStep::Probe,
    }
}

/// Panel controller after the OTM8009A ID check: OTM8009A when its ID matched
/// (a failed check counts as no match), NT35510 otherwise.
pub fn after_otm8009a_check(id_matches: bool) -> (c: LcdController)
    ensures
        c == if id_matches {
            LcdController::Otm8009a
        } else {
            LcdController::Nt35510
        },
{
    if id_matches {
        LcdController::Otm8009a
    } else {
        LcdController::Nt35510
    }
}

/// State of an `Auto` detection between probes.
#[derive(Debug, Clone, Copy, PartialEq, Eq, Structural)]
pub struct PanelDetector {
    attempts: u32,
    mismatch_count: u32,
    first_mismatch_id: u8,
}

impl PanelDetector {
    /// Probes made so far.
    pub closed spec fn spec_attempts(self) -> u32 {
        self.attempts
    }

    /// Probes that read back a mismatching ID.
    pub closed spec fn spec_mismatch_count(self) -> u32 {
        self.mismatch_count
    }

    /// The ID read back by the first mismatching probe (0 when there was none).
    pub closed spec fn spec_first_mismatch_id(self) -> u8 {
        self.first_mismatch_id
    }

    /// Detection state before the first probe.
    pub closed spec fn spec_initial() -> Self {
        PanelDetector { attempts: 0, mismatch_count: 0, first_mismatch_id: 0 }
    }

    /// Detection state after a failed probe with the given outcome.
    pub closed spec fn spec_after(self, outcome: ProbeOutcome) -> Self {
        match outcome {
            ProbeOutcome::Mismatch(id) => PanelDetector {
                attempts: (self.attempts + 1) as u32,
                mismatch_count: (self.mismatch_count + 1) as u32,
                first_mismatch_id: if self.mismatch_count == 0 {
                    id
                } else {
                    self.first_mismatch_id
                },
            },
            _ => PanelDetector { attempts: (self.attempts + 1) as u32, ..self },
        }
    }

    /// Step following a probe with the given outcome.
    pub open spec fn spec_step(self, outcome: ProbeOutcome) -> DetectStep {
        let next = self.spec_after(outcome);
        if outcome is Detected {
            DetectStep::Done(LcdController::Nt35510)
        } else if next.spec_attempts() < PANEL_PROBE_ATTEMPTS {
            DetectStep::Probe
        } else if next.spec_mismatch_count() >= 2 && next.spec_first_mismatch_id() != 0 {
            DetectStep::CheckOtm8009a
        } else {
            DetectStep::Done(LcdController::Nt35510)
        }
    }

    /// Counts stay within the number of probes made.
    pub open spec fn wf(self) -> bool {
        self.spec_attempts() <= PANEL_PROBE_ATTEMPTS && self.spec_mismatch_count()
            <= self.spec_attempts()
    }

    /// Detection state before the first probe.
    pub fn new() -> (d: Self)
        ensures
            d == Self::spec_initial(),
            d.spec_attempts() == 0,
            d.spec_mismatch_count() == 0,
            d.spec_first_mismatch_id() == 0,
            d.wf(),
    {
        PanelDetector { attempts: 0, mismatch_count: 0, first_mismatch_id: 0 }
    }

    /// Records the outcome of a probe and returns the next step: NT35510 when it
    /// was detected; another probe while fewer than three probes were made; then
    /// the OTM8009A check if at least two probes mismatched and the first
    /// mismatching ID was nonzero; NT35510 otherwise.
    pub fn on_probe(&mut self, outcome: ProbeOutcome) -> (s: DetectStep)
        requires
            old(self).wf(),
            old(self).spec_attempts() < PANEL_PROBE_ATTEMPTS,
        ensures
            s == old(self).spec_step(outcome),
            !(outcome is Detected) ==> *final(self) == old(self).spec_after(outcome),
            !(outcome is Detected) ==> final(self).spec_attempts() == old(self).spec_attempts()
                + 1,
            final(self).wf(),
            s is Probe ==> final(self).spec_attempts() < PANEL_PROBE_ATTEMPTS,
    {
        match outcome {
            ProbeOutcome::Detected => {
                return DetectStep::Done(LcdController::Nt35510);
            },
            ProbeOutcome::Mismatch(id) => {
                if self.mismatch_count == 0 {
                    self.first_mismatch_id = id;
                }
                self.mismatch_count = self.mismatch_count + 1;
            },
            _ => {},
        }
        self.attempts = self.attempts + 1;
        if self.attempts < PANEL_PROBE_ATTEMPTS {
            DetectStep::Probe
        } else if self.mismatch_count >= 2 && self.first_mismatch_id != 0 {
            DetectStep::CheckOtm8009a
        } else {
            DetectStep::Done(LcdController::Nt35510)
        }
    }
}

/// Auto detection never probes more than three times: from the initial state,
/// two failed probes lead to a third, and the third failed probe ends the probing
/// (with the OTM8009A check or the NT35510 fallback).
pub proof fn lemma_at_most_three_probes(o1: ProbeOutcome, o2: ProbeOutcome, o3: ProbeOutcome)
    requires
        !(o1 is Detected),
        !(o2 is Detected),
        !(o3 is Detected),
    ensures
        ({
            let s0 = PanelDetector::spec_initial();
            let s1 = s0.spec_after(o1);
            let s2 = s1.spec_after(o2);
            &&& s0.spec_step(o1) == DetectStep::Probe
            &&& s1.spec_step(o2) == DetectStep::Probe
            &&& s2.spec_step(o3) != DetectStep::Probe
        }),
{
}

/// Falling back to the NT35510: after three failed probes, detection consults the
/// OTM8009A ID check exactly when at least two probes read a mismatching ID and the
/// first of those IDs was nonzero; otherwise it settles on the NT35510.
pub proof fn lemma_fallback_after_failed_probes(
    o1: ProbeOutcome,
    o2: ProbeOutcome,
    o3: ProbeOutcome,
)
    requires
        !(o1 is Detected),
        !(o2 is Detected),
        !(o3 is Detected),
    ensures
        ({
            let s2 = PanelDetector::spec_initial().spec_after(o1).spec_after(o2);
            let outcomes = seq![o1, o2, o3];
            let mismatches = outcomes.filter(|o: ProbeOutcome| o is Mismatch);
            let check = mismatches.len() >= 2 && mismatches[0]->Mismatch_0 != 0;
            &&& check ==> s2.spec_step(o3) == DetectStep::CheckOtm8009a
            &&& !check ==> s2.spec_step(o3) == DetectStep::Done(LcdController::Nt35510)
        }),
{
    let outcomes = seq![o1, o2, o3];
    let pred = |o: ProbeOutcome| o is Mismatch;
    reveal_with_fuel(Seq::filter, 4);
    assert(outcomes.drop_last() =~= seq![o1, o2]);
    assert(seq![o1, o2].drop_last() =~= seq![o1]);
    assert(seq![o1].drop_last() =~= Seq::<ProbeOutcome>::empty());
}

/// A probe that detects the NT35510 ends detection with the NT35510, whatever
/// happened before.
pub proof fn lemma_detected_is_final(d: PanelDetector)
    ensures
        d.spec_step(ProbeOutcome::Detected) == DetectStep::Done(LcdController::Nt35510),
{
}

/// A forced hint settles detection at once on the controller it names, with
/// no probe and no ID check; only `Auto` starts probing.
pub proof fn lemma_forced_hints_decide_at_once(hint: BoardHint)
    ensures
        (spec_first_step(hint) == DetectStep::Probe) <==> (hint == BoardHint::Auto),
        (spec_first_step(hint) == DetectStep::Done(LcdController::Nt35510)) <==> (hint
            == BoardHint::ForceNt35510),
        (spec_first_step(hint) == DetectStep::Done(LcdController::Otm8009a)) <==> (hint
            == BoardHint::ForceOtm8009a),
        spec_first_step(hint) != DetectStep::CheckOtm8009a,
{
}

} // verus!
