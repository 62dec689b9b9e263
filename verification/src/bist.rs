//! Built-in self-test (BIST) results for the STM32F469I-Discovery board.
//!
//! Populated during board bring-up, one entry per subsystem; the application
//! decides how to report them (display, USB CDC, LEDs, etc.).

use vstd::prelude::*;

use crate::touch::{spec_known_chip_model, FT6X06_VENDOR_ID, is_known_chip_model};

verus! {

/// Result of an individual hardware test.
#[derive(Clone, Copy, Debug, PartialEq, Eq, Structural)]
pub enum TestResult {
    /// Test passed.
    Pass,
    /// Test failed.
    Fail,
    /// Test was not applicable (e.g. no hardware connected).
    Skip,
}

impl TestResult {
    /// Returns `true` for `Pass`.
    pub fn is_pass(self) -> (r: bool)
        ensures
            r == (self is Pass),
    {
        match self {
            TestResult::Pass => true,
            _ => false,
        }
    }
}

/// A named test entry for iteration.
#[derive(Clone, Copy)]
pub struct TestEntry {
    /// Human-readable test name.
    pub name: &'static str,
    /// Test result.
    pub result: TestResult,
}

/// Hardware self-test results collected during board bring-up.
#[derive(Clone, Copy, Debug, PartialEq, Eq, Structural)]
pub struct BootTestResults {
    /// SDRAM quick test: write/verify 4 KiB pattern.
    pub sdram: TestResult,
    /// DSI/LTDC display controller initialized successfully.
    pub display: TestResult,
    /// FT6X06 touch I2C bus responds.
    pub touch_i2c: TestResult,
    /// FT6X06 vendor ID matches expected value (0x11).
    pub touch_vendor_id: TestResult,
    /// FT6X06 chip model is a known value (0x06, 0x36, or 0x64).
    pub touch_chip_model: TestResult,
    /// FT6X06 reports no active touches at boot (td_status == 0).
    pub touch_idle: TestResult,
    /// User LEDs configured successfully.
    pub leds: TestResult,
    /// User button (PA0) configured successfully.
    pub user_button: TestResult,
}

/// Number of `Pass` results in `s`.
pub open spec fn count_passed(s: Seq<TestResult>) -> nat
    decreases s.len(),
{
    if s.len() == 0 {
        0
    } else {
        count_passed(s.drop_last()) + if s.last() is Pass {
            1nat
        } else {
            0nat
        }
    }
}

/// At most every result passes, and all of them pass exactly when the count
/// reaches the number of results.
pub proof fn lemma_count_passed_bounds(s: Seq<TestResult>)
    ensures
        count_passed(s) <= s.len(),
        (count_passed(s) == s.len()) <==> (forall|i: int| 0 <= i < s.len() ==> #[trigger] s[i] is Pass),
    decreases s.len(),
{
    if s.len() > 0 {
        lemma_count_passed_bounds(s.drop_last());
        if count_passed(s) == s.len() {
            assert forall|i: int| 0 <= i < s.len() implies #[trigger] s[i] is Pass by {
                if i < s.len() - 1 {
                    assert(s.drop_last()[i] == s[i]);
                }
            }
        }
        if forall|i: int| 0 <= i < s.len() ==> #[trigger] s[i] is Pass {
            assert forall|i: int| 0 <= i < s.drop_last().len() implies #[trigger] s.drop_last()[i] is Pass by {
                assert(s[i] is Pass);
            }
            assert(s[s.len() - 1] is Pass);
        }
    }
}

/// Test result from a check that either succeeded or failed.
pub open spec fn pass_or_fail(ok: bool) -> TestResult {
    if ok {
        TestResult::Pass
    } else {
        TestResult::Fail
    }
}

/// Test result of a check applied to a value read from the hardware, or `Skip`
/// when the read did not happen.
pub open spec fn check_read(read: Option<u8>, check: spec_fn(u8) -> bool) -> TestResult {
    match read {
        Some(v) => pass_or_fail(check(v)),
        None => TestResult::Skip,
    }
}

impl Default for BootTestResults {
    /// Every subsystem `Skip`ped: nothing has been tested yet.
    fn default() -> (r: Self)
        ensures
            forall|i: int| 0 <= i < 8 ==> #[trigger] r.results()[i] == TestResult::Skip,
    {
        BootTestResults {
            sdram: TestResult::Skip,
            display: TestResult::Skip,
            touch_i2c: TestResult::Skip,
            touch_vendor_id: TestResult::Skip,
            touch_chip_model: TestResult::Skip,
            touch_idle: TestResult::Skip,
            leds: TestResult::Skip,
            user_button: TestResult::Skip,
        }
    }
}

impl BootTestResults {
    /// The results in the order of [`entries`](Self::entries).
    pub open spec fn results(self) -> Seq<TestResult> {
        seq![
            self.sdram,
            self.display,
            self.touch_i2c,
            self.touch_vendor_id,
            self.touch_chip_model,
            self.touch_idle,
            self.leds,
            self.user_button,
        ]
    }

    /// Results from what board bring-up observed: whether the SDRAM quick test,
    /// display init, LEDs and user button succeeded, and the FT6X06 vendor ID,
    /// chip model and touch count as read over I2C (`None` when the read failed).
    /// The touch bus passes when the vendor ID could be read; the touch checks
    /// that depend on a failed read are skipped.
    pub fn from_checks(
        sdram_ok: bool,
        display_ok: bool,
        touch_vendor_id: Option<u8>,
        touch_chip_model: Option<u8>,
        touch_count: Option<u8>,
        leds_ok: bool,
        user_button_ok: bool,
    ) -> (r: Self)
        ensures
            r.sdram == pass_or_fail(sdram_ok),
            r.display == pass_or_fail(display_ok),
            r.touch_i2c == pass_or_fail(touch_vendor_id is Some),
            r.touch_vendor_id == check_read(touch_vendor_id, |v: u8| v == FT6X06_VENDOR_ID),
            r.touch_chip_model == check_read(
                touch_chip_model,
                |v: u8| spec_known_chip_model(v),
            ),
            r.touch_idle == check_read(touch_count, |v: u8| v == 0),
            r.leds == pass_or_fail(leds_ok),
            r.user_button == pass_or_fail(user_button_ok),
    {
        let of = |ok: bool| -> (t: TestResult)
            ensures
                t == pass_or_fail(ok),
            {
                if ok {
                    TestResult::Pass
                } else {
                    TestResult::Fail
                }
            };
        let vendor = match touch_vendor_id {
            Some(v) => of(v == FT6X06_VENDOR_ID),
            None => TestResult::Skip,
        };
        let model = match touch_chip_model {
            Some(v) => of(is_known_chip_model(v)),
            None => TestResult::Skip,
        };
        let idle = match touch_count {
            Some(v) => of(v == 0),
            None => TestResult::Skip,
        };
        BootTestResults {
            sdram: of(sdram_ok),
            display: of(display_ok),
            touch_i2c: of(touch_vendor_id.is_some()),
            touch_vendor_id: vendor,
            touch_chip_model: model,
            touch_idle: idle,
            leds: of(leds_ok),
            user_button: of(user_button_ok),
        }
    }

    /// Returns all test entries for iteration, named, in field order.
    pub fn entries(&self) -> (r: [TestEntry; 8])
        ensures
            forall|i: int| 0 <= i < 8 ==> #[trigger] r[i].result == self.results()[i],
            r[0].name@ == "SDRAM"@,
            r[1].name@ == "Display"@,
            r[2].name@ == "Touch I2C"@,
            r[3].name@ == "Touch Vendor ID"@,
            r[4].name@ == "Touch Chip Model"@,
            r[5].name@ == "Touch Idle"@,
            r[6].name@ == "LEDs"@,
            r[7].name@ == "User Button"@,
    {
        [
            TestEntry { name: "SDRAM", result: self.sdram },
            TestEntry { name: "Display", result: self.display },
            TestEntry { name: "Touch I2C", result: self.touch_i2c },
            TestEntry { name: "Touch Vendor ID", result: self.touch_vendor_id },
            TestEntry { name: "Touch Chip Model", result: self.touch_chip_model },
            TestEntry { name: "Touch Idle", result: self.touch_idle },
            TestEntry { name: "LEDs", result: self.leds },
            TestEntry { name: "User Button", result: self.user_button },
        ]
    }

    /// Number of tests that passed.
    pub fn passed_count(&self) -> (n: usize)
        ensures
            n == count_passed(self.results()),
            n <= 8,
    {
        let entries = self.entries();
        let mut n: usize = 0;
        let mut i: usize = 0;
        while i < 8
            invariant
                0 <= i <= 8,
                forall|j: int| 0 <= j < 8 ==> #[trigger] entries[j].result == self.results()[j],
                n == count_passed(self.results().subrange(0, i as int)),
                n <= i,
            decreases 8 - i,
        {
            proof {
                let s = self.results().subrange(0, i + 1);
                assert(s.drop_last() =~= self.results().subrange(0, i as int));
                assert(s.last() == entries[i as int].result);
            }
            if entries[i].result.is_pass() {
                n = n + 1;
            }
            i = i + 1;
        }
        proof {
            assert(self.results().subrange(0, 8) =~= self.results());
        }
        n
    }

    /// Total number of tests.
    pub fn total(&self) -> (n: usize)
        ensures
            n == 8,
            n == self.results().len(),
    {
        8
    }

    /// Returns `true` if all tests passed.
    pub fn all_passed(&self) -> (r: bool)
        ensures
            r == (forall|i: int| 0 <= i < 8 ==> #[trigger] self.results()[i] is Pass),
            r == (count_passed(self.results()) == 8),
    {
        proof {
            lemma_count_passed_bounds(self.results());
        }
        self.passed_count() == self.total()
    }
}

} // verus!
