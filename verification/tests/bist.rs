use embassy_stm32f469i_disco::{BootTestResults, TestResult};

fn all(result: TestResult) -> BootTestResults {
    BootTestResults {
        sdram: result,
        display: result,
        touch_i2c: result,
        touch_vendor_id: result,
        touch_chip_model: result,
        touch_idle: result,
        leds: result,
        user_button: result,
    }
}

#[test]
fn test_result_is_pass() {
    assert!(TestResult::Pass.is_pass());
    assert!(!TestResult::Fail.is_pass());
    assert!(!TestResult::Skip.is_pass());
}

#[test]
fn default_results_are_skipped() {
    let r = BootTestResults::default();
    assert_eq!(r, all(TestResult::Skip));
    assert_eq!(r.passed_count(), 0);
    assert_eq!(r.total(), 8);
    assert!(!r.all_passed());
}

#[test]
fn entries_are_named_in_field_order() {
    let mut r = all(TestResult::Fail);
    r.touch_chip_model = TestResult::Pass;
    let e = r.entries();
    let names: Vec<&str> = e.iter().map(|x| x.name).collect();
    assert_eq!(
        names,
        vec![
            "SDRAM",
            "Display",
            "Touch I2C",
            "Touch Vendor ID",
            "Touch Chip Model",
            "Touch Idle",
            "LEDs",
            "User Button"
        ]
    );
    assert_eq!(e[4].result, TestResult::Pass);
    assert_eq!(e[3].result, TestResult::Fail);
}

#[test]
fn passed_count_and_all_passed() {
    let mut r = all(TestResult::Pass);
    assert_eq!(r.passed_count(), 8);
    assert!(r.all_passed());
    r.leds = TestResult::Skip;
    r.display = TestResult::Fail;
    assert_eq!(r.passed_count(), 6);
    assert!(!r.all_passed());
}

#[test]
fn from_checks_classifies_observations() {
    let r = BootTestResults::from_checks(true, true, Some(0x11), Some(0x64), Some(0), true, true);
    assert!(r.all_passed());

    let r = BootTestResults::from_checks(false, true, Some(0x12), Some(0x99), Some(2), true, false);
    assert_eq!(r.sdram, TestResult::Fail);
    assert_eq!(r.display, TestResult::Pass);
    assert_eq!(r.touch_i2c, TestResult::Pass);
    assert_eq!(r.touch_vendor_id, TestResult::Fail);
    assert_eq!(r.touch_chip_model, TestResult::Fail);
    assert_eq!(r.touch_idle, TestResult::Fail);
    assert_eq!(r.user_button, TestResult::Fail);
    assert_eq!(r.passed_count(), 3);

    let r = BootTestResults::from_checks(true, true, None, None, None, true, true);
    assert_eq!(r.touch_i2c, TestResult::Fail);
    assert_eq!(r.touch_vendor_id, TestResult::Skip);
    assert_eq!(r.touch_chip_model, TestResult::Skip);
    assert_eq!(r.touch_idle, TestResult::Skip);
    assert_eq!(r.passed_count(), 4);
}
