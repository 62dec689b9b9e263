use embassy_stm32f469i_disco::sdram::SDRAM_QUICK_TEST_WORDS;
use embassy_stm32f469i_disco::{SdramCtrl, SDRAM_SIZE_BYTES};

#[test]
fn sdram_regions() {
    assert_eq!(SDRAM_SIZE_BYTES, 16 * 1024 * 1024);
    let c = SdramCtrl::from_base_address(0xC000_0000);
    assert_eq!(c.base_address(), 0xC000_0000);
    let r = c.into_raw_slice();
    assert_eq!((r.base, r.len), (0xC000_0000, 8 * 1024 * 1024));
    let b = SdramCtrl::from_base_address(0xC000_0000).into_bytes();
    assert_eq!((b.base, b.len), (0xC000_0000, SDRAM_SIZE_BYTES));
}

#[test]
fn sdram_quick_test_clears_words() {
    let mut c = SdramCtrl::from_base_address(0xC000_0000);
    let mut words = vec![0x1234_5678u32; SDRAM_QUICK_TEST_WORDS];
    assert!(c.test_quick(&mut words));
    assert!(words.iter().all(|&w| w == 0));
}
