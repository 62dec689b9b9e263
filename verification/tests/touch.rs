use embassy_stm32f469i_disco::touch::{
    needs_point_read,
    decode_touch_point, filter_touch, is_known_chip_model, touch_count, FT6X06_ADDR,
    FT6X06_VENDOR_ID, REG_TD_STATUS, REG_TOUCH1_XH,
};
use embassy_stm32f469i_disco::{EdgeFilter, TouchError, TouchPoint};

#[test]
fn edge_filter_constructors() {
    assert_eq!(
        EdgeFilter::new(1, 2, 3, 4),
        EdgeFilter { left: 1, right: 2, top: 3, bottom: 4 }
    );
    assert_eq!(
        EdgeFilter::default_ft6x06(),
        EdgeFilter { left: 3, right: 476, top: 3, bottom: 796 }
    );
    assert_eq!(EdgeFilter::default(), EdgeFilter::default_ft6x06());
}

#[test]
fn default_filter_rejects_documented_phantom_touches() {
    let f = EdgeFilter::default_ft6x06();
    assert!(!f.accepts(TouchPoint { x: 0, y: 445 }));
    assert!(!f.accepts(TouchPoint { x: 479, y: 767 }));
    assert!(!f.accepts(TouchPoint { x: 240, y: 2 }));
    assert!(!f.accepts(TouchPoint { x: 240, y: 797 }));
    assert!(f.accepts(TouchPoint { x: 3, y: 3 }));
    assert!(f.accepts(TouchPoint { x: 476, y: 796 }));
    assert!(f.accepts(TouchPoint { x: 240, y: 400 }));
}

#[test]
fn touch_count_uses_lower_nibble() {
    assert_eq!(touch_count(0x00), 0);
    assert_eq!(touch_count(0x02), 2);
    assert_eq!(touch_count(0xF1), 1);
    assert_eq!(touch_count(0xFF), 15);
}

#[test]
fn decode_touch_point_registers() {
    assert_eq!(decode_touch_point([0x01, 0x2C, 0x03, 0x20]), TouchPoint { x: 300, y: 800 });
    // The event flag bits in the high nibbles are ignored.
    assert_eq!(decode_touch_point([0x81, 0xDF, 0x43, 0x1F]), TouchPoint { x: 479, y: 799 });
    assert_eq!(decode_touch_point([0xFF, 0xFF, 0xFF, 0xFF]), TouchPoint { x: 4095, y: 4095 });
}

#[test]
fn filter_touch_with_and_without_filter() {
    let p = TouchPoint { x: 0, y: 445 };
    assert_eq!(filter_touch(p, None), Some(p));
    assert_eq!(filter_touch(p, Some(EdgeFilter::default_ft6x06())), None);
    let q = TouchPoint { x: 100, y: 100 };
    assert_eq!(filter_touch(q, Some(EdgeFilter::default_ft6x06())), Some(q));
}

#[test]
fn chip_models_and_constants() {
    assert!(is_known_chip_model(0x06));
    assert!(is_known_chip_model(0x36));
    assert!(is_known_chip_model(0x64));
    assert!(!is_known_chip_model(0x11));
    assert_eq!(FT6X06_ADDR, 0x38);
    assert_eq!(FT6X06_VENDOR_ID, 0x11);
    assert_eq!(REG_TD_STATUS, 0x02);
    assert_eq!(REG_TOUCH1_XH, 0x03);
}

#[test]
fn touch_error_from_bus_error() {
    let e: TouchError<u8> = TouchError::from(7u8);
    assert_eq!(e, TouchError::I2c(7));
    assert_ne!(e, TouchError::InvalidResponse);
}

#[test]
fn point_read_only_when_touched() {
    assert!(!needs_point_read(0));
    assert!(needs_point_read(1));
    assert!(needs_point_read(2));
}

#[test]
fn touch_point_text() {
    assert_eq!(TouchPoint { x: 240, y: 400 }.display_string(), "(240, 400)");
    assert_eq!(TouchPoint { x: 0, y: 0 }.display_string(), "(0, 0)");
    assert_eq!(TouchPoint { x: 4095, y: 65535 }.display_string(), "(4095, 65535)");
}

#[test]
fn touch_error_text() {
    let bus: TouchError<u8> = TouchError::I2c(3);
    assert_eq!(bus.display_string("Nack"), "I2C error: Nack");
    let bad: TouchError<u8> = TouchError::InvalidResponse;
    assert_eq!(bad.display_string(""), "invalid response from FT6X06");
}
