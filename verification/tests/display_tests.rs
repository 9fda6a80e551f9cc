use corallium_config::display::{
    battery_digits, battery_gauge_index, digit_sprite_origin, padded_digits, volume_gauge_index,
    BatteryDigits,
};

#[test]
fn clock_fields_are_zero_padded() {
    assert_eq!(padded_digits(0), vec![0, 0]);
    assert_eq!(padded_digits(7), vec![0, 7]);
    assert_eq!(padded_digits(10), vec![1, 0]);
    assert_eq!(padded_digits(59), vec![5, 9]);
    assert_eq!(padded_digits(123), vec![1, 2, 3]);
    assert_eq!(padded_digits(u32::MAX), vec![4, 2, 9, 4, 9, 6, 7, 2, 9, 5]);
}

#[test]
fn digit_cells_in_sprite_sheet() {
    assert_eq!(digit_sprite_origin(0), (0, 0));
    assert_eq!(digit_sprite_origin(4), (56, 0));
    assert_eq!(digit_sprite_origin(5), (0, 18));
    assert_eq!(digit_sprite_origin(7), (28, 18));
    assert_eq!(digit_sprite_origin(9), (56, 18));
    let mut cells: Vec<(u32, u64)> = (0..10).map(digit_sprite_origin).collect();
    cells.sort();
    cells.dedup();
    assert_eq!(cells.len(), 10);
}

#[test]
fn volume_gauge_rounds_to_tenths() {
    assert_eq!(volume_gauge_index(0), 0);
    assert_eq!(volume_gauge_index(4), 0);
    assert_eq!(volume_gauge_index(5), 1);
    assert_eq!(volume_gauge_index(44), 4);
    assert_eq!(volume_gauge_index(45), 5);
    assert_eq!(volume_gauge_index(50), 5);
    assert_eq!(volume_gauge_index(100), 10);
    assert_eq!(volume_gauge_index(255), 10);
}

#[test]
fn battery_gauge_rounds_to_sixths() {
    assert_eq!(battery_gauge_index(100), 6);
    assert_eq!(battery_gauge_index(0), 0);
    assert_eq!(battery_gauge_index(8), 0);
    assert_eq!(battery_gauge_index(9), 1);
    assert_eq!(battery_gauge_index(50), 3);
    assert_eq!(battery_gauge_index(u32::MAX), 6);
}

#[test]
fn battery_readout_digits() {
    assert_eq!(battery_digits(100), BatteryDigits { leading_one: true, tens: 0, ones: 0 });
    assert_eq!(battery_digits(57), BatteryDigits { leading_one: false, tens: 5, ones: 7 });
    assert_eq!(battery_digits(5), BatteryDigits { leading_one: false, tens: 0, ones: 5 });
}
