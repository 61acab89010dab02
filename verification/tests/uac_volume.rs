use usb_desc::uac_proto::UacVolume;

#[test]
fn uac_vol_min_out_of_range_err() {
    let too_low: i16 = i16::MIN;
    assert!(UacVolume::new(too_low, UacVolume::DB_MAX, 0).is_err());

    let max: i16 = 0x6555;
    let too_high: i16 = max + 1;
    assert!(UacVolume::new(too_high, max, 0).is_err());
}

#[test]
fn uac_vol_max_out_of_range_err() {
    assert!(UacVolume::new(UacVolume::DB_MIN, UacVolume::DB_SILENCE, 0).is_err());
}

#[test]
fn uac_vol_cur_out_of_range_err() {
    let min: i16 = UacVolume::DB_MIN + 10;
    let max: i16 = UacVolume::DB_MAX - 10;
    let too_low: i16 = min - 1;
    let too_high: i16 = max + 1;
    assert!(UacVolume::new(min, max, too_low).is_err());
    assert!(UacVolume::new(min, max, too_high).is_err());
}

#[test]
fn uac_vol_good_values_are_ok() {
    if let Err(e) = UacVolume::new(UacVolume::DB_MIN, UacVolume::DB_MAX, 0) {
        println!("Error: {:?}", e);
        assert!(false);
    }
}

#[test]
fn uac_vol_silence_flag() {
    let vol = UacVolume::new(UacVolume::DB_MIN, UacVolume::DB_MAX, UacVolume::DB_SILENCE).unwrap();
    assert!(vol.is_silent());
    let vol = UacVolume::new(UacVolume::DB_MIN, UacVolume::DB_MAX, 0).unwrap();
    assert!(!vol.is_silent());
    assert_eq!(vol.min_units(), UacVolume::DB_MIN);
    assert_eq!(vol.max_units(), UacVolume::DB_MAX);
}
