use fat_date_time::{parse_fat_date, parse_fat_time, Month};

#[test]
fn parse_fat_date_works() {
    // Date value of zero
    let date = parse_fat_date(0);
    assert!(date.is_none());

    // The earliest possible valid date
    let date = parse_fat_date(0b0000000000100001);

    assert!(date.is_some());
    assert_eq!(date.unwrap().year(), 1980);
    assert_eq!(date.unwrap().month(), Month::January);
    assert_eq!(date.unwrap().day(), 1);

    // The latest possible date
    let date = parse_fat_date(0b1111111110011111);

    assert!(date.is_some());
    assert_eq!(date.unwrap().year(), 2107);
    assert_eq!(date.unwrap().month(), Month::December);
    assert_eq!(date.unwrap().day(), 31);

    // The date with bit 1 set for year, month and day.
    let date = parse_fat_date(0b0000001000100001);

    assert!(date.is_some());
    assert_eq!(date.unwrap().year(), 1981);
    assert_eq!(date.unwrap().month(), Month::January);
    assert_eq!(date.unwrap().day(), 1);

    // Test date with day < 1
    let date = parse_fat_date(0b0000000000100000);
    assert!(date.is_none());

    // Test date with month < 1
    let date = parse_fat_date(0b0000000000000001);
    assert!(date.is_none());

    // Test date with month > 12
    let date = parse_fat_date(0b0000000110100001);
    assert!(date.is_none());
}

#[test]
fn parse_fat_time_works() {
    // Test the earliest possible time
    let time = parse_fat_time(0);
    assert!(time.is_some());
    assert_eq!(time.unwrap().hour(), 0);
    assert_eq!(time.unwrap().minute(), 0);
    assert_eq!(time.unwrap().second(), 0);

    // Test the latest possible time
    let time = parse_fat_time(0b1011111101111101);
    assert!(time.is_some());
    assert_eq!(time.unwrap().hour(), 23);
    assert_eq!(time.unwrap().minute(), 59);
    assert_eq!(time.unwrap().second(), 58);

    // Test second value > 29
    let time = parse_fat_time(0b1011111101111110);
    assert!(time.is_none());

    // Test minute value > 59
    let time = parse_fat_time(0b1011111110011101);
    assert!(time.is_none());

    // Test hour value > 23
    let time = parse_fat_time(0b1100011101111101);
    assert!(time.is_none());
}

/// Values cross-checked against the pyfatfs Python module
#[test]
fn external_tests_pass() {
    let date = parse_fat_date(0xFF9F);
    assert!(date.is_some());
    assert_eq!(date.unwrap().year(), 2107);
    assert_eq!(date.unwrap().month(), Month::December);
    assert_eq!(date.unwrap().day(), 31);

    // maximum time value
    let date = parse_fat_date(0xBF7D);
    assert!(date.is_some());
    assert_eq!(date.unwrap().year(), 2075);
    assert_eq!(date.unwrap().month(), Month::November);
    assert_eq!(date.unwrap().day(), 29);

    let time = parse_fat_time(0xBF7D);
    assert!(time.is_some());
    assert_eq!(time.unwrap().hour(), 23);
    assert_eq!(time.unwrap().minute(), 59);
    assert_eq!(time.unwrap().second(), 58);

    let date = parse_fat_date(0xFF9F);
    assert!(date.is_some());
    assert_eq!(date.unwrap().year(), 2107);
    assert_eq!(date.unwrap().month(), Month::December);
    assert_eq!(date.unwrap().day(), 31);

    let date = parse_fat_date(0x0021);
    assert!(date.is_some());
    assert_eq!(date.unwrap().year(), 1980);
    assert_eq!(date.unwrap().month(), Month::January);
    assert_eq!(date.unwrap().day(), 1);

    let time = parse_fat_time(0x477D);
    assert!(time.is_some());
    assert_eq!(time.unwrap().hour(), 8);
    assert_eq!(time.unwrap().minute(), 59);
    assert_eq!(time.unwrap().second(), 58);
}
