use libgb_rs::rtc::RealTimeClock;

const CHANGE_ALL_REGISTERS: u64 = 86400 * 511 + 11190;

fn init_rtc() -> RealTimeClock {
    RealTimeClock::new(None, None, None, None, None)
}

fn check_registers(rtc: &RealTimeClock, days_up: u8, days_low: u8, hrs: u8, mins: u8, secs: u8) {
    assert_eq!(rtc.get_seconds(), secs, "seconds should be updated correctly");
    assert_eq!(rtc.get_minutes(), mins, "minutes should be updated correctly");
    assert_eq!(rtc.get_hours(), hrs, "hours should be updated correctly");
    assert_eq!(rtc.get_days_lower(), days_low, "days (lower register) should be updated correctly");
    assert_eq!(rtc.get_days_upper(), days_up, "days (upper register) should be updated correctly");
}

#[test]
fn test_latch_updates_all_registers() {
    let mut rtc = init_rtc();
    // pull the baseline back to fake elapsed wall time
    rtc.last_modified -= CHANGE_ALL_REGISTERS;

    rtc.latch();

    check_registers(&rtc, 1, 255, 3, 6, 30);
}

#[test]
fn test_latch_updates_overflow_bit() {
    let mut rtc = init_rtc();
    let dur_seconds = 512 * 86400;
    rtc.last_modified -= dur_seconds;

    rtc.latch();

    check_registers(&rtc, 0x80, 0, 0, 0, 0);
}

#[test]
fn test_latch_with_halt() {
    let mut rtc = init_rtc();
    rtc.last_modified -= 5;

    rtc.set_days_upper(0x40); // halt the clock
    rtc.set_days_upper(0x0); // un-halt the clock
    rtc.last_modified -= 5;
    rtc.latch();
    let result = rtc.get_seconds();

    assert_eq!(result, 10);
}

#[test]
fn test_latch_inside_halt() {
    let mut rtc = init_rtc();
    rtc.last_modified -= 5;

    rtc.set_days_upper(0x40);
    rtc.latch();
    let halt_result = rtc.get_seconds();

    rtc.set_days_upper(0x0);
    rtc.last_modified -= 5;
    rtc.latch();
    let resume_result = rtc.get_seconds();

    assert_eq!(halt_result, 5);
    assert_eq!(resume_result, 10);
}

#[test]
fn test_seconds_uses_6_bits() {
    let mut rtc = init_rtc();

    rtc.set_seconds(0xFF);
    let result = rtc.get_seconds();

    assert_eq!(result, 0x3F);
}

#[test]
fn test_minutes_uses_6_bits() {
    let mut rtc = init_rtc();

    rtc.set_minutes(0xFF);
    let result = rtc.get_minutes();

    assert_eq!(result, 0x3F);
}

#[test]
fn test_hours_uses_5_bits() {
    let mut rtc = init_rtc();

    rtc.set_hours(0xFF);
    let result = rtc.get_hours();

    assert_eq!(result, 0x1F);
}

#[test]
fn test_days_upper_uses_3_bits() {
    let mut rtc = init_rtc();

    rtc.set_days_upper(0xFF);
    let result = rtc.get_days_upper();

    assert_eq!(result, 0xC1);
}

#[test]
fn test_carry_bit_is_sticky() {
    let mut rtc = init_rtc();
    rtc.last_modified -= 512 * 86400;
    rtc.latch();
    assert_eq!(rtc.get_days_upper() & 0x80, 0x80);

    // another latch with no further overflow keeps the carry set
    rtc.latch();
    assert_eq!(rtc.get_days_upper() & 0x80, 0x80);

    // only an explicit write clears it
    rtc.set_days_upper(0x00);
    assert_eq!(rtc.get_days_upper(), 0x00);
}

#[test]
fn test_setters_return_previous_value() {
    let mut rtc = RealTimeClock::new(Some(11), Some(22), Some(13), Some(44), Some(0x41));
    assert_eq!(rtc.set_seconds(1), 11);
    assert_eq!(rtc.set_minutes(2), 22);
    assert_eq!(rtc.set_hours(3), 13);
    assert_eq!(rtc.set_days_lower(4), 44);
    assert_eq!(rtc.set_days_upper(0), 0x41);
}
