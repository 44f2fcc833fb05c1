use tencentcloud_sdk_sms::context::SignatureContext;

fn date_at(timestamp: i64) -> String {
    SignatureContext::at(timestamp).expect("a timestamp of the calendar").date().to_owned()
}

#[test]
fn context_keeps_the_timestamp() {
    let context = SignatureContext::at(1609459200).unwrap();
    assert_eq!(context.timestamp(), 1609459200);
    assert_eq!(context.date(), "2021-01-01");
}

#[test]
fn date_is_the_utc_calendar_date() {
    assert_eq!(date_at(0), "1970-01-01");
    assert_eq!(date_at(86_399), "1970-01-01");
    assert_eq!(date_at(86_400), "1970-01-02");
    assert_eq!(date_at(951_782_400), "2000-02-29");
    assert_eq!(date_at(1_609_459_199), "2020-12-31");
    assert_eq!(date_at(1_609_459_200), "2021-01-01");
}

#[test]
fn date_before_the_epoch() {
    assert_eq!(date_at(-1), "1969-12-31");
    assert_eq!(date_at(-86_400), "1969-12-31");
    assert_eq!(date_at(-86_401), "1969-12-30");
}

#[test]
fn date_at_the_ends_of_four_digit_years() {
    assert_eq!(date_at(253_402_300_799), "9999-12-31");
    assert_eq!(date_at(253_402_300_800), "+10000-01-01");
    assert_eq!(date_at(-62_167_219_200), "0000-01-01");
    assert_eq!(date_at(-62_167_219_201), "-0001-12-31");
}

#[test]
fn no_context_outside_the_calendar() {
    assert!(SignatureContext::at(i64::MAX).is_none());
    assert!(SignatureContext::at(i64::MIN).is_none());
}
