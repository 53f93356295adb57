use cipher_fence::fence::{parse_human_percentage, Fence, Percentage, PercentageError};

#[test]
fn outside_range_percentage_fails() {
    let err = Percentage::try_new(100000000).unwrap_err();
    assert_eq!(
        err,
        PercentageError::OutOfRange {
            min: Percentage::MIN,
            max: Percentage::MAX
        }
    );
}

#[test]
fn default_fence_avg_markup_succeeds() {
    let fence = Fence::default();
    let base_price = 100;
    let result = fence.avg_markup_price(base_price);
    assert_eq!(110, result);
}

#[test]
fn default_fence_lowest_markup_succeeds() {
    let fence = Fence::default();
    let base_price = 100;
    let result = fence.lowest_markup_price(base_price);
    assert_eq!(108, result);
}

#[test]
fn default_fence_highest_markup_succeeds() {
    let fence = Fence::default();
    let base_price = 1000;
    let result = fence.highest_markup_price(base_price);
    assert_eq!(1205, result);
}

#[test]
fn integar_trunc_works_as_intended() {
    let fence = Fence::default();
    let base_price = 100;
    let result = fence.highest_markup_price(base_price);
    assert_eq!(120, result);
}

#[test]
fn percentage_bounds_are_fixed() {
    assert_eq!(Percentage::MIN, 0);
    assert_eq!(Percentage::MAX, 10_000);
    assert_eq!(Percentage::VALUE_SCALE, 1000);
    let err = Percentage::try_new(10_001).unwrap_err();
    assert_eq!(err, PercentageError::OutOfRange { min: 0, max: 10_000 });
    let err = Percentage::try_new(u64::MAX).unwrap_err();
    assert_eq!(err, PercentageError::OutOfRange { min: 0, max: 10_000 });
}

#[test]
fn percentage_accepts_the_whole_band() {
    assert_eq!(Percentage::try_new(0).unwrap().value(), 0);
    assert_eq!(Percentage::try_new(1).unwrap().value(), 1);
    assert_eq!(Percentage::try_new(1000).unwrap().value(), 1000);
    assert_eq!(Percentage::try_new(9_999).unwrap().value(), 9_999);
    assert_eq!(Percentage::try_new(10_000).unwrap().value(), 10_000);
}

#[test]
fn percentage_apply_to_truncates() {
    let p = Percentage::try_new(1205).unwrap();
    assert_eq!(p.apply_to(100), 120);
    assert_eq!(p.apply_to(1000), 1205);
    assert_eq!(p.apply_to(0), 0);
    assert_eq!(p.apply_to(1), 1);
    assert_eq!(p.apply_to(199), 239);
    assert_eq!(Percentage::try_new(999).unwrap().apply_to(1), 0);
    assert_eq!(Percentage::try_new(0).unwrap().apply_to(12345), 0);
    assert_eq!(Percentage::try_new(1000).unwrap().apply_to(12345), 12345);
    assert_eq!(Percentage::try_new(10_000).unwrap().apply_to(7), 70);
}

#[test]
fn percentage_apply_to_largest_product_that_fits() {
    let p = Percentage::try_new(10_000).unwrap();
    let base = u64::MAX / 10_000;
    assert_eq!(p.apply_to(base), base * 10);
}

#[test]
fn percentage_markup_scaled_counts_from_the_base_price() {
    assert_eq!(Percentage::try_new(1000).unwrap().markup_scaled(), 0);
    assert_eq!(Percentage::try_new(1100).unwrap().markup_scaled(), 100);
    assert_eq!(Percentage::try_new(1205).unwrap().markup_scaled(), 205);
    assert_eq!(Percentage::try_new(10_000).unwrap().markup_scaled(), 9000);
}

#[test]
fn percentage_to_string_shows_the_markup() {
    assert_eq!(Percentage::try_new(1100).unwrap().to_string(), "10% markup");
    assert_eq!(Percentage::try_new(1205).unwrap().to_string(), "20.5% markup");
    assert_eq!(Percentage::try_new(1080).unwrap().to_string(), "8% markup");
    assert_eq!(Percentage::try_new(1000).unwrap().to_string(), "0% markup");
    assert_eq!(Percentage::try_new(1001).unwrap().to_string(), "0.1% markup");
    assert_eq!(Percentage::try_new(1125).unwrap().to_string(), "12.5% markup");
    assert_eq!(Percentage::try_new(10_000).unwrap().to_string(), "900% markup");
    assert_eq!(Percentage::try_new(9_999).unwrap().to_string(), "899.9% markup");
}

#[test]
fn parse_human_percentage_reads_whole_and_decimal() {
    assert_eq!(parse_human_percentage("10").unwrap().value(), 1100);
    assert_eq!(parse_human_percentage("12.5").unwrap().value(), 1125);
    assert_eq!(parse_human_percentage("0").unwrap().value(), 1000);
    assert_eq!(parse_human_percentage("0.0").unwrap().value(), 1000);
    assert_eq!(parse_human_percentage("0.1").unwrap().value(), 1001);
    assert_eq!(parse_human_percentage("007").unwrap().value(), 1070);
    assert_eq!(parse_human_percentage("900").unwrap().value(), 10_000);
    assert_eq!(parse_human_percentage("900.0").unwrap().value(), 10_000);
    assert_eq!(parse_human_percentage("899.9").unwrap().value(), 9_999);
}

#[test]
fn parse_human_percentage_reads_what_is_shown() {
    assert_eq!(parse_human_percentage("10% markup").unwrap().value(), 1100);
    assert_eq!(parse_human_percentage("20.5% markup").unwrap().value(), 1205);
    assert_eq!(parse_human_percentage("0% markup").unwrap().value(), 1000);
}

#[test]
fn parse_human_percentage_round_trips_with_to_string() {
    let mut raw = 1000;
    while raw <= 10_000 {
        let p = Percentage::try_new(raw).unwrap();
        let shown = p.to_string();
        assert_eq!(parse_human_percentage(&shown), Ok(p));
        assert_eq!(parse_human_percentage(&shown).unwrap().to_string(), shown);
        raw += 1;
    }
}

#[test]
fn parse_human_percentage_rejects_what_is_no_number() {
    let invalid = [
        "", " ", "abc", "ten", "-5", "+5", "1,5", "1.", ".5", ".", "1.25", "1..5", "1.5.2", " 10", "10 ",
        "10%", "10 % markup", "% markup", "1e3", "0x10", "1_0", "12.x", "x.5", "\u{661}\u{662}",
        "99999999999999999999999999x",
    ];
    for text in invalid {
        assert_eq!(parse_human_percentage(text), Err(PercentageError::InvalidNumber), "{:?}", text);
    }
}

#[test]
fn parse_human_percentage_reports_the_range() {
    let out_of_range = PercentageError::OutOfRange { min: 0, max: 10_000 };
    assert_eq!(parse_human_percentage("900.1"), Err(out_of_range));
    assert_eq!(parse_human_percentage("901"), Err(out_of_range));
    assert_eq!(parse_human_percentage("1000"), Err(out_of_range));
    assert_eq!(parse_human_percentage("100000000"), Err(out_of_range));
    assert_eq!(parse_human_percentage("99999999999999999999999999999999999999"), Err(out_of_range));
    assert_eq!(parse_human_percentage("99999999999999999999999999999999999999.9"), Err(out_of_range));
    assert_eq!(parse_human_percentage("1000% markup"), Err(out_of_range));
}

#[test]
fn percentage_error_to_string_names_the_bounds() {
    let range = PercentageError::OutOfRange { min: 0, max: 10_000 };
    assert_eq!(range.to_string(), "percentage must be between 0 and 10000");
    let other = PercentageError::OutOfRange { min: 17, max: u64::MAX };
    assert_eq!(other.to_string(), "percentage must be between 17 and 18446744073709551615");
    assert_eq!(PercentageError::InvalidNumber.to_string(), "not a valid number");
}

#[test]
fn fence_new_keeps_what_it_is_given() {
    let fence = Fence::new(
        "Dave".to_string(),
        10,
        Percentage::try_new(1050).unwrap(),
        Percentage::try_new(1125).unwrap(),
        Percentage::try_new(1250).unwrap(),
    );
    assert_eq!(fence.name, "Dave");
    assert_eq!(fence.reputation, 10);
    assert_eq!(fence.lowest_markup.value(), 1050);
    assert_eq!(fence.avg_markup.value(), 1125);
    assert_eq!(fence.highest_markup.value(), 1250);
    assert_eq!(fence.lowest_markup_price(200), 210);
    assert_eq!(fence.avg_markup_price(200), 225);
    assert_eq!(fence.highest_markup_price(200), 250);
}

#[test]
fn fence_does_not_order_its_markups() {
    let fence = Fence::new(
        String::new(),
        0,
        Percentage::try_new(2000).unwrap(),
        Percentage::try_new(500).unwrap(),
        Percentage::try_new(0).unwrap(),
    );
    assert_eq!(fence.lowest_markup_price(10), 20);
    assert_eq!(fence.avg_markup_price(10), 5);
    assert_eq!(fence.highest_markup_price(10), 0);
}

#[test]
fn fence_default_values() {
    let fence = Fence::default();
    assert_eq!(fence.name, "");
    assert_eq!(fence.reputation, 0);
    assert_eq!(fence.lowest_markup.value(), 1080);
    assert_eq!(fence.avg_markup.value(), 1100);
    assert_eq!(fence.highest_markup.value(), 1205);
}

#[test]
fn percentage_below_the_base_price_has_no_markup() {
    assert_eq!(Percentage::try_new(999).unwrap().markup_scaled(), 0);
    assert_eq!(Percentage::try_new(500).unwrap().markup_scaled(), 0);
    assert_eq!(Percentage::try_new(0).unwrap().markup_scaled(), 0);
    assert_eq!(Percentage::try_new(999).unwrap().to_string(), "0% markup");
    assert_eq!(Percentage::try_new(500).unwrap().to_string(), "0% markup");
    assert_eq!(Percentage::try_new(0).unwrap().to_string(), "0% markup");
}

#[test]
fn percentage_to_string_works_on_every_valid_value() {
    let mut raw = 0;
    while raw <= 10_000 {
        let p = Percentage::try_new(raw).unwrap();
        let shown = p.to_string();
        let expected = if raw >= 1000 { raw } else { 1000 };
        assert_eq!(parse_human_percentage(&shown).unwrap().value(), expected);
        raw += 1;
    }
}
