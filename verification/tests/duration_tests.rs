use adguard_home_toggle::duration::{format_duration, parse_duration};

#[test]
fn parses_readme_examples() {
    assert_eq!(parse_duration("1m"), Ok(60_000));
    assert_eq!(parse_duration("10m"), Ok(600_000));
    assert_eq!(parse_duration("1h"), Ok(3_600_000));
    assert_eq!(parse_duration("8h"), Ok(28_800_000));
    assert_eq!(parse_duration("30s"), Ok(30_000));
}

#[test]
fn surrounding_whitespace_is_ignored() {
    assert_eq!(parse_duration("  10m \n"), Ok(600_000));
    assert_eq!(parse_duration("\u{3000}7h\t"), Ok(25_200_000));
    assert_eq!(parse_duration(" 10m "), parse_duration("10m"));
}

#[test]
fn plus_sign_and_leading_zeros_are_accepted() {
    assert_eq!(parse_duration("+5s"), Ok(5_000));
    assert_eq!(parse_duration("007m"), Ok(420_000));
    assert_eq!(parse_duration("0s"), Ok(0));
}

#[test]
fn unknown_unit_is_refused() {
    assert_eq!(
        parse_duration("10x"),
        Err("Invalid duration '10x'. Use format like 1m, 10m, 1h, 8h".to_string())
    );
    assert_eq!(
        parse_duration("10"),
        Err("Invalid duration '10'. Use format like 1m, 10m, 1h, 8h".to_string())
    );
    assert_eq!(
        parse_duration("   "),
        Err("Invalid duration ''. Use format like 1m, 10m, 1h, 8h".to_string())
    );
    assert_eq!(
        parse_duration(" 10M "),
        Err("Invalid duration '10M'. Use format like 1m, 10m, 1h, 8h".to_string())
    );
}

#[test]
fn bad_number_is_refused() {
    assert_eq!(parse_duration("m"), Err("Invalid number in duration 'm'".to_string()));
    assert_eq!(parse_duration("+m"), Err("Invalid number in duration '+m'".to_string()));
    assert_eq!(parse_duration("-5m"), Err("Invalid number in duration '-5m'".to_string()));
    assert_eq!(parse_duration("1 m"), Err("Invalid number in duration '1 m'".to_string()));
    assert_eq!(parse_duration("1.5h"), Err("Invalid number in duration '1.5h'".to_string()));
    assert_eq!(
        parse_duration("18446744073709551616s"),
        Err("Invalid number in duration '18446744073709551616s'".to_string())
    );
}

#[test]
fn large_counts_wrap_around() {
    assert_eq!(parse_duration("18446744073709551615s"), Ok(18446744073709550616));
    assert_eq!(parse_duration("18446744073709551615s"), Ok(u64::MAX.wrapping_mul(1000)));
}

#[test]
fn formats_in_the_largest_fitting_unit() {
    assert_eq!(format_duration(0), "0s");
    assert_eq!(format_duration(999), "0s");
    assert_eq!(format_duration(30_000), "30s");
    assert_eq!(format_duration(59_999), "59s");
    assert_eq!(format_duration(60_000), "1m");
    assert_eq!(format_duration(600_000), "10m");
    assert_eq!(format_duration(3_599_999), "59m");
    assert_eq!(format_duration(3_600_000), "1h");
    assert_eq!(format_duration(28_800_000), "8h");
    assert_eq!(format_duration(u64::MAX), "5124095576030h");
}

#[test]
fn label_parses_back_rounded_to_its_unit() {
    for ms in [0u64, 1_000, 59_000, 60_000, 90_000, 3_599_999, 3_600_000, 28_800_000, 5_400_000] {
        let label = format_duration(ms);
        let unit = if ms / 1000 < 60 {
            1_000
        } else if ms / 1000 < 3600 {
            60_000
        } else {
            3_600_000
        };
        assert_eq!(parse_duration(&label), Ok(ms / unit * unit));
    }
    assert_eq!(parse_duration(&format_duration(600_000)), Ok(600_000));
}
