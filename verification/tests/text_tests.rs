use tracker_lib::text::{
    after_last_exec, before_first_exec, contains_exec, i64_to_string, parse_i64, parse_usize,
    remove_all_exec, str_eq, trim_end_exec, u64_to_string, usize_to_string,
};

#[test]
fn parse_usize_reads_digits() {
    assert_eq!(parse_usize("12"), Ok(12));
    assert_eq!(parse_usize("+7"), Ok(7));
    assert_eq!(parse_usize("0007"), Ok(7));
}

#[test]
fn parse_usize_errors_carry_std_messages() {
    assert_eq!(parse_usize("").unwrap_err(), "cannot parse integer from empty string");
    assert_eq!(parse_usize("+").unwrap_err(), "invalid digit found in string");
    assert_eq!(parse_usize("-5").unwrap_err(), "invalid digit found in string");
    assert_eq!(parse_usize("12a").unwrap_err(), "invalid digit found in string");
    let too_big = format!("{}0", usize::MAX);
    assert_eq!(parse_usize(&too_big).unwrap_err(), "number too large to fit in target type");
}

#[test]
fn parse_usize_agrees_with_std() {
    for s in ["", "+", "-", "-0", "1", "+1", "99", "1x", "x1", " 1", "18446744073709551615", "18446744073709551616", "++1"] {
        let ours = parse_usize(s);
        let std = s.parse::<usize>().map_err(|e| e.to_string());
        assert_eq!(ours, std, "input {s:?}");
    }
}

#[test]
fn decimal_formatting() {
    assert_eq!(usize_to_string(0), "0");
    assert_eq!(usize_to_string(1234), "1234");
    assert_eq!(u64_to_string(u64::MAX), u64::MAX.to_string());
    assert_eq!(i64_to_string(-5), "-5");
    assert_eq!(i64_to_string(i64::MIN), i64::MIN.to_string());
    assert_eq!(i64_to_string(42), "42");
}

#[test]
fn decimal_reads_back() {
    for n in [0usize, 7, 10, 99, 100, 123456789] {
        assert_eq!(parse_usize(&usize_to_string(n)), Ok(n));
    }
}

#[test]
fn parse_i64_agrees_with_std() {
    for s in ["", "+", "-", "-0", "1", "+1", "-42", "9223372036854775807", "9223372036854775808", "-9223372036854775808", "-9223372036854775809", "1.5", "rss"] {
        assert_eq!(parse_i64(s), s.parse::<i64>().ok(), "input {s:?}");
    }
}

#[test]
fn remove_all_matches_replace() {
    for (s, p) in [("aXXbXX", "XX"), ("XXX", "XX"), ("abc", ""), ("", "a"), ("/?c=1_2", "/?c="), ("\n\t\tTitle\n\t\t\t", "\n\t\t\t")] {
        assert_eq!(remove_all_exec(s, p), s.replace(p, ""), "input {s:?} {p:?}");
    }
}

#[test]
fn contains_and_eq() {
    assert!(contains_exec("User - Trusted", "Trusted"));
    assert!(!contains_exec("User", "Trusted"));
    assert!(contains_exec("abc", ""));
    assert!(str_eq("abc", "abc"));
    assert!(!str_eq("abc", "abd"));
}

#[test]
fn trim_and_split() {
    assert_eq!(trim_end_exec("name \u{a0}\t"), "name");
    assert_eq!(trim_end_exec("  a b  "), "  a b");
    assert_eq!(after_last_exec("/user/x/abc.png?v=2", '/'), "abc.png?v=2");
    assert_eq!(after_last_exec("plain", '/'), "plain");
    assert_eq!(before_first_exec("abc.png?v=2", '?'), "abc.png");
    assert_eq!(before_first_exec("abc.png", '?'), "abc.png");
}
