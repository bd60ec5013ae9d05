use shit::decimal::{parse_i32, parse_u16, parse_usize};

fn chars(s: &str) -> Vec<char> {
    s.chars().collect()
}

fn u16_of(s: &str) -> Option<u16> {
    let v = chars(s);
    parse_u16(&v, 0, v.len())
}

fn i32_of(s: &str) -> Option<i32> {
    let v = chars(s);
    parse_i32(&v, 0, v.len())
}

#[test]
fn u16_matches_std() {
    for s in ["0", "8080", "65535", "65536", "+1", "-1", "", "+", "12a", "007", "99999999999999999999"] {
        assert_eq!(u16_of(s), s.parse::<u16>().ok(), "input {s:?}");
    }
}

#[test]
fn i32_matches_std() {
    for s in ["0", "-0", "1", "-2147483648", "2147483647", "2147483648", "-2147483649", "+5", "--1", "-", "1 "] {
        assert_eq!(i32_of(s), s.parse::<i32>().ok(), "input {s:?}");
    }
}

#[test]
fn usize_matches_std() {
    for s in ["0", "3", "18446744073709551615", "18446744073709551616", "x"] {
        let v = chars(s);
        assert_eq!(parse_usize(&v, 0, v.len()), s.parse::<usize>().ok(), "input {s:?}");
    }
}

#[test]
fn parse_within_bounds() {
    let v = chars("port=8080;");
    assert_eq!(parse_u16(&v, 5, 9), Some(8080));
}
