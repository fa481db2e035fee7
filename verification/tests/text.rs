use mpv_wallpaper::text::{append_decimal, decimal_string};

#[test]
fn decimal_of_small_numbers() {
    assert_eq!(decimal_string(0), "0");
    assert_eq!(decimal_string(7), "7");
    assert_eq!(decimal_string(42), "42");
    assert_eq!(decimal_string(1000), "1000");
}

#[test]
fn decimal_of_negative_numbers() {
    assert_eq!(decimal_string(-5), "-5");
    assert_eq!(decimal_string(-1094995529), "-1094995529");
}

#[test]
fn decimal_of_extremes() {
    assert_eq!(decimal_string(i64::MIN), i64::MIN.to_string());
    assert_eq!(decimal_string(i64::MAX), i64::MAX.to_string());
}

#[test]
fn append_keeps_prefix() {
    let mut s = String::from("code=");
    append_decimal(&mut s, -22);
    assert_eq!(s, "code=-22");
}
