use cef::decimal::decimal_string;

#[test]
fn renders_like_display() {
    for n in [0, 1, 9, 10, 42, 100, 2147483647, -1, -3, -10, -105, -2147483648i32] {
        assert_eq!(decimal_string(n), n.to_string());
    }
}

#[test]
fn renders_every_small_number() {
    for n in -1000..=1000i32 {
        assert_eq!(decimal_string(n), format!("{}", n));
    }
}
