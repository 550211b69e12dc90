use processkeeper::decimal::decimal_string;

#[test]
fn single_digits() {
    assert_eq!(decimal_string(0), "0");
    assert_eq!(decimal_string(1), "1");
    assert_eq!(decimal_string(5), "5");
    assert_eq!(decimal_string(9), "9");
}

#[test]
fn several_digits() {
    assert_eq!(decimal_string(10), "10");
    assert_eq!(decimal_string(42), "42");
    assert_eq!(decimal_string(100), "100");
    assert_eq!(decimal_string(1009), "1009");
    assert_eq!(decimal_string(65535), "65535");
    assert_eq!(decimal_string(1234567890), "1234567890");
}

#[test]
fn largest_number() {
    assert_eq!(decimal_string(u32::MAX), "4294967295");
}

#[test]
fn decimal_agrees_with_the_standard_notation() {
    let mut n: u32 = 0;
    while n < 20000 {
        assert_eq!(decimal_string(n), n.to_string());
        n += 1;
    }
    let mut n: u32 = u32::MAX;
    while n > u32::MAX - 2000 {
        assert_eq!(decimal_string(n), n.to_string());
        n -= 1;
    }
}

#[test]
fn different_numbers_are_written_differently() {
    let numbers = [0u32, 1, 9, 10, 11, 19, 90, 99, 100, 101, 110, 1000, 1001, u32::MAX];
    for a in numbers {
        for b in numbers {
            assert_eq!(decimal_string(a) == decimal_string(b), a == b);
        }
    }
}
