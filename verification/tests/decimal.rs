use dirst::decimal::decimal_string;

#[test]
fn decimal_of_small_numbers() {
    assert_eq!(decimal_string(0), "0");
    assert_eq!(decimal_string(7), "7");
    assert_eq!(decimal_string(9), "9");
}

#[test]
fn decimal_of_multi_digit_numbers() {
    assert_eq!(decimal_string(10), "10");
    assert_eq!(decimal_string(101), "101");
    assert_eq!(decimal_string(12345), "12345");
    assert_eq!(decimal_string(usize::MAX), usize::MAX.to_string());
}

#[test]
fn decimal_reads_back() {
    for n in [0usize, 1, 9, 10, 99, 100, 4096, 65535, 1_000_000_007] {
        let s = decimal_string(n);
        assert_eq!(s.parse::<usize>().unwrap(), n);
        assert!(n == 0 || !s.starts_with('0'));
    }
}
