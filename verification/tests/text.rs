use kators::text::bool_to_string;
use kators::text::i32_to_string;
use kators::text::push_digits;
use kators::text::str_eq;
use kators::text::str_le;
use kators::text::u64_to_string;

#[test]
fn unsigned_numbers_are_rendered_in_decimal() {
    assert_eq!(u64_to_string(0), "0");
    assert_eq!(u64_to_string(7), "7");
    assert_eq!(u64_to_string(10), "10");
    assert_eq!(u64_to_string(102400), "102400");
    assert_eq!(u64_to_string(u64::MAX), "18446744073709551615");
    for n in [1u64, 9, 11, 99, 100, 101, 1234567890] {
        assert_eq!(u64_to_string(n), n.to_string());
    }
}

#[test]
fn signed_numbers_are_rendered_in_decimal() {
    assert_eq!(i32_to_string(0), "0");
    assert_eq!(i32_to_string(9092), "9092");
    assert_eq!(i32_to_string(-1), "-1");
    assert_eq!(i32_to_string(i32::MAX), "2147483647");
    assert_eq!(i32_to_string(i32::MIN), "-2147483648");
    for n in [-100i32, -10, -9, 5, 10, 65535] {
        assert_eq!(i32_to_string(n), n.to_string());
    }
}

#[test]
fn digits_are_appended() {
    let mut s = String::from("port ");
    push_digits(&mut s, 443);
    assert_eq!(s, "port 443");
}

#[test]
fn truth_values_are_rendered_as_words() {
    assert_eq!(bool_to_string(true), "true");
    assert_eq!(bool_to_string(false), "false");
}

#[test]
fn strings_are_ordered_by_their_bytes() {
    assert!(str_le("", ""));
    assert!(str_le("", "a"));
    assert!(!str_le("a", ""));
    assert!(str_le("a", "a"));
    assert!(str_le("a", "b"));
    assert!(!str_le("b", "a"));
    assert!(str_le("a", "ab"));
    assert!(!str_le("ab", "a"));
    assert!(str_le("Z", "a"));
    assert!(str_le("host:10", "host:9"));
    assert!(str_le("z", "é"));
    let words = ["", "a", "ab", "b", "B", "kafka-1:9092", "kafka-10:9092", "тема", "topic"];
    for x in words {
        for y in words {
            assert_eq!(str_le(x, y), x <= y);
        }
    }
}

#[test]
fn strings_are_compared_for_equality() {
    assert!(str_eq("", ""));
    assert!(str_eq("clusterA", "clusterA"));
    assert!(!str_eq("clusterA", "clusterB"));
    assert!(!str_eq("cluster", "clusterA"));
    assert!(!str_eq("clusterA", "cluster"));
    assert!(str_eq("тема", "тема"));
}
