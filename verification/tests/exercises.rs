//! Tests for the exercise program: temperature conversion, the
//! sequence generator, the verse printer's lines, and the end-to-end
//! demonstration output.

use book_notes::carol::{carol_items, carol_lines};
use book_notes::decimal::decimal_string;
use book_notes::fibonacci::nth_fib;
use book_notes::program::program_lines;
use book_notes::temperature::{celsius_to_fahrenheit, fahrenheit_to_celsius};

#[test]
fn celsius_to_fahrenheit_examples() {
    assert_eq!(celsius_to_fahrenheit(44), 111);
    assert_eq!(celsius_to_fahrenheit(0), 32);
    assert_eq!(celsius_to_fahrenheit(100), 212);
    assert_eq!(celsius_to_fahrenheit(-40), -40);
}

#[test]
fn celsius_to_fahrenheit_truncates_toward_zero() {
    // 9/5 truncates to 1, not 2
    assert_eq!(celsius_to_fahrenheit(1), 33);
    // -9/5 truncates to -1, where floor division would give -2
    assert_eq!(celsius_to_fahrenheit(-1), 31);
}

#[test]
fn fahrenheit_to_celsius_examples() {
    assert_eq!(fahrenheit_to_celsius(91), 32);
    assert_eq!(fahrenheit_to_celsius(44), 6);
    assert_eq!(fahrenheit_to_celsius(32), 0);
    assert_eq!(fahrenheit_to_celsius(-40), -40);
}

#[test]
fn fahrenheit_to_celsius_truncates_toward_zero() {
    // (0 - 32) * 5 = -160; -160/9 truncates to -17, floor would be -18
    assert_eq!(fahrenheit_to_celsius(0), -17);
}

#[test]
fn round_trip_loses_precision() {
    // Each direction truncates independently, so the round trip is not
    // exact: 91 -> 32 -> 89.
    let cold: i32 = fahrenheit_to_celsius(91);
    assert_eq!(cold, 32);
    let back: i32 = celsius_to_fahrenheit(cold);
    assert_eq!(back, 89);
    assert_ne!(back, 91);
}

#[test]
fn conversions_are_repeatable() {
    assert_eq!(celsius_to_fahrenheit(44), celsius_to_fahrenheit(44));
    assert_eq!(fahrenheit_to_celsius(91), fahrenheit_to_celsius(91));
    assert_eq!(nth_fib(10), nth_fib(10));
}

#[test]
fn nth_fib_boundary_positions_collapse() {
    assert_eq!(nth_fib(0), 1);
    assert_eq!(nth_fib(1), 1);
    assert_eq!(nth_fib(2), 1);
}

#[test]
fn nth_fib_later_positions() {
    assert_eq!(nth_fib(3), 1);
    assert_eq!(nth_fib(4), 2);
    assert_eq!(nth_fib(5), 3);
    assert_eq!(nth_fib(10), 34);
}

#[test]
fn nth_fib_follows_recurrence() {
    let mut n: u32 = 4;
    while n <= 20 {
        assert_eq!(nth_fib(n), nth_fib(n - 1) + nth_fib(n - 2));
        n += 1;
    }
}

#[test]
fn nth_fib_largest_position_that_fits() {
    assert_eq!(nth_fib(48), 2_971_215_073);
}

#[test]
fn decimal_rendering() {
    assert_eq!(decimal_string(0).as_str(), "0");
    assert_eq!(decimal_string(7).as_str(), "7");
    assert_eq!(decimal_string(10).as_str(), "10");
    assert_eq!(decimal_string(111).as_str(), "111");
    assert_eq!(decimal_string(4_294_967_295).as_str(), "4294967295");
}

#[test]
fn catalogue_has_twelve_fixed_entries() {
    let items: Vec<&'static str> = carol_items();
    let expected: Vec<&'static str> = vec![
        "A partridge in a pear tree",
        "Two turtle doves",
        "Three french hens",
        "Four calling birds",
        "Five golden rings",
        "Six geese a-laying",
        "Seven swans a-swimming",
        "Eight maids a-milking",
        "Nine ladies dancing",
        "Ten lords a-leaping",
        "Eleven pipers piping",
        "Twelve drummers drumming",
    ];
    assert_eq!(items, expected);
}

#[test]
fn carol_produces_eleven_verses() {
    let lines: Vec<String> = carol_lines();
    // 11 announcements plus 2 + 3 + ... + 12 gift lines
    assert_eq!(lines.len(), 88);
    let announcements: Vec<&String> =
        lines.iter().filter(|l| l.starts_with("On the ")).collect();
    assert_eq!(announcements.len(), 11);
}

#[test]
fn carol_first_verse() {
    let lines: Vec<String> = carol_lines();
    assert_eq!(
        lines[0],
        "On the 1th day of Christmas, my true love gave to me"
    );
    assert_eq!(lines[1], "\"Two turtle doves\"");
    assert_eq!(lines[2], "\"A partridge in a pear tree\"");
    assert_eq!(
        lines[3],
        "On the 2th day of Christmas, my true love gave to me"
    );
}

#[test]
fn carol_gift_lines_descend() {
    let lines: Vec<String> = carol_lines();
    let items: Vec<&'static str> = carol_items();
    let mut at: usize = 0;
    let mut day: usize = 1;
    while day < 12 {
        assert_eq!(
            lines[at],
            format!("On the {}th day of Christmas, my true love gave to me", day)
        );
        at += 1;
        let mut index: usize = day;
        loop {
            assert_eq!(lines[at], format!("{:?}", items[index]));
            at += 1;
            if index == 0 {
                break;
            }
            index -= 1;
        }
        day += 1;
    }
    assert_eq!(at, lines.len());
}

#[test]
fn carol_never_reaches_day_twelve() {
    let lines: Vec<String> = carol_lines();
    assert!(!lines
        .iter()
        .any(|l| l.starts_with("On the 12th day")));
    // the twelfth gift still shows up once, in the eleventh verse
    let drummer_lines: Vec<&String> = lines
        .iter()
        .filter(|l| l.contains("Twelve drummers drumming"))
        .collect();
    assert_eq!(drummer_lines.len(), 1);
}

#[test]
fn program_output_end_to_end() {
    let lines: Vec<String> = program_lines();
    assert_eq!(lines[0], "44c to f: 111");
    assert_eq!(lines[1], "91f to c: 32");
    assert_eq!(lines[2], "The 10th fibonacci number is: 34");
    let carol: Vec<String> = carol_lines();
    assert_eq!(lines.len(), 3 + carol.len());
    let mut i: usize = 0;
    while i < carol.len() {
        assert_eq!(lines[3 + i], carol[i]);
        i += 1;
    }
}
