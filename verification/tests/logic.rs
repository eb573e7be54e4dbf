use tutorial_helpers::boxes::ClosedBox;
use tutorial_helpers::boxes::OpenBox;
use tutorial_helpers::decimal::decimal_string;
use tutorial_helpers::fizzbuzz::fizzbuzz;
use tutorial_helpers::fizzbuzz::fizzbuzz_to;
use tutorial_helpers::fizzbuzz::is_divisible_by;
use tutorial_helpers::fizzbuzz::FizzBuzz;
use tutorial_helpers::list::List;
use tutorial_helpers::series::is_odd;
use tutorial_helpers::series::square_all;
use tutorial_helpers::series::sum_of_squared_odd_numbers;

#[test]
fn decimal_renders_digits() {
    assert_eq!(decimal_string(0), "0");
    assert_eq!(decimal_string(7), "7");
    assert_eq!(decimal_string(10), "10");
    assert_eq!(decimal_string(1000), "1000");
    assert_eq!(decimal_string(u32::MAX), "4294967295");
}

#[test]
fn divisibility_treats_zero_as_divisible_by_nothing() {
    assert!(!is_divisible_by(0, 3));
    assert!(!is_divisible_by(0, 5));
    assert!(is_divisible_by(6, 3));
    assert!(!is_divisible_by(7, 3));
}

#[test]
fn fizzbuzz_classifies_counts() {
    assert_eq!(fizzbuzz(1), FizzBuzz::Number(1));
    assert_eq!(fizzbuzz(3), FizzBuzz::Fizz);
    assert_eq!(fizzbuzz(5), FizzBuzz::Buzz);
    assert_eq!(fizzbuzz(15), FizzBuzz::FizzBuzz);
    assert_eq!(fizzbuzz(98), FizzBuzz::Number(98));
    assert_eq!(fizzbuzz(100), FizzBuzz::Buzz);
    assert_eq!(fizzbuzz(0), FizzBuzz::Number(0));
}

#[test]
fn fizzbuzz_words_have_text() {
    assert_eq!(fizzbuzz(3).text(), "Fizz");
    assert_eq!(fizzbuzz(10).text(), "Buzz");
    assert_eq!(fizzbuzz(45).text(), "FizzBuzz");
    assert_eq!(fizzbuzz(98).text(), "98");
}

#[test]
fn fizzbuzz_to_covers_the_range_in_order() {
    let words = fizzbuzz_to(15);
    assert_eq!(words.len(), 15);
    assert_eq!(words[0], FizzBuzz::Number(1));
    assert_eq!(words[2], FizzBuzz::Fizz);
    assert_eq!(words[4], FizzBuzz::Buzz);
    assert_eq!(words[14], FizzBuzz::FizzBuzz);
    assert_eq!(fizzbuzz_to(0).len(), 0);
}

#[test]
fn list_prepend_grows_the_front() {
    let mut list = List::new();
    for x in 1..11u32 {
        list = list.prepend(x);
    }
    assert_eq!(list.len(), 10);
    assert_eq!(list.stringify(), "10, 9, 8, 7, 6, 5, 4, 3, 2, 1, Nil");
}

#[test]
fn empty_list_stringifies_to_nil() {
    let list = List::new();
    assert_eq!(list.len(), 0);
    assert_eq!(list.stringify(), "Nil");
}

#[test]
fn sum_of_squared_odds_matches_known_values() {
    assert_eq!(sum_of_squared_odd_numbers(1000), 5456);
    assert_eq!(sum_of_squared_odd_numbers(10), 10);
    assert_eq!(sum_of_squared_odd_numbers(2), 1);
    assert_eq!(sum_of_squared_odd_numbers(1), 0);
    assert_eq!(sum_of_squared_odd_numbers(0), 0);
}

#[test]
fn odd_numbers_are_odd() {
    assert!(is_odd(1));
    assert!(!is_odd(2));
    assert!(!is_odd(0));
}

#[test]
fn squaring_in_place_squares_every_element() {
    let mut numbers = vec![2u64, 425, 12, 235, 568, 234, 893, 257, 2456];
    square_all(&mut numbers);
    assert_eq!(
        numbers,
        vec![4u64, 180625, 144, 55225, 322624, 54756, 797449, 66049, 6031936]
    );
}

#[test]
fn squaring_an_empty_vector_does_nothing() {
    let mut numbers: Vec<u64> = Vec::new();
    square_all(&mut numbers);
    assert!(numbers.is_empty());
}

#[test]
fn boxes_hold_their_contents() {
    let open_box = OpenBox { contents: "public information" };
    assert_eq!(open_box.contents, "public information");
    let _closed_box = ClosedBox::new("classified information");
    let _numbers = ClosedBox::new(42u32);
}
