use basics::fizzbuzz::{fizzbuzz, fizzbuzz_to, is_divisible_by, Word};

#[test]
fn divisibility() {
    assert!(is_divisible_by(15, 5));
    assert!(is_divisible_by(0, 7));
    assert!(!is_divisible_by(16, 5));
}

#[test]
fn nothing_divides_by_zero() {
    assert!(!is_divisible_by(0, 0));
    assert!(!is_divisible_by(10, 0));
}

#[test]
fn words_for_single_numbers() {
    assert_eq!(fizzbuzz(15), Word::FizzBuzz);
    assert_eq!(fizzbuzz(30), Word::FizzBuzz);
    assert_eq!(fizzbuzz(0), Word::FizzBuzz);
    assert_eq!(fizzbuzz(9), Word::Fizz);
    assert_eq!(fizzbuzz(10), Word::Buzz);
    assert_eq!(fizzbuzz(7), Word::Number(7));
    assert_eq!(fizzbuzz(u32::MAX), Word::FizzBuzz);
}

#[test]
fn words_up_to_fifteen() {
    let expected = vec![
        Word::Number(1),
        Word::Number(2),
        Word::Fizz,
        Word::Number(4),
        Word::Buzz,
        Word::Fizz,
        Word::Number(7),
        Word::Number(8),
        Word::Fizz,
        Word::Buzz,
        Word::Number(11),
        Word::Fizz,
        Word::Number(13),
        Word::Number(14),
        Word::FizzBuzz,
    ];
    assert_eq!(fizzbuzz_to(15), expected);
}

#[test]
fn words_up_to_zero_is_empty() {
    assert!(fizzbuzz_to(0).is_empty());
}

#[test]
fn words_up_to_twenty() {
    let words = fizzbuzz_to(20);
    assert_eq!(words.len(), 20);
    for (i, w) in words.iter().enumerate() {
        assert_eq!(*w, fizzbuzz(i as u32 + 1));
    }
}
