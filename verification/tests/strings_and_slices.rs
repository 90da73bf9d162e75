use rust_basics::lifetimes::{longest_iteraiton_1, longest_iteraiton_2, ImportantExcerpt};
use rust_basics::ownership::{
    calculate_length, gives_ownership, modify_mutable_reference, modify_reference,
    takes_and_gives_back,
};
use rust_basics::slices::{first_word, first_word_optimized};

#[test]
fn first_word_finds_the_first_space() {
    let s = String::from("Hello World");
    assert_eq!(first_word(&s), 5);
}

#[test]
fn first_word_of_a_single_word_is_its_length() {
    let s = String::from("Hello");
    assert_eq!(first_word(&s), 5);
}

#[test]
fn first_word_of_an_empty_string() {
    let s = String::new();
    assert_eq!(first_word(&s), 0);
}

#[test]
fn first_word_optimized_returns_the_slice() {
    let s = String::from("Hello World");
    assert_eq!(first_word_optimized(&s), "Hello");
}

#[test]
fn first_word_optimized_counts_in_bytes() {
    let s = String::from("h\u{e9}llo w\u{f6}rld");
    assert_eq!(first_word(&s), 6);
    assert_eq!(first_word_optimized(&s), "h\u{e9}llo");
}

#[test]
fn longest_picks_the_longer_slice() {
    let string1 = String::from("abcd");
    let string2 = "xyz";
    assert_eq!(longest_iteraiton_1(string1.as_str(), string2), "abcd");
    assert_eq!(longest_iteraiton_2(string1.as_str(), string2), "abcd");
}

#[test]
fn longest_prefers_the_second_on_a_tie() {
    assert_eq!(longest_iteraiton_2("abc", "xyz"), "xyz");
}

#[test]
fn excerpt_level_is_three() {
    let novel = String::from("Call me Farhan. Some years ago...");
    let first_sentence = novel.split('.').next().expect("Could not find a '.'");
    let excerpt = ImportantExcerpt {
        part: first_sentence,
    };
    assert_eq!(excerpt.level(), 3);
    assert_eq!(excerpt.part, "Call me Farhan");
}

#[test]
fn ownership_round_trips() {
    let s1 = gives_ownership();
    assert_eq!(s1, "yours");
    let s2 = String::from("Hello");
    let s3 = takes_and_gives_back(s2);
    assert_eq!(s3, "Hello");
}

#[test]
fn length_through_a_reference() {
    let s = String::from("Hello");
    assert_eq!(calculate_length(&s), 5);
    modify_reference(&s);
    assert_eq!(s, "Hello");
}

#[test]
fn modifying_through_a_mutable_reference() {
    let mut s = String::from("Hello");
    modify_mutable_reference(&mut s);
    assert_eq!(s, "Hello, World");
}
