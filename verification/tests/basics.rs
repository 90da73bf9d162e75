use rust_basics::arithmetic::{add, add_two, five, plus_one};
use rust_basics::greetings::greeting;

#[test]
fn it_works() {
    let result = add(2, 2);
    assert_eq!(result, 4);
}

#[test]
fn lib_it_adds_two() {
    assert_eq!(4, add_two(2));
}

#[test]
fn integration_test_it_adds_two() {
    assert_eq!(4, add_two(2))
}

#[test]
fn greeting_contains_name() {
    let result = greeting("Farhan");
    assert!(
        result.contains("Farhan"),
        "Greeting did not contain name, value was `{}`",
        result
    );
}

#[test]
fn greeting_exact_text() {
    assert_eq!(greeting("Farhan"), "Hello Farhan!");
}

#[test]
fn five_and_plus_one() {
    let x = five();
    assert_eq!(x, 5);
    assert_eq!(plus_one(x), 6);
}
