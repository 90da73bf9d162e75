use rust_basics::restaurant;
use rust_basics::restaurant_updated;

#[test]
fn a_meal_at_the_first_restaurant() {
    restaurant::eat_at_restaurant();
    restaurant::front_of_house::hosting::add_to_waitlist();
    let mut meal = restaurant::back_of_house::Breakfast::summer("Rye");
    assert_eq!(meal.toast, "Rye");
    meal.toast = String::from("wheat");
    assert_eq!(meal.toast, "wheat");
    let side = restaurant::Appetizer::Soup(String::from("Chicken Corn Soup"));
    match side {
        restaurant::Appetizer::Soup(kind) => assert_eq!(kind, "Chicken Corn Soup"),
        restaurant::Appetizer::Salad => panic!("ordered soup, got salad"),
    }
}

#[test]
fn a_meal_at_the_updated_restaurant() {
    restaurant_updated::eat_at_restaurant();
    restaurant_updated::serve_customer();
    let breakfast = restaurant_updated::prepare_breakfast();
    assert_eq!(breakfast.toast, "Wholemeal");
    let summer = restaurant_updated::meals::Breakfast::summer("Sourdough");
    assert_eq!(summer.toast, "Sourdough");
    let salad = restaurant_updated::meals::Appetizer::Salad;
    assert!(matches!(
        salad,
        rust_basics::restaurant_updated::meals::Appetizer::Salad
    ));
}
