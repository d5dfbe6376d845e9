use meals_service::records::Kind;
use meals_service::routing::{classify_segment, locate, Place, Selector, Service};

fn name(s: &str) -> Selector {
    Selector::Name(s.to_string())
}

#[test]
fn numeric_segment_is_an_id() {
    assert_eq!(classify_segment("42"), Selector::Id(42));
    assert_eq!(classify_segment("0"), Selector::Id(0));
    assert_eq!(classify_segment("007"), Selector::Id(7));
    assert_eq!(classify_segment("2147483647"), Selector::Id(i32::MAX));
}

#[test]
fn other_segments_are_names() {
    assert_eq!(classify_segment("pizza"), name("pizza"));
    assert_eq!(classify_segment(""), name(""));
    assert_eq!(classify_segment("12a"), name("12a"));
    assert_eq!(classify_segment("a12"), name("a12"));
    assert_eq!(classify_segment("-5"), name("-5"));
    assert_eq!(classify_segment("+5"), name("+5"));
    assert_eq!(classify_segment("4 2"), name("4 2"));
    assert_eq!(classify_segment("4/2"), name("4/2"));
    assert_eq!(classify_segment("cr\u{e8}me br\u{fb}l\u{e9}e"), name("cr\u{e8}me br\u{fb}l\u{e9}e"));
    assert_eq!(classify_segment("\u{664}\u{662}"), name("\u{664}\u{662}"));
}

#[test]
fn numbers_beyond_the_ids_select_nothing() {
    assert_eq!(classify_segment("2147483648"), Selector::Beyond);
    assert_eq!(classify_segment("99999999999999999999999999999999"), Selector::Beyond);
    assert_eq!(classify_segment("00000000000000000000000000000042"), Selector::Id(42));
}

#[test]
fn paths_of_the_meals_service() {
    assert_eq!(locate(Service::Meals, "/"), Place::Root);
    assert_eq!(locate(Service::Meals, "/dishes"), Place::Collection(Kind::Dish));
    assert_eq!(locate(Service::Meals, "/meals"), Place::Collection(Kind::Meal));
    assert_eq!(locate(Service::Meals, "/dishes/42"), Place::Item(Kind::Dish, Selector::Id(42)));
    assert_eq!(locate(Service::Meals, "/dishes/pizza"), Place::Item(Kind::Dish, name("pizza")));
    assert_eq!(locate(Service::Meals, "/meals/7"), Place::Item(Kind::Meal, Selector::Id(7)));
    assert_eq!(locate(Service::Meals, "/meals/brunch"), Place::Item(Kind::Meal, name("brunch")));
    assert_eq!(locate(Service::Meals, "/diets"), Place::Nowhere);
    assert_eq!(locate(Service::Meals, "/diets/1"), Place::Nowhere);
}

#[test]
fn paths_of_the_diets_service() {
    assert_eq!(locate(Service::Diets, "/"), Place::Root);
    assert_eq!(locate(Service::Diets, "/diets"), Place::Collection(Kind::Diet));
    assert_eq!(locate(Service::Diets, "/diets/3"), Place::Item(Kind::Diet, Selector::Id(3)));
    assert_eq!(locate(Service::Diets, "/diets/Keto"), Place::Item(Kind::Diet, name("Keto")));
    assert_eq!(locate(Service::Diets, "/dishes"), Place::Nowhere);
    assert_eq!(locate(Service::Diets, "/meals/1"), Place::Nowhere);
}

#[test]
fn paths_that_name_nothing() {
    assert_eq!(locate(Service::Meals, ""), Place::Nowhere);
    assert_eq!(locate(Service::Meals, "dishes"), Place::Nowhere);
    assert_eq!(locate(Service::Meals, "/dish"), Place::Nowhere);
    assert_eq!(locate(Service::Meals, "/dishesx"), Place::Nowhere);
    assert_eq!(locate(Service::Meals, "/dishes42"), Place::Nowhere);
    assert_eq!(locate(Service::Meals, "//dishes"), Place::Nowhere);
    assert_eq!(locate(Service::Meals, "/Dishes"), Place::Nowhere);
    assert_eq!(locate(Service::Meals, "/mealsy/1"), Place::Nowhere);
}

#[test]
fn the_rest_of_an_item_path_is_one_segment() {
    assert_eq!(locate(Service::Meals, "/dishes/"), Place::Item(Kind::Dish, name("")));
    assert_eq!(locate(Service::Meals, "/dishes/a/b"), Place::Item(Kind::Dish, name("a/b")));
    assert_eq!(locate(Service::Meals, "/dishes/42/"), Place::Item(Kind::Dish, name("42/")));
    assert_eq!(
        locate(Service::Meals, "/meals/cr\u{e8}me br\u{fb}l\u{e9}e"),
        Place::Item(Kind::Meal, name("cr\u{e8}me br\u{fb}l\u{e9}e"))
    );
    assert_eq!(
        locate(Service::Meals, "/dishes/2147483648"),
        Place::Item(Kind::Dish, Selector::Beyond)
    );
}
