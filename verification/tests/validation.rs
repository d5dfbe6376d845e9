use meals_service::diets::models::{NewDiet, ReqDiet};
use meals_service::errors::ApiError;
use meals_service::meals::models::{NewMeal, ReqDish, ReqMeal};
use meals_service::validation::{
    check_content_type, validate_diet, validate_dish, validate_meal, BodyBuffer, MAX_BODY_BYTES,
};

#[test]
fn json_content_type_is_accepted() {
    assert_eq!(check_content_type(Some("application/json")), Ok(()));
}

#[test]
fn missing_content_type_is_refused() {
    assert_eq!(check_content_type(None), Err(ApiError::ContentTypeError));
}

#[test]
fn other_content_types_are_refused() {
    assert_eq!(check_content_type(Some("text/plain")), Err(ApiError::ContentTypeError));
    assert_eq!(check_content_type(Some("")), Err(ApiError::ContentTypeError));
    assert_eq!(
        check_content_type(Some("application/json; charset=utf-8")),
        Err(ApiError::ContentTypeError)
    );
    assert_eq!(check_content_type(Some("Application/JSON")), Err(ApiError::ContentTypeError));
}

#[test]
fn the_limit_is_262144_bytes() {
    assert_eq!(MAX_BODY_BYTES, 262_144);
}

#[test]
fn buffer_appends_chunks_in_order() {
    let buffer = BodyBuffer::new();
    assert_eq!(buffer.len(), 0);
    let buffer = buffer.accept(b"{\"name\":").unwrap();
    let buffer = buffer.accept(b"\"pizza\"}").unwrap();
    assert_eq!(buffer.len(), 16);
    assert_eq!(buffer.into_bytes(), b"{\"name\":\"pizza\"}".to_vec());
}

#[test]
fn buffer_takes_exactly_the_limit() {
    let chunk = vec![b'a'; MAX_BODY_BYTES];
    let buffer = BodyBuffer::new().accept(&chunk).unwrap();
    assert_eq!(buffer.len(), MAX_BODY_BYTES);
    let buffer = buffer.accept(b"").unwrap();
    assert_eq!(buffer.len(), MAX_BODY_BYTES);
}

#[test]
fn buffer_refuses_one_byte_beyond_the_limit() {
    let chunk = vec![b'a'; MAX_BODY_BYTES];
    let buffer = BodyBuffer::new().accept(&chunk).unwrap();
    assert_eq!(buffer.accept(b"b"), Err(ApiError::PayloadTooLarge));
    let big = vec![b'a'; MAX_BODY_BYTES + 1];
    assert_eq!(BodyBuffer::new().accept(&big), Err(ApiError::PayloadTooLarge));
}

#[test]
fn dish_needs_a_name() {
    assert_eq!(validate_dish(ReqDish { name: None }), Err(ApiError::MissingField));
    assert_eq!(validate_dish(ReqDish { name: Some(String::new()) }), Err(ApiError::MissingField));
    assert_eq!(
        validate_dish(ReqDish { name: Some("pizza".to_string()) }),
        Ok("pizza".to_string())
    );
}

fn req_meal(name: Option<&str>, a: Option<i32>, m: Option<i32>, d: Option<i32>) -> ReqMeal {
    ReqMeal { name: name.map(|n| n.to_string()), appetizer: a, main: m, dessert: d }
}

#[test]
fn meal_needs_every_field() {
    assert_eq!(
        validate_meal(req_meal(Some("lunch"), Some(1), Some(2), Some(3))),
        Ok(NewMeal { name: "lunch".to_string(), appetizer: 1, main: 2, dessert: 3 })
    );
    assert_eq!(
        validate_meal(req_meal(None, Some(1), Some(2), Some(3))),
        Err(ApiError::MissingField)
    );
    assert_eq!(
        validate_meal(req_meal(Some(""), Some(1), Some(2), Some(3))),
        Err(ApiError::MissingField)
    );
    assert_eq!(
        validate_meal(req_meal(Some("lunch"), None, Some(2), Some(3))),
        Err(ApiError::MissingField)
    );
    assert_eq!(
        validate_meal(req_meal(Some("lunch"), Some(1), None, Some(3))),
        Err(ApiError::MissingField)
    );
    assert_eq!(
        validate_meal(req_meal(Some("lunch"), Some(1), Some(2), None)),
        Err(ApiError::MissingField)
    );
}

#[test]
fn diet_needs_every_field() {
    let full = ReqDiet {
        name: Some("Keto".to_string()),
        cal: Some(500_000),
        sodium: Some(1_000),
        sugar: Some(2_000),
    };
    assert_eq!(
        validate_diet(full),
        Ok(NewDiet { name: "Keto".to_string(), cal: 500_000, sodium: 1_000, sugar: 2_000 })
    );
    let no_cal =
        ReqDiet { name: Some("Keto".to_string()), cal: None, sodium: Some(1), sugar: Some(2) };
    assert_eq!(validate_diet(no_cal), Err(ApiError::MissingField));
    let no_sodium =
        ReqDiet { name: Some("Keto".to_string()), cal: Some(1), sodium: None, sugar: Some(2) };
    assert_eq!(validate_diet(no_sodium), Err(ApiError::MissingField));
    let no_sugar =
        ReqDiet { name: Some("Keto".to_string()), cal: Some(1), sodium: Some(1), sugar: None };
    assert_eq!(validate_diet(no_sugar), Err(ApiError::MissingField));
    let empty = ReqDiet { name: Some(String::new()), cal: Some(1), sodium: Some(1), sugar: Some(2) };
    assert_eq!(validate_diet(empty), Err(ApiError::MissingField));
    let unnamed = ReqDiet { name: None, cal: Some(1), sodium: Some(1), sugar: Some(2) };
    assert_eq!(validate_diet(unnamed), Err(ApiError::MissingField));
}
