use meals_service::errors::ApiError;
use meals_service::meals::diet_client::{get_diet_by_name, DietResponse};
use meals_service::meals::diet_filter::{filter_meals, meal_within};
use meals_service::meals::models::{Diet, Meal};

fn keto() -> Diet {
    Diet { name: "Keto".to_string(), cal: 500_000, sodium: 1_000_000, sugar: 20_000 }
}

fn meal(id: i32, cal: Option<i64>, sodium: Option<i64>, sugar: Option<i64>) -> Meal {
    Meal {
        id,
        name: format!("meal {}", id),
        appetizer: Some(1),
        main: Some(2),
        dessert: Some(3),
        cal,
        sodium,
        sugar,
    }
}

#[test]
fn keto_admits_only_meals_within_all_bounds() {
    let meals = vec![
        meal(1, Some(500_000), Some(1_000_000), Some(20_000)),
        meal(2, Some(500_001), Some(0), Some(0)),
        meal(3, Some(0), Some(1_000_001), Some(0)),
        meal(4, Some(0), Some(0), Some(20_001)),
        meal(5, Some(499_999), Some(10), Some(10)),
        meal(6, Some(-1), Some(-1), Some(-1)),
    ];
    let kept = filter_meals(meals, &keto());
    let ids: Vec<i32> = kept.iter().map(|m| m.id).collect();
    assert_eq!(ids, vec![1, 5, 6]);
    for m in &kept {
        assert!(m.cal.unwrap() <= 500_000);
        assert!(m.sodium.unwrap() <= 1_000_000);
        assert!(m.sugar.unwrap() <= 20_000);
    }
    assert_eq!(kept[0], meal(1, Some(500_000), Some(1_000_000), Some(20_000)));
}

#[test]
fn a_meal_missing_an_amount_is_left_out() {
    let meals = vec![
        meal(1, None, Some(0), Some(0)),
        meal(2, Some(0), None, Some(0)),
        meal(3, Some(0), Some(0), None),
        meal(4, None, None, None),
        meal(5, Some(0), Some(0), Some(0)),
    ];
    let kept = filter_meals(meals, &keto());
    assert_eq!(kept, vec![meal(5, Some(0), Some(0), Some(0))]);
}

#[test]
fn filtering_nothing_gives_nothing() {
    assert_eq!(filter_meals(Vec::new(), &keto()), Vec::new());
}

#[test]
fn within_compares_each_bound() {
    assert!(meal_within(&meal(1, Some(500_000), Some(0), Some(0)), &keto()));
    assert!(!meal_within(&meal(1, Some(500_001), Some(0), Some(0)), &keto()));
    assert!(!meal_within(&meal(1, None, Some(0), Some(0)), &keto()));
}

#[test]
fn diet_found() {
    let response = DietResponse::Answered { status: 200, diet: Some(keto()) };
    assert_eq!(get_diet_by_name(response), Ok(keto()));
}

#[test]
fn diet_not_found_is_told_from_unavailable() {
    let missing = DietResponse::Answered { status: 404, diet: None };
    assert_eq!(get_diet_by_name(missing), Err(ApiError::DietNotFound));
    let missing_with_body = DietResponse::Answered { status: 404, diet: Some(keto()) };
    assert_eq!(get_diet_by_name(missing_with_body), Err(ApiError::DietNotFound));
    assert_eq!(
        get_diet_by_name(DietResponse::Unreachable),
        Err(ApiError::RemoteServiceUnavailable)
    );
    let broken = DietResponse::Answered { status: 500, diet: None };
    assert_eq!(get_diet_by_name(broken), Err(ApiError::RemoteServiceUnavailable));
    let unreadable = DietResponse::Answered { status: 200, diet: None };
    assert_eq!(get_diet_by_name(unreadable), Err(ApiError::RemoteServiceUnavailable));
}
