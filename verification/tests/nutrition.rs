use meals_service::errors::ApiError;
use meals_service::meals::models::NewDish;
use meals_service::meals::ninjas_api::{
    aggregate, get_nutrition_info, status_is_success, total_of, LookupResponse, Nutrient,
    NutritionInfo,
};

fn facts(name: &str, calories: i64) -> NutritionInfo {
    NutritionInfo {
        name: name.to_string(),
        calories,
        serving_size_g: 100_000,
        fat_total_g: 1_000,
        fat_saturated_g: 2_000,
        protein_g: 3_000,
        sodium_mg: 4_000,
        potassium_mg: 5_000,
        cholesterol_mg: 6_000,
        carbohydrates_total_g: 7_000,
        fiber_g: 8_000,
        sugar_g: 9_000,
    }
}

fn answered(status: u16, records: Option<Vec<NutritionInfo>>) -> LookupResponse {
    LookupResponse::Answered { status, records }
}

#[test]
fn two_matches_for_chicken_are_summed() {
    let matches = vec![facts("chicken breast", 200_000), facts("chicken wing", 150_000)];
    let sum = get_nutrition_info("chicken", answered(200, Some(matches))).unwrap();
    assert_eq!(sum.calories, 350_000);
    assert_eq!(sum.name, "chicken");
    let dish = sum.into_dish();
    assert_eq!(
        dish,
        NewDish {
            name: "chicken".to_string(),
            cal: 350_000,
            sodium: 8_000,
            sugar: 18_000,
            size: 200_000
        }
    );
}

#[test]
fn every_amount_is_summed() {
    let matches = vec![facts("a", 1), facts("b", 2), facts("c", 3)];
    let sum = aggregate("abc", &matches);
    assert_eq!(
        sum,
        NutritionInfo {
            name: "abc".to_string(),
            calories: 6,
            serving_size_g: 300_000,
            fat_total_g: 3_000,
            fat_saturated_g: 6_000,
            protein_g: 9_000,
            sodium_mg: 12_000,
            potassium_mg: 15_000,
            cholesterol_mg: 18_000,
            carbohydrates_total_g: 21_000,
            fiber_g: 24_000,
            sugar_g: 27_000,
        }
    );
}

#[test]
fn one_match_keeps_its_amounts_and_takes_the_name_asked_for() {
    let sum = aggregate("rice", &vec![facts("white rice", 130_000)]);
    let mut expected = facts("white rice", 130_000);
    expected.name = "rice".to_string();
    assert_eq!(sum, expected);
}

#[test]
fn no_match_sums_to_the_default() {
    let sum = aggregate("", &Vec::new());
    assert_eq!(sum, NutritionInfo::default());
    assert_eq!(NutritionInfo::default().calories, 0);
    assert_eq!(NutritionInfo::default().name, "");
}

#[test]
fn sums_are_held_to_the_range_of_an_amount() {
    let high = vec![facts("a", i64::MAX), facts("b", 1)];
    assert_eq!(total_of(&high, Nutrient::Calories), i64::MAX);
    let low = vec![facts("a", i64::MIN), facts("b", -1)];
    assert_eq!(total_of(&low, Nutrient::Calories), i64::MIN);
    let back = vec![facts("a", i64::MAX), facts("b", i64::MAX), facts("c", -i64::MAX)];
    assert_eq!(total_of(&back, Nutrient::Calories), i64::MAX);
    let cancel = vec![facts("a", i64::MAX), facts("b", i64::MAX), facts("c", i64::MIN)];
    assert_eq!(total_of(&cancel, Nutrient::Calories), i64::MAX - 1);
}

#[test]
fn amount_picks_the_field() {
    let f = facts("x", 11);
    assert_eq!(f.amount(Nutrient::Calories), 11);
    assert_eq!(f.amount(Nutrient::ServingSize), 100_000);
    assert_eq!(f.amount(Nutrient::FatTotal), 1_000);
    assert_eq!(f.amount(Nutrient::FatSaturated), 2_000);
    assert_eq!(f.amount(Nutrient::Protein), 3_000);
    assert_eq!(f.amount(Nutrient::Sodium), 4_000);
    assert_eq!(f.amount(Nutrient::Potassium), 5_000);
    assert_eq!(f.amount(Nutrient::Cholesterol), 6_000);
    assert_eq!(f.amount(Nutrient::Carbohydrates), 7_000);
    assert_eq!(f.amount(Nutrient::Fiber), 8_000);
    assert_eq!(f.amount(Nutrient::Sugar), 9_000);
}

#[test]
fn empty_answer_means_not_recognized() {
    assert_eq!(
        get_nutrition_info("gloop", answered(200, Some(Vec::new()))),
        Err(ApiError::ExternalLookupNotFound)
    );
}

#[test]
fn failures_mean_unavailable() {
    assert_eq!(
        get_nutrition_info("pizza", LookupResponse::Unreachable),
        Err(ApiError::ExternalLookupUnavailable)
    );
    assert_eq!(
        get_nutrition_info("pizza", answered(500, Some(vec![facts("pizza", 1)]))),
        Err(ApiError::ExternalLookupUnavailable)
    );
    assert_eq!(
        get_nutrition_info("pizza", answered(404, Some(Vec::new()))),
        Err(ApiError::ExternalLookupUnavailable)
    );
    assert_eq!(get_nutrition_info("pizza", answered(200, None)), Err(ApiError::ExternalLookupUnavailable));
    assert_eq!(
        get_nutrition_info("pizza", answered(199, Some(vec![facts("pizza", 1)]))),
        Err(ApiError::ExternalLookupUnavailable)
    );
    assert_eq!(
        get_nutrition_info("pizza", answered(300, Some(vec![facts("pizza", 1)]))),
        Err(ApiError::ExternalLookupUnavailable)
    );
}

#[test]
fn every_success_status_counts() {
    assert!(status_is_success(200));
    assert!(status_is_success(204));
    assert!(status_is_success(299));
    assert!(!status_is_success(199));
    assert!(!status_is_success(300));
    assert!(!status_is_success(404));
    let sum = get_nutrition_info("pizza", answered(299, Some(vec![facts("pizza", 5)]))).unwrap();
    assert_eq!(sum.calories, 5);
}
