//! The handlers of the meals: how each request for a meal begins. How it
//! goes on is decided, outcome by outcome, by [`crate::flow::resume`].

use vstd::prelude::*;
use crate::errors::ApiError;
use crate::flow::{
    begin_delete, begin_delete_by_name, begin_get, begin_get_by_name, begin_list,
    begin_with_body, first_step_to_delete, first_step_to_delete_by_name, first_step_to_get,
    first_step_to_get_by_name, first_step_to_list_meals, first_step_with_body, Pending, Step,
    Target,
};
use crate::meals::models::ReqDiet;
use crate::protocol::{Command, Reply, ReplyView};
use crate::records::Kind;
use crate::validation::header_view;

verus! {

/// `DELETE /meals`: never allowed, whatever the store holds.
pub fn meals_collection_deletion() -> (reply: Reply)
    ensures
        reply@ == ReplyView::Failed(ApiError::MethodNotAllowed),
{
    Reply::Failed(ApiError::MethodNotAllowed)
}

/// `GET /meals`: lists the meals. With a diet in the query, the diet is
/// fetched from the diets service and only the meals that it admits are
/// listed; without one, or with an empty one, all meals are.
pub fn get_all_meals(query: ReqDiet) -> (step: Step)
    ensures
        step@ == first_step_to_list_meals(query@.diet),
{
    match query.diet {
        Some(name) => {
            if name.as_str().is_empty() {
                begin_list(Kind::Meal)
            } else {
                Step::Ask(Pending::FetchingDiet, Command::FetchDiet(name))
            }
        },
        None => begin_list(Kind::Meal),
    }
}

/// `POST /meals`: creates the meal that the body describes.
///
/// The course of the request: the content type must be JSON (else 415); the
/// body must stay within the limit (else 413), decode (else 422) and hold a
/// name and three dishes (else 422); no meal may have the name already (else
/// 422); then the meal is inserted, which the store rejects where a dish
/// does not exist (422), and its id is replied with 201.
pub fn create_meal(content_type: Option<&str>) -> (step: Step)
    ensures
        step@ == first_step_with_body(Target::CreateMeal, header_view(content_type)),
{
    begin_with_body(Target::CreateMeal, content_type)
}

/// `GET /meals/{id}`: the meal with that id.
pub fn get_meal(id: i32) -> (step: Step)
    ensures
        step@ == first_step_to_get(Kind::Meal, id),
{
    begin_get(Kind::Meal, id)
}

/// `GET /meals/{name}`: the meal of that name.
pub fn get_meal_by_name(meal_name: String) -> (step: Step)
    ensures
        step@ == first_step_to_get_by_name(Kind::Meal, meal_name@),
{
    begin_get_by_name(Kind::Meal, meal_name)
}

/// `DELETE /meals/{id}`: deletes the meal with that id. The meal is looked
/// for first (404 where there is none), then deleted (500 where the store
/// fails), and its id is replied.
pub fn delete_meal(id: i32) -> (step: Step)
    ensures
        step@ == first_step_to_delete(Kind::Meal, id),
{
    begin_delete(Kind::Meal, id)
}

/// `DELETE /meals/{name}`: deletes the meal of that name. The meal is
/// looked for first (404 where there is none), then deleted (500 where the
/// store fails), and the id that it had is replied.
pub fn delete_meal_by_name(meal_name: String) -> (step: Step)
    ensures
        step@ == first_step_to_delete_by_name(Kind::Meal, meal_name@),
{
    begin_delete_by_name(Kind::Meal, meal_name)
}

/// `PUT /meals/{id}`: replaces the fields of the meal with that id by those
/// that the body describes.
///
/// The course of the request: the content type must be JSON (else 415); the
/// body must stay within the limit (else 413), decode (else 422) and hold a
/// name and three dishes (else 422); the meal must exist (else 404); then it
/// is updated (500 where the store fails) and its id is replied.
pub fn update_meal(content_type: Option<&str>, id: i32) -> (step: Step)
    ensures
        step@ == first_step_with_body(Target::UpdateMeal(id), header_view(content_type)),
{
    begin_with_body(Target::UpdateMeal(id), content_type)
}

} // verus!
