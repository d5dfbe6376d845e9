//! The handlers of the dishes: how each request for a dish begins. How it
//! goes on is decided, outcome by outcome, by [`crate::flow::resume`].

use vstd::prelude::*;
use crate::errors::ApiError;
use crate::flow::{
    begin_delete, begin_delete_by_name, begin_get, begin_get_by_name, begin_list,
    begin_with_body, first_step_to_delete, first_step_to_delete_by_name, first_step_to_get,
    first_step_to_get_by_name, first_step_to_list, first_step_with_body, Step, Target,
};
use crate::protocol::{Reply, ReplyView};
use crate::records::Kind;
use crate::validation::header_view;

verus! {

/// `GET /`: the greeting of the service.
pub fn index() -> (reply: Reply)
    ensures
        reply@ == ReplyView::Welcome,
{
    Reply::Welcome
}

/// `GET /dishes`: lists all dishes.
pub fn get_all_dishes() -> (step: Step)
    ensures
        step@ == first_step_to_list(Kind::Dish),
{
    begin_list(Kind::Dish)
}

/// `POST /dishes`: creates the dish that the body names, with the facts that
/// the nutrition service has for that name.
///
/// The course of the request: the content type must be JSON (else 415); the
/// body is read chunk by chunk and must stay within the limit (else 413); it
/// must decode (else 422) and name a dish (else 422); the nutrition service
/// must know the name (else 422) and must answer (else 504); no dish may
/// have the name already (else 422); then the dish is inserted and its id
/// replied with 201.
pub fn create_dish(content_type: Option<&str>) -> (step: Step)
    ensures
        step@ == first_step_with_body(Target::CreateDish, header_view(content_type)),
{
    begin_with_body(Target::CreateDish, content_type)
}

/// `DELETE /dishes`: never allowed, whatever the store holds.
pub fn collection_deletion() -> (reply: Reply)
    ensures
        reply@ == ReplyView::Failed(ApiError::MethodNotAllowed),
{
    Reply::Failed(ApiError::MethodNotAllowed)
}

/// `GET /dishes/{id}`: the dish with that id.
pub fn get_dish(id: i32) -> (step: Step)
    ensures
        step@ == first_step_to_get(Kind::Dish, id),
{
    begin_get(Kind::Dish, id)
}

/// `DELETE /dishes/{id}`: deletes the dish with that id. The dish is looked
/// for first (404 where there is none), then deleted (500 where the store
/// fails), and its id is replied.
pub fn delete_dish(id: i32) -> (step: Step)
    ensures
        step@ == first_step_to_delete(Kind::Dish, id),
{
    begin_delete(Kind::Dish, id)
}

/// `GET /dishes/{name}`: the dish of that name.
pub fn get_dish_by_name(dish_name: String) -> (step: Step)
    ensures
        step@ == first_step_to_get_by_name(Kind::Dish, dish_name@),
{
    begin_get_by_name(Kind::Dish, dish_name)
}

/// `DELETE /dishes/{name}`: deletes the dish of that name. The dish is
/// looked for first (404 where there is none), then deleted (500 where the
/// store fails), and the id that it had is replied.
pub fn delete_dish_by_name(dish_name: String) -> (step: Step)
    ensures
        step@ == first_step_to_delete_by_name(Kind::Dish, dish_name@),
{
    begin_delete_by_name(Kind::Dish, dish_name)
}

} // verus!
