//! The handlers of the diets: how each request for a diet begins. How it
//! goes on is decided, outcome by outcome, by [`crate::flow::resume`].

use vstd::prelude::*;
use crate::errors::ApiError;
use crate::flow::{
    begin_delete, begin_delete_by_name, begin_get, begin_get_by_name, begin_list,
    begin_with_body, first_step_to_delete, first_step_to_delete_by_name, first_step_to_get,
    first_step_to_get_by_name, first_step_to_list, first_step_with_body, Step, Target,
};
use crate::protocol::{Reply, ReplyView};
use crate::records::Kind;
use crate::validation::header_view;

verus! {

/// `DELETE /diets`: never allowed, whatever the store holds.
pub fn diets_collection_deletion() -> (reply: Reply)
    ensures
        reply@ == ReplyView::Failed(ApiError::MethodNotAllowed),
{
    Reply::Failed(ApiError::MethodNotAllowed)
}

/// `GET /diets`: lists all diets.
pub fn get_all_diets() -> (step: Step)
    ensures
        step@ == first_step_to_list(Kind::Diet),
{
    begin_list(Kind::Diet)
}

/// `POST /diets`: creates the diet that the body describes.
///
/// The course of the request: the content type must be JSON (else 415); the
/// body must stay within the limit (else 413), decode (else 422) and hold a
/// name and three bounds (else 422); no diet may have the name already (else
/// 422); then the diet is inserted and its id replied with 201.
pub fn create_diet(content_type: Option<&str>) -> (step: Step)
    ensures
        step@ == first_step_with_body(Target::CreateDiet, header_view(content_type)),
{
    begin_with_body(Target::CreateDiet, content_type)
}

/// `GET /diets/{id}`: the diet with that id.
pub fn get_diet_by_id(id: i32) -> (step: Step)
    ensures
        step@ == first_step_to_get(Kind::Diet, id),
{
    begin_get(Kind::Diet, id)
}

/// `GET /diets/{name}`: the diet of that name.
pub fn get_diet_by_name(diet_name: String) -> (step: Step)
    ensures
        step@ == first_step_to_get_by_name(Kind::Diet, diet_name@),
{
    begin_get_by_name(Kind::Diet, diet_name)
}

/// `DELETE /diets/{id}`: deletes the diet with that id.
pub fn delete_diet(id: i32) -> (step: Step)
    ensures
        step@ == first_step_to_delete(Kind::Diet, id),
{
    begin_delete(Kind::Diet, id)
}

/// `DELETE /diets/{name}`: deletes the diet of that name.
pub fn delete_diet_by_name(diet_name: String) -> (step: Step)
    ensures
        step@ == first_step_to_delete_by_name(Kind::Diet, diet_name@),
{
    begin_delete_by_name(Kind::Diet, diet_name)
}

} // verus!
