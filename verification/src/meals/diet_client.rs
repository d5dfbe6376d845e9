//! The client of the diets service: what the service answers for a diet's
//! name, and what that answer means for a meal listing.

use vstd::prelude::*;
use crate::errors::ApiError;
use crate::meals::models::{Diet, DietView};
use crate::meals::ninjas_api::{is_success, status_is_success};

verus! {

/// What came of asking the diets service for a diet.
#[derive(Debug, PartialEq, Eq)]
pub enum DietResponse {
    /// The request did not get through.
    Unreachable,
    /// The service answered with this status; `diet` holds the diet where the
    /// body could be read as one.
    Answered { status: u16, diet: Option<Diet> },
}

/// The mathematical value of a [`DietResponse`].
pub enum DietResponseView {
    Unreachable,
    Answered { status: u16, diet: Option<DietView> },
}

impl View for DietResponse {
    type V = DietResponseView;

    open spec fn view(&self) -> DietResponseView {
        match self {
            DietResponse::Unreachable => DietResponseView::Unreachable,
            DietResponse::Answered { status, diet } => DietResponseView::Answered {
                status: *status,
                diet: match diet {
                    Some(d) => Some(d@),
                    None => None,
                },
            },
        }
    }
}

impl Clone for DietResponse {
    fn clone(&self) -> (res: Self)
        ensures
            res@ == self@,
    {
        match self {
            DietResponse::Unreachable => DietResponse::Unreachable,
            DietResponse::Answered { status, diet } => DietResponse::Answered {
                status: *status,
                diet: match diet {
                    Some(d) => Some(d.clone()),
                    None => None,
                },
            },
        }
    }
}

/// The status with which the diets service says that it has no such diet.
pub const STATUS_NOT_FOUND: u16 = 404;

/// What a diet lookup comes to. A success with a readable diet gives that
/// diet; the status 404 means that the diet does not exist; everything else
/// (no answer, another status, a success whose body cannot be read) means
/// that the service is unavailable.
pub open spec fn diet_of(response: DietResponseView) -> Result<DietView, ApiError> {
    match response {
        DietResponseView::Answered { status, diet } => {
            if status == STATUS_NOT_FOUND {
                Err(ApiError::DietNotFound)
            } else if is_success(status) && diet is Some {
                Ok(diet->Some_0)
            } else {
                Err(ApiError::RemoteServiceUnavailable)
            }
        },
        DietResponseView::Unreachable => Err(ApiError::RemoteServiceUnavailable),
    }
}

/// Turns the answer of the diets service into the diet, or into the error
/// that says why there is none.
pub fn get_diet_by_name(response: DietResponse) -> (r: Result<Diet, ApiError>)
    ensures
        match diet_of(response@) {
            Ok(diet) => r matches Ok(given) && given@ == diet,
            Err(e) => r matches Err(given) && given == e,
        },
{
    match response {
        DietResponse::Answered { status, diet } => {
            if status == STATUS_NOT_FOUND {
                Err(ApiError::DietNotFound)
            } else if status_is_success(status) {
                match diet {
                    Some(d) => Ok(d),
                    None => Err(ApiError::RemoteServiceUnavailable),
                }
            } else {
                Err(ApiError::RemoteServiceUnavailable)
            }
        },
        DietResponse::Unreachable => Err(ApiError::RemoteServiceUnavailable),
    }
}

} // verus!
