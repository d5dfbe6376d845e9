//! The front door of a service: which handler a request goes to.

use vstd::prelude::*;
use crate::diets::diets_routes::{
    create_diet, delete_diet, delete_diet_by_name, diets_collection_deletion, get_all_diets,
    get_diet_by_id, get_diet_by_name,
};
use crate::errors::ApiError;
use crate::flow::{
    first_step_to_delete, first_step_to_delete_by_name, first_step_to_get,
    first_step_to_get_by_name, first_step_to_list, first_step_to_list_meals,
    first_step_with_body, refuse, Step, StepView, Target,
};
use crate::meals::dishes_routes::{
    collection_deletion, create_dish, delete_dish, delete_dish_by_name, get_all_dishes, get_dish,
    get_dish_by_name, index,
};
use crate::meals::meals_routes::{
    create_meal, delete_meal, delete_meal_by_name, get_all_meals, get_meal, get_meal_by_name,
    meals_collection_deletion, update_meal,
};
use crate::meals::models::{name_view, ReqDiet};
use crate::protocol::{Reply, ReplyView};
use crate::records::Kind;
use crate::routing::{locate, place_of, Place, PlaceView, Selector, SelectorView, Service};

verus! {

/// The method of a request.
#[derive(Clone, Copy, Debug, PartialEq, Eq, Structural)]
pub enum Method {
    Get,
    Post,
    Put,
    Delete,
    /// Any other method.
    Other,
}

/// What a handler needs to know of a request before it reads the body.
#[derive(Debug, PartialEq, Eq)]
pub struct Request {
    pub method: Method,
    /// The path, decoded, without the query.
    pub path: String,
    /// The value of the `Content-Type` header, if there is one.
    pub content_type: Option<String>,
    /// The value of the query parameter `diet`, if there is one.
    pub diet: Option<String>,
}

/// The mathematical value of a [`Request`].
pub struct RequestView {
    pub method: Method,
    pub path: Seq<char>,
    pub content_type: Option<Seq<char>>,
    pub diet: Option<Seq<char>>,
}

impl View for Request {
    type V = RequestView;

    open spec fn view(&self) -> RequestView {
        RequestView {
            method: self.method,
            path: self.path@,
            content_type: name_view(self.content_type),
            diet: name_view(self.diet),
        }
    }
}

/// What a request that creates an entity of a kind is for.
pub open spec fn creation(kind: Kind) -> Target {
    match kind {
        Kind::Dish => Target::CreateDish,
        Kind::Meal => Target::CreateMeal,
        Kind::Diet => Target::CreateDiet,
    }
}

/// The first step of a request on a collection. Deleting a collection is
/// never allowed.
pub open spec fn first_step_on_collection(kind: Kind, request: RequestView) -> StepView {
    match request.method {
        Method::Get => if kind == Kind::Meal {
            first_step_to_list_meals(request.diet)
        } else {
            first_step_to_list(kind)
        },
        Method::Post => first_step_with_body(creation(kind), request.content_type),
        Method::Delete => refuse(ApiError::MethodNotAllowed),
        _ => StepView::Done(ReplyView::NoRoute),
    }
}

/// The first step of a request on one record. A numeric segment selects by
/// id and any other by name; a number beyond all ids selects nothing; only
/// meals can be replaced, and only by id.
pub open spec fn first_step_on_item(
    kind: Kind,
    selector: SelectorView,
    request: RequestView,
) -> StepView {
    match (request.method, selector) {
        (Method::Get, SelectorView::Id(id)) => first_step_to_get(kind, id),
        (Method::Get, SelectorView::Name(name)) => first_step_to_get_by_name(kind, name),
        (Method::Delete, SelectorView::Id(id)) => first_step_to_delete(kind, id),
        (Method::Delete, SelectorView::Name(name)) => first_step_to_delete_by_name(kind, name),
        (Method::Get, SelectorView::Beyond) => refuse(ApiError::EntityNotFound),
        (Method::Delete, SelectorView::Beyond) => refuse(ApiError::EntityNotFound),
        (Method::Put, SelectorView::Id(id)) if kind == Kind::Meal => first_step_with_body(
            Target::UpdateMeal(id),
            request.content_type,
        ),
        (Method::Put, SelectorView::Beyond) if kind == Kind::Meal => refuse(
            ApiError::EntityNotFound,
        ),
        _ => StepView::Done(ReplyView::NoRoute),
    }
}

/// The first step of a request to a service.
pub open spec fn first_step(service: Service, request: RequestView) -> StepView {
    match place_of(service, request.path) {
        PlaceView::Root => if request.method == Method::Get {
            StepView::Done(ReplyView::Welcome)
        } else {
            StepView::Done(ReplyView::NoRoute)
        },
        PlaceView::Collection(kind) => first_step_on_collection(kind, request),
        PlaceView::Item(kind, selector) => first_step_on_item(kind, selector, request),
        PlaceView::Nowhere => StepView::Done(ReplyView::NoRoute),
    }
}

fn header(value: &Option<String>) -> (r: Option<&str>)
    ensures
        crate::validation::header_view(r) == name_view(*value),
{
    match value {
        Some(s) => Some(s.as_str()),
        None => None,
    }
}

fn on_collection(kind: Kind, request: Request) -> (step: Step)
    ensures
        step@ == first_step_on_collection(kind, request@),
{
    match request.method {
        Method::Get => match kind {
            Kind::Dish => get_all_dishes(),
            Kind::Meal => get_all_meals(ReqDiet { diet: request.diet }),
            Kind::Diet => get_all_diets(),
        },
        Method::Post => match kind {
            Kind::Dish => create_dish(header(&request.content_type)),
            Kind::Meal => create_meal(header(&request.content_type)),
            Kind::Diet => create_diet(header(&request.content_type)),
        },
        Method::Delete => match kind {
            Kind::Dish => Step::Done(collection_deletion()),
            Kind::Meal => Step::Done(meals_collection_deletion()),
            Kind::Diet => Step::Done(diets_collection_deletion()),
        },
        _ => Step::Done(Reply::NoRoute),
    }
}

fn on_item(kind: Kind, selector: Selector, request: Request) -> (step: Step)
    ensures
        step@ == first_step_on_item(kind, selector@, request@),
{
    match (request.method, selector) {
        (Method::Get, Selector::Id(id)) => match kind {
            Kind::Dish => get_dish(id),
            Kind::Meal => get_meal(id),
            Kind::Diet => get_diet_by_id(id),
        },
        (Method::Get, Selector::Name(name)) => match kind {
            Kind::Dish => get_dish_by_name(name),
            Kind::Meal => get_meal_by_name(name),
            Kind::Diet => get_diet_by_name(name),
        },
        (Method::Delete, Selector::Id(id)) => match kind {
            Kind::Dish => delete_dish(id),
            Kind::Meal => delete_meal(id),
            Kind::Diet => delete_diet(id),
        },
        (Method::Delete, Selector::Name(name)) => match kind {
            Kind::Dish => delete_dish_by_name(name),
            Kind::Meal => delete_meal_by_name(name),
            Kind::Diet => delete_diet_by_name(name),
        },
        (Method::Get, Selector::Beyond) => Step::Done(Reply::Failed(ApiError::EntityNotFound)),
        (Method::Delete, Selector::Beyond) => Step::Done(Reply::Failed(ApiError::EntityNotFound)),
        (Method::Put, Selector::Id(id)) => match kind {
            Kind::Meal => update_meal(header(&request.content_type), id),
            _ => Step::Done(Reply::NoRoute),
        },
        (Method::Put, Selector::Beyond) => match kind {
            Kind::Meal => Step::Done(Reply::Failed(ApiError::EntityNotFound)),
            _ => Step::Done(Reply::NoRoute),
        },
        _ => Step::Done(Reply::NoRoute),
    }
}

/// Begins a request: finds the place that its path names and hands it to
/// the handler of that place and method.
pub fn begin(service: Service, request: Request) -> (step: Step)
    ensures
        step@ == first_step(service, request@),
{
    match locate(service, request.path.as_str()) {
        Place::Root => match request.method {
            Method::Get => Step::Done(index()),
            _ => Step::Done(Reply::NoRoute),
        },
        Place::Collection(kind) => on_collection(kind, request),
        Place::Item(kind, selector) => on_item(kind, selector, request),
        Place::Nowhere => Step::Done(Reply::NoRoute),
    }
}

} // verus!
