//! The course of a request: a handler asks for one thing at a time, is told
//! what came of it, and decides from that alone what to ask next or what to
//! reply. Nothing here reads, stores or sends anything.

use vstd::prelude::*;
use crate::errors::ApiError;
use crate::meals::diet_client::{diet_of, get_diet_by_name};
use crate::meals::diet_filter::{admitted, filter_meals};
use crate::meals::models::{Diet, DietView, NewMeal, NewMealView};
use crate::meals::ninjas_api::{dish_of, get_nutrition_info, resolve};
use crate::protocol::{Command, CommandView, Outcome, OutcomeView, Reply, ReplyView};
use crate::records::{
    Body, BodyView, Kind, NewRecord, NewRecordView, Record, RecordView, Rows, RowsView,
};
use crate::validation::{
    check_content_type, declares_json, header_view, valid_diet, valid_dish, valid_meal,
    validate_diet, validate_dish, validate_meal, BodyBuffer, MAX_BODY_BYTES,
};

verus! {

/// What a request with a body is for.
#[derive(Clone, Copy, Debug, PartialEq, Eq, Structural)]
pub enum Target {
    CreateDish,
    CreateMeal,
    CreateDiet,
    /// Replace the meal with this id.
    UpdateMeal(i32),
}

impl Target {
    /// The kind of entity whose shape the body must have.
    pub open spec fn shape(self) -> Kind {
        match self {
            Target::CreateDish => Kind::Dish,
            Target::CreateMeal => Kind::Meal,
            Target::CreateDiet => Kind::Diet,
            Target::UpdateMeal(_) => Kind::Meal,
        }
    }

    /// The kind of entity whose shape the body must have.
    pub fn kind(&self) -> (k: Kind)
        ensures
            k == self.shape(),
    {
        match self {
            Target::CreateDish => Kind::Dish,
            Target::CreateMeal => Kind::Meal,
            Target::CreateDiet => Kind::Diet,
            Target::UpdateMeal(_) => Kind::Meal,
        }
    }
}

/// Where a handler stands while it waits for the outcome of a command.
#[derive(Debug, PartialEq, Eq)]
pub enum Pending {
    /// Reading the body; the buffer holds what has been read.
    Reading(Target, BodyBuffer),
    /// Waiting for the body to be decoded.
    Decoding(Target),
    /// Waiting for the nutrition facts of the dish of this name.
    Resolving(String),
    /// Checking that no record has the name of the one to insert.
    Checking(NewRecord),
    /// Waiting for the insertion of a record of this kind.
    Inserting(Kind),
    /// Waiting for the record that is to be replied.
    Fetching(Kind),
    /// Waiting for the records that are to be replied.
    Listing(Kind),
    /// Checking that the record to delete by this id exists.
    LocatingToDelete(Kind, i32),
    /// Checking that the record to delete by this name exists.
    LocatingToDeleteByName(Kind, String),
    /// Checking that the meal to replace exists.
    LocatingToUpdate(i32, NewMeal),
    /// Waiting for the deletion of the record with this id.
    Deleting(i32),
    /// Waiting for the update of the meal with this id.
    Updating(i32),
    /// Waiting for the diet by which meals are to be filtered.
    FetchingDiet,
    /// Waiting for the meals that are to be filtered by this diet.
    Filtering(Diet),
}

/// The mathematical value of a [`Pending`].
pub enum PendingView {
    Reading(Target, Seq<u8>),
    Decoding(Target),
    Resolving(Seq<char>),
    Checking(NewRecordView),
    Inserting(Kind),
    Fetching(Kind),
    Listing(Kind),
    LocatingToDelete(Kind, i32),
    LocatingToDeleteByName(Kind, Seq<char>),
    LocatingToUpdate(i32, NewMealView),
    Deleting(i32),
    Updating(i32),
    FetchingDiet,
    Filtering(DietView),
}

impl View for Pending {
    type V = PendingView;

    open spec fn view(&self) -> PendingView {
        match self {
            Pending::Reading(target, buffer) => PendingView::Reading(*target, buffer@),
            Pending::Decoding(target) => PendingView::Decoding(*target),
            Pending::Resolving(name) => PendingView::Resolving(name@),
            Pending::Checking(new) => PendingView::Checking(new@),
            Pending::Inserting(kind) => PendingView::Inserting(*kind),
            Pending::Fetching(kind) => PendingView::Fetching(*kind),
            Pending::Listing(kind) => PendingView::Listing(*kind),
            Pending::LocatingToDelete(kind, id) => PendingView::LocatingToDelete(*kind, *id),
            Pending::LocatingToDeleteByName(kind, name) => PendingView::LocatingToDeleteByName(
                *kind,
                name@,
            ),
            Pending::LocatingToUpdate(id, meal) => PendingView::LocatingToUpdate(*id, meal@),
            Pending::Deleting(id) => PendingView::Deleting(*id),
            Pending::Updating(id) => PendingView::Updating(*id),
            Pending::FetchingDiet => PendingView::FetchingDiet,
            Pending::Filtering(diet) => PendingView::Filtering(diet@),
        }
    }
}

/// What a handler does next: it asks for something, or it replies.
#[derive(Debug, PartialEq, Eq)]
pub enum Step {
    /// Carry out the command and come back with its outcome.
    Ask(Pending, Command),
    /// The request is answered.
    Done(Reply),
}

/// The mathematical value of a [`Step`].
pub enum StepView {
    Ask(PendingView, CommandView),
    Done(ReplyView),
}

impl View for Step {
    type V = StepView;

    open spec fn view(&self) -> StepView {
        match self {
            Step::Ask(pending, command) => StepView::Ask(pending@, command@),
            Step::Done(reply) => StepView::Done(reply@),
        }
    }
}

/// The step that refuses the request.
pub open spec fn refuse(e: ApiError) -> StepView {
    StepView::Done(ReplyView::Failed(e))
}

/// The first step of a request with a body: the content type is checked
/// before anything is read.
pub open spec fn first_step_with_body(target: Target, content_type: Option<Seq<char>>) -> StepView {
    if declares_json(content_type) {
        StepView::Ask(PendingView::Reading(target, Seq::<u8>::empty()), CommandView::ReadChunk)
    } else {
        refuse(ApiError::ContentTypeError)
    }
}

/// The first step of a listing.
pub open spec fn first_step_to_list(kind: Kind) -> StepView {
    StepView::Ask(PendingView::Listing(kind), CommandView::List(kind))
}

/// The first step of a lookup by id.
pub open spec fn first_step_to_get(kind: Kind, id: i32) -> StepView {
    StepView::Ask(PendingView::Fetching(kind), CommandView::FindById(kind, id))
}

/// The first step of a lookup by name.
pub open spec fn first_step_to_get_by_name(kind: Kind, name: Seq<char>) -> StepView {
    StepView::Ask(PendingView::Fetching(kind), CommandView::FindByName(kind, name))
}

/// The first step of a deletion by id: the record is looked for before
/// anything is deleted.
pub open spec fn first_step_to_delete(kind: Kind, id: i32) -> StepView {
    StepView::Ask(PendingView::LocatingToDelete(kind, id), CommandView::FindById(kind, id))
}

/// The first step of a deletion by name: the record is looked for before
/// anything is deleted.
pub open spec fn first_step_to_delete_by_name(kind: Kind, name: Seq<char>) -> StepView {
    StepView::Ask(
        PendingView::LocatingToDeleteByName(kind, name),
        CommandView::FindByName(kind, name),
    )
}

/// The first step of a meal listing. Without a diet, or with an empty one,
/// all meals are listed; with a diet, the diet is fetched first.
pub open spec fn first_step_to_list_meals(diet: Option<Seq<char>>) -> StepView {
    match diet {
        Some(name) if name.len() > 0 => StepView::Ask(
            PendingView::FetchingDiet,
            CommandView::FetchDiet(name),
        ),
        _ => first_step_to_list(Kind::Meal),
    }
}

/// The step that checks for a record of the same name before one is inserted.
pub open spec fn check_then_insert(new: NewRecordView) -> StepView {
    StepView::Ask(PendingView::Checking(new), CommandView::FindByName(new.kind(), new.name()))
}

/// What follows once the body is decoded: the fields that the target
/// requires are checked, and then a dish is looked up, a meal or a diet is
/// checked for its name, and a meal to replace is looked for.
pub open spec fn after_decoding(target: Target, body: BodyView) -> StepView {
    match (target, body) {
        (Target::CreateDish, BodyView::Dish(req)) => match valid_dish(req) {
            Some(name) => StepView::Ask(
                PendingView::Resolving(name),
                CommandView::LookupNutrition(name),
            ),
            None => refuse(ApiError::MissingField),
        },
        (Target::CreateMeal, BodyView::Meal(req)) => match valid_meal(req) {
            Some(meal) => check_then_insert(NewRecordView::Meal(meal)),
            None => refuse(ApiError::MissingField),
        },
        (Target::CreateDiet, BodyView::Diet(req)) => match valid_diet(req) {
            Some(diet) => check_then_insert(NewRecordView::Diet(diet)),
            None => refuse(ApiError::MissingField),
        },
        (Target::UpdateMeal(id), BodyView::Meal(req)) => match valid_meal(req) {
            Some(meal) => StepView::Ask(
                PendingView::LocatingToUpdate(id, meal),
                CommandView::FindById(Kind::Meal, id),
            ),
            None => refuse(ApiError::MissingField),
        },
        _ => refuse(ApiError::MalformedBody),
    }
}

/// While the body is read: a chunk is taken in unless the body would grow
/// beyond the limit, and the end of the body sends it to be decoded.
pub open spec fn after_reading(target: Target, read: Seq<u8>, outcome: OutcomeView) -> StepView {
    match outcome {
        OutcomeView::Chunk(bytes) => if read.len() + bytes.len() <= MAX_BODY_BYTES {
            StepView::Ask(PendingView::Reading(target, read + bytes), CommandView::ReadChunk)
        } else {
            refuse(ApiError::PayloadTooLarge)
        },
        OutcomeView::EndOfBody => StepView::Ask(
            PendingView::Decoding(target),
            CommandView::Decode(target.shape(), read),
        ),
        _ => refuse(ApiError::MalformedBody),
    }
}

/// Once the nutrition service has answered: its facts become the dish to insert.
pub open spec fn after_resolving(name: Seq<char>, outcome: OutcomeView) -> StepView {
    match outcome {
        OutcomeView::Nutrition(response) => match resolve(name, response) {
            Ok(info) => check_then_insert(NewRecordView::Dish(dish_of(info))),
            Err(e) => refuse(e),
        },
        _ => refuse(ApiError::ExternalLookupUnavailable),
    }
}

/// Once the name has been looked for: a record of that name is a duplicate.
/// In every other case the record is inserted: the check only spares the
/// store an insertion that must fail, and the store has the last word.
pub open spec fn after_checking(new: NewRecordView, outcome: OutcomeView) -> StepView {
    match outcome {
        OutcomeView::Found(found) if found.kind() == new.kind() => refuse(ApiError::DuplicateNameError),
        _ => StepView::Ask(PendingView::Inserting(new.kind()), CommandView::Insert(new)),
    }
}

/// Once the store has answered the insertion: the id of what was created is
/// replied; a conflict that the store itself reports is a duplicate name
/// all the same, and any other answer is a rejection.
pub open spec fn after_inserting(kind: Kind, outcome: OutcomeView) -> StepView {
    match outcome {
        OutcomeView::Created(created) if created.kind() == kind => StepView::Done(
            ReplyView::Created(created.id()),
        ),
        OutcomeView::Conflict => refuse(ApiError::DuplicateNameError),
        _ => refuse(ApiError::ForeignKeyViolation),
    }
}

/// Once the record that was asked for has been looked for.
pub open spec fn after_fetching(kind: Kind, outcome: OutcomeView) -> StepView {
    match outcome {
        OutcomeView::Found(found) if found.kind() == kind => StepView::Done(ReplyView::One(found)),
        OutcomeView::Missing => refuse(ApiError::EntityNotFound),
        _ => refuse(ApiError::StorageFailure),
    }
}

/// Once the records have been listed.
pub open spec fn after_listing(kind: Kind, outcome: OutcomeView) -> StepView {
    match outcome {
        OutcomeView::Listed(rows) if rows.kind() == kind => StepView::Done(
            ReplyView::Listing(rows),
        ),
        _ => refuse(ApiError::StorageFailure),
    }
}

/// Once the record to change has been looked for: only where it exists is the
/// store asked for the change, which `change` describes for the record found.
pub open spec fn after_locating(
    kind: Kind,
    outcome: OutcomeView,
    change: spec_fn(RecordView) -> StepView,
) -> StepView {
    match outcome {
        OutcomeView::Found(found) if found.kind() == kind => change(found),
        OutcomeView::Missing => refuse(ApiError::EntityNotFound),
        _ => refuse(ApiError::StorageFailure),
    }
}

/// Once the store has answered a deletion or an update: `done` is replied
/// where it was carried out.
pub open spec fn after_changing(outcome: OutcomeView, done: ReplyView) -> StepView {
    match outcome {
        OutcomeView::Applied => StepView::Done(done),
        OutcomeView::Missing => refuse(ApiError::EntityNotFound),
        _ => refuse(ApiError::StorageFailure),
    }
}

/// Once the diets service has answered: with the diet in hand the meals are listed.
pub open spec fn after_fetching_diet(outcome: OutcomeView) -> StepView {
    match outcome {
        OutcomeView::Diet(response) => match diet_of(response) {
            Ok(diet) => StepView::Ask(PendingView::Filtering(diet), CommandView::List(Kind::Meal)),
            Err(e) => refuse(e),
        },
        _ => refuse(ApiError::RemoteServiceUnavailable),
    }
}

/// Once the meals have been listed: those that the diet admits are replied.
pub open spec fn after_filtering(diet: DietView, outcome: OutcomeView) -> StepView {
    match outcome {
        OutcomeView::Listed(RowsView::Meals(meals)) => StepView::Done(
            ReplyView::Listing(RowsView::Meals(admitted(meals, diet))),
        ),
        _ => refuse(ApiError::StorageFailure),
    }
}

/// The step that follows the outcome of the command that a handler waits
/// for. An outcome that does not answer the command counts as a failure
/// of whoever carried it out.
pub open spec fn next_step(pending: PendingView, outcome: OutcomeView) -> StepView {
    match pending {
        PendingView::Reading(target, read) => after_reading(target, read, outcome),
        PendingView::Decoding(target) => match outcome {
            OutcomeView::Parsed(body) => after_decoding(target, body),
            _ => refuse(ApiError::MalformedBody),
        },
        PendingView::Resolving(name) => after_resolving(name, outcome),
        PendingView::Checking(new) => after_checking(new, outcome),
        PendingView::Inserting(kind) => after_inserting(kind, outcome),
        PendingView::Fetching(kind) => after_fetching(kind, outcome),
        PendingView::Listing(kind) => after_listing(kind, outcome),
        PendingView::LocatingToDelete(kind, id) => after_locating(
            kind,
            outcome,
            |found: RecordView|
                StepView::Ask(PendingView::Deleting(id), CommandView::DeleteById(kind, id)),
        ),
        PendingView::LocatingToDeleteByName(kind, name) => after_locating(
            kind,
            outcome,
            |found: RecordView|
                StepView::Ask(
                    PendingView::Deleting(found.id()),
                    CommandView::DeleteByName(kind, name),
                ),
        ),
        PendingView::LocatingToUpdate(id, meal) => after_locating(
            Kind::Meal,
            outcome,
            |found: RecordView|
                StepView::Ask(PendingView::Updating(id), CommandView::Update(id, meal)),
        ),
        PendingView::Deleting(id) => after_changing(outcome, ReplyView::Deleted(id)),
        PendingView::Updating(id) => after_changing(outcome, ReplyView::Updated(id)),
        PendingView::FetchingDiet => after_fetching_diet(outcome),
        PendingView::Filtering(diet) => after_filtering(diet, outcome),
    }
}

fn fail(e: ApiError) -> (step: Step)
    ensures
        step@ == refuse(e),
{
    Step::Done(Reply::Failed(e))
}

/// Begins a request with a body: checks the content type and, where it is
/// JSON, asks for the first chunk of the body.
pub fn begin_with_body(target: Target, content_type: Option<&str>) -> (step: Step)
    ensures
        step@ == first_step_with_body(target, header_view(content_type)),
{
    match check_content_type(content_type) {
        Ok(()) => Step::Ask(Pending::Reading(target, BodyBuffer::new()), Command::ReadChunk),
        Err(e) => fail(e),
    }
}

/// Begins a listing of all the records of a kind.
pub fn begin_list(kind: Kind) -> (step: Step)
    ensures
        step@ == first_step_to_list(kind),
{
    Step::Ask(Pending::Listing(kind), Command::List(kind))
}

/// Begins the lookup of a record by its id.
pub fn begin_get(kind: Kind, id: i32) -> (step: Step)
    ensures
        step@ == first_step_to_get(kind, id),
{
    Step::Ask(Pending::Fetching(kind), Command::FindById(kind, id))
}

/// Begins the lookup of a record by its name.
pub fn begin_get_by_name(kind: Kind, name: String) -> (step: Step)
    ensures
        step@ == first_step_to_get_by_name(kind, name@),
{
    Step::Ask(Pending::Fetching(kind), Command::FindByName(kind, name))
}

/// Begins the deletion of a record by its id.
pub fn begin_delete(kind: Kind, id: i32) -> (step: Step)
    ensures
        step@ == first_step_to_delete(kind, id),
{
    Step::Ask(Pending::LocatingToDelete(kind, id), Command::FindById(kind, id))
}

/// Begins the deletion of a record by its name.
pub fn begin_delete_by_name(kind: Kind, name: String) -> (step: Step)
    ensures
        step@ == first_step_to_delete_by_name(kind, name@),
{
    let asked = name.clone();
    Step::Ask(Pending::LocatingToDeleteByName(kind, name), Command::FindByName(kind, asked))
}

fn insert_after_check(new: NewRecord) -> (step: Step)
    ensures
        step@ == check_then_insert(new@),
{
    let kind = new.kind();
    let name = new.name();
    Step::Ask(Pending::Checking(new), Command::FindByName(kind, name))
}

fn decoded(target: Target, body: Body) -> (step: Step)
    ensures
        step@ == after_decoding(target, body@),
{
    match (target, body) {
        (Target::CreateDish, Body::Dish(req)) => match validate_dish(req) {
            Ok(name) => {
                let asked = name.clone();
                Step::Ask(Pending::Resolving(name), Command::LookupNutrition(asked))
            },
            Err(e) => fail(e),
        },
        (Target::CreateMeal, Body::Meal(req)) => match validate_meal(req) {
            Ok(meal) => insert_after_check(NewRecord::Meal(meal)),
            Err(e) => fail(e),
        },
        (Target::CreateDiet, Body::Diet(req)) => match validate_diet(req) {
            Ok(diet) => insert_after_check(NewRecord::Diet(diet)),
            Err(e) => fail(e),
        },
        (Target::UpdateMeal(id), Body::Meal(req)) => match validate_meal(req) {
            Ok(meal) => Step::Ask(
                Pending::LocatingToUpdate(id, meal),
                Command::FindById(Kind::Meal, id),
            ),
            Err(e) => fail(e),
        },
        _ => fail(ApiError::MalformedBody),
    }
}

fn read(target: Target, buffer: BodyBuffer, outcome: Outcome) -> (step: Step)
    ensures
        step@ == after_reading(target, buffer@, outcome@),
{
    match outcome {
        Outcome::Chunk(bytes) => match buffer.accept(bytes.as_slice()) {
            Ok(grown) => Step::Ask(Pending::Reading(target, grown), Command::ReadChunk),
            Err(e) => fail(e),
        },
        Outcome::EndOfBody => {
            let kind = target.kind();
            Step::Ask(Pending::Decoding(target), Command::Decode(kind, buffer.into_bytes()))
        },
        _ => fail(ApiError::MalformedBody),
    }
}

fn resolved(name: String, outcome: Outcome) -> (step: Step)
    ensures
        step@ == after_resolving(name@, outcome@),
{
    match outcome {
        Outcome::Nutrition(response) => match get_nutrition_info(name.as_str(), response) {
            Ok(info) => insert_after_check(NewRecord::Dish(info.into_dish())),
            Err(e) => fail(e),
        },
        _ => fail(ApiError::ExternalLookupUnavailable),
    }
}

fn checked(new: NewRecord, outcome: Outcome) -> (step: Step)
    ensures
        step@ == after_checking(new@, outcome@),
{
    let kind = new.kind();
    let taken = match outcome {
        Outcome::Found(found) => found.kind() == kind,
        _ => false,
    };
    if taken {
        fail(ApiError::DuplicateNameError)
    } else {
        Step::Ask(Pending::Inserting(kind), Command::Insert(new))
    }
}

fn inserted(kind: Kind, outcome: Outcome) -> (step: Step)
    ensures
        step@ == after_inserting(kind, outcome@),
{
    match outcome {
        Outcome::Created(created) => if created.kind() == kind {
            Step::Done(Reply::Created(created.id()))
        } else {
            fail(ApiError::ForeignKeyViolation)
        },
        Outcome::Conflict => fail(ApiError::DuplicateNameError),
        _ => fail(ApiError::ForeignKeyViolation),
    }
}

fn fetched(kind: Kind, outcome: Outcome) -> (step: Step)
    ensures
        step@ == after_fetching(kind, outcome@),
{
    match outcome {
        Outcome::Found(found) => if found.kind() == kind {
            Step::Done(Reply::One(found))
        } else {
            fail(ApiError::StorageFailure)
        },
        Outcome::Missing => fail(ApiError::EntityNotFound),
        _ => fail(ApiError::StorageFailure),
    }
}

fn listed(kind: Kind, outcome: Outcome) -> (step: Step)
    ensures
        step@ == after_listing(kind, outcome@),
{
    match outcome {
        Outcome::Listed(rows) => if rows.kind() == kind {
            Step::Done(Reply::Listing(rows))
        } else {
            fail(ApiError::StorageFailure)
        },
        _ => fail(ApiError::StorageFailure),
    }
}

/// The record that was found where the outcome says that one of the kind
/// exists, and otherwise the step that says why the change cannot be made.
fn located(kind: Kind, outcome: Outcome) -> (r: Result<Record, Step>)
    ensures
        match r {
            Ok(found) => outcome@ == OutcomeView::Found(found@) && found@.kind() == kind,
            Err(step) => !(outcome@ matches OutcomeView::Found(found) && found.kind() == kind)
                && step@ == if outcome@ is Missing {
                refuse(ApiError::EntityNotFound)
            } else {
                refuse(ApiError::StorageFailure)
            },
        },
{
    match outcome {
        Outcome::Found(found) => if found.kind() == kind {
            Ok(found)
        } else {
            Err(fail(ApiError::StorageFailure))
        },
        Outcome::Missing => Err(fail(ApiError::EntityNotFound)),
        _ => Err(fail(ApiError::StorageFailure)),
    }
}

fn changed(outcome: Outcome, done: Reply) -> (step: Step)
    ensures
        step@ == after_changing(outcome@, done@),
{
    match outcome {
        Outcome::Applied => Step::Done(done),
        Outcome::Missing => fail(ApiError::EntityNotFound),
        _ => fail(ApiError::StorageFailure),
    }
}

fn diet_fetched(outcome: Outcome) -> (step: Step)
    ensures
        step@ == after_fetching_diet(outcome@),
{
    match outcome {
        Outcome::Diet(response) => match get_diet_by_name(response) {
            Ok(diet) => Step::Ask(Pending::Filtering(diet), Command::List(Kind::Meal)),
            Err(e) => fail(e),
        },
        _ => fail(ApiError::RemoteServiceUnavailable),
    }
}

fn filtered(diet: Diet, outcome: Outcome) -> (step: Step)
    ensures
        step@ == after_filtering(diet@, outcome@),
{
    match outcome {
        Outcome::Listed(Rows::Meals(meals)) => {
            let kept = filter_meals(meals, &diet);
            Step::Done(Reply::Listing(Rows::Meals(kept)))
        },
        _ => fail(ApiError::StorageFailure),
    }
}

/// Takes the outcome of the command that the handler waits for and decides
/// what comes next.
pub fn resume(pending: Pending, outcome: Outcome) -> (step: Step)
    ensures
        step@ == next_step(pending@, outcome@),
{
    match pending {
        Pending::Reading(target, buffer) => read(target, buffer, outcome),
        Pending::Decoding(target) => match outcome {
            Outcome::Parsed(body) => decoded(target, body),
            _ => fail(ApiError::MalformedBody),
        },
        Pending::Resolving(name) => resolved(name, outcome),
        Pending::Checking(new) => checked(new, outcome),
        Pending::Inserting(kind) => inserted(kind, outcome),
        Pending::Fetching(kind) => fetched(kind, outcome),
        Pending::Listing(kind) => listed(kind, outcome),
        Pending::LocatingToDelete(kind, id) => match located(kind, outcome) {
            Ok(_) => Step::Ask(Pending::Deleting(id), Command::DeleteById(kind, id)),
            Err(step) => step,
        },
        Pending::LocatingToDeleteByName(kind, name) => match located(kind, outcome) {
            Ok(found) => Step::Ask(
                Pending::Deleting(found.id()),
                Command::DeleteByName(kind, name),
            ),
            Err(step) => step,
        },
        Pending::LocatingToUpdate(id, meal) => match located(Kind::Meal, outcome) {
            Ok(_) => Step::Ask(Pending::Updating(id), Command::Update(id, meal)),
            Err(step) => step,
        },
        Pending::Deleting(id) => changed(outcome, Reply::Deleted(id)),
        Pending::Updating(id) => changed(outcome, Reply::Updated(id)),
        Pending::FetchingDiet => diet_fetched(outcome),
        Pending::Filtering(diet) => filtered(diet, outcome),
    }
}

} // verus!
