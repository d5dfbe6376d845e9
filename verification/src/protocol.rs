//! What a request handler exchanges with the world around it: the commands
//! that it gives to the store and to the remote services, the outcomes that
//! come back, and the reply that it finally gives.

use vstd::prelude::*;
use crate::errors::{code_of, message_of, status_of, ApiError};
use crate::meals::diet_client::{DietResponse, DietResponseView};
use crate::meals::models::{NewMeal, NewMealView};
use crate::meals::ninjas_api::{LookupResponse, LookupResponseView};
use crate::records::{
    Body, BodyView, Kind, NewRecord, NewRecordView, Record, RecordView, Rows, RowsView,
};

verus! {

/// Something that a handler needs done before it can go on.
#[derive(Debug, PartialEq, Eq)]
pub enum Command {
    /// Read the next chunk of the request body.
    ReadChunk,
    /// Decode these bytes as the JSON body of a request for an entity of this kind.
    Decode(Kind, Vec<u8>),
    /// Ask the nutrition service for the facts of this food.
    LookupNutrition(String),
    /// Ask the diets service for the diet of this name.
    FetchDiet(String),
    /// List all the records of a kind.
    List(Kind),
    /// Find the record of a kind with this id.
    FindById(Kind, i32),
    /// Find the record of a kind with this name.
    FindByName(Kind, String),
    /// Insert a record.
    Insert(NewRecord),
    /// Replace the fields of the meal with this id.
    Update(i32, NewMeal),
    /// Delete the record of a kind with this id.
    DeleteById(Kind, i32),
    /// Delete the record of a kind with this name.
    DeleteByName(Kind, String),
}

/// The mathematical value of a [`Command`].
pub enum CommandView {
    ReadChunk,
    Decode(Kind, Seq<u8>),
    LookupNutrition(Seq<char>),
    FetchDiet(Seq<char>),
    List(Kind),
    FindById(Kind, i32),
    FindByName(Kind, Seq<char>),
    Insert(NewRecordView),
    Update(i32, NewMealView),
    DeleteById(Kind, i32),
    DeleteByName(Kind, Seq<char>),
}

impl View for Command {
    type V = CommandView;

    open spec fn view(&self) -> CommandView {
        match self {
            Command::ReadChunk => CommandView::ReadChunk,
            Command::Decode(kind, bytes) => CommandView::Decode(*kind, bytes@),
            Command::LookupNutrition(name) => CommandView::LookupNutrition(name@),
            Command::FetchDiet(name) => CommandView::FetchDiet(name@),
            Command::List(kind) => CommandView::List(*kind),
            Command::FindById(kind, id) => CommandView::FindById(*kind, *id),
            Command::FindByName(kind, name) => CommandView::FindByName(*kind, name@),
            Command::Insert(new) => CommandView::Insert(new@),
            Command::Update(id, meal) => CommandView::Update(*id, meal@),
            Command::DeleteById(kind, id) => CommandView::DeleteById(*kind, *id),
            Command::DeleteByName(kind, name) => CommandView::DeleteByName(*kind, name@),
        }
    }
}

impl CommandView {
    /// Whether the command changes what the store holds when it succeeds.
    pub open spec fn writes(self) -> bool {
        self is Insert || self is Update || self is DeleteById || self is DeleteByName
    }
}

/// What came of a command.
#[derive(Debug, PartialEq, Eq)]
pub enum Outcome {
    /// The next chunk of the body.
    Chunk(Vec<u8>),
    /// The body has no more chunks.
    EndOfBody,
    /// The body, decoded.
    Parsed(Body),
    /// The body is not JSON of the expected shape.
    Unparsable,
    /// The answer of the nutrition service.
    Nutrition(LookupResponse),
    /// The answer of the diets service.
    Diet(DietResponse),
    /// The records that were listed.
    Listed(Rows),
    /// The record that was looked for.
    Found(Record),
    /// There is no such record.
    Missing,
    /// The record as it was inserted, with its id.
    Created(Record),
    /// The store holds a record of that name already.
    Conflict,
    /// The store rejected the record.
    Rejected,
    /// The update or deletion was carried out.
    Applied,
    /// The store failed.
    Failed,
}

/// The mathematical value of an [`Outcome`].
pub enum OutcomeView {
    Chunk(Seq<u8>),
    EndOfBody,
    Parsed(BodyView),
    Unparsable,
    Nutrition(LookupResponseView),
    Diet(DietResponseView),
    Listed(RowsView),
    Found(RecordView),
    Missing,
    Created(RecordView),
    Conflict,
    Rejected,
    Applied,
    Failed,
}

impl View for Outcome {
    type V = OutcomeView;

    open spec fn view(&self) -> OutcomeView {
        match self {
            Outcome::Chunk(bytes) => OutcomeView::Chunk(bytes@),
            Outcome::EndOfBody => OutcomeView::EndOfBody,
            Outcome::Parsed(body) => OutcomeView::Parsed(body@),
            Outcome::Unparsable => OutcomeView::Unparsable,
            Outcome::Nutrition(response) => OutcomeView::Nutrition(response@),
            Outcome::Diet(response) => OutcomeView::Diet(response@),
            Outcome::Listed(rows) => OutcomeView::Listed(rows@),
            Outcome::Found(record) => OutcomeView::Found(record@),
            Outcome::Missing => OutcomeView::Missing,
            Outcome::Created(record) => OutcomeView::Created(record@),
            Outcome::Conflict => OutcomeView::Conflict,
            Outcome::Rejected => OutcomeView::Rejected,
            Outcome::Applied => OutcomeView::Applied,
            Outcome::Failed => OutcomeView::Failed,
        }
    }
}

/// The answer to a request.
#[derive(Debug, PartialEq, Eq)]
pub enum Reply {
    /// The greeting of the service's root.
    Welcome,
    /// All the records that were asked for.
    Listing(Rows),
    /// The record that was asked for.
    One(Record),
    /// The id of the record that was created.
    Created(i32),
    /// The id of the record that was deleted.
    Deleted(i32),
    /// The id of the meal that was updated.
    Updated(i32),
    /// The service has nothing at that method and path.
    NoRoute,
    /// The request was refused.
    Failed(ApiError),
}

/// The mathematical value of a [`Reply`].
pub enum ReplyView {
    Welcome,
    Listing(RowsView),
    One(RecordView),
    Created(i32),
    Deleted(i32),
    Updated(i32),
    NoRoute,
    Failed(ApiError),
}

impl View for Reply {
    type V = ReplyView;

    open spec fn view(&self) -> ReplyView {
        match self {
            Reply::Welcome => ReplyView::Welcome,
            Reply::Listing(rows) => ReplyView::Listing(rows@),
            Reply::One(record) => ReplyView::One(record@),
            Reply::Created(id) => ReplyView::Created(*id),
            Reply::Deleted(id) => ReplyView::Deleted(*id),
            Reply::Updated(id) => ReplyView::Updated(*id),
            Reply::NoRoute => ReplyView::NoRoute,
            Reply::Failed(e) => ReplyView::Failed(*e),
        }
    }
}

impl ReplyView {
    /// The HTTP status of the reply: 201 for what was created, 200 for every
    /// other success, 404 where nothing is routed, and the error's own status.
    pub open spec fn status(self) -> u16 {
        match self {
            ReplyView::Created(_) => 201,
            ReplyView::NoRoute => 404,
            ReplyView::Failed(e) => status_of(e),
            _ => 200,
        }
    }
}

impl ReplyView {
    /// The numeric code of the reply: that of the error, where it is one
    /// and has one.
    pub open spec fn code(self) -> Option<i32> {
        match self {
            ReplyView::Failed(e) => code_of(e),
            _ => None,
        }
    }

    /// The text that goes with the reply. A reply that carries records needs none.
    pub open spec fn message(self) -> Seq<char> {
        match self {
            ReplyView::Welcome => "Welcome"@,
            ReplyView::Listing(_) => ""@,
            ReplyView::One(_) => ""@,
            ReplyView::Created(_) => "Created successfully"@,
            ReplyView::Deleted(_) => "Deleted successfully"@,
            ReplyView::Updated(_) => "Updated successfully"@,
            ReplyView::NoRoute => "Not found"@,
            ReplyView::Failed(e) => message_of(e),
        }
    }
}

impl Reply {
    /// The HTTP status with which the reply is sent.
    pub fn status(&self) -> (s: u16)
        ensures
            s == self@.status(),
    {
        match self {
            Reply::Created(_) => 201,
            Reply::NoRoute => 404,
            Reply::Failed(e) => e.status(),
            _ => 200,
        }
    }

    /// The numeric code of the reply: that of the error, where it is one and has one.
    pub fn code(&self) -> (c: Option<i32>)
        ensures
            c == self@.code(),
    {
        match self {
            Reply::Failed(e) => e.code(),
            _ => None,
        }
    }

    /// The text that is sent with the reply.
    pub fn message(&self) -> (m: &'static str)
        ensures
            m@ == self@.message(),
    {
        match self {
            Reply::Welcome => "Welcome",
            Reply::Listing(_) => "",
            Reply::One(_) => "",
            Reply::Created(_) => "Created successfully",
            Reply::Deleted(_) => "Deleted successfully",
            Reply::Updated(_) => "Updated successfully",
            Reply::NoRoute => "Not found",
            Reply::Failed(e) => e.message(),
        }
    }
}

} // verus!
