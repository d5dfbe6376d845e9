//! The laws of the service: what holds of every request in every world.

use vstd::prelude::*;
use crate::errors::ApiError;
use crate::flow::{
    after_decoding, check_then_insert, first_step_to_delete, first_step_to_delete_by_name,
    first_step_to_get, first_step_to_get_by_name, first_step_to_list, first_step_to_list_meals,
    first_step_with_body, next_step, refuse, PendingView, StepView, Target,
};
use crate::meals::diet_client::diet_of;
use crate::meals::diet_filter::{admitted, admitted_meals_are_within, within};
use crate::meals::models::MealView;
use crate::meals::ninjas_api::{dish_of, resolve};
use crate::protocol::{CommandView, OutcomeView, ReplyView};
use crate::records::{BodyView, Kind, NewRecordView, RecordView, RowsView};
use crate::routing::{
    collection_path, decimal, is_numeric, place_among, place_of, selector_of, under, PlaceView,
    SelectorView, Service, Under,
};
use crate::service::{first_step, Method, RequestView};
use crate::store::{rows_of, Db};
use crate::store_laws::{lemma_found, lemma_removed, lemma_unique, store_stays_well_formed};
use crate::validation::{declares_json, valid_diet, valid_dish, valid_meal, MAX_BODY_BYTES};
use crate::world::{rank, run, serve, World};

verus! {

/// Whether a service holds the records of a kind.
pub open spec fn serves(service: Service, kind: Kind) -> bool {
    match service {
        Service::Meals => kind == Kind::Dish || kind == Kind::Meal,
        Service::Diets => kind == Kind::Diet,
    }
}

/// The path of one record: the path of its collection, a slash, and a segment.
pub open spec fn item_path(kind: Kind, segment: Seq<char>) -> Seq<char> {
    collection_path(kind) + seq!['/'] + segment
}

proof fn lemma_collection_paths()
    ensures
        collection_path(Kind::Dish) =~= seq!['/', 'd', 'i', 's', 'h', 'e', 's'],
        collection_path(Kind::Meal) =~= seq!['/', 'm', 'e', 'a', 'l', 's'],
        collection_path(Kind::Diet) =~= seq!['/', 'd', 'i', 'e', 't', 's'],
{
    reveal_strlit("/dishes");
    reveal_strlit("/meals");
    reveal_strlit("/diets");
}

/// The path of a collection names that collection in the service that holds it.
pub proof fn collection_paths_name_collections(service: Service, kind: Kind)
    requires
        serves(service, kind),
    ensures
        place_of(service, collection_path(kind)) == PlaceView::Collection(kind),
{
    lemma_collection_paths();
    let path = collection_path(kind);
    assert(path.subrange(0, path.len() as int) =~= path);
    if kind == Kind::Meal {
        let dishes = collection_path(Kind::Dish);
        assert(path.len() < dishes.len());
    }
}

/// The path of a record names that record in the service that holds it: by
/// id where the segment is numeric, and by name where it is not.
pub proof fn item_paths_name_items(service: Service, kind: Kind, segment: Seq<char>)
    requires
        serves(service, kind),
    ensures
        place_of(service, item_path(kind, segment)) == PlaceView::Item(kind, selector_of(segment)),
        is_numeric(segment) && decimal(segment) <= i32::MAX ==> selector_of(segment)
            == SelectorView::Id(decimal(segment) as i32),
        !is_numeric(segment) ==> selector_of(segment) == SelectorView::Name(segment),
{
    lemma_collection_paths();
    let prefix = collection_path(kind);
    let path = item_path(kind, segment);
    assert(path.subrange(0, prefix.len() as int) =~= prefix);
    assert(path[prefix.len() as int] == '/');
    assert(path.subrange(prefix.len() as int + 1, path.len() as int) =~= segment);
    assert(under(path, prefix) == Under::Below(segment));
    if kind == Kind::Meal {
        let dishes = collection_path(Kind::Dish);
        if path.len() >= dishes.len() {
            assert(path.subrange(0, dishes.len() as int)[1] == 'm');
            assert(dishes[1] == 'd');
        }
        assert(place_among(Kind::Dish, path) is None);
    }
}

/// A request for a record by a numeric segment looks the record up, or
/// deletes it, by the id that the segment writes, and finds nothing where
/// the number is beyond all ids; a request by any other segment does so by
/// the name that the segment is.
pub proof fn numeric_segments_go_by_id(
    service: Service,
    kind: Kind,
    segment: Seq<char>,
    request: RequestView,
)
    requires
        serves(service, kind),
        request.path == item_path(kind, segment),
        request.method == Method::Get || request.method == Method::Delete,
    ensures
        is_numeric(segment) && decimal(segment) <= i32::MAX ==> first_step(service, request) == (
        if request.method == Method::Get {
            first_step_to_get(kind, decimal(segment) as i32)
        } else {
            first_step_to_delete(kind, decimal(segment) as i32)
        }),
        is_numeric(segment) && decimal(segment) > i32::MAX ==> first_step(service, request)
            == refuse(ApiError::EntityNotFound),
        !is_numeric(segment) ==> first_step(service, request) == (if request.method
            == Method::Get {
            first_step_to_get_by_name(kind, segment)
        } else {
            first_step_to_delete_by_name(kind, segment)
        }),
{
    item_paths_name_items(service, kind, segment);
}

/// Deleting a whole collection is never allowed: the reply has the status
/// 405 whatever the store holds, nothing is asked of the store, and the
/// world stays as it was.
pub proof fn collection_deletion_is_never_allowed(
    world: World,
    service: Service,
    kind: Kind,
    request: RequestView,
)
    requires
        serves(service, kind),
        request.path == collection_path(kind),
        request.method == Method::Delete,
    ensures
        serve(world, service, request).reply == ReplyView::Failed(ApiError::MethodNotAllowed),
        serve(world, service, request).reply.status() == 405,
        serve(world, service, request).asked.len() == 0,
        serve(world, service, request).world == world,
{
    collection_paths_name_collections(service, kind);
}

/// Deleting by an id that no record has is answered with the status 404
/// and leaves the store as it was: the store is asked to find the record and
/// for nothing else.
pub proof fn deleting_what_is_missing_changes_nothing(world: World, kind: Kind, id: i32)
    requires
        !world.db.table(kind).has_id(id),
    ensures
        run(world, first_step_to_delete(kind, id)).reply == ReplyView::Failed(
            ApiError::EntityNotFound,
        ),
        run(world, first_step_to_delete(kind, id)).reply.status() == 404,
        run(world, first_step_to_delete(kind, id)).world == world,
        run(world, first_step_to_delete(kind, id)).asked =~= seq![CommandView::FindById(kind, id)],
{
    reveal_with_fuel(run, 2);
}

/// Deleting by a name that no record has is answered with the status 404
/// and leaves the store as it was.
pub proof fn deleting_a_missing_name_changes_nothing(world: World, kind: Kind, name: Seq<char>)
    requires
        !world.db.table(kind).has_name(name),
    ensures
        run(world, first_step_to_delete_by_name(kind, name)).reply == ReplyView::Failed(
            ApiError::EntityNotFound,
        ),
        run(world, first_step_to_delete_by_name(kind, name)).world == world,
        run(world, first_step_to_delete_by_name(kind, name)).asked =~= seq![
            CommandView::FindByName(kind, name),
        ],
{
    reveal_with_fuel(run, 2);
}

/// Whether the command of a step is the one that its handler waits for.
/// Every step that a handler takes is of this kind.
pub open spec fn coherent(step: StepView) -> bool {
    match step {
        StepView::Done(_) => true,
        StepView::Ask(pending, command) => match pending {
            PendingView::Reading(_, _) => command is ReadChunk,
            PendingView::Decoding(_) => command is Decode,
            PendingView::Resolving(_) => command is LookupNutrition,
            PendingView::Checking(new) => command == CommandView::FindByName(
                new.kind(),
                new.name(),
            ),
            PendingView::Inserting(kind) => command matches CommandView::Insert(new) && new.kind()
                == kind,
            PendingView::Fetching(_) => command is FindById || command is FindByName,
            PendingView::Listing(_) => command is List,
            PendingView::LocatingToDelete(_, _) => command is FindById,
            PendingView::LocatingToDeleteByName(_, _) => command is FindByName,
            PendingView::LocatingToUpdate(_, _) => command is FindById,
            PendingView::Deleting(_) => command is DeleteById || command is DeleteByName,
            PendingView::Updating(_) => command is Update,
            PendingView::FetchingDiet => command is FetchDiet,
            PendingView::Filtering(_) => command is List,
        },
    }
}

/// The first step of every request is coherent.
pub proof fn first_steps_are_coherent(service: Service, request: RequestView)
    ensures
        coherent(first_step(service, request)),
{
}

/// A step that follows a coherent step is coherent.
pub proof fn next_steps_are_coherent(pending: PendingView, outcome: OutcomeView)
    ensures
        coherent(next_step(pending, outcome)),
{
}

/// Whether a reply says that the store was changed.
pub open spec fn reports_a_change(reply: ReplyView) -> bool {
    reply is Created || reply is Deleted || reply is Updated
}

/// A request that is refused has no effect: whenever a handler leaves the
/// store other than it found it, its reply is the id of what was created,
/// deleted or updated. Lookups, listings and every refusal leave the store
/// as it was.
pub proof fn only_reported_changes_happen(world: World, step: StepView)
    requires
        coherent(step),
    ensures
        !reports_a_change(run(world, step).reply) ==> run(world, step).world.db == world.db,
    decreases rank(step), world.chunks.len(),
{
    match step {
        StepView::Done(_) => {},
        StepView::Ask(pending, command) => {
            let (after, outcome) = world.answer(command);
            let next = next_step(pending, outcome);
            next_steps_are_coherent(pending, outcome);
            only_reported_changes_happen(after, next);
            if after.db != world.db {
                assert(outcome is Created || outcome is Applied);
                reveal_with_fuel(run, 2);
            }
        },
    }
}

/// A request that is refused has no effect on the store, whatever the
/// request and whatever the store.
pub proof fn refused_requests_change_nothing(
    world: World,
    service: Service,
    request: RequestView,
)
    ensures
        !reports_a_change(serve(world, service, request).reply) ==> serve(
            world,
            service,
            request,
        ).world.db == world.db,
{
    first_steps_are_coherent(service, request);
    only_reported_changes_happen(world, first_step(service, request));
}

/// All the chunks of a body, one after the other.
pub open spec fn joined(chunks: Seq<Seq<u8>>) -> Seq<u8>
    decreases chunks.len(),
{
    if chunks.len() == 0 {
        Seq::<u8>::empty()
    } else {
        chunks[0] + joined(chunks.drop_first())
    }
}

/// The step at which a handler has read `read` and asks for the next chunk.
pub open spec fn reading(target: Target, read: Seq<u8>) -> StepView {
    StepView::Ask(PendingView::Reading(target, read), CommandView::ReadChunk)
}

/// The step at which a handler has read the whole body and asks for it to
/// be decoded.
pub open spec fn decoding(target: Target, body: Seq<u8>) -> StepView {
    StepView::Ask(PendingView::Decoding(target), CommandView::Decode(target.shape(), body))
}

/// The world once the body has been read to its end.
pub open spec fn body_read(world: World) -> World {
    World { chunks: Seq::<Seq<u8>>::empty(), ..world }
}

/// A body that is longer than the limit is refused as too large while it is
/// read: nothing is asked but chunks, so nothing is decoded and the store
/// is neither asked nor changed.
pub proof fn oversized_body_is_refused(world: World, target: Target, read: Seq<u8>)
    requires
        read.len() <= MAX_BODY_BYTES,
        read.len() + joined(world.chunks).len() > MAX_BODY_BYTES,
    ensures
        run(world, reading(target, read)).reply == ReplyView::Failed(ApiError::PayloadTooLarge),
        run(world, reading(target, read)).reply.status() == 413,
        run(world, reading(target, read)).world.db == world.db,
        forall|i: int|
            0 <= i < run(world, reading(target, read)).asked.len() ==> (#[trigger] run(
                world,
                reading(target, read),
            ).asked[i]) == CommandView::ReadChunk,
    decreases world.chunks.len(),
{
    reveal_with_fuel(run, 2);
    if world.chunks.len() > 0 {
        let chunk = world.chunks[0];
        let rest = World { chunks: world.chunks.drop_first(), ..world };
        if read.len() + chunk.len() <= MAX_BODY_BYTES {
            oversized_body_is_refused(rest, target, read + chunk);
        }
    }
}

/// A body within the limit is read to its end and then decoded, whole and
/// in the order of its chunks.
pub proof fn body_within_limit_is_decoded(world: World, target: Target, read: Seq<u8>)
    requires
        read.len() + joined(world.chunks).len() <= MAX_BODY_BYTES,
    ensures
        run(world, reading(target, read)).reply == run(
            body_read(world),
            decoding(target, read + joined(world.chunks)),
        ).reply,
        run(world, reading(target, read)).world == run(
            body_read(world),
            decoding(target, read + joined(world.chunks)),
        ).world,
    decreases world.chunks.len(),
{
    reveal_with_fuel(run, 2);
    if world.chunks.len() > 0 {
        let chunk = world.chunks[0];
        let rest = World { chunks: world.chunks.drop_first(), ..world };
        body_within_limit_is_decoded(rest, target, read + chunk);
        assert((read + chunk) + joined(rest.chunks) =~= read + joined(world.chunks));
        assert(body_read(rest) == body_read(world));
    } else {
        assert(read + joined(world.chunks) =~= read);
        assert(world.chunks =~= Seq::<Seq<u8>>::empty());
        assert(body_read(world) == world);
    }
}

/// What becomes of a request with a body, check by check. First the content
/// type: without the JSON media type the request is refused before anything
/// is read. Then the size: a body beyond the limit is refused before it is
/// decoded. Then the shape: a body that cannot be decoded is malformed. Only
/// then do the fields of the body count.
pub proof fn body_is_checked_in_order(
    world: World,
    target: Target,
    content_type: Option<Seq<char>>,
)
    ensures
        ({
            let r = run(world, first_step_with_body(target, content_type));
            let body = joined(world.chunks);
            if !declares_json(content_type) {
                r.reply == ReplyView::Failed(ApiError::ContentTypeError) && r.world == world
                    && r.asked.len() == 0
            } else if body.len() > MAX_BODY_BYTES {
                r.reply == ReplyView::Failed(ApiError::PayloadTooLarge) && r.world.db == world.db
            } else {
                match (world.decode)(target.shape(), body) {
                    None => r.reply == ReplyView::Failed(ApiError::MalformedBody) && r.world
                        == body_read(world),
                    Some(decoded) => r.reply == run(
                        body_read(world),
                        after_decoding(target, decoded),
                    ).reply && r.world == run(
                        body_read(world),
                        after_decoding(target, decoded),
                    ).world,
                }
            }
        }),
{
    let nothing = Seq::<u8>::empty();
    if declares_json(content_type) {
        assert(first_step_with_body(target, content_type) == reading(target, nothing));
        if joined(world.chunks).len() > MAX_BODY_BYTES {
            oversized_body_is_refused(world, target, nothing);
        } else {
            body_within_limit_is_decoded(world, target, nothing);
            assert(nothing + joined(world.chunks) =~= joined(world.chunks));
            reveal_with_fuel(run, 2);
        }
    }
}

/// The record that a request asks the store to insert, where the request
/// is for a creation and passes the checks of its fields: for a dish, the
/// facts that the nutrition service has for its name, summed; for a meal
/// and a diet, the fields of the body.
pub open spec fn submitted(world: World, target: Target, body: BodyView) -> Result<
    NewRecordView,
    ApiError,
> {
    match (target, body) {
        (Target::CreateDish, BodyView::Dish(req)) => match valid_dish(req) {
            Some(name) => match resolve(name, (world.nutrition)(name)) {
                Ok(info) => Ok(NewRecordView::Dish(dish_of(info))),
                Err(e) => Err(e),
            },
            None => Err(ApiError::MissingField),
        },
        (Target::CreateMeal, BodyView::Meal(req)) => match valid_meal(req) {
            Some(meal) => Ok(NewRecordView::Meal(meal)),
            None => Err(ApiError::MissingField),
        },
        (Target::CreateDiet, BodyView::Diet(req)) => match valid_diet(req) {
            Some(diet) => Ok(NewRecordView::Diet(diet)),
            None => Err(ApiError::MissingField),
        },
        _ => Err(ApiError::MalformedBody),
    }
}

/// A creation whose body is decoded either fails a check of its fields, or
/// of the nutrition lookup, and leaves the world as it was, or goes on to
/// insert what was submitted.
pub proof fn creation_submits_what_the_body_says(world: World, target: Target, body: BodyView)
    requires
        !(target is UpdateMeal),
    ensures
        match submitted(world, target, body) {
            Ok(new) => run(world, after_decoding(target, body)).reply == run(
                world,
                check_then_insert(new),
            ).reply && run(world, after_decoding(target, body)).world == run(
                world,
                check_then_insert(new),
            ).world,
            Err(e) => run(world, after_decoding(target, body)).reply == ReplyView::Failed(e)
                && run(world, after_decoding(target, body)).world == world,
        },
{
    reveal_with_fuel(run, 2);
}

/// What an insertion comes to: the reply and the store are those of the
/// store's own insertion. A name that is taken is a duplicate, whether the
/// check before the insertion finds it or the store reports it; a record
/// that the store rejects violates a reference; otherwise the id of the new
/// record is replied.
pub proof fn insertion_follows_the_store(world: World, new: NewRecordView)
    requires
        world.db.wf(),
    ensures
        run(world, check_then_insert(new)).world == (World {
            db: world.db.insert(new).0,
            ..world
        }),
        run(world, check_then_insert(new)).reply == (match world.db.insert(new).1 {
            OutcomeView::Created(record) => ReplyView::Created(record.id()),
            OutcomeView::Conflict => ReplyView::Failed(ApiError::DuplicateNameError),
            _ => ReplyView::Failed(ApiError::ForeignKeyViolation),
        }),
        world.db.table(new.kind()).has_name(new.name()) ==> run(
            world,
            check_then_insert(new),
        ).world == world,
{
    reveal_with_fuel(run, 3);
    lemma_found(world.db.table(new.kind()), new.kind());
}

/// A lookup replies the record with the id or the name where the store has
/// one, and 404 where it has none; it never changes the store.
pub proof fn lookup_follows_the_store(world: World, kind: Kind, id: i32, name: Seq<char>)
    requires
        world.db.wf(),
    ensures
        run(world, first_step_to_get(kind, id)).world == world,
        run(world, first_step_to_get(kind, id)).reply == (match world.db.table(kind).by_id(id) {
            Some(record) => ReplyView::One(record),
            None => ReplyView::Failed(ApiError::EntityNotFound),
        }),
        run(world, first_step_to_get_by_name(kind, name)).world == world,
        run(world, first_step_to_get_by_name(kind, name)).reply == (match world.db.table(
            kind,
        ).by_name(name) {
            Some(record) => ReplyView::One(record),
            None => ReplyView::Failed(ApiError::EntityNotFound),
        }),
{
    reveal_with_fuel(run, 2);
    lemma_found(world.db.table(kind), kind);
}

/// A listing replies all the records of its kind, in the order of the
/// store; it never changes the store.
pub proof fn listing_follows_the_store(world: World, kind: Kind)
    ensures
        run(world, first_step_to_list(kind)).world == world,
        run(world, first_step_to_list(kind)).reply == ReplyView::Listing(
            rows_of(kind, world.db.table(kind).rows),
        ),
{
    reveal_with_fuel(run, 2);
}

/// Whatever is created can be read back: after a creation that replied an
/// id, a lookup by that id, and one by the name, reply the record that was
/// submitted, under that id.
pub proof fn created_record_is_retrievable(world: World, new: NewRecordView, id: i32)
    requires
        world.db.wf(),
        run(world, check_then_insert(new)).reply == ReplyView::Created(id),
    ensures
        ({
            let after = run(world, check_then_insert(new)).world;
            let record = world.db.stored(new, id);
            &&& after.db.wf()
            &&& record.id() == id
            &&& record.kind() == new.kind()
            &&& record.name() == new.name()
            &&& run(after, first_step_to_get(new.kind(), id)).reply == ReplyView::One(record)
            &&& run(after, first_step_to_get_by_name(new.kind(), new.name())).reply
                == ReplyView::One(record)
        }),
{
    insertion_follows_the_store(world, new);
    store_stays_well_formed(world.db, CommandView::Insert(new));
    let after = run(world, check_then_insert(new)).world;
    let table = after.db.table(new.kind());
    let last = table.rows.len() - 1;
    lemma_unique(table, new.kind(), last);
    lookup_follows_the_store(after, new.kind(), id, new.name());
}

/// The record that the store makes of a new one keeps every field that was
/// submitted.
pub proof fn stored_record_keeps_its_fields(db: Db, new: NewRecordView, id: i32)
    ensures
        match (new, db.stored(new, id)) {
            (NewRecordView::Dish(d), RecordView::Dish(r)) => r.id == id && r.name == d.name
                && r.cal == d.cal && r.sodium == d.sodium && r.sugar == d.sugar && r.size
                == d.size,
            (NewRecordView::Meal(m), RecordView::Meal(r)) => r.id == id && r.name == m.name
                && r.appetizer == Some(m.appetizer) && r.main == Some(m.main) && r.dessert
                == Some(m.dessert),
            (NewRecordView::Diet(d), RecordView::Diet(r)) => r.id == id && r.name == d.name
                && r.cal == d.cal && r.sodium == d.sodium && r.sugar == d.sugar,
            _ => false,
        },
{
}

/// Creating a second record of a name: once a creation has replied an
/// id, a creation of the same kind and name is refused as a duplicate, the
/// store stays as the first creation left it, and the first record is
/// still read back unchanged.
pub proof fn second_creation_is_a_duplicate(
    world: World,
    first: NewRecordView,
    second: NewRecordView,
    id: i32,
)
    requires
        world.db.wf(),
        first.kind() == second.kind(),
        first.name() == second.name(),
        run(world, check_then_insert(first)).reply == ReplyView::Created(id),
    ensures
        ({
            let after = run(world, check_then_insert(first)).world;
            let again = run(after, check_then_insert(second));
            &&& again.reply == ReplyView::Failed(ApiError::DuplicateNameError)
            &&& again.reply.status() == 422
            &&& again.world == after
            &&& run(again.world, first_step_to_get(first.kind(), id)).reply == ReplyView::One(
                world.db.stored(first, id),
            )
        }),
{
    created_record_is_retrievable(world, first, id);
    let after = run(world, check_then_insert(first)).world;
    insertion_follows_the_store(world, first);
    let table = after.db.table(first.kind());
    lemma_unique(table, first.kind(), table.rows.len() - 1);
    insertion_follows_the_store(after, second);
}

/// Whatever a request creates can be read back. Where a request that
/// creates an entity is answered with an id, its body was decoded and passed
/// every check, and a lookup by that id then replies the record that was
/// submitted (for a dish: with the nutrition that was resolved for its
/// name), under that id.
pub proof fn created_entity_is_retrievable(
    world: World,
    target: Target,
    content_type: Option<Seq<char>>,
    id: i32,
)
    requires
        world.db.wf(),
        !(target is UpdateMeal),
        run(world, first_step_with_body(target, content_type)).reply == ReplyView::Created(id),
    ensures
        ({
            let after = run(world, first_step_with_body(target, content_type)).world;
            let body = (world.decode)(target.shape(), joined(world.chunks));
            &&& declares_json(content_type)
            &&& joined(world.chunks).len() <= MAX_BODY_BYTES
            &&& body is Some
            &&& submitted(world, target, body->Some_0) is Ok
            &&& after.db.wf()
            &&& ({
                let new = submitted(world, target, body->Some_0)->Ok_0;
                let record = world.db.stored(new, id);
                &&& record.id() == id
                &&& record.name() == new.name()
                &&& run(after, first_step_to_get(new.kind(), id)).reply == ReplyView::One(record)
                &&& run(after, first_step_to_get_by_name(new.kind(), new.name())).reply
                    == ReplyView::One(record)
            })
        }),
{
    body_is_checked_in_order(world, target, content_type);
    let body = (world.decode)(target.shape(), joined(world.chunks));
    let read = body_read(world);
    creation_submits_what_the_body_says(read, target, body->Some_0);
    let new = submitted(read, target, body->Some_0)->Ok_0;
    created_record_is_retrievable(read, new, id);
}

/// What a deletion by id comes to: the reply and the store are those of the
/// store's own deletion, and a record that was deleted is gone.
pub proof fn deletion_follows_the_store(world: World, kind: Kind, id: i32)
    requires
        world.db.wf(),
    ensures
        ({
            let r = run(world, first_step_to_delete(kind, id));
            let (db, outcome) = world.db.answer(CommandView::DeleteById(kind, id));
            &&& r.world == World { db, ..world }
            &&& r.reply == match outcome {
                OutcomeView::Applied => ReplyView::Deleted(id),
                OutcomeView::Missing => ReplyView::Failed(ApiError::EntityNotFound),
                _ => ReplyView::Failed(ApiError::StorageFailure),
            }
            &&& r.reply == ReplyView::Deleted(id) ==> !r.world.db.table(kind).has_id(id) && run(
                r.world,
                first_step_to_delete(kind, id),
            ).reply == ReplyView::Failed(ApiError::EntityNotFound)
        }),
{
    reveal_with_fuel(run, 3);
    let table = world.db.table(kind);
    lemma_found(table, kind);
    if table.has_id(id) {
        let at = table.index_of_id(id);
        lemma_removed(table, kind, at);
        let r = run(world, first_step_to_delete(kind, id));
        if r.reply == ReplyView::Deleted(id) {
            deleting_what_is_missing_changes_nothing(r.world, kind, id);
        }
    }
}

/// What a deletion by name comes to: the reply carries the id of the record
/// that had the name, and afterwards no record has the name.
pub proof fn deletion_by_name_follows_the_store(world: World, kind: Kind, name: Seq<char>)
    requires
        world.db.wf(),
    ensures
        ({
            let r = run(world, first_step_to_delete_by_name(kind, name));
            let (db, outcome) = world.db.answer(CommandView::DeleteByName(kind, name));
            &&& r.world == World { db, ..world }
            &&& r.reply == match outcome {
                OutcomeView::Applied => ReplyView::Deleted(
                    world.db.table(kind).by_name(name)->Some_0.id(),
                ),
                OutcomeView::Missing => ReplyView::Failed(ApiError::EntityNotFound),
                _ => ReplyView::Failed(ApiError::StorageFailure),
            }
            &&& r.reply is Deleted ==> !r.world.db.table(kind).has_name(name)
        }),
{
    reveal_with_fuel(run, 3);
    let table = world.db.table(kind);
    lemma_found(table, kind);
    if table.has_name(name) {
        lemma_removed(table, kind, table.index_of_name(name));
    }
}

/// What the replacement of a meal comes to, once its body has passed the
/// checks: a meal that does not exist is not found and nothing changes; a
/// replacement that the store refuses is a storage failure and nothing
/// changes; otherwise the meal has the new fields under its old id.
pub proof fn update_follows_the_store(world: World, id: i32, body: BodyView)
    requires
        world.db.wf(),
    ensures
        ({
            let r = run(world, after_decoding(Target::UpdateMeal(id), body));
            match body {
                BodyView::Meal(req) => match valid_meal(req) {
                    Some(meal) => {
                        let (db, outcome) = world.db.update(id, meal);
                        &&& r.world == World { db, ..world }
                        &&& r.reply == match outcome {
                            OutcomeView::Applied => ReplyView::Updated(id),
                            OutcomeView::Missing => ReplyView::Failed(ApiError::EntityNotFound),
                            _ => ReplyView::Failed(ApiError::StorageFailure),
                        }
                        &&& r.reply == ReplyView::Updated(id) ==> r.world.db.meals.by_id(id)
                            == Some(world.db.stored(NewRecordView::Meal(meal), id))
                    },
                    None => r.reply == ReplyView::Failed(ApiError::MissingField) && r.world
                        == world,
                },
                _ => r.reply == ReplyView::Failed(ApiError::MalformedBody) && r.world == world,
            }
        }),
{
    reveal_with_fuel(run, 3);
    lemma_found(world.db.meals, Kind::Meal);
    match body {
        BodyView::Meal(req) => match valid_meal(req) {
            Some(meal) => {
                let after = world.db.update(id, meal).0;
                if after != world.db {
                    store_stays_well_formed(world.db, CommandView::Update(id, meal));
                    lemma_unique(after.meals, Kind::Meal, world.db.meals.index_of_id(id));
                }
            },
            None => {},
        },
        _ => {},
    }
}

/// The meals of a store.
pub open spec fn meals_of(db: Db) -> Seq<MealView> {
    db.meals.rows.map_values(|r: RecordView| r->Meal_0)
}

/// A meal listing without a diet, or with an empty one, replies all the
/// meals of the store.
pub proof fn listing_without_diet_is_unfiltered(world: World, diet: Option<Seq<char>>)
    requires
        diet is None || diet->Some_0.len() == 0,
    ensures
        run(world, first_step_to_list_meals(diet)).reply == ReplyView::Listing(
            RowsView::Meals(meals_of(world.db)),
        ),
        run(world, first_step_to_list_meals(diet)).world == world,
{
    reveal_with_fuel(run, 2);
}

/// A meal listing with a diet. Where the diets service has the diet, the
/// reply lists the meals of the store that the diet admits, in their order:
/// each of them is within all three bounds, and a meal of which an amount is
/// unknown is not among them. Where the service has no such diet, the
/// reply says so; where it cannot be reached or cannot be understood, the
/// reply says that instead. The store is never changed.
pub proof fn listing_with_diet_is_filtered(world: World, name: Seq<char>)
    requires
        name.len() > 0,
    ensures
        run(world, first_step_to_list_meals(Some(name))).world == world,
        match diet_of((world.diets)(name)) {
            Ok(diet) => run(world, first_step_to_list_meals(Some(name))).reply
                == ReplyView::Listing(RowsView::Meals(admitted(meals_of(world.db), diet)))
                && forall|i: int|
                0 <= i < admitted(meals_of(world.db), diet).len() ==> within(
                    #[trigger] admitted(meals_of(world.db), diet)[i],
                    diet,
                ),
            Err(e) => run(world, first_step_to_list_meals(Some(name))).reply
                == ReplyView::Failed(e) && (e == ApiError::DietNotFound || e
                == ApiError::RemoteServiceUnavailable),
        },
{
    reveal_with_fuel(run, 3);
    match diet_of((world.diets)(name)) {
        Ok(diet) => {
            assert forall|i: int| 0 <= i < admitted(meals_of(world.db), diet).len() implies within(
                #[trigger] admitted(meals_of(world.db), diet)[i],
                diet,
            ) by {
                admitted_meals_are_within(meals_of(world.db), diet, i);
            }
        },
        Err(e) => {},
    }
}

} // verus!
