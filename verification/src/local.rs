//! A service without a network: requests are served against the store in
//! memory, and what the world around the store would answer is given
//! beforehand.

use vstd::prelude::*;
use crate::flow::{resume, Step};
use crate::meals::diet_client::{DietResponse, DietResponseView};
use crate::meals::ninjas_api::{LookupResponse, LookupResponseView};
use crate::memory::MemoryStore;
use crate::protocol::{Command, Outcome, Reply};
use crate::records::{Body, BodyView, Kind};
use crate::routing::Service;
use crate::service::{begin, first_step, Request};
use crate::store::Db;
use crate::world::{rank, run, World};

verus! {

/// What the world around the store answers while one request is served:
/// the chunks in which the body arrives, what the decoder makes of the body,
/// and what the nutrition service and the diets service reply.
#[derive(Debug, PartialEq, Eq)]
pub struct Surroundings {
    pub chunks: Vec<Vec<u8>>,
    pub decoded: Option<Body>,
    pub nutrition: LookupResponse,
    pub diet: DietResponse,
}

impl Surroundings {
    /// The chunks from the one at `next` on.
    pub open spec fn chunks_from(self, next: int) -> Seq<Seq<u8>> {
        self.chunks@.skip(next).map_values(|chunk: Vec<u8>| chunk@)
    }

    /// The decoder: it makes the same of every body.
    pub open spec fn decoder(self) -> spec_fn(Kind, Seq<u8>) -> Option<BodyView> {
        |kind: Kind, bytes: Seq<u8>|
            match self.decoded {
                Some(body) => Some(body@),
                None => None,
            }
    }

    /// The nutrition service: it replies the same for every name.
    pub open spec fn nutrition_service(self) -> spec_fn(Seq<char>) -> LookupResponseView {
        |name: Seq<char>| self.nutrition@
    }

    /// The diets service: it replies the same for every name.
    pub open spec fn diets_service(self) -> spec_fn(Seq<char>) -> DietResponseView {
        |name: Seq<char>| self.diet@
    }

    /// The world that these surroundings and a store make, when the chunks
    /// before `next` have been read.
    pub open spec fn world(self, db: Db, next: int) -> World {
        World {
            chunks: self.chunks_from(next),
            decode: self.decoder(),
            nutrition: self.nutrition_service(),
            diets: self.diets_service(),
            db,
        }
    }
}

/// Serves a request in memory: every command of the handler is answered by
/// the store or by the surroundings until the reply is there. The reply and
/// the store are those of the request's run in the world that the store and
/// the surroundings make.
pub fn serve(
    store: &mut MemoryStore,
    surroundings: &Surroundings,
    service: Service,
    request: Request,
) -> (reply: Reply)
    requires
        old(store)@.wf(),
    ensures
        final(store)@.wf(),
        reply@ == crate::world::serve(
            surroundings.world(old(store)@, 0),
            service,
            request@,
        ).reply,
        final(store)@ == crate::world::serve(
            surroundings.world(old(store)@, 0),
            service,
            request@,
        ).world.db,
{
    let ghost start = store@;
    let ghost first = first_step(service, request@);
    let ghost goal = run(surroundings.world(start, 0), first);
    let mut step = begin(service, request);
    let mut next: usize = 0;
    loop
        invariant
            start == old(store)@,
            first == first_step(service, request@),
            goal == run(surroundings.world(start, 0), first),
            store@.wf(),
            next <= surroundings.chunks.len(),
            run(surroundings.world(store@, next as int), step@).reply == goal.reply,
            run(surroundings.world(store@, next as int), step@).world.db == goal.world.db,
        decreases rank(step@), surroundings.chunks.len() - next,
    {
        let ghost before = surroundings.world(store@, next as int);
        match step {
            Step::Done(reply) => {
                assert(run(before, step@).world == before);
                return reply;
            },
            Step::Ask(pending, command) => {
                let outcome = match command {
                    Command::ReadChunk => {
                        if next < surroundings.chunks.len() {
                            let chunk = surroundings.chunks[next].clone();
                            proof {
                                assert(before.chunks[0] == surroundings.chunks@[next as int]@);
                                assert(before.chunks.drop_first() =~= surroundings.chunks_from(
                                    next + 1,
                                ));
                            }
                            next += 1;
                            Outcome::Chunk(chunk)
                        } else {
                            Outcome::EndOfBody
                        }
                    },
                    Command::Decode(_, _) => match &surroundings.decoded {
                        Some(body) => Outcome::Parsed(body.clone()),
                        None => Outcome::Unparsable,
                    },
                    Command::LookupNutrition(_) => Outcome::Nutrition(
                        surroundings.nutrition.clone(),
                    ),
                    Command::FetchDiet(_) => Outcome::Diet(surroundings.diet.clone()),
                    other => store.execute(other),
                };
                proof {
                    let after = surroundings.world(store@, next as int);
                    assert(before.answer(command@) == (after, outcome@));
                }
                step = resume(pending, outcome);
            },
        }
    }
}

} // verus!
