//! A request seen from outside: the world that answers a handler's commands,
//! and the run of a handler in it from the first step to the reply.

use vstd::prelude::*;
use crate::flow::{next_step, PendingView, StepView};
use crate::meals::diet_client::DietResponseView;
use crate::meals::ninjas_api::LookupResponseView;
use crate::protocol::{CommandView, OutcomeView, ReplyView};
use crate::records::{BodyView, Kind};
use crate::routing::Service;
use crate::service::{first_step, RequestView};
use crate::store::Db;

verus! {

/// All that a handler can ask about: the chunks of the request body that are
/// still to be read, what the decoder makes of a body, what the nutrition
/// service and the diets service answer for a name, and the store.
pub struct World {
    pub chunks: Seq<Seq<u8>>,
    pub decode: spec_fn(Kind, Seq<u8>) -> Option<BodyView>,
    pub nutrition: spec_fn(Seq<char>) -> LookupResponseView,
    pub diets: spec_fn(Seq<char>) -> DietResponseView,
    pub db: Db,
}

impl World {
    /// What a command does to the world and what comes of it.
    pub open spec fn answer(self, command: CommandView) -> (World, OutcomeView) {
        match command {
            CommandView::ReadChunk => if self.chunks.len() == 0 {
                (self, OutcomeView::EndOfBody)
            } else {
                (
                    World { chunks: self.chunks.drop_first(), ..self },
                    OutcomeView::Chunk(self.chunks[0]),
                )
            },
            CommandView::Decode(kind, bytes) => match (self.decode)(kind, bytes) {
                Some(body) => (self, OutcomeView::Parsed(body)),
                None => (self, OutcomeView::Unparsable),
            },
            CommandView::LookupNutrition(name) => (
                self,
                OutcomeView::Nutrition((self.nutrition)(name)),
            ),
            CommandView::FetchDiet(name) => (self, OutcomeView::Diet((self.diets)(name))),
            _ => {
                let (db, outcome) = self.db.answer(command);
                (World { db, ..self }, outcome)
            },
        }
    }
}

/// How far a step is from the reply, at most, not counting the chunks that
/// are still to be read.
pub open spec fn rank(step: StepView) -> nat {
    match step {
        StepView::Done(_) => 0,
        StepView::Ask(pending, _) => match pending {
            PendingView::Reading(_, _) => 7,
            PendingView::Decoding(_) => 6,
            PendingView::Resolving(_) => 5,
            PendingView::Checking(_) => 4,
            PendingView::LocatingToDelete(_, _) => 3,
            PendingView::LocatingToDeleteByName(_, _) => 3,
            PendingView::LocatingToUpdate(_, _) => 3,
            PendingView::FetchingDiet => 3,
            PendingView::Inserting(_) => 2,
            PendingView::Deleting(_) => 2,
            PendingView::Updating(_) => 2,
            PendingView::Filtering(_) => 2,
            PendingView::Fetching(_) => 1,
            PendingView::Listing(_) => 1,
        },
    }
}

/// The whole course of a request: the world as the handler leaves it, the
/// reply, and the commands that were given on the way, in their order.
pub struct Run {
    pub world: World,
    pub reply: ReplyView,
    pub asked: Seq<CommandView>,
}

/// Runs a handler from a step to its reply: each command is answered by the
/// world, and the outcome decides the next step.
pub open spec fn run(world: World, step: StepView) -> Run
    decreases rank(step), world.chunks.len(),
{
    match step {
        StepView::Done(reply) => Run { world, reply, asked: Seq::<CommandView>::empty() },
        StepView::Ask(pending, command) => {
            let (after, outcome) = world.answer(command);
            let rest = run(after, next_step(pending, outcome));
            Run { world: rest.world, reply: rest.reply, asked: seq![command] + rest.asked }
        },
    }
}

/// Serves a request in a world.
pub open spec fn serve(world: World, service: Service, request: RequestView) -> Run {
    run(world, first_step(service, request))
}

} // verus!
