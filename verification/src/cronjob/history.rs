//! The engine over time: what is in flight after any run of polls and ended
//! tasks, what one cycle leaves behind, and how long it takes in good times
//! until every escrow is settled.

use super::runner::{
    dispatch, has_task, in_flight_after, lemma_in_flight_is_held_or_planned,
    lemma_pending_escrow_gets_task, lemma_pending_escrows_are_in_flight,
    lemma_planned_tasks_are_new_and_distinct, planned_tasks, task_index, EscrowRecord,
    EscrowRecordView, SettlementTask, SettlementTaskView,
};
use crate::registry::InFlightRegistry;
use crate::state::EscrowState;
use vstd::prelude::*;

verus! {

/// One thing that happens to the registry.
pub enum Happening {
    /// A poll brought this listing, and it was dispatched.
    Listed(Seq<EscrowRecordView>),
    /// The task for this escrow ended, and the escrow was released.
    Finished(Seq<char>),
}

/// What is in flight after a history that began with an empty registry.
pub open spec fn in_flight_at(history: Seq<Happening>) -> Set<Seq<char>>
    decreases history.len(),
{
    if history.len() == 0 {
        Set::empty()
    } else {
        let before = in_flight_at(history.drop_last());
        match history.last() {
            Happening::Listed(records) => in_flight_after(before, records),
            Happening::Finished(id) => before.remove(id),
        }
    }
}

/// How many of `tasks` settle the escrow `id`.
pub open spec fn count_tasks(tasks: Seq<SettlementTaskView>, id: Seq<char>) -> nat
    decreases tasks.len(),
{
    if tasks.len() == 0 {
        0
    } else if tasks.last().escrow_id == id {
        count_tasks(tasks.drop_last(), id) + 1
    } else {
        count_tasks(tasks.drop_last(), id)
    }
}

/// How many tasks for the escrow `id` are running after a history: those that
/// were started, less those that ended.
pub open spec fn running_tasks(history: Seq<Happening>, id: Seq<char>) -> int
    decreases history.len(),
{
    if history.len() == 0 {
        0
    } else {
        let before = running_tasks(history.drop_last(), id);
        match history.last() {
            Happening::Listed(records) => before + count_tasks(
                planned_tasks(in_flight_at(history.drop_last()), records),
                id,
            ),
            Happening::Finished(ended) => if ended == id {
                before - 1
            } else {
                before
            },
        }
    }
}

/// A history that can happen: a task ends only while it runs.
pub open spec fn can_happen(history: Seq<Happening>) -> bool
    decreases history.len(),
{
    history.len() == 0 || {
        &&& can_happen(history.drop_last())
        &&& history.last() matches Happening::Finished(ended) ==> running_tasks(
            history.drop_last(),
            ended,
        ) > 0
    }
}

/// Among tasks of which no two settle the same escrow, an escrow has one task
/// or none.
pub proof fn lemma_count_of_distinct_tasks(tasks: Seq<SettlementTaskView>, id: Seq<char>)
    requires
        forall|i: int, j: int|
            0 <= i < j < tasks.len() ==> (#[trigger] tasks[i]).escrow_id != (
            #[trigger] tasks[j]).escrow_id,
    ensures
        count_tasks(tasks, id) == if has_task(tasks, id) {
            1nat
        } else {
            0nat
        },
    decreases tasks.len(),
{
    if tasks.len() > 0 {
        let earlier = tasks.drop_last();
        assert forall|i: int, j: int| 0 <= i < j < earlier.len() implies (
        #[trigger] earlier[i]).escrow_id != (#[trigger] earlier[j]).escrow_id by {
            assert(earlier[i] == tasks[i] && earlier[j] == tasks[j]);
        }
        lemma_count_of_distinct_tasks(earlier, id);
        if has_task(earlier, id) {
            // No two tasks settle `id`, so the last one does not.
            assert(tasks[task_index(earlier, id)] == earlier[task_index(earlier, id)]);
        } else if has_task(tasks, id) && tasks.last().escrow_id != id {
            // A task for `id` that is not the last is one of the earlier.
            assert(earlier[task_index(tasks, id)] == tasks[task_index(tasks, id)]);
        }
    }
}

/// At every moment, at most one settlement task runs for any escrow, and the
/// registry holds exactly the escrows for which one runs. A poll that lists
/// an escrow again while its task is still running starts no second task.
pub proof fn lemma_at_most_one_task_per_escrow(history: Seq<Happening>, id: Seq<char>)
    requires
        can_happen(history),
    ensures
        0 <= running_tasks(history, id) <= 1,
        in_flight_at(history).contains(id) <==> running_tasks(history, id) == 1,
    decreases history.len(),
{
    if history.len() > 0 {
        let earlier = history.drop_last();
        lemma_at_most_one_task_per_escrow(earlier, id);
        match history.last() {
            Happening::Listed(records) => {
                let held = in_flight_at(earlier);
                lemma_planned_tasks_are_new_and_distinct(held, records);
                lemma_count_of_distinct_tasks(planned_tasks(held, records), id);
                lemma_in_flight_is_held_or_planned(held, records, id);
                if has_task(planned_tasks(held, records), id) {
                    // A planned task is for an escrow that nothing held.
                    let tasks = planned_tasks(held, records);
                    assert(!held.contains(tasks[task_index(tasks, id)].escrow_id));
                }
            },
            Happening::Finished(ended) => {},
        }
    }
}

/// After a poll that lists an escrow as pending, exactly one settlement task
/// runs for it, whatever happened before: the one that ran already, or the
/// one that the poll started.
pub proof fn lemma_listed_pending_escrow_is_being_settled(
    history: Seq<Happening>,
    records: Seq<EscrowRecordView>,
    k: int,
)
    requires
        can_happen(history),
        0 <= k < records.len(),
        records[k].account.state == EscrowState::Pending,
    ensures
        can_happen(history.push(Happening::Listed(records))),
        running_tasks(history.push(Happening::Listed(records)), records[k].id) == 1,
{
    let longer = history.push(Happening::Listed(records));
    assert(longer.drop_last() =~= history);
    lemma_pending_escrows_are_in_flight(in_flight_at(history), records, k);
    lemma_at_most_one_task_per_escrow(longer, records[k].id);
}

/// Once the task for an escrow ended, none runs for it, whatever the outcome
/// was; the next poll that lists the escrow as pending starts a new one.
pub proof fn lemma_ended_task_leaves_nothing_behind(
    history: Seq<Happening>,
    id: Seq<char>,
    records: Seq<EscrowRecordView>,
    k: int,
)
    requires
        can_happen(history),
        in_flight_at(history).contains(id),
        0 <= k < records.len(),
        records[k].id == id,
        records[k].account.state == EscrowState::Pending,
    ensures
        can_happen(history.push(Happening::Finished(id))),
        running_tasks(history.push(Happening::Finished(id)), id) == 0,
        !in_flight_at(history.push(Happening::Finished(id))).contains(id),
        has_task(planned_tasks(in_flight_at(history.push(Happening::Finished(id))), records), id),
{
    let ended = history.push(Happening::Finished(id));
    assert(ended.drop_last() =~= history);
    lemma_at_most_one_task_per_escrow(history, id);
    lemma_at_most_one_task_per_escrow(ended, id);
    lemma_pending_escrow_gets_task(in_flight_at(ended), records, k);
}

/// The in-flight registry together with the history that made it what it
/// is. The history is kept for the proofs alone.
pub struct Flights {
    registry: InFlightRegistry,
    history: Ghost<Seq<Happening>>,
}

impl Flights {
    /// The escrows in flight.
    pub closed spec fn in_flight(&self) -> Set<Seq<char>> {
        self.registry@
    }

    /// What happened so far.
    pub closed spec fn history(&self) -> Seq<Happening> {
        self.history@
    }

    /// The registry is what its history makes it, and the history is one that
    /// can happen.
    pub open spec fn coherent(&self) -> bool {
        can_happen(self.history()) && self.in_flight() == in_flight_at(self.history())
    }

    /// Nothing in flight, and nothing happened yet.
    pub fn new() -> (flights: Flights)
        ensures
            flights.coherent(),
            flights.history() == Seq::<Happening>::empty(),
            flights.in_flight() == Set::<Seq<char>>::empty(),
    {
        Flights { registry: InFlightRegistry::new(), history: Ghost(Seq::empty()) }
    }

    /// Dispatches a listing and notes that it was listed.
    pub fn list(&mut self, records: &Vec<EscrowRecord>) -> (tasks: Vec<SettlementTask>)
        requires
            old(self).coherent(),
        ensures
            final(self).coherent(),
            final(self).history() == old(self).history().push(
                Happening::Listed(records.deep_view()),
            ),
            final(self).in_flight() == in_flight_after(old(self).in_flight(), records.deep_view()),
            tasks.deep_view() == planned_tasks(old(self).in_flight(), records.deep_view()),
    {
        let ghost before = self.history@;
        let tasks = dispatch(&mut self.registry, records);
        proof {
            let after = before.push(Happening::Listed(records.deep_view()));
            assert(after.drop_last() =~= before);
            self.history@ = after;
        }
        tasks
    }

    /// Releases an escrow and, if a task was running for it, notes that the
    /// task ended. The result says whether one was running.
    pub fn finish(&mut self, id: &str) -> (was_running: bool)
        requires
            old(self).coherent(),
        ensures
            final(self).coherent(),
            was_running == old(self).in_flight().contains(id@),
            final(self).in_flight() == old(self).in_flight().remove(id@),
            final(self).history() == if was_running {
                old(self).history().push(Happening::Finished(id@))
            } else {
                old(self).history()
            },
    {
        let ghost before = self.history@;
        let ghost held = self.registry@;
        let was_running = self.registry.release(id);
        proof {
            if was_running {
                let after = before.push(Happening::Finished(id@));
                assert(after.drop_last() =~= before);
                lemma_at_most_one_task_per_escrow(before, id@);
                self.history@ = after;
            } else {
                assert(held.remove(id@) =~= held);
            }
        }
        was_running
    }

    /// Whether a task is running for an escrow. If one is, it is the only
    /// one.
    pub fn contains(&self, id: &str) -> (held: bool)
        requires
            self.coherent(),
        ensures
            held == self.in_flight().contains(id@),
            running_tasks(self.history(), id@) == if held {
                1int
            } else {
                0int
            },
    {
        proof {
            lemma_at_most_one_task_per_escrow(self.history@, id@);
        }
        self.registry.contains(id)
    }

    /// Whether no task is running.
    pub fn is_empty(&self) -> (empty: bool)
        ensures
            empty == self.in_flight().is_empty(),
    {
        self.registry.is_empty()
    }
}

/// The ledger as the engine sees it: the state of every escrow.
pub type Book = Map<Seq<char>, EscrowState>;

/// A listing shows a book: it lists the escrows of the book, and each in the
/// state that the book has it in.
pub open spec fn shows(records: Seq<EscrowRecordView>, book: Book) -> bool {
    &&& forall|k: int|
        0 <= k < records.len() ==> {
            &&& book.contains_key((#[trigger] records[k]).id)
            &&& book[records[k].id] == records[k].account.state
        }
    &&& forall|id: Seq<char>| #[trigger] book.contains_key(id) ==> lists(records, id)
}

/// A listing names the escrow `id`.
pub open spec fn lists(records: Seq<EscrowRecordView>, id: Seq<char>) -> bool {
    exists|k: int| 0 <= k < records.len() && (#[trigger] records[k]).id == id
}

/// How the attempts of one cycle fare: for which escrows the operator has the
/// means to settle, and which attempts get through to the ledger and are
/// carried out there. An attempt that does not get through, or that the
/// ledger gives up for a fault, leaves the escrow as it was.
pub struct Fortune {
    pub liquid: Set<Seq<char>>,
    pub reached: Set<Seq<char>>,
}

/// The book after every one of `tasks` was attempted.
pub open spec fn book_after(book: Book, tasks: Seq<SettlementTaskView>, fortune: Fortune) -> Book
    decreases tasks.len(),
{
    if tasks.len() == 0 {
        book
    } else {
        let before = book_after(book, tasks.drop_last(), fortune);
        let id = tasks.last().escrow_id;
        if before.contains_key(id) && fortune.reached.contains(id) {
            before.insert(id, before[id].after_attempt(fortune.liquid.contains(id)))
        } else {
            before
        }
    }
}

/// Attempts change no escrow but those they are for, take no escrow out of
/// the book, move none backwards, and leave terminal every escrow for which
/// one got through.
pub proof fn lemma_book_after_tasks(
    book: Book,
    tasks: Seq<SettlementTaskView>,
    fortune: Fortune,
    id: Seq<char>,
)
    requires
        book.contains_key(id),
    ensures
        book_after(book, tasks, fortune).contains_key(id),
        book[id].may_become(book_after(book, tasks, fortune)[id]),
        has_task(tasks, id) && fortune.reached.contains(id) ==> book_after(
            book,
            tasks,
            fortune,
        )[id].is_terminal(),
        !has_task(tasks, id) ==> book_after(book, tasks, fortune)[id] == book[id],
    decreases tasks.len(),
{
    if tasks.len() > 0 {
        let earlier = tasks.drop_last();
        lemma_book_after_tasks(book, earlier, fortune, id);
        if has_task(earlier, id) {
            assert(tasks[task_index(earlier, id)] == earlier[task_index(earlier, id)]);
        } else if has_task(tasks, id) && tasks.last().escrow_id != id {
            assert(earlier[task_index(tasks, id)] == tasks[task_index(tasks, id)]);
        }
    }
}

/// One cycle settles every escrow that no earlier task still holds and whose
/// attempt gets through: when the poll shows the ledger's book, each such
/// escrow ends up confirmed or refunded, whether or not the operator has the
/// means. An escrow that an earlier task holds is settled by that task, or
/// released by it and settled by a later cycle.
pub proof fn lemma_cycle_settles_escrows(
    in_flight: Set<Seq<char>>,
    records: Seq<EscrowRecordView>,
    book: Book,
    fortune: Fortune,
    id: Seq<char>,
)
    requires
        shows(records, book),
        book.contains_key(id),
        !in_flight.contains(id),
        fortune.reached.contains(id),
    ensures
        book_after(book, planned_tasks(in_flight, records), fortune).contains_key(id),
        book_after(book, planned_tasks(in_flight, records), fortune)[id].is_terminal(),
{
    let tasks = planned_tasks(in_flight, records);
    lemma_book_after_tasks(book, tasks, fortune, id);
    if !book[id].is_terminal() {
        let k = choose|k: int| 0 <= k < records.len() && (#[trigger] records[k]).id == id;
        lemma_pending_escrow_gets_task(in_flight, records, k);
    }
}

/// A settlement task that is running.
pub struct Flight {
    /// How many polls came since the task was started.
    pub age: nat,
    /// Whether the task was started in good times: by a poll of the run, and
    /// not before.
    pub fresh: bool,
}

/// The ledger and the engine together, in good times.
pub struct World {
    /// The state of every escrow.
    pub book: Book,
    /// The tasks that are running, by escrow.
    pub flights: Map<Seq<char>, Flight>,
    /// How many polls the good times have seen.
    pub polls: nat,
}

/// What happens in good times.
pub enum Step {
    /// A poll brought this listing, and it was dispatched.
    Polled(Seq<EscrowRecordView>),
    /// The task for an escrow ended. `reached` says whether the attempt got
    /// through to the ledger and was carried out there, `liquid` whether the
    /// operator had the means.
    Ended { id: Seq<char>, reached: bool, liquid: bool },
}

/// The world after a step. A poll starts the tasks that the dispatcher plans
/// and makes every running task one poll older; the end of a task takes the
/// task away and, where the attempt got through, settles the escrow.
pub open spec fn after_step(world: World, step: Step) -> World {
    match step {
        Step::Polled(records) => World {
            book: world.book,
            flights: Map::new(
                |id: Seq<char>| in_flight_after(world.flights.dom(), records).contains(id),
                |id: Seq<char>|
                    if world.flights.contains_key(id) {
                        Flight { age: world.flights[id].age + 1, fresh: world.flights[id].fresh }
                    } else {
                        Flight { age: 0, fresh: true }
                    },
            ),
            polls: world.polls + 1,
        },
        Step::Ended { id, reached, liquid } => World {
            book: if reached && world.book.contains_key(id) {
                world.book.insert(id, world.book[id].after_attempt(liquid))
            } else {
                world.book
            },
            flights: world.flights.remove(id),
            polls: world.polls,
        },
    }
}

/// A step that good times allow. Every poll succeeds and shows the book, and
/// no task is still running at the `patience`-th poll after the one that
/// started it: calls are bounded in time. A task ends only while it runs,
/// and one that was started in good times gets through.
pub open spec fn allowed(world: World, step: Step, patience: nat) -> bool {
    match step {
        Step::Polled(records) => {
            &&& shows(records, world.book)
            &&& forall|id: Seq<char>| #[trigger]
                world.flights.contains_key(id) ==> world.flights[id].age + 1 < patience
        },
        Step::Ended { id, reached, liquid } => {
            &&& world.flights.contains_key(id)
            &&& world.flights[id].fresh ==> reached
        },
    }
}

/// The world after a run of steps.
pub open spec fn world_after(world: World, steps: Seq<Step>) -> World
    decreases steps.len(),
{
    if steps.len() == 0 {
        world
    } else {
        after_step(world_after(world, steps.drop_last()), steps.last())
    }
}

/// A run of which good times allow every step.
pub open spec fn run_allowed(world: World, steps: Seq<Step>, patience: nat) -> bool
    decreases steps.len(),
{
    steps.len() == 0 || {
        &&& run_allowed(world, steps.drop_last(), patience)
        &&& allowed(world_after(world, steps.drop_last()), steps.last(), patience)
    }
}

/// The world as good times find it: no poll yet, and the tasks that run were
/// all started before, none of them older than patience allows.
pub open spec fn at_the_start(world: World, patience: nat) -> bool {
    &&& world.polls == 0
    &&& forall|id: Seq<char>| #[trigger]
        world.flights.contains_key(id) ==> !world.flights[id].fresh && world.flights[id].age
            < patience
}

/// What holds of the world throughout good times. No task is older than
/// patience allows; a task from before is as old as the good times, a task
/// of the good times younger. And once as many polls came as patience is
/// long, every pending escrow is held by a task of the good times that was
/// started by one of those first polls.
pub open spec fn on_course(world: World, patience: nat) -> bool {
    &&& forall|id: Seq<char>| #[trigger]
        world.flights.contains_key(id) ==> {
            &&& world.flights[id].age < patience
            &&& !world.flights[id].fresh ==> world.flights[id].age >= world.polls
            &&& world.flights[id].fresh ==> world.flights[id].age < world.polls
        }
    &&& world.polls >= patience ==> forall|id: Seq<char>| #[trigger]
        world.book.contains_key(id) && world.book[id] == EscrowState::Pending ==> {
            &&& world.flights.contains_key(id)
            &&& world.flights[id].fresh
            &&& world.polls - world.flights[id].age <= patience
        }
}

/// A step that good times allow keeps the world on course, takes no escrow
/// out of the book and moves none backwards.
pub proof fn lemma_step_stays_on_course(world: World, step: Step, patience: nat)
    requires
        patience >= 1,
        on_course(world, patience),
        allowed(world, step, patience),
    ensures
        on_course(after_step(world, step), patience),
        forall|id: Seq<char>| #[trigger]
            world.book.contains_key(id) ==> after_step(world, step).book.contains_key(id)
                && world.book[id].may_become(after_step(world, step).book[id]),
{
    let next = after_step(world, step);
    match step {
        Step::Polled(records) => {
            let held = world.flights.dom();
            assert forall|id: Seq<char>| #[trigger] held.contains(id) implies in_flight_after(
                held,
                records,
            ).contains(id) by {
                lemma_in_flight_is_held_or_planned(held, records, id);
            }
            if next.polls >= patience {
                assert forall|id: Seq<char>| #[trigger]
                    next.book.contains_key(id) && next.book[id]
                        == EscrowState::Pending implies next.flights.contains_key(id)
                    && next.flights[id].fresh && next.polls - next.flights[id].age
                    <= patience by {
                    assert(lists(records, id));
                    let k = choose|k: int|
                        0 <= k < records.len() && (#[trigger] records[k]).id == id;
                    lemma_pending_escrows_are_in_flight(held, records, k);
                }
            }
        },
        Step::Ended { id, reached, liquid } => {
            if world.polls >= patience {
                assert forall|other: Seq<char>| #[trigger]
                    next.book.contains_key(other) && next.book[other]
                        == EscrowState::Pending implies next.flights.contains_key(other)
                    && next.flights[other].fresh && next.polls - next.flights[other].age
                    <= patience by {
                    // What is pending after the step was pending before it,
                    // and it is not the escrow of the task that ended: that
                    // task got through.
                    assert(world.book.contains_key(other));
                    assert(world.book[other] == EscrowState::Pending);
                    assert(other != id);
                }
            }
        },
    }
}

/// A run that good times allow keeps the world on course, takes no escrow
/// out of the book and moves none backwards.
pub proof fn lemma_run_stays_on_course(world: World, steps: Seq<Step>, patience: nat)
    requires
        patience >= 1,
        on_course(world, patience),
        run_allowed(world, steps, patience),
    ensures
        on_course(world_after(world, steps), patience),
        forall|id: Seq<char>| #[trigger]
            world.book.contains_key(id) ==> world_after(world, steps).book.contains_key(id)
                && world.book[id].may_become(world_after(world, steps).book[id]),
    decreases steps.len(),
{
    if steps.len() > 0 {
        let before = world_after(world, steps.drop_last());
        lemma_run_stays_on_course(world, steps.drop_last(), patience);
        lemma_step_stays_on_course(before, steps.last(), patience);
    }
}

/// In good times every escrow is settled within a bound that is the same for
/// all of them: where every poll succeeds, every settlement call that is
/// started gets through, and no call outlasts `patience` polls, each escrow
/// of the book is confirmed or refunded once twice as many polls came as
/// patience is long. The first `patience` polls see the tasks from before
/// end, the next see the tasks end that took their place. Whether the
/// operator has the means decides between confirmed and refunded only.
pub proof fn lemma_every_escrow_settles_within_a_bound(
    world: World,
    steps: Seq<Step>,
    patience: nat,
    id: Seq<char>,
)
    requires
        patience >= 1,
        at_the_start(world, patience),
        run_allowed(world, steps, patience),
        world.book.contains_key(id),
        world_after(world, steps).polls >= 2 * patience,
    ensures
        world_after(world, steps).book.contains_key(id),
        world_after(world, steps).book[id].is_terminal(),
{
    lemma_run_stays_on_course(world, steps, patience);
}

} // verus!
