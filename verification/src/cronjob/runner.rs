//! One cycle of the engine: a listing of escrows comes in, settlement tasks
//! and the delay before the next poll go out. Polling, sleeping and running
//! the tasks are the caller's part.

use super::history::{
    can_happen, in_flight_at, lemma_at_most_one_task_per_escrow, running_tasks, Flights,
    Happening,
};
use crate::backoff::{Backoff, BackoffConfig, BackoffView};
use crate::registry::InFlightRegistry;
use crate::solana::{Params, Payload, PaymentEngineService, SettlementOutcome};
use crate::state::{DeVoltEscrow, EscrowState, TransactionType};
use vstd::prelude::*;

verus! {

/// An escrow as a poll lists it: its identifier on the ledger and its record.
#[derive(Debug)]
pub struct EscrowRecord {
    pub id: String,
    pub account: DeVoltEscrow,
}

/// An `EscrowRecord` as a plain value.
pub struct EscrowRecordView {
    pub id: Seq<char>,
    pub account: DeVoltEscrow,
}

impl DeepView for EscrowRecord {
    type V = EscrowRecordView;

    open spec fn deep_view(&self) -> EscrowRecordView {
        EscrowRecordView { id: self.id@, account: self.account }
    }
}

/// One settlement attempt to make: which escrow, and by which of the two
/// settlement operations.
#[derive(Debug)]
pub struct SettlementTask {
    pub escrow_id: String,
    pub transaction: TransactionType,
}

/// A `SettlementTask` as a plain value.
pub struct SettlementTaskView {
    pub escrow_id: Seq<char>,
    pub transaction: TransactionType,
}

impl DeepView for SettlementTask {
    type V = SettlementTaskView;

    open spec fn deep_view(&self) -> SettlementTaskView {
        SettlementTaskView { escrow_id: self.escrow_id@, transaction: self.transaction }
    }
}

/// The task that settles a listed escrow: routed by the escrow's kind.
pub open spec fn task_for(record: EscrowRecordView) -> SettlementTaskView {
    SettlementTaskView { escrow_id: record.id, transaction: record.account.transaction }
}

/// A listed escrow gets a task when it is pending and no task holds it.
pub open spec fn wants_task(in_flight: Set<Seq<char>>, record: EscrowRecordView) -> bool {
    record.account.state == EscrowState::Pending && !in_flight.contains(record.id)
}

/// What is in flight once a listing was gone through, record by record.
pub open spec fn in_flight_after(in_flight: Set<Seq<char>>, records: Seq<EscrowRecordView>) -> Set<
    Seq<char>,
>
    decreases records.len(),
{
    if records.len() == 0 {
        in_flight
    } else {
        let before = in_flight_after(in_flight, records.drop_last());
        if wants_task(before, records.last()) {
            before.insert(records.last().id)
        } else {
            before
        }
    }
}

/// The tasks that a listing gives rise to, in the order of the listing.
pub open spec fn planned_tasks(in_flight: Set<Seq<char>>, records: Seq<EscrowRecordView>) -> Seq<
    SettlementTaskView,
>
    decreases records.len(),
{
    if records.len() == 0 {
        Seq::empty()
    } else {
        let earlier = planned_tasks(in_flight, records.drop_last());
        if wants_task(in_flight_after(in_flight, records.drop_last()), records.last()) {
            earlier.push(task_for(records.last()))
        } else {
            earlier
        }
    }
}

/// Goes through a listing: every pending escrow that no task holds is put in
/// flight and gets a task. Escrows that are not pending, or that a task holds
/// already, are passed over.
pub fn dispatch(registry: &mut InFlightRegistry, records: &Vec<EscrowRecord>) -> (tasks: Vec<
    SettlementTask,
>)
    ensures
        final(registry)@ == in_flight_after(old(registry)@, records.deep_view()),
        tasks.deep_view() == planned_tasks(old(registry)@, records.deep_view()),
{
    let ghost before = registry@;
    let ghost listing = records.deep_view();
    let mut tasks: Vec<SettlementTask> = Vec::new();
    let mut i: usize = 0;
    while i < records.len()
        invariant
            i <= records.len(),
            listing == records.deep_view(),
            listing.len() == records.len(),
            registry@ == in_flight_after(before, listing.take(i as int)),
            tasks.deep_view() == planned_tasks(before, listing.take(i as int)),
        decreases records.len() - i,
    {
        let record = &records[i];
        assert(listing.take(i + 1).drop_last() =~= listing.take(i as int));
        if record.account.state.is_pending() {
            if registry.try_insert(record.id.as_str()) {
                tasks.push(
                    SettlementTask {
                        escrow_id: record.id.clone(),
                        transaction: record.account.transaction,
                    },
                );
            }
        }
        i = i + 1;
    }
    assert(listing.take(records.len() as int) =~= listing);
    tasks
}

/// Some task of `tasks` settles the escrow `id`.
pub open spec fn has_task(tasks: Seq<SettlementTaskView>, id: Seq<char>) -> bool {
    exists|i: int| 0 <= i < tasks.len() && (#[trigger] tasks[i]).escrow_id == id
}

/// Where in `tasks` a task for the escrow `id` stands, if one does.
pub open spec fn task_index(tasks: Seq<SettlementTaskView>, id: Seq<char>) -> int {
    choose|i: int| 0 <= i < tasks.len() && (#[trigger] tasks[i]).escrow_id == id
}

/// After a listing was gone through, an escrow is in flight exactly if it was
/// before or a task was planned for it.
pub proof fn lemma_in_flight_is_held_or_planned(
    in_flight: Set<Seq<char>>,
    records: Seq<EscrowRecordView>,
    id: Seq<char>,
)
    ensures
        in_flight_after(in_flight, records).contains(id) <==> in_flight.contains(id) || has_task(
            planned_tasks(in_flight, records),
            id,
        ),
    decreases records.len(),
{
    if records.len() > 0 {
        let shorter = records.drop_last();
        let earlier = planned_tasks(in_flight, shorter);
        let tasks = planned_tasks(in_flight, records);
        lemma_in_flight_is_held_or_planned(in_flight, shorter, id);
        if wants_task(in_flight_after(in_flight, shorter), records.last()) {
            if has_task(earlier, id) {
                assert(tasks[task_index(earlier, id)].escrow_id == id);
            }
            if records.last().id == id {
                assert(tasks[tasks.len() - 1].escrow_id == id);
            }
            if has_task(tasks, id) && task_index(tasks, id) < earlier.len() {
                assert(earlier[task_index(tasks, id)].escrow_id == id);
            }
        }
    }
}

/// No task is planned for an escrow that is in flight already, and no two
/// tasks are planned for one escrow, however often the listing names it.
pub proof fn lemma_planned_tasks_are_new_and_distinct(
    in_flight: Set<Seq<char>>,
    records: Seq<EscrowRecordView>,
)
    ensures
        forall|i: int|
            0 <= i < planned_tasks(in_flight, records).len() ==> !in_flight.contains(
                (#[trigger] planned_tasks(in_flight, records)[i]).escrow_id,
            ),
        forall|i: int, j: int|
            0 <= i < j < planned_tasks(in_flight, records).len() ==> (#[trigger] planned_tasks(
                in_flight,
                records,
            )[i]).escrow_id != (#[trigger] planned_tasks(in_flight, records)[j]).escrow_id,
    decreases records.len(),
{
    if records.len() > 0 {
        let shorter = records.drop_last();
        let earlier = planned_tasks(in_flight, shorter);
        let tasks = planned_tasks(in_flight, records);
        lemma_planned_tasks_are_new_and_distinct(in_flight, shorter);
        if wants_task(in_flight_after(in_flight, shorter), records.last()) {
            let id = records.last().id;
            lemma_in_flight_is_held_or_planned(in_flight, shorter, id);
            assert(tasks == earlier.push(task_for(records.last())));
            assert forall|i: int| 0 <= i < tasks.len() implies !in_flight.contains(
                (#[trigger] tasks[i]).escrow_id,
            ) by {
                if i < earlier.len() {
                    assert(tasks[i] == earlier[i]);
                }
            }
            assert forall|i: int, j: int| 0 <= i < j < tasks.len() implies (
            #[trigger] tasks[i]).escrow_id != (#[trigger] tasks[j]).escrow_id by {
                assert(tasks[i] == earlier[i]);
                if j < earlier.len() {
                    assert(tasks[j] == earlier[j]);
                }
            }
        }
    }
}

/// What is in flight is never dropped by going through a listing.
pub proof fn lemma_in_flight_stays(
    in_flight: Set<Seq<char>>,
    records: Seq<EscrowRecordView>,
    id: Seq<char>,
)
    requires
        in_flight.contains(id),
    ensures
        in_flight_after(in_flight, records).contains(id),
{
    lemma_in_flight_is_held_or_planned(in_flight, records, id);
}

/// Every pending escrow of a listing is in flight once the listing was gone
/// through: a task held it before, or one was planned for it.
pub proof fn lemma_pending_escrows_are_in_flight(
    in_flight: Set<Seq<char>>,
    records: Seq<EscrowRecordView>,
    k: int,
)
    requires
        0 <= k < records.len(),
        records[k].account.state == EscrowState::Pending,
    ensures
        in_flight_after(in_flight, records).contains(records[k].id),
    decreases records.len(),
{
    let shorter = records.drop_last();
    if k < records.len() - 1 {
        assert(shorter[k] == records[k]);
        lemma_pending_escrows_are_in_flight(in_flight, shorter, k);
    }
}

/// A pending escrow that no task holds gets a task in the very cycle that
/// lists it.
pub proof fn lemma_pending_escrow_gets_task(
    in_flight: Set<Seq<char>>,
    records: Seq<EscrowRecordView>,
    k: int,
)
    requires
        0 <= k < records.len(),
        records[k].account.state == EscrowState::Pending,
        !in_flight.contains(records[k].id),
    ensures
        has_task(planned_tasks(in_flight, records), records[k].id),
{
    lemma_pending_escrows_are_in_flight(in_flight, records, k);
    lemma_in_flight_is_held_or_planned(in_flight, records, records[k].id);
}

/// Every planned task settles a pending escrow of the listing, by the
/// operation that belongs to the escrow's kind.
pub proof fn lemma_tasks_settle_pending_escrows(
    in_flight: Set<Seq<char>>,
    records: Seq<EscrowRecordView>,
    i: int,
)
    requires
        0 <= i < planned_tasks(in_flight, records).len(),
    ensures
        exists|k: int|
            0 <= k < records.len() && (#[trigger] records[k]).account.state
                == EscrowState::Pending && planned_tasks(in_flight, records)[i] == task_for(
                records[k],
            ),
    decreases records.len(),
{
    let shorter = records.drop_last();
    let earlier = planned_tasks(in_flight, shorter);
    if i < earlier.len() {
        lemma_tasks_settle_pending_escrows(in_flight, shorter, i);
        let k = choose|k: int|
            0 <= k < shorter.len() && (#[trigger] shorter[k]).account.state == EscrowState::Pending
                && earlier[i] == task_for(shorter[k]);
        assert(records[k] == shorter[k]);
    } else {
        assert(records[records.len() - 1] == records.last());
    }
}

/// An escrow whose task ended and was released is taken up again by the next
/// listing that shows it pending: a failed attempt leaves nothing behind that
/// would keep the escrow from being retried.
pub proof fn lemma_released_escrow_is_retried(
    in_flight: Set<Seq<char>>,
    records: Seq<EscrowRecordView>,
    k: int,
)
    requires
        0 <= k < records.len(),
        records[k].account.state == EscrowState::Pending,
    ensures
        has_task(planned_tasks(in_flight.remove(records[k].id), records), records[k].id),
{
    lemma_pending_escrow_gets_task(in_flight.remove(records[k].id), records, k);
}

/// Why a poll brought no listing.
#[derive(Clone, Copy, Debug, PartialEq, Eq, Structural)]
pub enum PollError {
    /// The operator's signing key is not a key.
    InvalidSigningKey,
    /// The ledger's settlement program could not be reached.
    ProgramUnavailable,
    /// The ledger did not list its escrows: unreachable, too slow, or the
    /// answer was malformed.
    AccountsUnavailable,
}

impl SettlementTask {
    /// The request that takes the attempt to the service: `confirm_buying`
    /// for a purchase, `confirm_selling` for a sale, naming the escrow.
    pub fn payload(&self) -> (payload: Payload)
        ensures
            payload.well_formed(),
            match self.transaction {
                TransactionType::Buy => payload.params matches Params::ConfirmBuying(named)
                    && named.escrow_public_key@ == self.escrow_id@,
                TransactionType::Sell => payload.params matches Params::ConfirmSelling(named)
                    && named.escrow_public_key@ == self.escrow_id@,
            },
    {
        match self.transaction {
            TransactionType::Buy => PaymentEngineService::confirm_buying_payload(
                self.escrow_id.clone(),
            ),
            TransactionType::Sell => PaymentEngineService::confirm_selling_payload(
                self.escrow_id.clone(),
            ),
        }
    }
}

/// What one poll leads to: on a listing, the tasks of `dispatch`, and
/// success; on a failed poll no task, nothing put in flight, and failure.
pub fn check_for_confirmations(
    polled: &Result<Vec<EscrowRecord>, PollError>,
    registry: &mut InFlightRegistry,
) -> (cycle: (bool, Vec<SettlementTask>))
    ensures
        match polled {
            Ok(records) => {
                &&& cycle.0
                &&& cycle.1.deep_view() == planned_tasks(old(registry)@, records.deep_view())
                &&& final(registry)@ == in_flight_after(old(registry)@, records.deep_view())
            },
            Err(_) => {
                &&& !cycle.0
                &&& cycle.1@.len() == 0
                &&& final(registry)@ == old(registry)@
            },
        },
{
    match polled {
        Ok(records) => {
            let tasks = dispatch(registry, records);
            (true, tasks)
        },
        Err(_) => (false, Vec::new()),
    }
}

/// What the engine does after a poll.
#[derive(Debug)]
pub struct Cycle {
    /// Whether the poll brought a listing.
    pub success: bool,
    /// The settlement tasks to start, each on its own.
    pub tasks: Vec<SettlementTask>,
    /// Seconds to wait before the next poll.
    pub next_poll_in: u64,
}

/// What the engine stands for.
pub struct WatcherView {
    pub backoff: BackoffView,
    pub in_flight: Set<Seq<char>>,
    /// The listings that were dispatched and the tasks that ended, in the
    /// order in which they happened.
    pub history: Seq<Happening>,
}

impl WatcherView {
    /// What is in flight is what the history makes it. A new engine is so,
    /// and every step keeps it so; `lemma_at_most_one_task_per_escrow` then
    /// says that at any moment at most one task runs for an escrow.
    pub open spec fn coherent(self) -> bool {
        can_happen(self.history) && self.in_flight == in_flight_at(self.history)
    }
}

/// The reconciliation engine: the backoff controller and the in-flight
/// registry, driven by what the caller reports.
pub struct Watcher {
    backoff: Backoff,
    flights: Flights,
}

impl View for Watcher {
    type V = WatcherView;

    closed spec fn view(&self) -> WatcherView {
        WatcherView {
            backoff: self.backoff@,
            in_flight: self.flights.in_flight(),
            history: self.flights.history(),
        }
    }
}

impl Watcher {
    /// An engine before its first poll: idle, nothing in flight, no failures.
    pub fn new(config: BackoffConfig) -> (watcher: Watcher)
        ensures
            watcher@.backoff == (BackoffView { config, failures: 0, polling: false }),
            watcher@.backoff.within_bound(),
            watcher@.in_flight == Set::<Seq<char>>::empty(),
            watcher@.history == Seq::<Happening>::empty(),
            watcher@.coherent(),
    {
        Watcher { backoff: Backoff::new(config), flights: Flights::new() }
    }

    /// Begins a poll if none is under way; the result says whether this call
    /// began one.
    pub fn begin_poll(&mut self) -> (begun: bool)
        ensures
            begun == !old(self)@.backoff.polling,
            final(self)@ == (WatcherView { backoff: old(self)@.backoff.begun(), ..old(self)@ }),
            final(self)@.backoff.within_bound(),
    {
        self.backoff.begin_poll()
    }

    /// Seconds to wait before the next poll.
    pub fn delay(&self) -> (delay: u64)
        ensures
            delay == self@.backoff.delay(),
    {
        self.backoff.delay()
    }

    /// How many polls failed since the last success.
    pub fn failures(&self) -> (failures: u32)
        ensures
            failures == self@.backoff.failures,
    {
        self.backoff.failures()
    }

    /// Whether a poll is under way.
    pub fn is_polling(&self) -> (polling: bool)
        ensures
            polling == self@.backoff.polling,
    {
        self.backoff.is_polling()
    }

    /// Whether a settlement task is running for an escrow. If one is, it is
    /// the only one; and so it is with every other escrow.
    pub fn is_in_flight(&self, escrow_id: &str) -> (held: bool)
        requires
            self@.coherent(),
        ensures
            held == self@.in_flight.contains(escrow_id@),
            forall|id: Seq<char>|
                #[trigger] running_tasks(self@.history, id) == if self@.in_flight.contains(id) {
                    1int
                } else {
                    0int
                },
    {
        proof {
            assert forall|id: Seq<char>|
                #[trigger] running_tasks(self@.history, id) == if self@.in_flight.contains(id) {
                    1int
                } else {
                    0int
                } by {
                lemma_at_most_one_task_per_escrow(self@.history, id);
            }
        }
        self.flights.contains(escrow_id)
    }

    /// Whether no settlement task is running.
    pub fn is_idle(&self) -> (idle: bool)
        ensures
            idle == self@.in_flight.is_empty(),
    {
        self.flights.is_empty()
    }

    /// Takes in what a poll brought, which ends the poll. A listing is
    /// dispatched and counts as a success; a failed poll starts nothing and
    /// lengthens the delay.
    pub fn on_poll(&mut self, polled: &Result<Vec<EscrowRecord>, PollError>) -> (cycle: Cycle)
        requires
            old(self)@.coherent(),
        ensures
            cycle.success == (polled is Ok),
            cycle.next_poll_in == final(self)@.backoff.delay(),
            final(self)@.backoff.within_bound(),
            polled is Err && old(self)@.backoff.failures >= 1
                && old(self)@.backoff.config.base_delay > 0 ==> old(self)@.backoff.lengthens_to(
                final(self)@.backoff,
            ),
            final(self)@.coherent(),
            match polled {
                Ok(records) => {
                    &&& cycle.tasks.deep_view() == planned_tasks(
                        old(self)@.in_flight,
                        records.deep_view(),
                    )
                    &&& final(self)@.in_flight == in_flight_after(
                        old(self)@.in_flight,
                        records.deep_view(),
                    )
                    &&& final(self)@.history == old(self)@.history.push(
                        Happening::Listed(records.deep_view()),
                    )
                    &&& final(self)@.backoff == old(self)@.backoff.succeeded()
                },
                Err(_) => {
                    &&& cycle.tasks@.len() == 0
                    &&& final(self)@.in_flight == old(self)@.in_flight
                    &&& final(self)@.history == old(self)@.history
                    &&& final(self)@.backoff == old(self)@.backoff.failed()
                },
            },
    {
        let tasks = match polled {
            Ok(records) => self.flights.list(records),
            Err(_) => Vec::new(),
        };
        let success = polled.is_ok();
        let next_poll_in: u64 = self.backoff.record(success);
        Cycle { success, tasks, next_poll_in }
    }

    /// Takes in that the task for `escrow_id` ended. Whatever the outcome,
    /// the escrow is no longer in flight. The result says whether the attempt
    /// failed, in which case the next poll that lists the escrow as pending
    /// starts a new one.
    pub fn on_task_finished(&mut self, escrow_id: &str, outcome: &SettlementOutcome) -> (retry:
        bool)
        requires
            old(self)@.coherent(),
        ensures
            retry == outcome.failed(),
            final(self)@.coherent(),
            final(self)@.in_flight == old(self)@.in_flight.remove(escrow_id@),
            final(self)@.history == if old(self)@.in_flight.contains(escrow_id@) {
                old(self)@.history.push(Happening::Finished(escrow_id@))
            } else {
                old(self)@.history
            },
            final(self)@.backoff == old(self)@.backoff,
    {
        self.flights.finish(escrow_id);
        outcome.is_failed()
    }
}

} // verus!
