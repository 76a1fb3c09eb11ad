use vstd::prelude::*;

use crate::errors::CallError;
use crate::pool::Pool;
use crate::pool::has_free;
use crate::query::SelectQuery;
use crate::query::compile_request;
use crate::query::compiled_query_of;

verus! {

/// The marker every successful call resolves with.
pub open spec fn success_marker() -> Seq<char> {
    "DONE QUERY"@
}

/// A call whose non-blocking stages are done: the query is compiled and a
/// connection is leased.  The embedding program runs the blocking stage for
/// it on an isolated execution context and then reports a
/// [`BlockingOutcome`] back through [`DataResolver::complete_call`].
#[derive(Debug)]
pub struct PendingCall {
    /// The compiled opaque query the leased connection is to run.
    pub query: String,
    /// The leased pool slot; released again when the call completes.
    pub slot: usize,
}

/// What the isolated execution context reports about one blocking stage.
#[derive(Clone, Copy, Debug, PartialEq, Eq, Structural)]
pub enum BlockingOutcome {
    /// The blocking stage ran the query; `succeeded` tells whether the
    /// connection's own operation succeeded.
    Finished { succeeded: bool },
    /// The isolated execution context rejected or failed to run the
    /// blocking stage, so the query was never run.
    StageFailed,
}

/// Owns the pool and runs the lease/complete protocol around the blocking
/// stage of one query.
pub struct Database {
    pool: Pool,
}

impl View for Database {
    type V = Seq<bool>;

    closed spec fn view(&self) -> Seq<bool> {
        self.pool@
    }
}

impl Database {
    /// A database over a pool of exactly one connection.
    pub fn new() -> (db: Database)
        ensures
            db@.len() == 1,
            !db@[0],
    {
        Database { pool: Pool::new() }
    }

    /// A database over a pool of `n` connections.
    pub fn with_resources(n: usize) -> (db: Database)
        ensures
            db@.len() == n as int,
            forall|i: int| 0 <= i < n ==> !db@[i],
    {
        Database { pool: Pool::with_resources(n) }
    }

    /// How many connections the underlying pool holds.
    pub fn resources(&self) -> (n: usize)
        ensures
            n as int == self@.len(),
    {
        self.pool.len()
    }

    /// Whether some connection is currently free.
    pub fn has_available(&self) -> (r: bool)
        ensures
            r == has_free(self@),
    {
        self.pool.has_available()
    }

    /// Whether `slot` is currently leased.
    pub fn is_leased(&self, slot: usize) -> (r: bool)
        requires
            slot < self@.len(),
        ensures
            r == self@[slot as int],
    {
        self.pool.is_leased(slot)
    }

    /// Lease a connection for one query: everything a query does before
    /// its blocking stage.
    pub fn begin_query(&mut self) -> (r: Result<usize, CallError>)
        ensures
            match r {
                Ok(slot) => {
                    &&& slot < old(self)@.len()
                    &&& !old(self)@[slot as int]
                    &&& forall|j: int| 0 <= j < slot ==> old(self)@[j]
                    &&& final(self)@ == old(self)@.update(slot as int, true)
                },
                Err(e) => {
                    &&& e == CallError::PoolExhausted
                    &&& !has_free(old(self)@)
                    &&& final(self)@ == old(self)@
                },
            },
            r is Ok <==> has_free(old(self)@),
    {
        self.pool.get()
    }

    /// Release the lease and map the blocking stage's outcome to the
    /// query's result: everything a query does after its blocking stage.
    /// The lease is returned on every path, success or error.
    pub fn end_query(&mut self, slot: usize, outcome: BlockingOutcome) -> (r: Result<
        &'static str,
        CallError,
    >)
        requires
            slot < old(self)@.len(),
            old(self)@[slot as int],
        ensures
            final(self)@ == old(self)@.update(slot as int, false),
            response_view(r) == outcome_result(outcome),
    {
        self.pool.release(slot);
        match outcome {
            BlockingOutcome::Finished { succeeded: true } => Ok("DONE QUERY"),
            BlockingOutcome::Finished { succeeded: false } => Err(
                CallError::UnderlyingResourceError,
            ),
            BlockingOutcome::StageFailed => Err(CallError::BlockingStageError),
        }
    }
}

/// A call's result with the response taken up to its text: what the
/// contracts of this module state resolutions over.
pub open spec fn response_view(r: Result<&'static str, CallError>) -> Result<Seq<char>, CallError> {
    match r {
        Ok(m) => Ok(m@),
        Err(e) => Err(e),
    }
}

/// What a call that reached its blocking stage resolves with, given the
/// stage's outcome.
pub open spec fn outcome_result(outcome: BlockingOutcome) -> Result<Seq<char>, CallError> {
    match outcome {
        BlockingOutcome::Finished { succeeded } => if succeeded {
            Ok(success_marker())
        } else {
            Err(CallError::UnderlyingResourceError)
        },
        BlockingOutcome::StageFailed => Err(CallError::BlockingStageError),
    }
}

/// The asynchronous facade: translates structured requests into blocking
/// operations on pooled connections without ever blocking the caller.
///
/// A call runs `Created -> QueryBuilt -> ResourceAcquired` inside
/// [`DataResolver::start_call`], then `Blocking` on the embedder's isolated
/// execution context, then `Completed` inside
/// [`DataResolver::complete_call`].  Both protocol functions are
/// non-blocking, so concurrent calls only ever wait on the blocking stage
/// they themselves asked for.  A call whose caller loses interest is still
/// driven to completion and its result discarded: the lease is returned
/// either way.
pub struct DataResolver {
    database: Database,
}

impl View for DataResolver {
    type V = Seq<bool>;

    closed spec fn view(&self) -> Seq<bool> {
        self.database@
    }
}

impl DataResolver {
    /// A facade over a single-connection pool.
    pub fn new() -> (resolver: DataResolver)
        ensures
            resolver@.len() == 1,
            !resolver@[0],
    {
        let database = Database::new();
        DataResolver { database }
    }

    /// A facade over a pool of `n` connections.
    pub fn with_resources(n: usize) -> (resolver: DataResolver)
        ensures
            resolver@.len() == n as int,
            forall|i: int| 0 <= i < n ==> !resolver@[i],
    {
        let database = Database::with_resources(n);
        DataResolver { database }
    }

    /// How many connections the facade's pool holds.
    pub fn resources(&self) -> (n: usize)
        ensures
            n as int == self@.len(),
    {
        self.database.resources()
    }

    /// Whether `slot` is currently leased.
    pub fn is_leased(&self, slot: usize) -> (r: bool)
        requires
            slot < self@.len(),
        ensures
            r == self@[slot as int],
    {
        self.database.is_leased(slot)
    }

    /// Readiness check.  This facade accepts every request immediately:
    /// readiness is deliberately not tied to pool occupancy, so admission
    /// control never precedes a call.
    pub fn poll_ready(&self) -> (r: bool)
        ensures
            r,
    {
        true
    }

    /// Run the non-blocking stages of one call: compile the request into
    /// the opaque query, then lease a connection.
    ///
    /// On success the pending call carries exactly the query the request
    /// compiles to and the smallest free slot, now leased.  When every
    /// connection is leased — in particular over a pool of zero
    /// connections — nothing changes and the call resolves with
    /// `PoolExhausted`, which the caller may retry once a lease returns.
    pub fn start_call(&mut self, request: &SelectQuery) -> (r: Result<PendingCall, CallError>)
        ensures
            match r {
                Ok(pending) => {
                    &&& pending.query@ == compiled_query_of(request.field@, request.value@)
                    &&& pending.slot < old(self)@.len()
                    &&& !old(self)@[pending.slot as int]
                    &&& forall|j: int| 0 <= j < pending.slot ==> old(self)@[j]
                    &&& final(self)@ == old(self)@.update(pending.slot as int, true)
                },
                Err(e) => {
                    &&& e == CallError::PoolExhausted
                    &&& !has_free(old(self)@)
                    &&& final(self)@ == old(self)@
                },
            },
            r is Ok <==> has_free(old(self)@),
    {
        let query = match compile_request(request) {
            Ok(query) => query,
            Err(e) => {
                return Err(e);
            },
        };
        match self.database.begin_query() {
            Ok(slot) => Ok(PendingCall { query, slot }),
            Err(e) => Err(e),
        }
    }

    /// Complete a pending call with the blocking stage's outcome: release
    /// the lease on every path and resolve the call, with the success
    /// marker when the connection ran the query successfully, and with the
    /// error of the stage that failed otherwise.
    pub fn complete_call(&mut self, pending: PendingCall, outcome: BlockingOutcome) -> (r: Result<
        &'static str,
        CallError,
    >)
        requires
            pending.slot < old(self)@.len(),
            old(self)@[pending.slot as int],
        ensures
            final(self)@ == old(self)@.update(pending.slot as int, false),
            response_view(r) == outcome_result(outcome),
            r matches Ok(m) ==> m@ == success_marker(),
    {
        self.database.end_query(pending.slot, outcome)
    }
}

/// How one whole call resolves: the pool's state decides whether a
/// connection is leased at all, and the blocking stage's outcome decides
/// the rest.
pub open spec fn call_resolution(leases: Seq<bool>, outcome: BlockingOutcome) -> Result<
    Seq<char>,
    CallError,
> {
    if !has_free(leases) {
        Err(CallError::PoolExhausted)
    } else {
        outcome_result(outcome)
    }
}

/// Law: every call resolves, and never with anything but the success
/// marker or one of the defined errors.  Whatever the pool's state and
/// whatever the isolated execution context reports, the resolution is the
/// success marker exactly when a connection was free and the blocking
/// stage ran the query successfully; it is `PoolExhausted` exactly when no
/// connection was free; and a blocking stage that failed to run, or whose
/// query failed, surfaces as its own error — nothing is swallowed and
/// nothing panics.
pub proof fn lemma_every_call_resolves(leases: Seq<bool>, outcome: BlockingOutcome)
    ensures
        call_resolution(leases, outcome) is Ok <==> (has_free(leases) && outcome == (
        BlockingOutcome::Finished { succeeded: true })),
        call_resolution(leases, outcome) matches Ok(m) ==> m == success_marker(),
        call_resolution(leases, outcome) == Err::<Seq<char>, CallError>(
            CallError::PoolExhausted,
        ) <==> !has_free(leases),
        call_resolution(leases, outcome) == Err::<Seq<char>, CallError>(
            CallError::BlockingStageError,
        ) <==> (has_free(leases) && outcome == BlockingOutcome::StageFailed),
        call_resolution(leases, outcome) == Err::<Seq<char>, CallError>(
            CallError::UnderlyingResourceError,
        ) <==> (has_free(leases) && outcome == (BlockingOutcome::Finished { succeeded: false })),
        call_resolution(leases, outcome) != Err::<Seq<char>, CallError>(
            CallError::QueryCompileError,
        ),
{
}

} // verus!
