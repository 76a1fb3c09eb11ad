use vstd::prelude::*;

use crate::errors::CallError;

verus! {

/// One handle to the slow external system.
///
/// The handle itself is stateless: the blocking operation it stands for is
/// performed by the embedding program, which owns the real connection.  The
/// pool tracks, per handle, whether it is currently leased.
pub struct Connection;

impl Connection {
    pub fn new() -> Connection {
        Connection
    }
}

/// One pool slot: a connection together with its lease mark.
struct Slot {
    connection: Connection,
    taken: bool,
}

/// A fixed pool of connections with an acquire/release protocol.
///
/// The collection of connections is fixed at construction.  `get` hands out
/// the first free slot and marks it leased, so at most one caller holds a
/// given connection at any instant; `release` returns the lease.  The view
/// of a pool is one `bool` per slot, `true` while the slot is leased.
pub struct Pool {
    slots: Vec<Slot>,
}

/// Whether some slot of a pool in state `leases` is free.
pub open spec fn has_free(leases: Seq<bool>) -> bool {
    exists|i: int| 0 <= i < leases.len() && !leases[i]
}

impl View for Pool {
    type V = Seq<bool>;

    closed spec fn view(&self) -> Seq<bool> {
        self.slots@.map_values(|s: Slot| s.taken)
    }
}

impl Pool {
    /// A pool with exactly one connection, initially free.
    pub fn new() -> (pool: Pool)
        ensures
            pool@.len() == 1,
            !pool@[0],
    {
        let pool = Pool::with_resources(1);
        pool
    }

    /// A pool with `n` connections, all initially free.
    pub fn with_resources(n: usize) -> (pool: Pool)
        ensures
            pool@.len() == n as int,
            forall|i: int| 0 <= i < n ==> !pool@[i],
    {
        let mut slots: Vec<Slot> = Vec::new();
        let mut i: usize = 0;
        while i < n
            invariant
                i <= n,
                slots@.len() == i as int,
                forall|j: int| 0 <= j < i ==> !slots@[j].taken,
            decreases n - i,
        {
            slots.push(Slot { connection: Connection::new(), taken: false });
            i = i + 1;
        }
        let pool = Pool { slots };
        assert(forall|j: int| 0 <= j < n ==> !pool@[j]);
        pool
    }

    /// How many connections the pool was built with.
    pub fn len(&self) -> (n: usize)
        ensures
            n as int == self@.len(),
    {
        self.slots.len()
    }

    /// Whether some connection is currently free.
    pub fn has_available(&self) -> (r: bool)
        ensures
            r == has_free(self@),
    {
        let n = self.slots.len();
        let mut i: usize = 0;
        while i < n
            invariant
                n as int == self@.len(),
                i <= n,
                n == self.slots.len(),
                forall|j: int| 0 <= j < i ==> self@[j],
            decreases n - i,
        {
            if !self.slots[i].taken {
                assert(!self@[i as int]);
                return true;
            }
            i = i + 1;
        }
        false
    }

    /// Whether `slot` is currently leased.
    pub fn is_leased(&self, slot: usize) -> (r: bool)
        requires
            slot < self@.len(),
        ensures
            r == self@[slot as int],
    {
        self.slots[slot].taken
    }

    /// Lease the first free connection.
    ///
    /// On success the returned index is the smallest free slot, and that
    /// slot alone changes state.  When every slot is leased — in particular
    /// for a pool of zero connections — the pool is left unchanged and the
    /// caller gets `PoolExhausted`.
    pub fn get(&mut self) -> (r: Result<usize, CallError>)
        ensures
            match r {
                Ok(i) => {
                    &&& i < old(self)@.len()
                    &&& !old(self)@[i as int]
                    &&& forall|j: int| 0 <= j < i ==> old(self)@[j]
                    &&& final(self)@ == old(self)@.update(i as int, true)
                },
                Err(e) => {
                    &&& e == CallError::PoolExhausted
                    &&& !has_free(old(self)@)
                    &&& final(self)@ == old(self)@
                },
            },
            r is Ok <==> has_free(old(self)@),
    {
        let n = self.slots.len();
        let mut i: usize = 0;
        while i < n
            invariant
                *self == *old(self),
                n == self.slots.len(),
                i <= n,
                forall|j: int| 0 <= j < i ==> self@[j],
            decreases n - i,
        {
            if !self.slots[i].taken {
                assert(!self@[i as int]);
                self.slots[i].taken = true;
                assert(self@ =~= old(self)@.update(i as int, true));
                return Ok(i);
            }
            i = i + 1;
        }
        Err(CallError::PoolExhausted)
    }

    /// Return a lease taken by `get`.
    pub fn release(&mut self, slot: usize)
        requires
            slot < old(self)@.len(),
            old(self)@[slot as int],
        ensures
            final(self)@ == old(self)@.update(slot as int, false),
    {
        self.slots[slot].taken = false;
        assert(self@ =~= old(self)@.update(slot as int, false));
    }
}

/// Law: an empty pool has no free connection, so by the contract of
/// [`Pool::get`] every acquisition against it fails with `PoolExhausted`.
pub proof fn lemma_empty_pool_is_exhausted(leases: Seq<bool>)
    requires
        leases.len() == 0,
    ensures
        !has_free(leases),
{
}

} // verus!
