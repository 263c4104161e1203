use vstd::prelude::*;

use crate::error::{PoolCreationError, invalid_size_message};
use crate::worker::Worker;

verus! {

/// The three phases of a pool, in the only order they can occur.
#[derive(Debug, PartialEq, Eq, Structural)]
pub enum PoolPhase {
    /// The sender is present and submissions are accepted.
    Active,
    /// The sender is gone; some worker thread has not been joined yet.
    Closing,
    /// The sender is gone and every worker thread has been joined.
    Terminated,
}

/// A fixed set of workers and the single sending handle of their dispatch channel.
///
/// `H` is a worker's thread handle and `S` the sending half of the channel.
///
/// While the sender is present every worker holds its thread; once the sender
/// has been dropped it never comes back.
#[derive(Debug)]
pub struct PoolCore<H, S> {
    workers: Vec<Worker<H>>,
    sender: Option<S>,
}

/// Every worker stands at the index of its ordinal.
pub open spec fn ids_in_place<H>(ws: Seq<Worker<H>>) -> bool {
    forall|i: int| 0 <= i < ws.len() ==> (#[trigger] ws[i]).id == i
}

/// Every worker still holds its thread handle.
pub open spec fn all_running<H>(ws: Seq<Worker<H>>) -> bool {
    forall|i: int| 0 <= i < ws.len() ==> (#[trigger] ws[i]).thread is Some
}

/// No worker holds a thread handle any more.
pub open spec fn none_running<H>(ws: Seq<Worker<H>>) -> bool {
    forall|i: int| 0 <= i < ws.len() ==> (#[trigger] ws[i]).thread is None
}

/// The indices, ascending, of the first `k` workers that still hold a handle:
/// the order in which disposal waits on them.
pub open spec fn join_order<H>(ws: Seq<Worker<H>>, k: int) -> Seq<usize>
    decreases k,
{
    if k <= 0 {
        Seq::empty()
    } else if ws[k - 1].thread is Some {
        join_order(ws, k - 1).push((k - 1) as usize)
    } else {
        join_order(ws, k - 1)
    }
}

/// The ordinals `0, 1, .., n - 1`.
pub open spec fn ordinals(n: int) -> Seq<usize> {
    Seq::new(n as nat, |i: int| i as usize)
}

/// Disposing of a freshly built pool waits on every worker exactly once, in
/// ascending order of ordinals: the join order is `0, 1, .., n - 1`.
pub proof fn lemma_fresh_pool_joins_every_worker<H, S>(p: PoolCore<H, S>)
    requires
        p.fresh(),
    ensures
        join_order(p.workers_spec(), p.workers_spec().len() as int) == ordinals(
            p.workers_spec().len() as int,
        ),
{
    lemma_join_order_all_running(p.workers_spec(), p.workers_spec().len() as int);
}

proof fn lemma_join_order_all_running<H>(ws: Seq<Worker<H>>, k: int)
    requires
        0 <= k <= ws.len(),
        ws.len() <= usize::MAX + 1,
        all_running(ws),
    ensures
        join_order(ws, k) == ordinals(k),
    decreases k,
{
    if k > 0 {
        lemma_join_order_all_running(ws, k - 1);
        assert(ws[k - 1].thread is Some);
        assert(join_order(ws, k) =~= ordinals(k));
    }
}

impl<H, S> PoolCore<H, S> {
    #[verifier::type_invariant]
    spec fn inv(&self) -> bool {
        &&& ids_in_place(self.workers@)
        &&& self.sender is Some ==> self.workers.len() >= 1 && all_running(self.workers@)
    }

    /// The workers, in order of their ordinals.
    pub closed spec fn workers_spec(&self) -> Seq<Worker<H>> {
        self.workers@
    }

    /// The sending handle, present until the pool is disposed of.
    pub closed spec fn sender_spec(&self) -> Option<S> {
        self.sender
    }

    /// The state a pool is in right after a successful construction.
    pub open spec fn fresh(&self) -> bool {
        &&& self.workers_spec().len() >= 1
        &&& ids_in_place(self.workers_spec())
        &&& all_running(self.workers_spec())
        &&& self.sender_spec() is Some
    }

    pub open spec fn phase_spec(&self) -> PoolPhase {
        if self.sender_spec() is Some {
            PoolPhase::Active
        } else if none_running(self.workers_spec()) {
            PoolPhase::Terminated
        } else {
            PoolPhase::Closing
        }
    }

    /// The number of workers, fixed at construction.
    pub fn size(&self) -> (r: usize)
        ensures
            r == self.workers_spec().len(),
    {
        self.workers.len()
    }

    /// The workers, in order of their ordinals.
    pub fn workers(&self) -> (r: &[Worker<H>])
        ensures
            r@ == self.workers_spec(),
    {
        self.workers.as_slice()
    }

    /// Whether submissions are still accepted. An active pool has at least one
    /// worker, and every worker still holds its thread.
    pub fn is_active(&self) -> (r: bool)
        ensures
            r == (self.sender_spec() is Some),
            r ==> self.fresh(),
            ids_in_place(self.workers_spec()),
    {
        proof {
            use_type_invariant(self);
        }
        self.sender.is_some()
    }

    pub fn phase(&self) -> (r: PoolPhase)
        ensures
            r == self.phase_spec(),
    {
        if self.sender.is_some() {
            return PoolPhase::Active;
        }
        let mut i: usize = 0;
        while i < self.workers.len()
            invariant
                0 <= i <= self.workers.len(),
                self.sender is None,
                forall|j: int| 0 <= j < i ==> (#[trigger] self.workers@[j]).thread is None,
            decreases self.workers.len() - i,
        {
            if self.workers[i].is_running() {
                assert(self.workers@[i as int].thread is Some);
                return PoolPhase::Closing;
            }
            i += 1;
        }
        PoolPhase::Terminated
    }

    /// The sending handle through which jobs are submitted, while the pool is active.
    pub fn sender(&self) -> (r: Option<&S>)
        ensures
            r is Some <==> self.sender_spec() is Some,
            r is Some ==> *r->Some_0 == self.sender_spec()->Some_0,
    {
        self.sender.as_ref()
    }

    /// Shuts the pool down and returns the ordinals of the workers waited on, in order.
    ///
    /// The sender is dropped first, so that every worker blocked on a receive
    /// sees the channel close once the queued jobs are drained. Then, in
    /// ascending index order, each worker's thread handle is taken and handed
    /// to `join`, which waits for that thread to end.
    pub fn dispose<G>(&mut self, join: G) -> (r: Vec<usize>)
        where
            G: Fn(usize, H),
        requires
            forall|id: usize, h: H| #[trigger] join.requires((id, h)),
        ensures
            final(self).sender_spec() is None,
            final(self).phase_spec() == PoolPhase::Terminated,
            final(self).workers_spec().len() == old(self).workers_spec().len(),
            forall|i: int| 0 <= i < old(self).workers_spec().len() ==>
                (#[trigger] final(self).workers_spec()[i]).id == old(self).workers_spec()[i].id,
            none_running(final(self).workers_spec()),
            r@ == join_order(old(self).workers_spec(), old(self).workers_spec().len() as int),
    {
        proof {
            use_type_invariant(&*self);
        }
        {
            // The taken sender is dropped at the end of this block, before any join.
            let mut closed: Option<S> = None;
            std::mem::swap(&mut closed, &mut self.sender);
        }
        let mut workers: Vec<Worker<H>> = Vec::new();
        std::mem::swap(&mut workers, &mut self.workers);
        let n = workers.len();
        let mut joined: Vec<usize> = Vec::new();
        let mut i: usize = 0;
        while i < n
            invariant
                0 <= i <= n,
                n == old(self).workers@.len(),
                workers.len() == n,
                forall|id: usize, h: H| #[trigger] join.requires((id, h)),
                forall|j: int| 0 <= j < n ==> (#[trigger] workers[j]).id == old(self).workers[j].id,
                forall|j: int| 0 <= j < i ==> (#[trigger] workers[j]).thread is None,
                forall|j: int| i <= j < n ==> (#[trigger] workers[j]).thread == old(self).workers[j].thread,
                joined@ == join_order(old(self).workers@, i as int),
            decreases n - i,
        {
            let mut worker = workers.remove(i);
            let thread = worker.take_thread();
            workers.insert(i, worker);
            if let Some(handle) = thread {
                joined.push(i);
                join(i, handle);
            }
            i += 1;
        }
        assert(ids_in_place(workers@));
        self.workers = workers;
        joined
    }

    /// Builds a pool of `size` workers.
    ///
    /// A size of zero is refused before anything else happens. Otherwise
    /// `open` makes the channel once, giving its sender and the shared
    /// receiving end, and `spawn(id, &receiver)` starts the worker with
    /// ordinal `id`, for each `id` in `0..size` in ascending order.
    pub fn new<R, F, G>(size: usize, open: F, spawn: G) -> (r: Result<PoolCore<H, S>, PoolCreationError>)
        where
            F: FnOnce() -> (S, R),
            G: Fn(usize, &R) -> H,
        requires
            open.requires(()),
            forall|id: usize, rx: &R| id < size ==> #[trigger] spawn.requires((id, rx)),
        ensures
            size == 0 <==> r is Err,
            r is Err ==> r->Err_0@ == invalid_size_message(),
            r is Ok ==> {
                let p = r->Ok_0;
                &&& p.workers_spec().len() == size
                &&& p.fresh()
                &&& p.phase_spec() == PoolPhase::Active
                &&& exists|tx: S, rx: R| {
                    &&& open.ensures((), (tx, rx))
                    &&& p.sender_spec() == Some(tx)
                    &&& forall|i: int| 0 <= i < size ==> spawn.ensures(
                        (i as usize, &rx),
                        #[trigger] p.workers_spec()[i].thread->Some_0,
                    )
                }
            },
    {
        if size < 1 {
            return Err(PoolCreationError::invalid_size());
        }
        let (sender, receiver) = open();
        let mut workers: Vec<Worker<H>> = Vec::with_capacity(size);
        let mut id: usize = 0;
        while id < size
            invariant
                0 <= id <= size,
                workers.len() == id,
                ids_in_place(workers@),
                all_running(workers@),
                forall|i: usize, rx: &R| i < size ==> #[trigger] spawn.requires((i, rx)),
                forall|i: int| 0 <= i < id ==> spawn.ensures(
                    (i as usize, &receiver),
                    #[trigger] workers@[i].thread->Some_0,
                ),
            decreases size - id,
        {
            let thread = spawn(id, &receiver);
            workers.push(Worker::new(id, thread));
            id += 1;
        }
        Ok(PoolCore { workers, sender: Some(sender) })
    }
}

} // verus!
