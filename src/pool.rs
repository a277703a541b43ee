//! The worker pool: a fixed set of workers and the producer side of the job
//! queue they consume.
//!
//! Starting a thread of execution and waiting for one to finish are done by
//! the caller, through the `spawn` and `join` functions handed to
//! [`ThreadPool::build`] and [`ThreadPool::dispose`]; the pool decides when
//! and with what they are called.

use vstd::prelude::*;

use crate::channel::SharedReceiver;
use crossbeam::channel::Sender;
use std::sync::Arc;
use std::sync::Mutex;

verus! {

/// Why a pool could not be built.
#[derive(Debug, Clone, Copy, PartialEq, Eq, Structural)]
#[non_exhaustive]
pub enum PoolCreationError {
    /// A pool needs at least one worker.
    SizeZero,
}

/// Why a job was not queued.
#[derive(Debug, Clone, Copy, PartialEq, Eq, Structural)]
pub enum ExecuteError {
    /// The pool has been disposed of: it takes no more jobs.
    Closed,
    /// Every consumer of the queue is gone.
    Disconnected,
}

/// One worker: its id, and the handle of its running thread of execution
/// until the pool has waited for it.
pub struct Worker<H> {
    pub id: usize,
    pub thread: Option<H>,
}

/// Each worker of `ws` carries the id of its position and a handle.
pub open spec fn numbered_and_running<H>(ws: Seq<Worker<H>>) -> bool {
    forall|i: int| 0 <= i < ws.len() ==> (#[trigger] ws[i]).id == i && ws[i].thread is Some
}

/// Each worker of `ws` carries the id of its position and no handle.
pub open spec fn numbered_and_stopped<H>(ws: Seq<Worker<H>>) -> bool {
    forall|i: int| 0 <= i < ws.len() ==> (#[trigger] ws[i]).id == i && ws[i].thread is None
}

/// Each handle in `ws` is what `spawn` returned for that worker's id and the
/// one shared receiver `rx`.
pub open spec fn spawned_with<J, H, F: Fn(usize, &SharedReceiver<J>) -> H>(
    spawn: F,
    rx: SharedReceiver<J>,
    ws: Seq<Worker<H>>,
) -> bool {
    forall|i: int|
        0 <= i < ws.len() ==> spawn.ensures(((#[trigger] ws[i]).id, &rx), ws[i].thread->Some_0)
}

/// The ids `0, 1, ..., n - 1`.
pub open spec fn ids_upto(n: nat) -> Seq<usize> {
    Seq::new(n, |i: int| i as usize)
}

/// A fixed-size pool of workers consuming one job queue.
#[verifier::reject_recursive_types(J)]
pub struct ThreadPool<J, H> {
    workers: Vec<Worker<H>>,
    sender: Option<Sender<J>>,
}

impl<J, H> ThreadPool<J, H> {
    /// The workers, in the order in which they were started.
    pub closed spec fn workers(&self) -> Seq<Worker<H>> {
        self.workers@
    }

    /// Whether the pool still holds the producer side, that is, has not been
    /// disposed of.
    pub closed spec fn is_open(&self) -> bool {
        self.sender is Some
    }

    /// A live pool has every worker running; a disposed one has none.
    pub open spec fn wf(&self) -> bool {
        &&& self.workers().len() >= 1
        &&& self.is_open() ==> numbered_and_running(self.workers())
        &&& !self.is_open() ==> numbered_and_stopped(self.workers())
    }

    /// Builds a pool of `size` workers. Fails with `SizeZero` when `size` is
    /// 0; nothing is then asked of `spawn`, so it is never called. Otherwise creates the queue, puts its
    /// consumer side behind one shared lock, and calls `spawn(i, &rx)` for
    /// each id `i` from 0 to `size - 1` in turn, with that same shared `rx`.
    pub fn build<F: Fn(usize, &SharedReceiver<J>) -> H>(size: usize, spawn: F) -> (r: Result<
        Self,
        PoolCreationError,
    >)
        requires
            forall|i: usize, rx: &SharedReceiver<J>| i < size ==> #[trigger] spawn.requires((i, rx)),
        ensures
            size == 0 ==> r == Err::<Self, PoolCreationError>(PoolCreationError::SizeZero),
            size > 0 ==> r is Ok,
            r is Ok ==> {
                let p = r->Ok_0;
                &&& p.wf()
                &&& p.is_open()
                &&& p.workers().len() == size
                &&& p.workers().map_values(|w: Worker<H>| w.id) == ids_upto(size as nat)
                &&& exists|rx: SharedReceiver<J>| spawned_with(spawn, rx, #[trigger] p.workers())
            },
    {
        if size == 0 {
            return Err(PoolCreationError::SizeZero);
        }
        Ok(Self::start(size, spawn))
    }

    /// Creates the queue and starts the `size` workers.
    fn start<F: Fn(usize, &SharedReceiver<J>) -> H>(size: usize, spawn: F) -> (p: Self)
        requires
            size > 0,
            forall|i: usize, rx: &SharedReceiver<J>| i < size ==> #[trigger] spawn.requires((i, rx)),
        ensures
            p.wf(),
            p.is_open(),
            p.workers().len() == size,
            p.workers().map_values(|w: Worker<H>| w.id) == ids_upto(size as nat),
            exists|rx: SharedReceiver<J>| spawned_with(spawn, rx, #[trigger] p.workers()),
    {
        let (tx, rx) = crossbeam::channel::unbounded::<J>();
        let rx: SharedReceiver<J> = Arc::new(Mutex::new(rx));
        let mut workers: Vec<Worker<H>> = Vec::new();
        let mut i: usize = 0;
        while i < size
            invariant
                i <= size,
                workers@.len() == i,
                numbered_and_running(workers@),
                spawned_with(spawn, rx, workers@),
                forall|k: usize, a: &SharedReceiver<J>| k < size ==> #[trigger] spawn.requires((k, a)),
            decreases size - i,
        {
            let thread = spawn(i, &rx);
            workers.push(Worker { id: i, thread: Some(thread) });
            i = i + 1;
        }
        let pool = ThreadPool { workers, sender: Some(tx) };
        assert(pool.workers().map_values(|w: Worker<H>| w.id) =~= ids_upto(size as nat));
        assert(spawned_with(spawn, rx, pool.workers()));
        pool
    }

    /// Builds a pool of `size` workers as [`ThreadPool::build`] does; the
    /// caller guarantees that `size` is at least 1.
    pub fn new<F: Fn(usize, &SharedReceiver<J>) -> H>(size: usize, spawn: F) -> (p: Self)
        requires
            size > 0,
            forall|i: usize, rx: &SharedReceiver<J>| i < size ==> #[trigger] spawn.requires((i, rx)),
        ensures
            p.wf(),
            p.is_open(),
            p.workers().len() == size,
            p.workers().map_values(|w: Worker<H>| w.id) == ids_upto(size as nat),
            exists|rx: SharedReceiver<J>| spawned_with(spawn, rx, #[trigger] p.workers()),
    {
        Self::start(size, spawn)
    }

    /// Queues `job` for whichever worker is free next, without blocking.
    /// A disposed pool refuses it with `Closed`; a live one queues it, and
    /// fails with `Disconnected` only if every consumer is gone.
    pub fn execute(&self, job: J) -> (r: Result<(), ExecuteError>)
        ensures
            !self.is_open() ==> r == Err::<(), ExecuteError>(ExecuteError::Closed),
            self.is_open() ==> r is Ok || r == Err::<(), ExecuteError>(ExecuteError::Disconnected),
    {
        match &self.sender {
            None => Err(ExecuteError::Closed),
            Some(tx) => match tx.send(job) {
                Ok(()) => Ok(()),
                Err(_) => Err(ExecuteError::Disconnected),
            },
        }
    }

    /// The number of workers, fixed when the pool was built.
    pub fn size(&self) -> (n: usize)
        ensures
            n == self.workers().len(),
    {
        self.workers.len()
    }

    /// Whether the pool still takes jobs.
    pub fn accepts_jobs(&self) -> (b: bool)
        ensures
            b == self.is_open(),
    {
        self.sender.is_some()
    }

    /// Disposes of the pool: first drops the producer side, so that each
    /// worker finds the queue closed once it has drained it, then, in the
    /// order the workers were started, calls `join(id, handle)` on each
    /// worker's handle. Returns the ids of the workers waited for: all of
    /// them on a live pool, none on a pool already disposed of.
    pub fn dispose<F: Fn(usize, H)>(&mut self, join: F) -> (joined: Vec<usize>)
        requires
            old(self).wf(),
            forall|i: usize, h: H| #[trigger] join.requires((i, h)),
        ensures
            final(self).wf(),
            !final(self).is_open(),
            numbered_and_stopped(final(self).workers()),
            final(self).workers().len() == old(self).workers().len(),
            old(self).is_open() ==> joined@ == ids_upto(old(self).workers().len()),
            !old(self).is_open() ==> joined@.len() == 0,
            old(self).is_open() ==> forall|k: int|
                0 <= k < old(self).workers().len() ==> join.ensures(
                    (k as usize, (#[trigger] old(self).workers()[k]).thread->Some_0),
                    (),
                ),
    {
        self.sender = None;
        let ghost before = self.workers@;
        let n = self.workers.len();
        let mut joined: Vec<usize> = Vec::new();
        let mut i: usize = 0;
        while i < n
            invariant
                i <= n,
                n == self.workers@.len(),
                self.sender is None,
                before.len() == n,
                forall|k: int| 0 <= k < n ==> (#[trigger] self.workers@[k]).id == k,
                forall|k: int| 0 <= k < i ==> (#[trigger] self.workers@[k]).thread is None,
                forall|k: int| i <= k < n ==> (#[trigger] self.workers@[k]) == before[k],
                numbered_and_running(before) ==> joined@ == ids_upto(i as nat),
                numbered_and_stopped(before) ==> joined@.len() == 0,
                numbered_and_running(before) ==> forall|k: int|
                    0 <= k < i ==> join.ensures((k as usize, (#[trigger] before[k]).thread->Some_0), ()),
                forall|k: usize, h: H| #[trigger] join.requires((k, h)),
            decreases n - i,
        {
            let id = self.workers[i].id;
            let mut worker = Worker { id, thread: None };
            std::mem::swap(&mut worker, &mut self.workers[i]);
            if let Some(thread) = worker.thread {
                join(id, thread);
                joined.push(id);
            }
            assert(joined@ =~= ids_upto(i as nat + 1) || !numbered_and_running(before));
            i = i + 1;
        }
        joined
    }
}

} // verus!
