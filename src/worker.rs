use vstd::prelude::*;

verus! {

/// One long-lived worker: its ordinal and the slot holding its thread handle.
///
/// The slot is occupied from construction until shutdown takes the handle,
/// after which it stays empty.
#[derive(Debug)]
pub struct Worker<H> {
    pub id: usize,
    pub thread: Option<H>,
}

impl<H> Worker<H> {
    pub fn new(id: usize, thread: H) -> (w: Worker<H>)
        ensures
            w.id == id,
            w.thread == Some(thread),
    {
        Worker { id, thread: Some(thread) }
    }

    pub fn id(&self) -> (r: usize)
        ensures
            r == self.id,
    {
        self.id
    }

    /// Whether the thread handle has not been taken yet.
    pub fn is_running(&self) -> (r: bool)
        ensures
            r == self.thread is Some,
    {
        self.thread.is_some()
    }

    /// Takes the thread handle out of its slot; the slot is empty afterwards.
    pub fn take_thread(&mut self) -> (r: Option<H>)
        ensures
            r == old(self).thread,
            final(self).thread is None,
            final(self).id == old(self).id,
    {
        self.thread.take()
    }
}

/// What a worker does with the outcome of one receive on the dispatch channel.
#[derive(Debug)]
pub enum WorkerStep<J> {
    /// A job arrived: run it, then receive again.
    Run(J),
    /// The channel is closed and drained: leave the loop.
    Stop,
}

/// Decides the worker's next step from one receive: a job is run, and a
/// disconnected channel ends the loop.
pub fn next_step<J, E>(received: Result<J, E>) -> (r: WorkerStep<J>)
    ensures
        received is Ok <==> r is Run,
        received is Ok ==> r == WorkerStep::Run(received->Ok_0),
{
    match received {
        Ok(job) => WorkerStep::Run(job),
        Err(_) => WorkerStep::Stop,
    }
}

} // verus!
