//! What a worker does with each thing it takes from the queue.
//!
//! A worker is Running until it finds the queue closed, then Stopped for
//! good. The thread that hosts it runs the loop: take from the queue, ask
//! [`WorkerLoop::step`] what to do, do it.

use vstd::prelude::*;

use crate::channel::Taken;

verus! {

/// The two states of a worker.
#[derive(Debug, Clone, Copy, PartialEq, Eq, Structural)]
pub enum WorkerState {
    /// Taking and running jobs.
    Running,
    /// Finished: its thread of execution ends.
    Stopped,
}

/// What the hosting thread does next.
pub enum Action<J> {
    /// Run this job to completion, then take again.
    Run(J),
    /// Leave the loop.
    Exit,
}

/// The decisions of one worker.
pub struct WorkerLoop {
    pub id: usize,
    pub state: WorkerState,
}

impl WorkerLoop {
    /// A worker with the given id, Running.
    pub fn new(id: usize) -> (w: Self)
        ensures
            w.id == id,
            w.state == WorkerState::Running,
    {
        WorkerLoop { id, state: WorkerState::Running }
    }

    /// Decides on what was taken from the queue. A Running worker runs a job
    /// and stays Running; on a closed queue it stops and exits. A Stopped
    /// worker stays Stopped and exits, whatever it is handed.
    pub fn step<J>(&mut self, taken: Taken<J>) -> (a: Action<J>)
        ensures
            final(self).id == old(self).id,
            old(self).state == WorkerState::Stopped ==> a is Exit && final(self).state
                == WorkerState::Stopped,
            old(self).state == WorkerState::Running ==> match taken {
                Taken::Job(j) => a == Action::Run(j) && final(self).state == WorkerState::Running,
                Taken::Closed => a is Exit && final(self).state == WorkerState::Stopped,
            },
    {
        match self.state {
            WorkerState::Stopped => Action::Exit,
            WorkerState::Running => match taken {
                Taken::Job(j) => Action::Run(j),
                Taken::Closed => {
                    self.state = WorkerState::Stopped;
                    Action::Exit
                },
            },
        }
    }

    /// Whether the worker still takes jobs.
    pub fn is_running(&self) -> (b: bool)
        ensures
            b == (self.state == WorkerState::Running),
    {
        match self.state {
            WorkerState::Running => true,
            WorkerState::Stopped => false,
        }
    }
}

} // verus!
