//! The guest-side cooperative task queue: a FIFO of runnable tasks.
//!
//! `run_all` hands back exactly the tasks that were queued when the tick
//! began; tasks scheduled while the batch runs wait in the queue for the
//! next tick. The embedding runtime runs each task of the batch in order.

use vstd::prelude::*;

verus! {

/// The queue's inner state: the runnable tasks in schedule order.
pub struct QueueState<T> {
    tasks: Vec<T>,
}

impl<T> View for QueueState<T> {
    type V = Seq<T>;

    closed spec fn view(&self) -> Seq<T> {
        self.tasks@
    }
}

impl<T> QueueState<T> {
    /// Begin one tick: take exactly the tasks scheduled so far, in
    /// schedule order, leaving the queue empty for what they spawn.
    pub fn run_all(&mut self) -> (batch: Vec<T>)
        ensures
            batch@ == old(self)@,
            final(self)@ == Seq::<T>::empty(),
    {
        let mut batch: Vec<T> = Vec::new();
        core::mem::swap(&mut batch, &mut self.tasks);
        batch
    }
}

/// The guest task queue.
pub struct Queue<T> {
    state: QueueState<T>,
}

impl<T> View for Queue<T> {
    type V = Seq<T>;

    closed spec fn view(&self) -> Seq<T> {
        self.state@
    }
}

impl<T> Queue<T> {
    /// An empty queue.
    pub fn new() -> (r: Self)
        ensures
            r@ == Seq::<T>::empty(),
    {
        Queue { state: QueueState { tasks: Vec::new() } }
    }

    /// Schedule a task for the next tick.
    pub fn schedule_task(&mut self, task: T)
        ensures
            final(self)@ == old(self)@.push(task),
    {
        self.state.tasks.push(task);
    }

    /// Append a task to the queue. Tasks are always scheduled for a
    /// future tick, never run inside the current one.
    pub fn push_task(&mut self, task: T)
        ensures
            final(self)@ == old(self)@.push(task),
    {
        self.schedule_task(task);
    }

    /// Begin one tick; see [`QueueState::run_all`].
    pub fn run_all(&mut self) -> (batch: Vec<T>)
        ensures
            batch@ == old(self)@,
            final(self)@ == Seq::<T>::empty(),
    {
        self.state.run_all()
    }
}

/// Schedule a task on the given queue; it runs on the queue's next tick
/// even if it is immediately runnable.
pub fn spawn_local<T>(queue: &mut Queue<T>, task: T)
    ensures
        final(queue)@ == old(queue)@.push(task),
{
    queue.push_task(task);
}

} // verus!
