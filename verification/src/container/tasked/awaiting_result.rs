//! A fetch that is under way.

use crate::clock::Timestamp;
use vstd::prelude::*;

verus! {

/// A fetch that is under way: when it was started, and the receiver over
/// which its rows will come.
pub struct AwaitingTask<R> {
    result_reciver: R,
    time_started: Timestamp,
}

/// What a look at a fetch under way can find.
pub enum TaskPoll<O> {
    /// The fetch has not finished yet.
    Empty,
    /// The fetch was given up and will never answer.
    Closed,
    /// The fetch has brought these rows.
    Ready(Vec<O>),
}

/// What has become of a fetch after a look at it.
pub enum AwaitingResult<O, R> {
    /// The fetch has brought these rows.
    Recived(Vec<O>),
    /// The fetch is still under way.
    Waiting(AwaitingTask<R>),
    /// The fetch will never answer.
    Closed,
}

impl<R> AwaitingTask<R> {
    /// When the fetch was started.
    pub closed spec fn started(&self) -> Timestamp {
        self.time_started
    }

    /// The receiver over which the rows will come.
    pub closed spec fn receiver(&self) -> R {
        self.result_reciver
    }

    /// Whether the fetch has been under way for more than `period_nanos`
    /// nanoseconds at the time `now`.
    pub open spec fn timed_out_at(&self, now: Timestamp, period_nanos: u64) -> bool {
        self.started().nanos_until(now) > period_nanos
    }

    /// A fetch that starts now.
    pub fn new(result_reciver: R) -> (task: AwaitingTask<R>)
        ensures
            task.receiver() == result_reciver,
    {
        Self::new_at(result_reciver, Timestamp::now())
    }

    /// A fetch that was started at `time_started`.
    pub fn new_at(result_reciver: R, time_started: Timestamp) -> (task: AwaitingTask<R>)
        ensures
            task.receiver() == result_reciver,
            task.started() == time_started,
    {
        AwaitingTask { result_reciver, time_started }
    }

    /// What has become of the fetch, from what a look at it found.
    pub fn try_resolve<O>(self, polled: TaskPoll<O>) -> (result: AwaitingResult<O, R>)
        ensures
            result == (match polled {
                TaskPoll::Ready(rows) => AwaitingResult::<O, R>::Recived(rows),
                TaskPoll::Empty => AwaitingResult::Waiting(self),
                TaskPoll::Closed => AwaitingResult::Closed,
            }),
    {
        match polled {
            TaskPoll::Ready(rows) => AwaitingResult::Recived(rows),
            TaskPoll::Empty => AwaitingResult::Waiting(self),
            TaskPoll::Closed => AwaitingResult::Closed,
        }
    }

    /// Whether the fetch has been under way for more than `period_nanos`
    /// nanoseconds by now.
    pub fn has_timed_out(&self, period_nanos: u64) -> (b: bool)
        ensures
            exists|now: Timestamp| b == self.timed_out_at(now, period_nanos),
    {
        self.has_timed_out_at(Timestamp::now(), period_nanos)
    }

    /// Whether the fetch has been under way for more than `period_nanos`
    /// nanoseconds at the time `now`.
    pub fn has_timed_out_at(&self, now: Timestamp, period_nanos: u64) -> (b: bool)
        ensures
            b == self.timed_out_at(now, period_nanos),
    {
        self.time_started.has_elapsed(&now, period_nanos)
    }

    pub fn time_started(&self) -> (t: Timestamp)
        ensures
            t == self.started(),
    {
        self.time_started
    }

    /// The receiver, to look whether the rows have come.
    pub fn result_reciver_mut(&mut self) -> (reciver: &mut R)
        ensures
            *reciver == old(self).receiver(),
            final(self).receiver() == *final(reciver),
            final(self).started() == old(self).started(),
    {
        &mut self.result_reciver
    }
}

} // verus!
