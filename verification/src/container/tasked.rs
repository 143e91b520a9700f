//! A container whose rows come from a task of the owner's choosing rather
//! than from a statement.

use crate::clock::Timestamp;
use crate::container::create_name;
use crate::container::data::{Data, DataView, HasData, Order};
use crate::container::default_name;
use crate::container::tasked::awaiting_execute::AwaitingExecute;
use crate::container::tasked::awaiting_result::{AwaitingResult, AwaitingTask, TaskPoll};
use vstd::prelude::*;

pub mod awaiting_execute;
pub mod awaiting_result;

verus! {

/// After how many nanoseconds a fetch is given up unless the owner says
/// otherwise: five seconds.
pub const DEFAULT_TIMEOUT_NANOS: u64 = 5_000_000_000;

/// A container that fetches its rows by a task, with a parameter that it
/// keeps. It holds the receivers over which its tasks answer: `R` for the
/// rows of a fetch, `X` for the end of a side task.
pub struct Container<P, O, F: Fn(&O, &O) -> Order, R, X> {
    name: String,
    param: P,
    task: Option<AwaitingTask<R>>,
    executes: Vec<AwaitingExecute<X>>,
    data: Data<O, F>,
    timeout_nanos: u64,
}

/// Whether the side task at each position is expected to change the rows.
pub open spec fn refreshing<X>(executes: Seq<AwaitingExecute<X>>) -> Seq<bool> {
    Seq::new(executes.len(), |i: int| executes[i].refreshes())
}

/// The side tasks still under way when those marked in `done` are over,
/// in their order. A side task that `done` does not reach is under way.
pub open spec fn still_running<T>(executes: Seq<T>, done: Seq<bool>) -> Seq<T>
    decreases executes.len(),
{
    if executes.len() == 0 {
        Seq::empty()
    } else {
        let before = still_running(executes.drop_last(), done);
        if executes.len() <= done.len() && done[executes.len() - 1] {
            before
        } else {
            before.push(executes.last())
        }
    }
}

/// Whether one of the side tasks marked in `done` was expected to change
/// the rows.
pub open spec fn asks_refresh(executes: Seq<bool>, done: Seq<bool>) -> bool {
    exists|i: int| 0 <= i < executes.len() && i < done.len() && done[i] && #[trigger] executes[i]
}

impl<P, O, F: Fn(&O, &O) -> Order, R, X> Container<P, O, F, R, X> {
    pub closed spec fn label(&self) -> Seq<char> {
        self.name@
    }

    /// The parameter with which the rows are fetched.
    pub closed spec fn parameter(&self) -> P {
        self.param
    }

    /// The fetch under way, if there is one.
    pub closed spec fn fetching(&self) -> Option<AwaitingTask<R>> {
        self.task
    }

    /// The side tasks under way.
    pub closed spec fn side_tasks(&self) -> Seq<AwaitingExecute<X>> {
        self.executes@
    }

    /// The rows.
    pub closed spec fn held(&self) -> Data<O, F> {
        self.data
    }

    /// After how many nanoseconds a fetch is given up.
    pub closed spec fn timeout(&self) -> u64 {
        self.timeout_nanos
    }

    /// A container named after its type and the type of its rows, whose
    /// first fetch starts now and answers over `reciver`.
    pub fn new_default_name(
        container_type: &str,
        row_type: &str,
        init_param: P,
        reciver: R,
    ) -> (container: Self)
        ensures
            container.label() == default_name(container_type@, row_type@),
            container.parameter() == init_param,
            container.fetching() matches Some(task) && task.receiver() == reciver,
            container.side_tasks().len() == 0,
            container.held()@ == (DataView { rows: Seq::<O>::empty(), has_changed: false }),
            container.held().comparator() is None,
            container.timeout() == DEFAULT_TIMEOUT_NANOS,
    {
        Self::new(create_name(container_type, row_type), init_param, reciver)
    }

    /// A container whose first fetch starts now and answers over `reciver`.
    pub fn new(name: String, init_param: P, reciver: R) -> (container: Self)
        ensures
            container.label() == name@,
            container.parameter() == init_param,
            container.fetching() matches Some(task) && task.receiver() == reciver,
            container.side_tasks().len() == 0,
            container.held()@ == (DataView { rows: Seq::<O>::empty(), has_changed: false }),
            container.held().comparator() is None,
            container.timeout() == DEFAULT_TIMEOUT_NANOS,
    {
        Self::new_at(name, init_param, reciver, Timestamp::now())
    }

    /// A container whose first fetch started at `now` and answers over
    /// `reciver`.
    pub fn new_at(name: String, init_param: P, reciver: R, now: Timestamp) -> (container: Self)
        ensures
            container.label() == name@,
            container.parameter() == init_param,
            container.fetching() matches Some(task) && task.receiver() == reciver && task.started()
                == now,
            container.side_tasks().len() == 0,
            container.held()@ == (DataView { rows: Seq::<O>::empty(), has_changed: false }),
            container.held().comparator() is None,
            container.timeout() == DEFAULT_TIMEOUT_NANOS,
    {
        Container {
            name,
            param: init_param,
            task: Some(AwaitingTask::new_at(reciver, now)),
            executes: Vec::new(),
            data: Data::new(),
            timeout_nanos: DEFAULT_TIMEOUT_NANOS,
        }
    }

    /// Sets after how many nanoseconds a fetch is given up.
    pub fn set_timeout(&mut self, timeout_nanos: u64)
        ensures
            final(self).timeout() == timeout_nanos,
            final(self).label() == old(self).label(),
            final(self).parameter() == old(self).parameter(),
            final(self).fetching() == old(self).fetching(),
            final(self).side_tasks() == old(self).side_tasks(),
            final(self).held() == old(self).held(),
    {
        self.timeout_nanos = timeout_nanos;
    }

    /// What one look around at the time `now` makes of the container
    /// `before`. If the fetch under way has brought rows, they replace the
    /// rows held; a fetch that has answered, that will never answer, or
    /// that has been under way for longer than the timeout is no longer
    /// waited for. The side tasks marked in `done` are over; if one of them
    /// was expected to change the rows, `fetch` tells the owner to start a
    /// fetch, and a fetch that is still under way is given up for it.
    pub open spec fn looked(
        before: Self,
        polled: TaskPoll<O>,
        done: Seq<bool>,
        now: Timestamp,
        after: Self,
        fetch: bool,
    ) -> bool {
        &&& after.label() == before.label()
        &&& after.parameter() == before.parameter()
        &&& after.timeout() == before.timeout()
        &&& after.held().comparator() == before.held().comparator()
        &&& after.held()@ == (if before.fetching() is Some && polled is Ready {
            before.held()@.set(polled->Ready_0@)
        } else {
            before.held()@
        })
        &&& after.side_tasks() == still_running(before.side_tasks(), done)
        &&& fetch == asks_refresh(refreshing(before.side_tasks()), done)
        &&& after.fetching() == (if !fetch && before.fetching() is Some && polled is Empty
            && !before.fetching()->0.timed_out_at(now, before.timeout()) {
            before.fetching()
        } else {
            None
        })
    }

    /// One look around, at the time the clock shows. The result tells the
    /// owner to start a fetch: see [`Container::refresh`].
    pub fn state_update(&mut self, polled: TaskPoll<O>, done: &Vec<bool>) -> (fetch: bool)
        ensures
            exists|now: Timestamp| Self::looked(*old(self), polled, done@, now, *final(self), fetch),
    {
        self.state_update_at(polled, done, Timestamp::now())
    }

    /// One look around at the time `now`. The result tells the owner to
    /// start a fetch: see [`Container::refresh`].
    pub fn state_update_at(&mut self, polled: TaskPoll<O>, done: &Vec<bool>, now: Timestamp) -> (fetch:
        bool)
        ensures
            Self::looked(*old(self), polled, done@, now, *final(self), fetch),
    {
        let task = self.task.take();
        if let Some(awaiter) = task {
            match awaiter.try_resolve(polled) {
                AwaitingResult::Recived(values) => {
                    self.data.set(values);
                },
                AwaitingResult::Waiting(awaiting_task) => {
                    if !awaiting_task.has_timed_out_at(now, self.timeout_nanos) {
                        self.task = Some(awaiting_task);
                    }
                },
                AwaitingResult::Closed => {},
            }
        }
        let fetch = self.finish_executes(done);
        if fetch {
            self.task = None;
        }
        fetch
    }

    /// Takes out the side tasks marked in `done` and tells whether one of
    /// them was expected to change the rows.
    fn finish_executes(&mut self, done: &Vec<bool>) -> (fetch: bool)
        ensures
            final(self).label() == old(self).label(),
            final(self).parameter() == old(self).parameter(),
            final(self).timeout() == old(self).timeout(),
            final(self).held() == old(self).held(),
            final(self).fetching() == old(self).fetching(),
            final(self).side_tasks() == still_running(old(self).side_tasks(), done@),
            fetch == asks_refresh(refreshing(old(self).side_tasks()), done@),
    {
        let mut kept: Vec<AwaitingExecute<X>> = Vec::new();
        let mut all: Vec<AwaitingExecute<X>> = Vec::new();
        std::mem::swap(&mut all, &mut self.executes);
        let ghost tasks = all@;
        assert(tasks.len() <= usize::MAX) by {
            assert(tasks.len() == all.len());
        }
        let mut fetch = false;
        let mut i: usize = 0;
        assert(kept@ =~= still_running(tasks.take(0), done@));
        for execute in it: all
            invariant
                it.seq() == tasks,
                tasks.len() <= usize::MAX,
                i == it.index(),
                self.name == old(self).name,
                self.param == old(self).param,
                self.timeout_nanos == old(self).timeout_nanos,
                self.data == old(self).data,
                self.task == old(self).task,
                kept@ == still_running(tasks.take(it.index() as int), done@),
                fetch == asks_refresh(refreshing(tasks.take(it.index() as int)), done@),
        {
            let ghost taken_before = tasks.take(i as int);
            let ghost taken = tasks.take(i + 1);
            proof {
                assert(taken.drop_last() =~= taken_before);
                assert(taken.last() == execute);
            }
            let is_done = i < done.len() && done[i];
            if is_done {
                if execute.changes_data() {
                    fetch = true;
                    assert(refreshing(taken)[i as int]);
                }
            } else {
                kept.push(execute);
            }
            proof {
                if asks_refresh(refreshing(taken), done@) {
                    let j = choose|j: int|
                        0 <= j < refreshing(taken).len() && j < done@.len() && done@[j]
                            && #[trigger] refreshing(taken)[j];
                    if j < i {
                        assert(refreshing(taken_before)[j]);
                    }
                }
                if asks_refresh(refreshing(taken_before), done@) {
                    let j = choose|j: int|
                        0 <= j < refreshing(taken_before).len() && j < done@.len() && done@[j]
                            && #[trigger] refreshing(taken_before)[j];
                    assert(refreshing(taken)[j]);
                }
            }
            i = i + 1;
        }
        assert(tasks.take(tasks.len() as int) =~= tasks);
        self.executes = kept;
        fetch
    }

    /// The name of this container.
    pub fn name(&self) -> (name: &str)
        ensures
            name@ == self.label(),
    {
        self.name.as_str()
    }

    /// The parameter with which the rows are fetched.
    pub fn param(&self) -> (param: &P)
        ensures
            *param == self.parameter(),
    {
        &self.param
    }

    /// Whether a fetch is under way.
    pub fn is_fetching(&self) -> (b: bool)
        ensures
            b == (self.fetching() is Some),
    {
        self.task.is_some()
    }

    /// How many side tasks are under way.
    pub fn executes_len(&self) -> (n: usize)
        ensures
            n == self.side_tasks().len(),
    {
        self.executes.len()
    }

    /// The fetch under way, to look whether its rows have come.
    pub fn task_mut(&mut self) -> (task: Option<&mut AwaitingTask<R>>)
        ensures
            task is Some <==> old(self).fetching() is Some,
            task is None ==> *final(self) == *old(self),
            task matches Some(task) ==> *task == old(self).fetching()->0 && final(self).fetching()
                == Some(*final(task)),
            final(self).label() == old(self).label(),
            final(self).parameter() == old(self).parameter(),
            final(self).timeout() == old(self).timeout(),
            final(self).held() == old(self).held(),
            final(self).side_tasks() == old(self).side_tasks(),
    {
        self.task.as_mut()
    }

    /// The side task at `position`, to look whether it is done.
    pub fn execute_mut(&mut self, position: usize) -> (execute: Option<&mut AwaitingExecute<X>>)
        ensures
            execute is Some <==> position < old(self).side_tasks().len(),
            execute is None ==> *final(self) == *old(self),
            execute matches Some(execute) ==> *execute == old(self).side_tasks()[position as int]
                && final(self).side_tasks() == old(self).side_tasks().update(
                position as int,
                *final(execute),
            ),
            final(self).label() == old(self).label(),
            final(self).parameter() == old(self).parameter(),
            final(self).timeout() == old(self).timeout(),
            final(self).held() == old(self).held(),
            final(self).fetching() == old(self).fetching(),
    {
        if position < self.executes.len() {
            Some(&mut self.executes[position])
        } else {
            None
        }
    }

    /// Sets a new parameter and starts a fetch with it now, which answers
    /// over `reciver`.
    pub fn new_params(&mut self, new_params: P, reciver: R)
        ensures
            final(self).parameter() == new_params,
            final(self).fetching() matches Some(task) && task.receiver() == reciver,
            final(self).label() == old(self).label(),
            final(self).held() == old(self).held(),
            final(self).side_tasks() == old(self).side_tasks(),
            final(self).timeout() == old(self).timeout(),
    {
        self.param = new_params;
        self.refresh(reciver);
    }

    /// Starts a fetch now with the parameter that is kept; it answers over
    /// `reciver`. A fetch that is under way is superseded.
    pub fn refresh(&mut self, reciver: R)
        ensures
            final(self).fetching() matches Some(task) && task.receiver() == reciver,
            final(self).parameter() == old(self).parameter(),
            final(self).label() == old(self).label(),
            final(self).held() == old(self).held(),
            final(self).side_tasks() == old(self).side_tasks(),
            final(self).timeout() == old(self).timeout(),
    {
        self.refresh_at(reciver, Timestamp::now())
    }

    /// Starts a fetch at `now` with the parameter that is kept; it answers
    /// over `reciver`.
    pub fn refresh_at(&mut self, reciver: R, now: Timestamp)
        ensures
            final(self).fetching() matches Some(task) && task.receiver() == reciver && task.started()
                == now,
            final(self).parameter() == old(self).parameter(),
            final(self).label() == old(self).label(),
            final(self).held() == old(self).held(),
            final(self).side_tasks() == old(self).side_tasks(),
            final(self).timeout() == old(self).timeout(),
    {
        self.task = Some(AwaitingTask::new_at(reciver, now));
    }

    /// Records a side task after whose end the rows are fetched anew. The
    /// task will say over `reciver` that it is done.
    pub fn execute_changes(&mut self, reciver: X)
        ensures
            final(self).side_tasks().len() == old(self).side_tasks().len() + 1,
            final(self).side_tasks().drop_last() == old(self).side_tasks(),
            final(self).side_tasks().last().refreshes(),
            final(self).side_tasks().last().receiver() == reciver,
            final(self).fetching() == old(self).fetching(),
            final(self).parameter() == old(self).parameter(),
            final(self).label() == old(self).label(),
            final(self).held() == old(self).held(),
            final(self).timeout() == old(self).timeout(),
    {
        self.executes.push(Self::execute(true, reciver));
        assert(self.executes@.drop_last() =~= old(self).executes@);
    }

    /// Records a side task after whose end nothing is fetched. The task
    /// will say over `reciver` that it is done.
    pub fn execute_any(&mut self, reciver: X)
        ensures
            final(self).side_tasks().len() == old(self).side_tasks().len() + 1,
            final(self).side_tasks().drop_last() == old(self).side_tasks(),
            !final(self).side_tasks().last().refreshes(),
            final(self).side_tasks().last().receiver() == reciver,
            final(self).fetching() == old(self).fetching(),
            final(self).parameter() == old(self).parameter(),
            final(self).label() == old(self).label(),
            final(self).held() == old(self).held(),
            final(self).timeout() == old(self).timeout(),
    {
        self.executes.push(Self::execute(false, reciver));
        assert(self.executes@.drop_last() =~= old(self).executes@);
    }

    fn execute(changes_data: bool, reciver: X) -> (execute: AwaitingExecute<X>)
        ensures
            execute.refreshes() == changes_data,
            execute.receiver() == reciver,
    {
        AwaitingExecute::new(changes_data, reciver)
    }
}

impl<P, O, F: Fn(&O, &O) -> Order + 'static, R, X> HasData<O, F> for Container<P, O, F, R, X> {
    open spec fn data_held(&self) -> Data<O, F> {
        self.held()
    }

    open spec fn same_but_data(&self, other: &Self) -> bool {
        &&& self.label() == other.label()
        &&& self.parameter() == other.parameter()
        &&& self.fetching() == other.fetching()
        &&& self.side_tasks() == other.side_tasks()
        &&& self.timeout() == other.timeout()
    }

    fn ref_data(&self) -> (data: &Data<O, F>) {
        &self.data
    }

    fn ref_mut_data(&mut self) -> (data: &mut Data<O, F>) {
        &mut self.data
    }
}

} // verus!
