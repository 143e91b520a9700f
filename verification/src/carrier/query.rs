//! The reading side of a view: which refresh is in flight, which tables the
//! view depends on, and what a finished refresh changes.

use crate::clock::Timestamp;
use crate::container::builder::ContainerBuilder;
use crate::messenger::ContainerData;
use crate::{clone_tables, get_tables_present, tables_present, TablesCollector};
use vstd::prelude::*;

verus! {

/// Where a view stands between a change to its tables and fresh rows.
#[derive(Clone, Copy, Debug, PartialEq, Eq)]
pub enum UpdateState {
    /// No refresh is in flight and a change is known: the stored query
    /// should be run again.
    ShouldUpdate,
    /// A refresh is in flight since `time_started`. `back_to_back` is the
    /// latest change seen since then: one more refresh is owed for it.
    Updating { time_started: Timestamp, back_to_back: Option<Timestamp> },
    /// No refresh is in flight and no change is known.
    UpToDate,
}

/// What can happen to a view's [`UpdateState`].
#[derive(Clone, Copy, Debug, PartialEq, Eq)]
pub enum UpdateEvent {
    /// A refresh was started at this time.
    Start(Timestamp),
    /// A table of the view changed at this time.
    Invalidate(Timestamp),
    /// The refresh that was started at this time has finished.
    Done(Timestamp),
}

impl UpdateState {
    /// A change recorded during a refresh is never older than the refresh.
    pub open spec fn wf(self) -> bool {
        self matches UpdateState::Updating { time_started, back_to_back: Some(change) }
            ==> !change.before(time_started)
    }

    /// The state after a refresh was started at `t`.
    pub open spec fn started(self, t: Timestamp) -> UpdateState {
        match self {
            UpdateState::Updating { time_started, back_to_back: None } => UpdateState::Updating {
                time_started: time_started.later_of(t),
                back_to_back: None,
            },
            UpdateState::Updating { time_started, back_to_back: Some(change) } => {
                UpdateState::Updating { time_started: t.later_of(change), back_to_back: None }
            },
            _ => UpdateState::Updating { time_started: t, back_to_back: None },
        }
    }

    /// The state after a table of the view changed at `t`.
    pub open spec fn invalidated(self, t: Timestamp) -> UpdateState {
        match self {
            UpdateState::Updating { time_started, back_to_back } => {
                if t.before(time_started) {
                    self
                } else {
                    UpdateState::Updating {
                        time_started,
                        back_to_back: Some(
                            match back_to_back {
                                None => t,
                                Some(change) => change.later_of(t),
                            },
                        ),
                    }
                }
            },
            _ => UpdateState::ShouldUpdate,
        }
    }

    /// The state after the refresh that was started at `d` has finished.
    pub open spec fn finished(self, d: Timestamp) -> UpdateState {
        match self {
            UpdateState::Updating { time_started, back_to_back } => {
                if d.before(time_started) {
                    self
                } else if back_to_back is Some {
                    UpdateState::ShouldUpdate
                } else {
                    UpdateState::UpToDate
                }
            },
            _ => self,
        }
    }

    /// The state after `event`.
    pub open spec fn after(self, event: UpdateEvent) -> UpdateState {
        match event {
            UpdateEvent::Start(t) => self.started(t),
            UpdateEvent::Invalidate(t) => self.invalidated(t),
            UpdateEvent::Done(d) => self.finished(d),
        }
    }

    /// The state after all of `events`, in their order.
    pub open spec fn after_all(self, events: Seq<UpdateEvent>) -> UpdateState
        decreases events.len(),
    {
        if events.len() == 0 {
            self
        } else {
            self.after_all(events.drop_last()).after(events.last())
        }
    }

    /// Whether a refresh that was started at `d` is the one this state waits
    /// for, or a later one.
    pub open spec fn awaits(self, d: Timestamp) -> bool {
        self matches UpdateState::Updating { time_started, .. } && !d.before(time_started)
    }

    /// The variant's name.
    pub open spec fn label(self) -> Seq<char> {
        match self {
            UpdateState::ShouldUpdate => "ShouldUpdate"@,
            UpdateState::Updating { .. } => "Updating"@,
            UpdateState::UpToDate => "UpToDate"@,
        }
    }

    pub fn display(&self) -> (name: &'static str)
        ensures
            name@ == self.label(),
    {
        match self {
            UpdateState::ShouldUpdate => "ShouldUpdate",
            UpdateState::Updating { .. } => "Updating",
            UpdateState::UpToDate => "UpToDate",
        }
    }

    /// Records that a refresh was started at `time_started`. A refresh that
    /// is already in flight is superseded, and the new one also answers the
    /// change that was waiting for its end.
    pub fn set_updating(&mut self, time_started: Timestamp)
        ensures
            *final(self) == old(self).started(time_started),
            *final(self) is Updating,
            final(self).wf(),
    {
        let started = match *self {
            UpdateState::Updating { time_started: current, back_to_back: None } => current.latest(
                time_started,
            ),
            UpdateState::Updating { time_started: _, back_to_back: Some(change) } => {
                time_started.latest(change)
            },
            _ => time_started,
        };
        *self = UpdateState::Updating { time_started: started, back_to_back: None };
    }

    /// Records that the refresh started at `update_time_started` has
    /// finished. A refresh older than the one in flight changes nothing.
    pub fn check_and_set_done(&mut self, update_time_started: Timestamp)
        ensures
            *final(self) == old(self).finished(update_time_started),
            !old(self).awaits(update_time_started) ==> *final(self) == *old(self),
            old(self).wf() ==> final(self).wf(),
    {
        if let UpdateState::Updating { time_started, back_to_back } = *self {
            if !update_time_started.is_before(&time_started) {
                *self = match back_to_back {
                    None => UpdateState::UpToDate,
                    Some(_) => UpdateState::ShouldUpdate,
                };
            }
        }
    }

    /// Records that a table of the view changed at `time_of_change`. A
    /// change older than the refresh in flight is already covered by it.
    pub fn set_should_update(&mut self, time_of_change: Timestamp)
        ensures
            *final(self) == old(self).invalidated(time_of_change),
            old(self).wf() ==> final(self).wf(),
    {
        match *self {
            UpdateState::Updating { time_started, back_to_back } => {
                if !time_of_change.is_before(&time_started) {
                    let change = match back_to_back {
                        None => time_of_change,
                        Some(previous) => previous.latest(time_of_change),
                    };
                    *self = UpdateState::Updating { time_started, back_to_back: Some(change) };
                }
            },
            _ => {
                *self = UpdateState::ShouldUpdate;
            },
        }
    }

    /// Applies one event.
    pub fn apply(&mut self, event: UpdateEvent)
        ensures
            *final(self) == old(self).after(event),
            old(self).wf() ==> final(self).wf(),
    {
        match event {
            UpdateEvent::Start(t) => self.set_updating(t),
            UpdateEvent::Invalidate(t) => self.set_should_update(t),
            UpdateEvent::Done(d) => self.check_and_set_done(d),
        }
    }
}

/// Every event leaves a well-formed state well-formed, and so does every
/// sequence of events.
pub proof fn lemma_events_keep_wf(state: UpdateState, events: Seq<UpdateEvent>)
    requires
        state.wf(),
    ensures
        state.after_all(events).wf(),
    decreases events.len(),
{
    if events.len() > 0 {
        lemma_events_keep_wf(state, events.drop_last());
    }
}

/// When a refresh finishes that was started before the one in flight, the
/// state does not change, whatever events led to it.
pub proof fn lemma_stale_done_changes_nothing(
    initial: UpdateState,
    events: Seq<UpdateEvent>,
    d: Timestamp,
)
    ensures
        ({
            let state = initial.after_all(events);
            state matches UpdateState::Updating { time_started, .. } && d.before(time_started)
                ==> state.finished(d) == state
        }),
{
}

/// A change that arrives during a refresh and is not older than it makes the
/// end of that refresh ask for another one: the state is then `ShouldUpdate`
/// and not `UpToDate`.
pub proof fn lemma_change_during_refresh_asks_for_another(
    state: UpdateState,
    t: Timestamp,
)
    requires
        state matches UpdateState::Updating { time_started, .. } && !t.before(time_started),
    ensures
        state.invalidated(t).finished(state->time_started) == UpdateState::ShouldUpdate,
{
}

/// A change is never lost: when a table of the view has changed, the view
/// does not count as up to date. Either it asks for a refresh, or a refresh
/// is in flight that was started after the change, or the refresh in flight
/// is marked to be followed by another.
pub proof fn lemma_change_is_never_lost(state: UpdateState, t: Timestamp)
    ensures
        ({
            let after = state.invalidated(t);
            ||| after is ShouldUpdate
            ||| after matches UpdateState::Updating { time_started, .. } && t.before(time_started)
            ||| after matches UpdateState::Updating { back_to_back: Some(change), .. }
                && !change.before(t)
        }),
{
}

/// A view becomes up to date in one way only: the refresh in flight, or a
/// later one, finishes while no change is waiting.
pub proof fn lemma_up_to_date_only_by_done(state: UpdateState, event: UpdateEvent)
    requires
        !(state is UpToDate),
        state.after(event) is UpToDate,
    ensures
        event matches UpdateEvent::Done(d) && state.awaits(d),
        state->back_to_back is None,
{
}

/// The states after each of `changes` in turn.
pub open spec fn invalidated_by(state: UpdateState, changes: Seq<Timestamp>) -> UpdateState
    decreases changes.len(),
{
    if changes.len() == 0 {
        state
    } else {
        invalidated_by(state, changes.drop_last()).invalidated(changes.last())
    }
}

/// What a refresh brought back: the tables that its statement names, the
/// rows or the engine's error, and when the refresh was started.
pub struct ExecutedQuery<Value, E> {
    pub interested_tables: Vec<String>,
    pub query_result: Result<Vec<Value>, E>,
    pub time_started: Timestamp,
}

impl<Value, E> ExecutedQuery<Value, E> {
    pub fn new(
        interested_tables: Vec<String>,
        values: Result<Vec<Value>, E>,
        time_started: Timestamp,
    ) -> (executed: Self)
        ensures
            executed.interested_tables == interested_tables,
            executed.query_result == values,
            executed.time_started == time_started,
    {
        ExecutedQuery { interested_tables, query_result: values, time_started }
    }

    /// The outcome of work whose statements were shown to `collector`.
    pub fn new_collector(collector: TablesCollector, values: Result<Vec<Value>, E>) -> (executed:
        Self)
        ensures
            executed.interested_tables.deep_view() == collector.found(),
            executed.interested_tables.deep_view().no_duplicates(),
            executed.query_result == values,
            executed.time_started == collector.started(),
    {
        let (interested_tables, time_started) = collector.into_parts();
        ExecutedQuery { interested_tables, query_result: values, time_started }
    }
}

/// What a look at the refresh in flight can find.
pub enum QueryPoll<Value, E> {
    /// The refresh has not finished yet.
    Empty,
    /// The refresh was given up and will never answer.
    Closed,
    /// The refresh has finished.
    Ready(ExecutedQuery<Value, E>),
}

/// What a carrier hands to the task that runs a refresh; the task hands both
/// back with the rows.
pub struct QueryJob {
    pub interested_tables: Vec<String>,
    pub time_started: Timestamp,
}

/// What a look at the refresh in flight means for the view.
pub struct Resolution<Value, E> {
    /// The rows or the error of a refresh that the view was waiting for.
    pub result: Option<Result<Vec<Value>, E>>,
    /// The view's new interest, to be announced to the bus.
    pub publish: Option<Vec<String>>,
}

/// A query carrier as contracts see it.
pub struct QueryCarrierView {
    pub name: Seq<char>,
    pub all_tables: Seq<Seq<char>>,
    /// The tables named by the statement of the last refresh that succeeded.
    pub interest: Seq<Seq<char>>,
    /// Whether the answer of a refresh is awaited.
    pub executing: bool,
    pub state: UpdateState,
}

impl QueryCarrierView {
    /// The carrier after a refresh was started at `t`.
    pub open spec fn queried(self, t: Timestamp) -> QueryCarrierView {
        QueryCarrierView { executing: true, state: self.state.started(t), ..self }
    }

    /// The carrier after the bus reported `changes`.
    pub open spec fn notified(self, changes: Seq<Timestamp>) -> QueryCarrierView {
        QueryCarrierView { state: invalidated_by(self.state, changes), ..self }
    }

    /// Whether `polled` is the answer of a refresh that the view waits for.
    pub open spec fn accepts<Value, E>(self, polled: QueryPoll<Value, E>) -> bool {
        polled matches QueryPoll::Ready(executed) && self.state.awaits(executed.time_started)
    }

    /// The carrier after a look at the refresh in flight found `polled`.
    pub open spec fn resolved<Value, E>(self, polled: QueryPoll<Value, E>) -> QueryCarrierView {
        match polled {
            QueryPoll::Empty => self,
            QueryPoll::Closed => QueryCarrierView { executing: false, ..self },
            QueryPoll::Ready(executed) => {
                if self.state.awaits(executed.time_started) {
                    QueryCarrierView {
                        executing: false,
                        state: self.state.finished(executed.time_started),
                        interest: if executed.query_result is Ok {
                            executed.interested_tables.deep_view()
                        } else {
                            self.interest
                        },
                        ..self
                    }
                } else {
                    QueryCarrierView { executing: false, ..self }
                }
            },
        }
    }
}

/// The reading side of one view: what the view depends on, the state of
/// its refresh, and whether the answer of a refresh is awaited. The
/// receiver over which that answer comes is its owner's, who looks at it
/// and tells the carrier what it found.
pub struct QueryCarrier {
    name: String,
    all_tables: Vec<String>,
    interesting_tables: Vec<String>,
    executing: bool,
    should_update: UpdateState,
}

impl View for QueryCarrier {
    type V = QueryCarrierView;

    closed spec fn view(&self) -> QueryCarrierView {
        QueryCarrierView {
            name: self.name@,
            all_tables: self.all_tables.deep_view(),
            interest: self.interesting_tables.deep_view(),
            executing: self.executing,
            state: self.should_update,
        }
    }
}

impl QueryCarrier {
    /// A carrier for a new view, and the record under which the bus will
    /// keep the view's interest and `link`, its link to the view. The view
    /// starts up to date, interested in no table.
    pub fn register_new<L>(name: String, all_tables: Vec<String>, link: L) -> (made: (
        Self,
        ContainerData<L>,
    ))
        ensures
            made.0@ == (QueryCarrierView {
                name: name@,
                all_tables: all_tables.deep_view(),
                interest: Seq::empty(),
                executing: false,
                state: UpdateState::UpToDate,
            }),
            made.1.interest() == Seq::<Seq<char>>::empty(),
            made.1.payload() == link,
    {
        (Self::new(name, all_tables), ContainerData::new(link))
    }

    fn new(name: String, all_tables: Vec<String>) -> (carrier: Self)
        ensures
            carrier@ == (QueryCarrierView {
                name: name@,
                all_tables: all_tables.deep_view(),
                interest: Seq::empty(),
                executing: false,
                state: UpdateState::UpToDate,
            }),
    {
        let carrier = QueryCarrier {
            name,
            all_tables,
            interesting_tables: Vec::new(),
            executing: false,
            should_update: UpdateState::UpToDate,
        };
        assert(carrier.interesting_tables.deep_view() =~= Seq::<Seq<char>>::empty());
        carrier
    }

    /// Whether the stored query should be run again.
    pub fn should_refresh(&self) -> (b: bool)
        ensures
            b == (self@.state is ShouldUpdate),
    {
        matches!(self.should_update, UpdateState::ShouldUpdate)
    }

    /// Whether the answer of a refresh is awaited.
    pub fn is_executing(&self) -> (b: bool)
        ensures
            b == self@.executing,
    {
        self.executing
    }

    pub fn state(&self) -> (state: UpdateState)
        ensures
            state == self@.state,
    {
        self.should_update
    }

    pub fn name(&self) -> (name: &String)
        ensures
            name@ == self@.name,
    {
        &self.name
    }

    pub fn all_tables(&self) -> (tables: &Vec<String>)
        ensures
            tables.deep_view() == self@.all_tables,
    {
        &self.all_tables
    }

    /// The tables that the view depends on.
    pub fn interesting_tables(&self) -> (tables: &Vec<String>)
        ensures
            tables.deep_view() == self@.interest,
    {
        &self.interesting_tables
    }

    /// Takes in the changes that the bus reported since the last look, in
    /// the order in which they came.
    pub fn try_recive_should_update(&mut self, changes: &Vec<Timestamp>)
        ensures
            final(self)@ == old(self)@.notified(changes@),
    {
        let mut i: usize = 0;
        assert(changes@.take(0) =~= Seq::<Timestamp>::empty());
        while i < changes.len()
            invariant
                i <= changes.len(),
                self@ == old(self)@.notified(changes@.take(i as int)),
            decreases changes.len() - i,
        {
            assert(changes@.take(i + 1).drop_last() =~= changes@.take(i as int));
            self.should_update.set_should_update(changes[i]);
            i += 1;
        }
        assert(changes@.take(i as int) =~= changes@);
    }

    /// Starts a refresh at `time_started` with a statement whose text is
    /// `sql`: the refresh is now in flight, and the task that runs it gets
    /// the tables that the statement names.
    pub fn begin_query(&mut self, sql: &str, time_started: Timestamp) -> (job: QueryJob)
        ensures
            final(self)@ == old(self)@.queried(time_started),
            job.time_started == time_started,
            job.interested_tables.deep_view() == tables_present(old(self)@.all_tables, sql@),
    {
        self.should_update.set_updating(time_started);
        self.executing = true;
        QueryJob {
            interested_tables: get_tables_present(self.all_tables.as_slice(), sql),
            time_started,
        }
    }

    /// Starts a refresh at `collector`'s time whose statements are yet to be
    /// shown to `collector`.
    pub fn begin_collecting(&mut self, time_started: Timestamp) -> (collector: TablesCollector)
        ensures
            final(self)@ == old(self)@.queried(time_started),
            collector.known() == old(self)@.all_tables,
            collector.started() == time_started,
            collector.found().len() == 0,
    {
        self.should_update.set_updating(time_started);
        self.executing = true;
        TablesCollector::new_at(clone_tables(&self.all_tables), time_started)
    }

    /// A builder for another view of the same database.
    pub fn builder(&self) -> (builder: ContainerBuilder)
        ensures
            builder.known() == self@.all_tables,
            builder.label() is None,
    {
        ContainerBuilder::new(clone_tables(&self.all_tables))
    }

    /// Looks at the refresh in flight. The answer of a refresh that the view
    /// waits for ends that refresh; if it brought rows, the tables of its
    /// statement become the view's interest and are to be announced. The
    /// answer of a refresh that was superseded is dropped: it brings no
    /// rows and leaves the state and the interest as they were. While there
    /// is no answer, nothing changes.
    pub fn try_resolve_query<Value, E>(&mut self, polled: QueryPoll<Value, E>) -> (resolution:
        Resolution<Value, E>)
        ensures
            final(self)@ == old(self)@.resolved(polled),
            resolution.result == (if old(self)@.accepts(polled) {
                Some(polled->Ready_0.query_result)
            } else {
                None
            }),
            resolution.publish is Some <==> old(self)@.accepts(polled)
                && polled->Ready_0.query_result is Ok,
            resolution.publish matches Some(tables) ==> tables.deep_view()
                == polled->Ready_0.interested_tables.deep_view(),
    {
        match polled {
            QueryPoll::Empty => Resolution { result: None, publish: None },
            QueryPoll::Closed => {
                self.executing = false;
                Resolution { result: None, publish: None }
            },
            QueryPoll::Ready(executed) => {
                self.executing = false;
                let awaited = match self.should_update {
                    UpdateState::Updating { time_started, .. } => !executed.time_started.is_before(
                        &time_started,
                    ),
                    _ => false,
                };
                if !awaited {
                    return Resolution { result: None, publish: None };
                }
                self.should_update.check_and_set_done(executed.time_started);
                let ExecutedQuery { interested_tables, query_result, time_started: _ } = executed;
                match query_result {
                    Ok(rows) => {
                        let publish = clone_tables(&interested_tables);
                        self.interesting_tables = interested_tables;
                        Resolution { result: Some(Ok(rows)), publish: Some(publish) }
                    },
                    Err(error) => Resolution { result: Some(Err(error)), publish: None },
                }
            },
        }
    }
}

/// What holds a query carrier.
pub trait HasQueryCarrier: Sized {
    /// The query carrier that is held.
    spec fn query_carrier(&self) -> QueryCarrier;

    /// `other` is as `self` in all but the query carrier.
    spec fn same_but_query_carrier(&self, other: &Self) -> bool;

    fn ref_query_carrier(&self) -> (carrier: &QueryCarrier)
        ensures
            *carrier == self.query_carrier(),
    ;

    fn ref_mut_query_carrier(&mut self) -> (carrier: &mut QueryCarrier)
        ensures
            *carrier == old(self).query_carrier(),
            final(self).query_carrier() == *final(carrier),
            old(self).same_but_query_carrier(final(self)),
    ;
}

/// What can be asked of whatever holds a query carrier.
pub trait ImplQueryCarrier: HasQueryCarrier {
    /// Whether the stored query should be run again.
    fn should_refresh(&self) -> (b: bool)
        ensures
            b == (self.query_carrier()@.state is ShouldUpdate),
    ;

    /// Takes in the changes that the bus reported since the last look, in
    /// the order in which they came.
    fn try_recive_should_update(&mut self, changes: &Vec<Timestamp>)
        ensures
            final(self).query_carrier()@ == old(self).query_carrier()@.notified(changes@),
            old(self).same_but_query_carrier(final(self)),
    ;

    /// Looks at the refresh in flight, as [`QueryCarrier::try_resolve_query`]
    /// does.
    fn try_resolve_query<Value, E>(&mut self, polled: QueryPoll<Value, E>) -> (resolution:
        Resolution<Value, E>)
        ensures
            final(self).query_carrier()@ == old(self).query_carrier()@.resolved(polled),
            old(self).same_but_query_carrier(final(self)),
            resolution.result == (if old(self).query_carrier()@.accepts(polled) {
                Some(polled->Ready_0.query_result)
            } else {
                None
            }),
            resolution.publish is Some <==> old(self).query_carrier()@.accepts(polled)
                && polled->Ready_0.query_result is Ok,
            resolution.publish matches Some(tables) ==> tables.deep_view()
                == polled->Ready_0.interested_tables.deep_view(),
    ;

    /// A builder for another view of the same database.
    fn builder(&self) -> (builder: ContainerBuilder)
        ensures
            builder.known() == self.query_carrier()@.all_tables,
            builder.label() is None,
    ;
}

impl<T> ImplQueryCarrier for T where T: HasQueryCarrier {
    fn should_refresh(&self) -> (b: bool) {
        self.ref_query_carrier().should_refresh()
    }

    fn try_recive_should_update(&mut self, changes: &Vec<Timestamp>) {
        self.ref_mut_query_carrier().try_recive_should_update(changes);
    }

    fn try_resolve_query<Value, E>(&mut self, polled: QueryPoll<Value, E>) -> (resolution:
        Resolution<Value, E>) {
        self.ref_mut_query_carrier().try_resolve_query(polled)
    }

    fn builder(&self) -> (builder: ContainerBuilder) {
        self.ref_query_carrier().builder()
    }
}

/// After a refresh whose rows were taken in, the view's interest is the
/// tables that the statement of that refresh names: the task hands back the
/// tables and the starting time that `begin_query` gave it, and if the view
/// still waits for that refresh when the rows arrive, those tables are its
/// interest.
pub proof fn lemma_interest_follows_statement<Value, E>(
    carrier: QueryCarrierView,
    later: QueryCarrierView,
    sql: Seq<char>,
    job_tables: Seq<Seq<char>>,
    executed: ExecutedQuery<Value, E>,
)
    requires
        job_tables == tables_present(carrier.all_tables, sql),
        later.all_tables == carrier.all_tables,
        executed.interested_tables.deep_view() == job_tables,
        executed.query_result is Ok,
        later.accepts(QueryPoll::Ready(executed)),
    ensures
        later.resolved(QueryPoll::Ready(executed)).interest == tables_present(
            later.resolved(QueryPoll::Ready(executed)).all_tables,
            sql,
        ),
{
}

/// A refresh that failed, and one that was superseded, leave the view's
/// interest as it was.
pub proof fn lemma_interest_changes_only_on_success<Value, E>(
    carrier: QueryCarrierView,
    polled: QueryPoll<Value, E>,
)
    requires
        !(carrier.accepts(polled) && polled->Ready_0.query_result is Ok),
    ensures
        carrier.resolved(polled).interest == carrier.interest,
{
}

/// A refresh that failed ends the refresh in flight as one that succeeded
/// does: the view is not left waiting.
pub proof fn lemma_failure_ends_refresh<Value, E>(
    carrier: QueryCarrierView,
    executed: ExecutedQuery<Value, E>,
)
    requires
        carrier.accepts(QueryPoll::Ready(executed)),
    ensures
        !(carrier.resolved(QueryPoll::Ready(executed)).state is Updating),
        carrier.resolved(QueryPoll::Ready(executed)).state == carrier.state.finished(
            executed.time_started,
        ),
        !carrier.resolved(QueryPoll::Ready(executed)).executing,
{
}

} // verus!
