//! A view whose rows are turned, one by one, from what the database gives
//! into what the owner asked for.

use crate::carrier::execute::{ExecuteCarrier, HasExecuteCarrier};
use crate::carrier::query::{ImplQueryCarrier, QueryJob};
use crate::carrier::simple_query::{HasSimpleQueryCarrier, SimpleQueryCarrier};
use crate::clock::Timestamp;
use crate::container::builder::ContainerBuilder;
use crate::container::data::{Data, DataView, HasData, Order};
use crate::container::{brings_rows, carrier_after_tick, hands_out, TickActions, TickEvents};
use crate::tables_present;
use crate::ToEntity;
use vstd::prelude::*;

verus! {

/// `values` holds, for each of `rows` and in their order, what `to_entity`
/// made of it.
pub open spec fn projected<Row: ToEntity<Value>, Value>(
    rows: Seq<Row>,
    values: Seq<Value>,
) -> bool {
    &&& values.len() == rows.len()
    &&& forall|i: int|
        0 <= i < rows.len() ==> call_ensures(Row::to_entity, (rows[i],), #[trigger] values[i])
}

/// Turns each row into the owner's value.
pub fn project<Row: ToEntity<Value>, Value>(rows: Vec<Row>) -> (values: Vec<Value>)
    ensures
        projected(rows@, values@),
{
    let mut values: Vec<Value> = Vec::new();
    for row in it: rows
        invariant
            values@.len() == it.index(),
            it.seq() == rows@,
            forall|i: int|
                0 <= i < it.index() ==> call_ensures(
                    Row::to_entity,
                    (rows@[i],),
                    #[trigger] values@[i],
                ),
    {
        values.push(row.to_entity());
    }
    values
}

/// A view that keeps its rows as the owner's values.
pub struct ProjectingContainer<Value, F: Fn(&Value, &Value) -> Order, Q> {
    name: String,
    data: Data<Value, F>,
    query_carrier: SimpleQueryCarrier<Q>,
    execute_carrier: ExecuteCarrier,
}

impl<Value, F: Fn(&Value, &Value) -> Order, Q> ProjectingContainer<Value, F, Q> {
    pub closed spec fn label(&self) -> Seq<char> {
        self.name@
    }

    /// The rows.
    pub closed spec fn held(&self) -> Data<Value, F> {
        self.data
    }

    /// The reading side.
    pub closed spec fn reader(&self) -> SimpleQueryCarrier<Q> {
        self.query_carrier
    }

    /// The writing side.
    pub closed spec fn writer(&self) -> ExecuteCarrier {
        self.execute_carrier
    }

    /// A view with no rows.
    pub fn from_carriers(
        name: String,
        query_carrier: SimpleQueryCarrier<Q>,
        execute_carrier: ExecuteCarrier,
    ) -> (container: Self)
        ensures
            container.label() == name@,
            container.held()@ == (DataView { rows: Seq::<Value>::empty(), has_changed: false }),
            container.held().comparator() is None,
            container.reader() == query_carrier,
            container.writer() == execute_carrier,
    {
        ProjectingContainer { name, data: Data::new(), query_carrier, execute_carrier }
    }

    pub fn name(&self) -> (name: &String)
        ensures
            name@ == self.label(),
    {
        &self.name
    }

    /// A builder for another view of the same database.
    pub fn builder(&self) -> (builder: ContainerBuilder)
        ensures
            builder.known() == self.reader().inner().all_tables,
            builder.label() is None,
    {
        self.query_carrier.builder()
    }

    /// What one look around at the time `now` makes of the view `before`:
    /// the reported changes are taken in; if the refresh in flight has
    /// finished and the view waited for it, its rows, each turned into the
    /// owner's value, replace the view's rows, or its error is handed out;
    /// the writes that came back are sorted; and where the owner wants it
    /// and a statement is kept, a view that then asks for a refresh starts
    /// one with that statement.
    pub open spec fn looked<Row: ToEntity<Value>, E>(
        before: Self,
        events: TickEvents<Row, E>,
        automatic_requery: bool,
        now: Timestamp,
        after: Self,
        actions: TickActions<E, QueryJob>,
    ) -> bool {
        let requery = automatic_requery && before.reader().stored() is Some;
        &&& after.label() == before.label()
        &&& after.writer() == before.writer()
        &&& after.reader().stored() == before.reader().stored()
        &&& after.held().comparator() == before.held().comparator()
        &&& after.reader().inner() == carrier_after_tick(
            before.reader().inner(),
            events,
            requery,
            now,
        )
        &&& if brings_rows(before.reader().inner(), events) {
            after.held()@.has_changed && projected(
                events.polled->Ready_0.query_result->Ok_0@,
                after.held()@.rows,
            )
        } else {
            after.held() == before.held()
        }
        &&& hands_out(before.reader().inner(), events, actions)
        &&& actions.requery is Some <==> requery && before.reader().inner().notified(
            events.changes@,
        ).resolved(events.polled).state is ShouldUpdate
        &&& actions.requery matches Some(job) ==> job.time_started == now
            && job.interested_tables.deep_view() == tables_present(
            before.reader().inner().all_tables,
            before.reader().stored_sql()->0,
        )
    }

    /// One look around, at the time the clock shows.
    pub fn state_update<Row: ToEntity<Value>, E>(
        &mut self,
        events: TickEvents<Row, E>,
        automatic_requery: bool,
    ) -> (actions: TickActions<E, QueryJob>)
        ensures
            exists|now: Timestamp|
                Self::looked(*old(self), events, automatic_requery, now, *final(self), actions),
    {
        self.state_update_at(events, automatic_requery, Timestamp::now())
    }

    /// One look around at the time `now`.
    pub fn state_update_at<Row: ToEntity<Value>, E>(
        &mut self,
        events: TickEvents<Row, E>,
        automatic_requery: bool,
        now: Timestamp,
    ) -> (actions: TickActions<E, QueryJob>)
        ensures
            Self::looked(*old(self), events, automatic_requery, now, *final(self), actions),
    {
        let TickEvents { changes, polled, executes } = events;
        self.query_carrier.try_recive_should_update(&changes);
        let resolution = self.query_carrier.try_resolve_query(polled);
        let mut query_error: Option<E> = None;
        match resolution.result {
            Some(Ok(rows)) => {
                self.data.set(project(rows));
            },
            Some(Err(error)) => {
                query_error = Some(error);
            },
            None => {},
        }
        let resolved = self.execute_carrier.try_resolve_executes(executes);
        let requery = if automatic_requery {
            self.query_carrier.requery_at(now)
        } else {
            None
        };
        TickActions {
            publish: resolution.publish,
            tables_changed: resolved.tables_changed,
            query_error,
            execute_errors: resolved.errors,
            requery,
        }
    }
}

impl<Value, F: Fn(&Value, &Value) -> Order + 'static, Q> HasData<Value, F>
    for ProjectingContainer<Value, F, Q> {
    open spec fn data_held(&self) -> Data<Value, F> {
        self.held()
    }

    open spec fn same_but_data(&self, other: &Self) -> bool {
        &&& self.label() == other.label()
        &&& self.reader() == other.reader()
        &&& self.writer() == other.writer()
    }

    fn ref_data(&self) -> (data: &Data<Value, F>) {
        &self.data
    }

    fn ref_mut_data(&mut self) -> (data: &mut Data<Value, F>) {
        &mut self.data
    }
}

impl<Value, F: Fn(&Value, &Value) -> Order, Q> HasSimpleQueryCarrier<Q>
    for ProjectingContainer<Value, F, Q> {
    open spec fn simple_query_carrier(&self) -> SimpleQueryCarrier<Q> {
        self.reader()
    }

    open spec fn same_but_simple_query_carrier(&self, other: &Self) -> bool {
        &&& self.label() == other.label()
        &&& self.held() == other.held()
        &&& self.writer() == other.writer()
    }

    fn ref_simple_query_carrier(&self) -> (carrier: &SimpleQueryCarrier<Q>) {
        &self.query_carrier
    }

    fn ref_mut_simple_query_carrier(&mut self) -> (carrier: &mut SimpleQueryCarrier<Q>) {
        &mut self.query_carrier
    }
}

impl<Value, F: Fn(&Value, &Value) -> Order, Q> HasExecuteCarrier
    for ProjectingContainer<Value, F, Q> {
    open spec fn execute_carrier(&self) -> ExecuteCarrier {
        self.writer()
    }

    open spec fn same_but_execute_carrier(&self, other: &Self) -> bool {
        &&& self.label() == other.label()
        &&& self.held() == other.held()
        &&& self.reader() == other.reader()
    }

    fn ref_execute_carrier(&self) -> (carrier: &ExecuteCarrier) {
        &self.execute_carrier
    }

    fn ref_mut_execute_carrier(&mut self) -> (carrier: &mut ExecuteCarrier) {
        &mut self.execute_carrier
    }
}

} // verus!
