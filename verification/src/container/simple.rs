//! A view that keeps the rows as the database gives them.

use crate::carrier::execute::{ExecuteCarrier, HasExecuteCarrier};
use crate::carrier::query::{ImplQueryCarrier, QueryJob};
use crate::carrier::simple_query::{HasSimpleQueryCarrier, SimpleQueryCarrier};
use crate::container::builder::ContainerBuilder;
use crate::container::{brings_rows, hands_out, TickActions, TickEvents};
use vstd::prelude::*;

verus! {

/// A view that keeps the rows as the database gives them. It never runs a
/// statement again by itself.
pub struct Container<Row, Q> {
    values: Vec<Row>,
    query_carrier: SimpleQueryCarrier<Q>,
    execute_carrier: ExecuteCarrier,
}

impl<Row, Q> Container<Row, Q> {
    /// The rows of the last refresh that brought rows.
    pub closed spec fn rows(&self) -> Seq<Row> {
        self.values@
    }

    /// The reading side.
    pub closed spec fn reader(&self) -> SimpleQueryCarrier<Q> {
        self.query_carrier
    }

    /// The writing side.
    pub closed spec fn writer(&self) -> ExecuteCarrier {
        self.execute_carrier
    }

    /// A view with no rows.
    pub fn from_carriers(query_carrier: SimpleQueryCarrier<Q>, execute_carrier: ExecuteCarrier) -> (container:
        Self)
        ensures
            container.rows() == Seq::<Row>::empty(),
            container.reader() == query_carrier,
            container.writer() == execute_carrier,
    {
        Container { values: Vec::new(), query_carrier, execute_carrier }
    }

    /// A builder for another view of the same database.
    pub fn builder(&self) -> (builder: ContainerBuilder)
        ensures
            builder.known() == self.reader().inner().all_tables,
            builder.label() is None,
    {
        self.query_carrier.builder()
    }

    /// One look around: the reported changes are taken in; if the refresh
    /// in flight has finished and the view waited for it, its rows replace
    /// the view's rows, or its error is handed out; the writes that came
    /// back are sorted.
    pub fn state_update<E>(&mut self, events: TickEvents<Row, E>) -> (actions: TickActions<E, QueryJob>)
        ensures
            final(self).writer() == old(self).writer(),
            final(self).reader().stored() == old(self).reader().stored(),
            final(self).reader().inner() == old(self).reader().inner().notified(
                events.changes@,
            ).resolved(events.polled),
            final(self).rows() == (if brings_rows(old(self).reader().inner(), events) {
                events.polled->Ready_0.query_result->Ok_0@
            } else {
                old(self).rows()
            }),
            hands_out(old(self).reader().inner(), events, actions),
            actions.requery is None,
    {
        let TickEvents { changes, polled, executes } = events;
        self.query_carrier.try_recive_should_update(&changes);
        let resolution = self.query_carrier.try_resolve_query(polled);
        let mut query_error: Option<E> = None;
        match resolution.result {
            Some(Ok(values)) => {
                self.values = values;
            },
            Some(Err(error)) => {
                query_error = Some(error);
            },
            None => {},
        }
        let resolved = self.execute_carrier.try_resolve_executes(executes);
        TickActions {
            publish: resolution.publish,
            tables_changed: resolved.tables_changed,
            query_error,
            execute_errors: resolved.errors,
            requery: None,
        }
    }

    /// The rows of the last refresh that brought rows.
    pub fn values(&self) -> (rows: &Vec<Row>)
        ensures
            rows@ == self.rows(),
    {
        &self.values
    }

}

impl<Row, Q> HasSimpleQueryCarrier<Q> for Container<Row, Q> {
    open spec fn simple_query_carrier(&self) -> SimpleQueryCarrier<Q> {
        self.reader()
    }

    open spec fn same_but_simple_query_carrier(&self, other: &Self) -> bool {
        &&& self.rows() == other.rows()
        &&& self.writer() == other.writer()
    }

    fn ref_simple_query_carrier(&self) -> (carrier: &SimpleQueryCarrier<Q>) {
        &self.query_carrier
    }

    fn ref_mut_simple_query_carrier(&mut self) -> (carrier: &mut SimpleQueryCarrier<Q>) {
        &mut self.query_carrier
    }
}

impl<Row, Q> HasExecuteCarrier for Container<Row, Q> {
    open spec fn execute_carrier(&self) -> ExecuteCarrier {
        self.writer()
    }

    open spec fn same_but_execute_carrier(&self, other: &Self) -> bool {
        &&& self.rows() == other.rows()
        &&& self.reader() == other.reader()
    }

    fn ref_execute_carrier(&self) -> (carrier: &ExecuteCarrier) {
        &self.execute_carrier
    }

    fn ref_mut_execute_carrier(&mut self) -> (carrier: &mut ExecuteCarrier) {
        &mut self.execute_carrier
    }
}

} // verus!
