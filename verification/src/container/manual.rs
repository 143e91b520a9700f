//! A view whose refresh is written by hand.

use crate::carrier::execute::{ExecuteCarrier, HasExecuteCarrier};
use crate::carrier::manual_query::{HasManualQueryCarrier, ManualQueryCarrier};
use crate::carrier::query::ImplQueryCarrier;
use crate::clock::Timestamp;
use crate::container::builder::ContainerBuilder;
use crate::container::data::{Data, DataView, HasData, Order};
use crate::container::{brings_rows, carrier_after_tick, hands_out, TickActions, TickEvents};
use crate::TablesCollector;
use vstd::prelude::*;

verus! {

/// A view whose refresh is written by hand: the owner supplies the work
/// that fetches the rows, and may ask the view to keep that work to run it
/// again.
pub struct Container<Value, F: Fn(&Value, &Value) -> Order> {
    name: String,
    data: Data<Value, F>,
    query_carrier: ManualQueryCarrier,
    execute_carrier: ExecuteCarrier,
    stored_query: bool,
}

impl<Value, F: Fn(&Value, &Value) -> Order> Container<Value, F> {
    pub closed spec fn label(&self) -> Seq<char> {
        self.name@
    }

    /// The rows.
    pub closed spec fn held(&self) -> Data<Value, F> {
        self.data
    }

    /// The reading side.
    pub closed spec fn reader(&self) -> ManualQueryCarrier {
        self.query_carrier
    }

    /// The writing side.
    pub closed spec fn writer(&self) -> ExecuteCarrier {
        self.execute_carrier
    }

    /// Whether the owner asked the view to keep the work that fetches its
    /// rows.
    pub closed spec fn keeps_query(&self) -> bool {
        self.stored_query
    }

    /// A view with no rows that keeps no work.
    pub fn from_carriers(
        name: String,
        query_carrier: ManualQueryCarrier,
        execute_carrier: ExecuteCarrier,
    ) -> (container: Self)
        ensures
            container.label() == name@,
            container.held()@ == (DataView { rows: Seq::<Value>::empty(), has_changed: false }),
            container.held().comparator() is None,
            container.reader() == query_carrier,
            container.writer() == execute_carrier,
            !container.keeps_query(),
    {
        Container {
            name,
            data: Data::new(),
            query_carrier,
            execute_carrier,
            stored_query: false,
        }
    }

    /// A builder for another view of the same database.
    pub fn builder(&self) -> (builder: ContainerBuilder)
        ensures
            builder.known() == self.reader().inner().all_tables,
            builder.label() is None,
    {
        self.query_carrier.builder()
    }

    /// What one look around at the time `now` makes of the view `before`:
    /// the reported changes are taken in; if the refresh in flight has
    /// finished and the view waited for it, its rows replace the view's
    /// rows, or its error is handed out; the writes that came back are
    /// sorted; and where the owner wants it and the view keeps its work, a
    /// view that then asks for a refresh starts one: the kept work is to
    /// be run with the collector handed out.
    pub open spec fn looked<E>(
        before: Self,
        events: TickEvents<Value, E>,
        automatic_requery: bool,
        now: Timestamp,
        after: Self,
        actions: TickActions<E, TablesCollector>,
    ) -> bool {
        let requery = automatic_requery && before.keeps_query();
        &&& after.label() == before.label()
        &&& after.writer() == before.writer()
        &&& after.keeps_query() == before.keeps_query()
        &&& after.held().comparator() == before.held().comparator()
        &&& after.reader().inner() == carrier_after_tick(
            before.reader().inner(),
            events,
            requery,
            now,
        )
        &&& after.held()@ == (if brings_rows(before.reader().inner(), events) {
            before.held()@.set(events.polled->Ready_0.query_result->Ok_0@)
        } else {
            before.held()@
        })
        &&& hands_out(before.reader().inner(), events, actions)
        &&& actions.requery is Some <==> requery && before.reader().inner().notified(
            events.changes@,
        ).resolved(events.polled).state is ShouldUpdate
        &&& actions.requery matches Some(collector) ==> collector.started() == now
            && collector.known() == before.reader().inner().all_tables && collector.found().len()
            == 0
    }

    /// One look around, at the time the clock shows.
    pub fn state_update<E>(&mut self, events: TickEvents<Value, E>, automatic_requery: bool) -> (actions:
        TickActions<E, TablesCollector>)
        ensures
            exists|now: Timestamp|
                Self::looked(*old(self), events, automatic_requery, now, *final(self), actions),
    {
        self.state_update_at(events, automatic_requery, Timestamp::now())
    }

    /// One look around at the time `now`.
    pub fn state_update_at<E>(
        &mut self,
        events: TickEvents<Value, E>,
        automatic_requery: bool,
        now: Timestamp,
    ) -> (actions: TickActions<E, TablesCollector>)
        ensures
            Self::looked(*old(self), events, automatic_requery, now, *final(self), actions),
    {
        let TickEvents { changes, polled, executes } = events;
        self.query_carrier.try_recive_should_update(&changes);
        let resolution = self.query_carrier.try_resolve_query(polled);
        let mut query_error: Option<E> = None;
        match resolution.result {
            Some(Ok(values)) => {
                self.data.set(values);
            },
            Some(Err(error)) => {
                query_error = Some(error);
            },
            None => {},
        }
        let resolved = self.execute_carrier.try_resolve_executes(executes);
        let requery = if automatic_requery && self.stored_query
            && self.query_carrier.should_refresh() {
            Some(self.query_carrier.manual_query_at(now))
        } else {
            None
        };
        TickActions {
            publish: resolution.publish,
            tables_changed: resolved.tables_changed,
            query_error,
            execute_errors: resolved.errors,
            requery,
        }
    }

    /// Starts a refresh now and has the view keep the work that runs it.
    pub fn stored_query(&mut self) -> (collector: TablesCollector)
        ensures
            final(self).keeps_query(),
            final(self).reader().inner() == old(self).reader().inner().queried(collector.started()),
            collector.known() == old(self).reader().inner().all_tables,
            collector.found().len() == 0,
            final(self).held() == old(self).held(),
            final(self).writer() == old(self).writer(),
            final(self).label() == old(self).label(),
    {
        self.stored_query = true;
        self.query_carrier.manual_query()
    }

    pub fn name(&self) -> (name: &String)
        ensures
            name@ == self.label(),
    {
        &self.name
    }

}

impl<Value, F: Fn(&Value, &Value) -> Order + 'static> HasData<Value, F> for Container<Value, F> {
    open spec fn data_held(&self) -> Data<Value, F> {
        self.held()
    }

    open spec fn same_but_data(&self, other: &Self) -> bool {
        &&& self.label() == other.label()
        &&& self.reader() == other.reader()
        &&& self.writer() == other.writer()
        &&& self.keeps_query() == other.keeps_query()
    }

    fn ref_data(&self) -> (data: &Data<Value, F>) {
        &self.data
    }

    fn ref_mut_data(&mut self) -> (data: &mut Data<Value, F>) {
        &mut self.data
    }
}

impl<Value, F: Fn(&Value, &Value) -> Order> HasManualQueryCarrier for Container<Value, F> {
    open spec fn manual_query_carrier(&self) -> ManualQueryCarrier {
        self.reader()
    }

    open spec fn same_but_manual_query_carrier(&self, other: &Self) -> bool {
        &&& self.label() == other.label()
        &&& self.held() == other.held()
        &&& self.writer() == other.writer()
        &&& self.keeps_query() == other.keeps_query()
    }

    fn ref_manual_query_carrier(&self) -> (carrier: &ManualQueryCarrier) {
        &self.query_carrier
    }

    fn ref_mut_manual_query_carrier(&mut self) -> (carrier: &mut ManualQueryCarrier) {
        &mut self.query_carrier
    }
}

impl<Value, F: Fn(&Value, &Value) -> Order> HasExecuteCarrier for Container<Value, F> {
    open spec fn execute_carrier(&self) -> ExecuteCarrier {
        self.writer()
    }

    open spec fn same_but_execute_carrier(&self, other: &Self) -> bool {
        &&& self.label() == other.label()
        &&& self.held() == other.held()
        &&& self.reader() == other.reader()
        &&& self.keeps_query() == other.keeps_query()
    }

    fn ref_execute_carrier(&self) -> (carrier: &ExecuteCarrier) {
        &self.execute_carrier
    }

    fn ref_mut_execute_carrier(&mut self) -> (carrier: &mut ExecuteCarrier) {
        &mut self.execute_carrier
    }
}

} // verus!
