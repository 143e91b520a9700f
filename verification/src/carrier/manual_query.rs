//! A query carrier for views whose refresh is written by hand: the work
//! shows its statements to a collector as it goes.

use crate::carrier::query::{HasQueryCarrier, ImplQueryCarrier, QueryCarrier, QueryCarrierView};
use crate::clock::Timestamp;
use crate::messenger::ContainerData;
use crate::TablesCollector;
use vstd::prelude::*;

verus! {

/// A query carrier for refreshes written by hand.
pub struct ManualQueryCarrier {
    carrier: QueryCarrier,
}

impl ManualQueryCarrier {
    /// The query carrier inside.
    pub closed spec fn carrier_held(&self) -> QueryCarrier {
        self.carrier
    }

    /// The query carrier inside, as contracts see it.
    pub open spec fn inner(&self) -> QueryCarrierView {
        self.carrier_held()@
    }

    pub fn new(carrier: QueryCarrier) -> (made: Self)
        ensures
            made.inner() == carrier@,
    {
        ManualQueryCarrier { carrier }
    }

    /// A carrier for a new view, and the record under which the bus will
    /// keep the view's interest.
    pub fn register_new<L>(name: String, all_tables: Vec<String>, link: L) -> (made: (
        Self,
        ContainerData<L>,
    ))
        ensures
            made.0.inner() == (QueryCarrierView {
                name: name@,
                all_tables: all_tables.deep_view(),
                interest: Seq::empty(),
                executing: false,
                state: crate::carrier::query::UpdateState::UpToDate,
            }),
            made.1.interest() == Seq::<Seq<char>>::empty(),
            made.1.payload() == link,
    {
        let (carrier, data) = QueryCarrier::register_new(name, all_tables, link);
        (Self::new(carrier), data)
    }

    /// Starts a refresh now. The work that runs it shows each of its
    /// statements to the collector and hands the collector back with the
    /// rows.
    pub fn manual_query(&mut self) -> (collector: TablesCollector)
        ensures
            final(self).inner() == old(self).inner().queried(collector.started()),
            collector.known() == old(self).inner().all_tables,
            collector.found().len() == 0,
    {
        self.manual_query_at(Timestamp::now())
    }

    /// Starts a refresh at `time_started`.
    pub fn manual_query_at(&mut self, time_started: Timestamp) -> (collector: TablesCollector)
        ensures
            final(self).inner() == old(self).inner().queried(time_started),
            collector.known() == old(self).inner().all_tables,
            collector.started() == time_started,
            collector.found().len() == 0,
    {
        self.carrier.begin_collecting(time_started)
    }

}

impl HasQueryCarrier for ManualQueryCarrier {
    open spec fn query_carrier(&self) -> QueryCarrier {
        self.carrier_held()
    }

    open spec fn same_but_query_carrier(&self, other: &Self) -> bool {
        true
    }

    fn ref_query_carrier(&self) -> (carrier: &QueryCarrier) {
        &self.carrier
    }

    fn ref_mut_query_carrier(&mut self) -> (carrier: &mut QueryCarrier) {
        &mut self.carrier
    }
}

/// What holds a query carrier for refreshes written by hand.
pub trait HasManualQueryCarrier: Sized {
    /// The carrier that is held.
    spec fn manual_query_carrier(&self) -> ManualQueryCarrier;

    /// `other` is as `self` in all but the carrier.
    spec fn same_but_manual_query_carrier(&self, other: &Self) -> bool;

    fn ref_manual_query_carrier(&self) -> (carrier: &ManualQueryCarrier)
        ensures
            *carrier == self.manual_query_carrier(),
    ;

    fn ref_mut_manual_query_carrier(&mut self) -> (carrier: &mut ManualQueryCarrier)
        ensures
            *carrier == old(self).manual_query_carrier(),
            final(self).manual_query_carrier() == *final(carrier),
            old(self).same_but_manual_query_carrier(final(self)),
    ;
}

/// What the owner of a view can ask of its reading side.
pub trait ImplManualQueryCarrier: HasManualQueryCarrier {
    /// Whether the view's work should be run again.
    fn should_refresh(&self) -> (b: bool)
        ensures
            b == (self.manual_query_carrier().inner().state is ShouldUpdate),
    ;

    /// Starts a refresh now. The work that runs it shows each of its
    /// statements to the collector and hands the collector back with the
    /// rows.
    fn manual_query(&mut self) -> (collector: TablesCollector)
        ensures
            final(self).manual_query_carrier().inner() == old(
                self,
            ).manual_query_carrier().inner().queried(collector.started()),
            old(self).same_but_manual_query_carrier(final(self)),
            collector.known() == old(self).manual_query_carrier().inner().all_tables,
            collector.found().len() == 0,
    ;
}

impl<T> ImplManualQueryCarrier for T where T: HasManualQueryCarrier {
    fn manual_query(&mut self) -> (collector: TablesCollector) {
        self.ref_mut_manual_query_carrier().manual_query()
    }

    fn should_refresh(&self) -> (b: bool) {
        self.ref_manual_query_carrier().should_refresh()
    }
}

} // verus!
