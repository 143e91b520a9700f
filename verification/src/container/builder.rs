//! Makes views, each with its two carriers and with the record under which
//! the bus keeps it. The link between the bus and the view is the
//! caller's: the record carries it to the bus.

use crate::carrier::query::{QueryCarrierView, UpdateState};
use crate::carrier::{both_manual_carriers, both_simple_carriers};
use crate::container::data::{DataView, Order};
use crate::container::manual;
use crate::container::projecting::ProjectingContainer;
use crate::container::simple;
use crate::messenger::ContainerData;
use vstd::prelude::*;

verus! {

/// Makes one view.
pub struct ContainerBuilder {
    all_tables: Vec<String>,
    name: Option<String>,
}

/// A new query carrier: up to date, with no interest, waiting for nothing.
pub open spec fn fresh_carrier(name: Seq<char>, all_tables: Seq<Seq<char>>) -> QueryCarrierView {
    QueryCarrierView {
        name,
        all_tables,
        interest: Seq::empty(),
        executing: false,
        state: UpdateState::UpToDate,
    }
}

impl ContainerBuilder {
    pub closed spec fn known(&self) -> Seq<Seq<char>> {
        self.all_tables.deep_view()
    }

    /// The name that the owner chose for the view, if any.
    pub closed spec fn label(&self) -> Option<Seq<char>> {
        match self.name {
            Some(name) => Some(name@),
            None => None,
        }
    }

    /// The name under which the view will go: the one that the owner
    /// chose, else `default_name`.
    pub open spec fn name_or(&self, default_name: Seq<char>) -> Seq<char> {
        match self.label() {
            Some(name) => name,
            None => default_name,
        }
    }

    pub fn new(all_tables: Vec<String>) -> (builder: Self)
        ensures
            builder.known() == all_tables.deep_view(),
            builder.label() is None,
    {
        ContainerBuilder { all_tables, name: None }
    }

    /// Chooses the name of the view, which shows in log lines.
    pub fn name(self, name: String) -> (builder: Self)
        ensures
            builder.known() == self.known(),
            builder.label() == Some(name@),
    {
        ContainerBuilder { all_tables: self.all_tables, name: Some(name) }
    }

    fn take_name(name: Option<String>, default_name: String) -> (chosen: String)
        ensures
            chosen@ == (match name {
                Some(name) => name@,
                None => default_name@,
            }),
    {
        match name {
            Some(name) => name,
            None => default_name,
        }
    }

    /// A view that keeps the rows as the database gives them.
    pub fn simple<Row, Q, L>(self, default_name: String, link: L) -> (made: (
        simple::Container<Row, Q>,
        ContainerData<L>,
    ))
        ensures
            made.0.rows() == Seq::<Row>::empty(),
            made.0.reader().inner() == fresh_carrier(self.name_or(default_name@), self.known()),
            made.0.reader().stored() is None,
            made.0.writer().known() == self.known(),
            made.0.writer().label() == self.name_or(default_name@),
            made.1.interest() == Seq::<Seq<char>>::empty(),
            made.1.payload() == link,
    {
        let name = Self::take_name(self.name, default_name);
        let (query, execute, data) = both_simple_carriers(name, self.all_tables, link);
        (simple::Container::from_carriers(query, execute), data)
    }

    /// A view that keeps its rows as the owner's values.
    pub fn projecting<Value, F: Fn(&Value, &Value) -> Order, Q, L>(
        self,
        default_name: String,
        link: L,
    ) -> (made: (ProjectingContainer<Value, F, Q>, ContainerData<L>))
        ensures
            made.0.label() == self.name_or(default_name@),
            made.0.held()@ == (DataView { rows: Seq::<Value>::empty(), has_changed: false }),
            made.0.held().comparator() is None,
            made.0.reader().inner() == fresh_carrier(self.name_or(default_name@), self.known()),
            made.0.reader().stored() is None,
            made.0.writer().known() == self.known(),
            made.0.writer().label() == self.name_or(default_name@),
            made.1.interest() == Seq::<Seq<char>>::empty(),
            made.1.payload() == link,
    {
        let name = Self::take_name(self.name, default_name);
        let (query, execute, data) = both_simple_carriers(name.clone(), self.all_tables, link);
        (ProjectingContainer::from_carriers(name, query, execute), data)
    }

    /// A view whose refresh is written by hand.
    pub fn manual<Value, F: Fn(&Value, &Value) -> Order, L>(
        self,
        default_name: String,
        link: L,
    ) -> (made: (manual::Container<Value, F>, ContainerData<L>))
        ensures
            made.0.label() == self.name_or(default_name@),
            made.0.held()@ == (DataView { rows: Seq::<Value>::empty(), has_changed: false }),
            made.0.held().comparator() is None,
            made.0.reader().inner() == fresh_carrier(self.name_or(default_name@), self.known()),
            !made.0.keeps_query(),
            made.0.writer().known() == self.known(),
            made.0.writer().label() == self.name_or(default_name@),
            made.1.interest() == Seq::<Seq<char>>::empty(),
            made.1.payload() == link,
    {
        let name = Self::take_name(self.name, default_name);
        let (query, execute, data) = both_manual_carriers(name.clone(), self.all_tables, link);
        (manual::Container::from_carriers(name, query, execute), data)
    }
}

} // verus!
