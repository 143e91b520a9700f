//! What a view owns to talk to the database: the part that reads and the
//! part that writes.

use crate::carrier::execute::ExecuteCarrier;
use crate::carrier::manual_query::ManualQueryCarrier;
use crate::carrier::query::{QueryCarrierView, UpdateState};
use crate::carrier::simple_query::SimpleQueryCarrier;
use crate::clone_tables;
use crate::messenger::ContainerData;
use vstd::prelude::*;

pub mod execute;
pub mod manual_query;
pub mod query;
pub mod simple_query;

verus! {

/// The two carriers of a view that is refreshed by one statement, and the
/// record under which the bus will keep the view and its link to it.
pub fn both_simple_carriers<Q, L>(name: String, all_tables: Vec<String>, link: L) -> (made: (
    SimpleQueryCarrier<Q>,
    ExecuteCarrier,
    ContainerData<L>,
))
    ensures
        made.0.inner() == (QueryCarrierView {
            name: name@,
            all_tables: all_tables.deep_view(),
            interest: Seq::empty(),
            executing: false,
            state: UpdateState::UpToDate,
        }),
        made.0.stored() is None,
        made.0.stored_sql() is None,
        made.1.label() == name@,
        made.1.known() == all_tables.deep_view(),
        made.2.interest() == Seq::<Seq<char>>::empty(),
        made.2.payload() == link,
{
    let (query, data) = SimpleQueryCarrier::register_new(
        name.clone(),
        clone_tables(&all_tables),
        link,
    );
    let execute = ExecuteCarrier::register_new(name, all_tables);
    (query, execute, data)
}

/// The two carriers of a view whose refresh is written by hand, and the
/// record under which the bus will keep the view and its link to it.
pub fn both_manual_carriers<L>(name: String, all_tables: Vec<String>, link: L) -> (made: (
    ManualQueryCarrier,
    ExecuteCarrier,
    ContainerData<L>,
))
    ensures
        made.0.inner() == (QueryCarrierView {
            name: name@,
            all_tables: all_tables.deep_view(),
            interest: Seq::empty(),
            executing: false,
            state: UpdateState::UpToDate,
        }),
        made.1.label() == name@,
        made.1.known() == all_tables.deep_view(),
        made.2.interest() == Seq::<Seq<char>>::empty(),
        made.2.payload() == link,
{
    let (query, data) = ManualQueryCarrier::register_new(
        name.clone(),
        clone_tables(&all_tables),
        link,
    );
    let execute = ExecuteCarrier::register_new(name, all_tables);
    (query, execute, data)
}

} // verus!
