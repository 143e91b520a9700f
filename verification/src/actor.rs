//! A writer that belongs to no view: it can be handed to any task that
//! changes data.

use crate::carrier::execute::{ExecuteCarrier, TransactionBuilder};
use crate::{clone_tables, tables_present};
use vstd::prelude::*;

verus! {

/// A writer that belongs to no view. It knows the tables of the database
/// and so can tell which tables a write touches.
#[derive(Clone)]
pub struct Actor {
    name: String,
    all_tables: Vec<String>,
}

impl Actor {
    pub closed spec fn known(&self) -> Seq<Seq<char>> {
        self.all_tables.deep_view()
    }

    pub closed spec fn label(&self) -> Seq<char> {
        self.name@
    }

    pub fn new(name: String, all_tables: &Vec<String>) -> (actor: Self)
        ensures
            actor.label() == name@,
            actor.known() == all_tables.deep_view(),
    {
        Actor { name, all_tables: clone_tables(all_tables) }
    }

    pub fn name(&self) -> (name: &String)
        ensures
            name@ == self.label(),
    {
        &self.name
    }

    pub fn all_tables(&self) -> (tables: &Vec<String>)
        ensures
            tables.deep_view() == self.known(),
    {
        &self.all_tables
    }

    /// The tables that a write with the text `sql` touches: they are
    /// announced once the write has succeeded.
    pub fn execute(&self, sql: &str) -> (tables: Vec<String>)
        ensures
            tables.deep_view() == tables_present(self.known(), sql@),
    {
        ExecuteCarrier::execute_static(self.all_tables.as_slice(), sql)
    }

    /// A transaction to which statements can be added.
    pub fn execute_many<'a>(&'a self) -> (builder: TransactionBuilder<'a>)
        ensures
            builder.known() == self.known(),
            builder.statements().len() == 0,
    {
        ExecuteCarrier::execute_many_static(self.all_tables.as_slice())
    }
}

} // verus!
