//! Hands out what new views are made from.

use crate::clone_tables;
use crate::container::builder::ContainerBuilder;
use vstd::prelude::*;

verus! {

/// Hands out builders for views of one database.
#[derive(Clone)]
pub struct Factory {
    all_tables: Vec<String>,
}

impl Factory {
    pub closed spec fn known(&self) -> Seq<Seq<char>> {
        self.all_tables.deep_view()
    }

    pub fn new(all_tables: Vec<String>) -> (factory: Self)
        ensures
            factory.known() == all_tables.deep_view(),
    {
        Factory { all_tables }
    }

    /// A builder for one view.
    pub fn builder(&self) -> (builder: ContainerBuilder)
        ensures
            builder.known() == self.known(),
            builder.label() is None,
    {
        ContainerBuilder::new(clone_tables(&self.all_tables))
    }
}

} // verus!
