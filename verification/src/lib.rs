//! A reactive cache of database views: the engine that decides which views
//! must be refreshed when tables change, without doing any I/O itself.

use crate::clock::Timestamp;
use crate::text::{chars_of, find_text, occurs_in, quoted, quoted_chars};
use vstd::prelude::*;

pub mod actor;
pub mod carrier;
pub mod clock;
pub mod container;
pub mod factory;
pub mod messenger;
pub mod text;

verus! {

/// The tables of `all_tables` that `query` names, in the order of
/// `all_tables`. A statement names a table where it holds the name as
/// statements spell it: between double quotes.
pub open spec fn tables_present(all_tables: Seq<Seq<char>>, query: Seq<char>) -> Seq<Seq<char>> {
    all_tables.filter(|table: Seq<char>| occurs_in(quoted(table), query))
}

/// A table is found exactly when it is known and the statement holds its
/// name between double quotes; and where no table is known twice, none is
/// found twice.
pub proof fn lemma_tables_present(all_tables: Seq<Seq<char>>, query: Seq<char>)
    ensures
        forall|table: Seq<char>| #[trigger]
            tables_present(all_tables, query).contains(table) <==> all_tables.contains(table)
                && occurs_in(quoted(table), query),
        all_tables.no_duplicates() ==> tables_present(all_tables, query).no_duplicates(),
    decreases all_tables.len(),
{
    let pred = |table: Seq<char>| occurs_in(quoted(table), query);
    reveal(Seq::filter);
    if all_tables.len() > 0 {
        let rest = all_tables.drop_last();
        let last = all_tables.last();
        lemma_tables_present(rest, query);
        assert(all_tables =~= rest.push(last));
        rest.lemma_filter_push(last, pred);
        let found = tables_present(rest, query);
        assert forall|table: Seq<char>| #[trigger]
            tables_present(all_tables, query).contains(table) <==> all_tables.contains(table)
                && occurs_in(quoted(table), query) by {
            if all_tables.contains(table) {
                let i = choose|i: int| 0 <= i < all_tables.len() && all_tables[i] == table;
                if i < rest.len() {
                    assert(rest[i] == table);
                    assert(rest.contains(table));
                }
            }
            if rest.contains(table) {
                let i = choose|i: int| 0 <= i < rest.len() && rest[i] == table;
                assert(all_tables[i] == table);
            }
            if found.contains(table) {
                let i = choose|i: int| 0 <= i < found.len() && found[i] == table;
                if occurs_in(quoted(last), query) {
                    assert(found.push(last)[i] == table);
                }
            }
            if occurs_in(quoted(last), query) {
                assert(found.push(last)[found.len() as int] == last);
                if tables_present(all_tables, query).contains(table) {
                    let i = choose|i: int|
                        0 <= i < found.push(last).len() && found.push(last)[i] == table;
                    if i < found.len() {
                        assert(found[i] == table);
                    }
                }
            }
        }
        if all_tables.no_duplicates() {
            assert(rest.no_duplicates());
            if occurs_in(quoted(last), query) {
                assert(!rest.contains(last)) by {
                    if rest.contains(last) {
                        let i = choose|i: int| 0 <= i < rest.len() && rest[i] == last;
                        assert(all_tables[i] == all_tables[all_tables.len() - 1]);
                    }
                }
                assert(!found.contains(last));
            }
        }
    }
}

/// Picks from `all_tables` the tables that `query` names: those whose
/// name, put between double quotes, occurs in the query's text.
pub fn get_tables_present(all_tables: &[String], query: &str) -> (found: Vec<String>)
    ensures
        found.deep_view() == tables_present(all_tables.deep_view(), query@),
{
    let hay = chars_of(query);
    let mut found: Vec<String> = Vec::new();
    let mut i: usize = 0;
    proof {
        reveal(Seq::filter);
        assert(all_tables.deep_view().take(0) =~= Seq::<Seq<char>>::empty());
        assert(found.deep_view() =~= Seq::<Seq<char>>::empty());
    }
    while i < all_tables.len()
        invariant
            i <= all_tables@.len(),
            hay@ == query@,
            found.deep_view() == tables_present(all_tables.deep_view().take(i as int), query@),
        decreases all_tables@.len() - i,
    {
        let table = &all_tables[i];
        let needle = quoted_chars(table.as_str());
        let ghost before = found.deep_view();
        let ghost known = all_tables.deep_view();
        proof {
            let pred = |table: Seq<char>| occurs_in(quoted(table), query@);
            known.take(i as int).lemma_filter_push(known[i as int], pred);
            assert(known.take(i + 1) =~= known.take(i as int).push(known[i as int]));
            assert(known[i as int] == table@);
        }
        if find_text(&hay, &needle).is_some() {
            found.push(table.clone());
            assert(found.deep_view() =~= before.push(table@));
        }
        i += 1;
    }
    assert(all_tables.deep_view().take(i as int) =~= all_tables.deep_view());
    found
}

/// A copy of `tables`.
pub fn clone_tables(tables: &Vec<String>) -> (copy: Vec<String>)
    ensures
        copy@ == tables@,
        copy.deep_view() == tables.deep_view(),
{
    let mut copy: Vec<String> = Vec::new();
    let mut i: usize = 0;
    while i < tables.len()
        invariant
            i <= tables.len(),
            copy@ == tables@.take(i as int),
        decreases tables.len() - i,
    {
        copy.push(tables[i].clone());
        assert(copy@ =~= tables@.take(i + 1));
        i += 1;
    }
    assert(tables@.take(i as int) =~= tables@);
    assert(copy.deep_view() =~= tables.deep_view());
    copy
}

/// Whether `name` is one of `list`.
pub fn contains_table(list: &Vec<String>, name: &String) -> (b: bool)
    ensures
        b == list.deep_view().contains(name@),
{
    let mut i: usize = 0;
    while i < list.len()
        invariant
            i <= list.len(),
            forall|j: int| 0 <= j < i ==> list.deep_view()[j] != name@,
        decreases list.len() - i,
    {
        if list[i] == *name {
            assert(list.deep_view()[i as int] == name@);
            return true;
        }
        i += 1;
    }
    false
}

/// `held`, followed by the tables of `more` that are not yet in it, each
/// once, in the order of `more`.
pub open spec fn merged(held: Seq<Seq<char>>, more: Seq<Seq<char>>) -> Seq<Seq<char>>
    decreases more.len(),
{
    if more.len() == 0 {
        held
    } else {
        let so_far = merged(held, more.drop_last());
        if so_far.contains(more.last()) {
            so_far
        } else {
            so_far.push(more.last())
        }
    }
}

/// Merging keeps what was held, in its place, and adds exactly the tables
/// of `more`; where nothing was held twice, nothing is held twice after.
pub proof fn lemma_merged(held: Seq<Seq<char>>, more: Seq<Seq<char>>)
    ensures
        held.is_prefix_of(merged(held, more)),
        merged(held, more).to_set() == held.to_set().union(more.to_set()),
        held.no_duplicates() ==> merged(held, more).no_duplicates(),
    decreases more.len(),
{
    broadcast use vstd::seq_lib::group_seq_properties;

    if more.len() == 0 {
        assert(more.to_set() =~= Set::<Seq<char>>::empty());
        assert(held.to_set().union(more.to_set()) =~= held.to_set());
    } else {
        let rest = more.drop_last();
        let so_far = merged(held, rest);
        lemma_merged(held, rest);
        assert(more =~= rest.push(more.last()));
        assert(more.to_set() =~= rest.to_set().insert(more.last()));
        if so_far.contains(more.last()) {
            assert(so_far.to_set().contains(more.last()));
            assert(merged(held, more).to_set() =~= held.to_set().union(more.to_set()));
        } else {
            assert(so_far.push(more.last()).to_set() =~= so_far.to_set().insert(more.last()));
            assert(merged(held, more).to_set() =~= held.to_set().union(more.to_set()));
        }
    }
}

/// Adds to `held` the tables of `more` that it does not hold yet.
pub fn merge_tables(held: &mut Vec<String>, more: &Vec<String>)
    ensures
        final(held).deep_view() == merged(old(held).deep_view(), more.deep_view()),
{
    let mut i: usize = 0;
    assert(more.deep_view().take(0) =~= Seq::<Seq<char>>::empty());
    while i < more.len()
        invariant
            i <= more.len(),
            held.deep_view() == merged(old(held).deep_view(), more.deep_view().take(i as int)),
        decreases more.len() - i,
    {
        let ghost before = held.deep_view();
        proof {
            assert(more.deep_view().take(i + 1).drop_last() =~= more.deep_view().take(i as int));
            assert(more.deep_view().take(i + 1).last() == more@[i as int]@);
        }
        if !contains_table(held, &more[i]) {
            held.push(more[i].clone());
            assert(held.deep_view() =~= before.push(more@[i as int]@));
        }
        i += 1;
    }
    assert(more.deep_view().take(i as int) =~= more.deep_view());
}

/// Gathers the tables that the statements of one piece of work name, and
/// remembers when that work began.
pub struct TablesCollector {
    time_started: Timestamp,
    all_tables: Vec<String>,
    tables: Vec<String>,
}

impl TablesCollector {
    /// The tables that can be found.
    pub closed spec fn known(&self) -> Seq<Seq<char>> {
        self.all_tables.deep_view()
    }

    /// The tables found so far, each in the place where it was first found.
    pub closed spec fn found(&self) -> Seq<Seq<char>> {
        self.tables.deep_view()
    }

    /// When the collector was made.
    pub closed spec fn started(&self) -> Timestamp {
        self.time_started
    }

    /// What holds of every collector: it holds no table twice.
    #[verifier::type_invariant]
    pub open spec fn wf(&self) -> bool {
        self.found().no_duplicates()
    }

    /// A collector for work that begins now.
    pub fn new(all_tables: Vec<String>) -> (collector: Self)
        ensures
            collector.known() == all_tables.deep_view(),
            collector.found().len() == 0,
    {
        Self::new_at(all_tables, Timestamp::now())
    }

    /// A collector for work that began at `time_started`.
    pub fn new_at(all_tables: Vec<String>, time_started: Timestamp) -> (collector: Self)
        ensures
            collector.known() == all_tables.deep_view(),
            collector.started() == time_started,
            collector.found().len() == 0,
    {
        TablesCollector { time_started, all_tables, tables: Vec::new() }
    }

    /// Adds the tables that `query` names to those found so far.
    pub fn add(&mut self, query: &str)
        ensures
            final(self).known() == old(self).known(),
            final(self).started() == old(self).started(),
            final(self).found() == merged(
                old(self).found(),
                tables_present(old(self).known(), query@),
            ),
            final(self).found().no_duplicates(),
    {
        proof {
            use_type_invariant(&*self);
        }
        let found = get_tables_present(self.all_tables.as_slice(), query);
        let mut held = TablesCollector {
            time_started: self.time_started,
            all_tables: Vec::new(),
            tables: Vec::new(),
        };
        std::mem::swap(self, &mut held);
        let TablesCollector { time_started, all_tables, tables } = held;
        let mut tables = tables;
        proof {
            lemma_merged(tables.deep_view(), found.deep_view());
        }
        merge_tables(&mut tables, &found);
        *self = TablesCollector { time_started, all_tables, tables };
    }

    /// Gives up the collector for what it found and when it was made.
    pub fn into_parts(self) -> (parts: (Vec<String>, Timestamp))
        ensures
            parts.0.deep_view() == self.found(),
            parts.0.deep_view().no_duplicates(),
            parts.1 == self.started(),
    {
        proof {
            use_type_invariant(&self);
        }
        (self.tables, self.time_started)
    }

    /// The tables found so far.
    pub fn tables(&self) -> (tables: &Vec<String>)
        ensures
            tables.deep_view() == self.found(),
            tables.deep_view().no_duplicates(),
    {
        proof {
            use_type_invariant(self);
        }
        &self.tables
    }

    /// When the work began.
    pub fn time_started(&self) -> (t: Timestamp)
        ensures
            t == self.started(),
    {
        self.time_started
    }
}

/// A domain value that can be written to the database.
pub trait ToActiveModel: Sized {
    /// The form in which the database takes the value.
    type ActiveModel;

    fn dml_clone(&self) -> Self::ActiveModel;

    fn dml(self) -> Self::ActiveModel;
}

/// A database row that can be turned into the caller's `Entity`.
pub trait ToEntity<Entity>: Sized {
    fn to_entity(self) -> Entity;
}

/// A database row that can be made from the caller's `Entity`.
pub trait FromEntity<Entity>: Sized {
    fn from_entity(entity: Entity) -> Self;
}

} // verus!
