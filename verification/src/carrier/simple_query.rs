//! A query carrier for views that are refreshed by one statement, which
//! the carrier can keep to run it again.

use crate::carrier::query::{
    HasQueryCarrier, ImplQueryCarrier, QueryCarrier, QueryCarrierView, QueryJob,
};
use crate::clock::Timestamp;
use crate::messenger::ContainerData;
use crate::tables_present;
use vstd::prelude::*;
use vstd::string::*;

verus! {

/// A statement as the carrier keeps it: its text, and the statement itself
/// as the engine takes it.
#[derive(Clone)]
pub struct StoredSelect<Q> {
    pub sql: String,
    pub select: Q,
}

/// A query carrier that can keep the statement of its view.
pub struct SimpleQueryCarrier<Q> {
    carrier: QueryCarrier,
    stored_select: Option<StoredSelect<Q>>,
}

/// The longest piece of a statement's text that a log line shows.
pub const LOGGED_CHARS: usize = 500;

/// The piece of a statement's text that a log line shows: the first
/// characters of the text, up to `LOGGED_CHARS` of them.
pub open spec fn excerpt(sql: Seq<char>) -> Seq<char> {
    if sql.len() > LOGGED_CHARS {
        sql.take(LOGGED_CHARS as int)
    } else {
        sql
    }
}

/// The piece of `sql` that a log line shows.
pub fn logged_excerpt(sql: &str) -> (shown: &str)
    ensures
        shown@ == excerpt(sql@),
{
    let len = sql.unicode_len();
    if len > LOGGED_CHARS {
        sql.substring_char(0, LOGGED_CHARS)
    } else {
        sql
    }
}

impl<Q> SimpleQueryCarrier<Q> {
    /// The query carrier inside.
    pub closed spec fn carrier_held(&self) -> QueryCarrier {
        self.carrier
    }

    /// The query carrier inside, as contracts see it.
    pub open spec fn inner(&self) -> QueryCarrierView {
        self.carrier_held()@
    }

    /// The text of the statement that is kept, if one is kept.
    pub open spec fn stored_sql(&self) -> Option<Seq<char>> {
        match self.stored() {
            Some(stored) => Some(stored.sql@),
            None => None,
        }
    }

    /// The statement that is kept, if one is kept.
    pub closed spec fn stored(&self) -> Option<StoredSelect<Q>> {
        self.stored_select
    }

    pub fn new(carrier: QueryCarrier, stored_select: Option<StoredSelect<Q>>) -> (made: Self)
        ensures
            made.inner() == carrier@,
            made.stored() == stored_select,
            made.stored_sql() == (match stored_select {
                Some(stored) => Some(stored.sql@),
                None => None,
            }),
    {
        SimpleQueryCarrier { carrier, stored_select }
    }

    /// A carrier for a new view that keeps no statement, and the record
    /// under which the bus will keep the view's interest.
    pub fn register_new<L>(name: String, all_tables: Vec<String>, link: L) -> (made: (
        Self,
        ContainerData<L>,
    ))
        ensures
            made.0.inner() == (QueryCarrierView {
                name: name@,
                all_tables: all_tables.deep_view(),
                interest: Seq::empty(),
                executing: false,
                state: crate::carrier::query::UpdateState::UpToDate,
            }),
            made.0.stored() is None,
            made.0.stored_sql() is None,
            made.1.interest() == Seq::<Seq<char>>::empty(),
            made.1.payload() == link,
    {
        let (carrier, data) = QueryCarrier::register_new(name, all_tables, link);
        (Self::new(carrier, None), data)
    }

    /// Starts a refresh now with a statement whose text is `sql`.
    pub fn query(&mut self, sql: &str) -> (job: QueryJob)
        ensures
            final(self).inner() == old(self).inner().queried(job.time_started),
            final(self).stored() == old(self).stored(),
            final(self).stored_sql() == old(self).stored_sql(),
            job.interested_tables.deep_view() == tables_present(old(self).inner().all_tables, sql@),
    {
        self.query_at(sql, Timestamp::now())
    }

    /// Starts a refresh at `time_started` with a statement whose text is
    /// `sql`.
    pub fn query_at(&mut self, sql: &str, time_started: Timestamp) -> (job: QueryJob)
        ensures
            final(self).inner() == old(self).inner().queried(time_started),
            final(self).stored() == old(self).stored(),
            final(self).stored_sql() == old(self).stored_sql(),
            job.time_started == time_started,
            job.interested_tables.deep_view() == tables_present(old(self).inner().all_tables, sql@),
    {
        self.carrier.begin_query(sql, time_started)
    }

    /// Starts a refresh now with `stored`, and keeps it to run it again.
    pub fn stored_query(&mut self, stored: StoredSelect<Q>) -> (job: QueryJob)
        ensures
            final(self).inner() == old(self).inner().queried(job.time_started),
            final(self).stored() == Some(stored),
            final(self).stored_sql() == Some(stored.sql@),
            job.interested_tables.deep_view() == tables_present(
                old(self).inner().all_tables,
                stored.sql@,
            ),
    {
        self.stored_query_at(stored, Timestamp::now())
    }

    /// Starts a refresh at `time_started` with `stored`, and keeps it to
    /// run it again.
    pub fn stored_query_at(&mut self, stored: StoredSelect<Q>, time_started: Timestamp) -> (job:
        QueryJob)
        ensures
            final(self).inner() == old(self).inner().queried(time_started),
            final(self).stored() == Some(stored),
            final(self).stored_sql() == Some(stored.sql@),
            job.time_started == time_started,
            job.interested_tables.deep_view() == tables_present(
                old(self).inner().all_tables,
                stored.sql@,
            ),
    {
        let job = self.carrier.begin_query(stored.sql.as_str(), time_started);
        self.stored_select = Some(stored);
        job
    }

    /// Runs the kept statement again, from `time_started` on, if a
    /// statement is kept and the view asks for a refresh.
    pub fn requery_at(&mut self, time_started: Timestamp) -> (job: Option<QueryJob>)
        ensures
            final(self).stored() == old(self).stored(),
            final(self).stored_sql() == old(self).stored_sql(),
            job is Some <==> old(self).inner().state is ShouldUpdate && old(self).stored() is Some,
            job is None ==> final(self).inner() == old(self).inner(),
            job matches Some(job) ==> {
                &&& final(self).inner() == old(self).inner().queried(time_started)
                &&& job.time_started == time_started
                &&& job.interested_tables.deep_view() == tables_present(
                    old(self).inner().all_tables,
                    old(self).stored_sql()->0,
                )
            },
    {
        if !self.carrier.should_refresh() {
            return None;
        }
        match &self.stored_select {
            Some(stored) => Some(self.carrier.begin_query(stored.sql.as_str(), time_started)),
            None => None,
        }
    }

    /// The statement that is kept.
    pub fn stored_select(&self) -> (stored: &Option<StoredSelect<Q>>)
        ensures
            *stored == self.stored(),
    {
        &self.stored_select
    }

}

impl<Q> HasQueryCarrier for SimpleQueryCarrier<Q> {
    open spec fn query_carrier(&self) -> QueryCarrier {
        self.carrier_held()
    }

    open spec fn same_but_query_carrier(&self, other: &Self) -> bool {
        self.stored() == other.stored()
    }

    fn ref_query_carrier(&self) -> (carrier: &QueryCarrier) {
        &self.carrier
    }

    fn ref_mut_query_carrier(&mut self) -> (carrier: &mut QueryCarrier) {
        &mut self.carrier
    }
}

/// What holds a query carrier that can keep a statement.
pub trait HasSimpleQueryCarrier<Q>: Sized {
    /// The carrier that is held.
    spec fn simple_query_carrier(&self) -> SimpleQueryCarrier<Q>;

    /// `other` is as `self` in all but the carrier.
    spec fn same_but_simple_query_carrier(&self, other: &Self) -> bool;

    fn ref_simple_query_carrier(&self) -> (carrier: &SimpleQueryCarrier<Q>)
        ensures
            *carrier == self.simple_query_carrier(),
    ;

    fn ref_mut_simple_query_carrier(&mut self) -> (carrier: &mut SimpleQueryCarrier<Q>)
        ensures
            *carrier == old(self).simple_query_carrier(),
            final(self).simple_query_carrier() == *final(carrier),
            old(self).same_but_simple_query_carrier(final(self)),
    ;
}

/// What the owner of a view can ask of its reading side.
pub trait ImplSimpleQueryCarrier<Q>: HasSimpleQueryCarrier<Q> {
    /// Whether the kept statement should be run again.
    fn should_refresh(&self) -> (b: bool)
        ensures
            b == (self.simple_query_carrier().inner().state is ShouldUpdate),
    ;

    /// Starts a refresh now with a statement whose text is `sql`.
    fn query(&mut self, sql: &str) -> (job: QueryJob)
        ensures
            final(self).simple_query_carrier().inner() == old(
                self,
            ).simple_query_carrier().inner().queried(job.time_started),
            final(self).simple_query_carrier().stored() == old(self).simple_query_carrier().stored(),
            old(self).same_but_simple_query_carrier(final(self)),
            job.interested_tables.deep_view() == tables_present(
                old(self).simple_query_carrier().inner().all_tables,
                sql@,
            ),
    ;

    /// Starts a refresh now with `stored`, and keeps it to run it again.
    fn stored_query(&mut self, stored: StoredSelect<Q>) -> (job: QueryJob)
        ensures
            final(self).simple_query_carrier().inner() == old(
                self,
            ).simple_query_carrier().inner().queried(job.time_started),
            final(self).simple_query_carrier().stored() == Some(stored),
            old(self).same_but_simple_query_carrier(final(self)),
            job.interested_tables.deep_view() == tables_present(
                old(self).simple_query_carrier().inner().all_tables,
                stored.sql@,
            ),
    ;
}

impl<T, Q> ImplSimpleQueryCarrier<Q> for T where T: HasSimpleQueryCarrier<Q> {
    fn should_refresh(&self) -> (b: bool) {
        self.ref_simple_query_carrier().should_refresh()
    }

    fn query(&mut self, sql: &str) -> (job: QueryJob) {
        self.ref_mut_simple_query_carrier().query(sql)
    }

    fn stored_query(&mut self, stored: StoredSelect<Q>) -> (job: QueryJob) {
        self.ref_mut_simple_query_carrier().stored_query(stored)
    }
}

/// Running a statement twice in a row hands both tasks the same tables:
/// starting a refresh changes nothing in what the carrier knows of the
/// database. (That the engine then answers both with the same rows is the
/// engine's matter.)
pub proof fn lemma_requery_names_the_same_tables(
    carrier: QueryCarrierView,
    sql: Seq<char>,
    first: Timestamp,
)
    ensures
        tables_present(carrier.queried(first).all_tables, sql) == tables_present(
            carrier.all_tables,
            sql,
        ),
{
}

} // verus!
