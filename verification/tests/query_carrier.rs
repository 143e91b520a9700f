use hermes::carrier::manual_query::ManualQueryCarrier;
use hermes::carrier::query::{
    ExecutedQuery, HasQueryCarrier, ImplQueryCarrier, QueryCarrier, QueryPoll, UpdateState,
};
use hermes::carrier::simple_query::{logged_excerpt, SimpleQueryCarrier, StoredSelect, LOGGED_CHARS};
use hermes::clock::Timestamp;

fn table(name: &str) -> String {
    name.to_string()
}

fn at(secs: i64) -> Timestamp {
    Timestamp::new(secs, 0)
}

fn schema() -> Vec<String> {
    vec![table("items"), table("tags")]
}

fn items() -> Vec<String> {
    vec![table("items")]
}

fn carrier() -> QueryCarrier {
    QueryCarrier::register_new("view".to_string(), schema(), ()).0
}

fn rows(values: &[i32]) -> Result<Vec<i32>, String> {
    Ok(values.to_vec())
}

#[test]
fn new_carrier_is_up_to_date_and_interested_in_nothing() {
    let carrier = carrier();
    assert_eq!(UpdateState::UpToDate, carrier.state());
    assert!(!carrier.should_refresh());
    assert!(!carrier.is_executing());
    assert!(carrier.interesting_tables().is_empty());
    assert_eq!("view", carrier.name());
    assert_eq!(&schema(), carrier.all_tables());
}

#[test]
fn query_starts_a_refresh_and_names_the_tables() {
    let mut carrier = carrier();
    let job = carrier.begin_query("SELECT * FROM \"items\"", at(10));
    assert_eq!(items(), job.interested_tables);
    assert_eq!(at(10), job.time_started);
    assert!(carrier.is_executing());
    assert_eq!(
        UpdateState::Updating { time_started: at(10), back_to_back: None },
        carrier.state()
    );
    // The interest changes only when rows have come.
    assert!(carrier.interesting_tables().is_empty());
}

#[test]
fn successful_resolution_sets_interest_to_the_tables_of_the_statement() {
    let mut carrier = carrier();
    let job = carrier.begin_query("SELECT * FROM \"items\"", at(10));
    let executed = ExecutedQuery::new(job.interested_tables, rows(&[1, 2]), job.time_started);
    let resolution = carrier.try_resolve_query(QueryPoll::Ready(executed));
    assert_eq!(Some(Ok(vec![1, 2])), resolution.result);
    assert_eq!(Some(items()), resolution.publish);
    assert_eq!(&items(), carrier.interesting_tables());
    assert_eq!(UpdateState::UpToDate, carrier.state());
    assert!(!carrier.is_executing());
}

#[test]
fn empty_poll_changes_nothing() {
    let mut carrier = carrier();
    carrier.begin_query("SELECT * FROM \"items\"", at(10));
    let resolution = carrier.try_resolve_query(QueryPoll::<i32, String>::Empty);
    assert_eq!(None, resolution.result);
    assert_eq!(None, resolution.publish);
    assert!(carrier.is_executing());
    assert_eq!(
        UpdateState::Updating { time_started: at(10), back_to_back: None },
        carrier.state()
    );
}

#[test]
fn closed_poll_drops_the_refresh_without_rows() {
    let mut carrier = carrier();
    carrier.begin_query("SELECT * FROM \"items\"", at(10));
    let resolution = carrier.try_resolve_query(QueryPoll::<i32, String>::Closed);
    assert_eq!(None, resolution.result);
    assert_eq!(None, resolution.publish);
    assert!(!carrier.is_executing());
    assert!(carrier.interesting_tables().is_empty());
}

#[test]
fn failed_resolution_ends_the_refresh_and_keeps_the_interest() {
    let mut carrier = carrier();
    let job = carrier.begin_query("SELECT * FROM \"items\"", at(10));
    let done = ExecutedQuery::new(job.interested_tables, rows(&[1]), job.time_started);
    carrier.try_resolve_query(QueryPoll::Ready(done));

    let job = carrier.begin_query("SELECT * FROM \"tags\"", at(20));
    let failed: ExecutedQuery<i32, String> =
        ExecutedQuery::new(job.interested_tables, Err("no such column".to_string()), at(20));
    let resolution = carrier.try_resolve_query(QueryPoll::Ready(failed));
    assert_eq!(Some(Err("no such column".to_string())), resolution.result);
    assert_eq!(None, resolution.publish);
    assert_eq!(&items(), carrier.interesting_tables());
    assert_eq!(UpdateState::UpToDate, carrier.state());
}

#[test]
fn failed_resolution_with_a_waiting_change_asks_for_a_refresh() {
    let mut carrier = carrier();
    let job = carrier.begin_query("SELECT * FROM \"items\"", at(10));
    carrier.try_recive_should_update(&vec![at(11)]);
    let failed: ExecutedQuery<i32, String> =
        ExecutedQuery::new(job.interested_tables, Err("busy".to_string()), at(10));
    carrier.try_resolve_query(QueryPoll::Ready(failed));
    assert!(carrier.should_refresh());
}

#[test]
fn superseded_query_is_discarded_when_it_comes_first() {
    let mut carrier = carrier();
    let first = carrier.begin_query("SELECT * FROM \"items\"", at(10));
    let second = carrier.begin_query("SELECT * FROM \"tags\"", at(11));

    let stale = ExecutedQuery::new(first.interested_tables, rows(&[1]), first.time_started);
    let resolution = carrier.try_resolve_query(QueryPoll::Ready(stale));
    assert_eq!(None, resolution.result);
    assert_eq!(None, resolution.publish);
    assert!(carrier.interesting_tables().is_empty());
    assert_eq!(
        UpdateState::Updating { time_started: at(11), back_to_back: None },
        carrier.state()
    );

    let fresh = ExecutedQuery::new(second.interested_tables, rows(&[2]), second.time_started);
    let resolution = carrier.try_resolve_query(QueryPoll::Ready(fresh));
    assert_eq!(Some(Ok(vec![2])), resolution.result);
    assert_eq!(&vec![table("tags")], carrier.interesting_tables());
    assert_eq!(UpdateState::UpToDate, carrier.state());
}

#[test]
fn superseded_query_is_discarded_when_it_comes_last() {
    let mut carrier = carrier();
    let first = carrier.begin_query("SELECT * FROM \"items\"", at(10));
    let second = carrier.begin_query("SELECT * FROM \"tags\"", at(11));

    let fresh = ExecutedQuery::new(second.interested_tables, rows(&[2]), second.time_started);
    carrier.try_resolve_query(QueryPoll::Ready(fresh));
    let stale = ExecutedQuery::new(first.interested_tables, rows(&[1]), first.time_started);
    let resolution = carrier.try_resolve_query(QueryPoll::Ready(stale));
    assert_eq!(None, resolution.result);
    assert_eq!(None, resolution.publish);
    assert_eq!(&vec![table("tags")], carrier.interesting_tables());
    assert_eq!(UpdateState::UpToDate, carrier.state());
}

#[test]
fn changes_are_taken_in_order() {
    let mut carrier = carrier();
    carrier.try_recive_should_update(&vec![]);
    assert_eq!(UpdateState::UpToDate, carrier.state());
    carrier.begin_query("SELECT 1", at(10));
    carrier.try_recive_should_update(&vec![at(9), at(12), at(11)]);
    assert_eq!(
        UpdateState::Updating { time_started: at(10), back_to_back: Some(at(12)) },
        carrier.state()
    );
}

#[test]
fn change_without_refresh_asks_for_one() {
    let mut carrier = carrier();
    carrier.try_recive_should_update(&vec![at(3)]);
    assert!(carrier.should_refresh());
    assert_eq!(UpdateState::ShouldUpdate, carrier.state());
}

#[test]
fn executed_query_from_collector_carries_its_tables_and_time() {
    let mut carrier = ManualQueryCarrier::register_new("manual".to_string(), schema(), ()).0;
    let mut collector = carrier.manual_query_at(at(30));
    collector.add("SELECT * FROM \"tags\"");
    collector.add("SELECT * FROM \"items\"");
    let executed = ExecutedQuery::new_collector(collector, rows(&[5]));
    assert_eq!(vec![table("tags"), table("items")], executed.interested_tables);
    assert_eq!(at(30), executed.time_started);

    let resolution = carrier.try_resolve_query(QueryPoll::Ready(executed));
    assert_eq!(Some(Ok(vec![5])), resolution.result);
    assert_eq!(Some(vec![table("tags"), table("items")]), resolution.publish);
    assert!(!carrier.should_refresh());
    assert_eq!(
        &vec![table("tags"), table("items")],
        carrier.ref_query_carrier().interesting_tables()
    );
}

#[test]
fn manual_query_now_starts_a_refresh() {
    let mut carrier = ManualQueryCarrier::register_new("manual".to_string(), schema(), ()).0;
    let collector = carrier.manual_query();
    assert!(carrier.ref_query_carrier().is_executing());
    assert_eq!(
        UpdateState::Updating { time_started: collector.time_started(), back_to_back: None },
        carrier.ref_query_carrier().state()
    );
    carrier.try_recive_should_update(&vec![collector.time_started()]);
    let executed: ExecutedQuery<i32, String> = ExecutedQuery::new_collector(collector, rows(&[]));
    carrier.try_resolve_query(QueryPoll::Ready(executed));
    assert!(carrier.should_refresh());
}

#[test]
fn stored_query_is_kept_and_run_again_on_request() {
    let (mut carrier, _) = SimpleQueryCarrier::<u8>::register_new("simple".to_string(), schema(), ());
    assert!(carrier.stored_select().is_none());
    assert_eq!(None, carrier.requery_at(at(1)).map(|job| job.time_started));

    let stored = StoredSelect { sql: "SELECT * FROM \"items\"".to_string(), select: 7u8 };
    let job = carrier.stored_query_at(stored, at(10));
    assert_eq!(items(), job.interested_tables);
    assert_eq!(Some(7u8), carrier.stored_select().as_ref().map(|stored| stored.select));

    // No refresh is asked for: nothing is run again.
    assert!(carrier.requery_at(at(11)).is_none());
    let executed = ExecutedQuery::new(job.interested_tables, rows(&[1]), at(10));
    carrier.try_resolve_query(QueryPoll::Ready(executed));
    assert!(carrier.requery_at(at(12)).is_none());

    carrier.try_recive_should_update(&vec![at(13)]);
    assert!(carrier.should_refresh());
    let again = carrier.requery_at(at(14)).unwrap();
    assert_eq!(items(), again.interested_tables);
    assert_eq!(at(14), again.time_started);
    assert_eq!(
        UpdateState::Updating { time_started: at(14), back_to_back: None },
        carrier.ref_query_carrier().state()
    );
}

#[test]
fn two_stored_queries_in_a_row_name_the_same_tables() {
    let (mut carrier, _) = SimpleQueryCarrier::<u8>::register_new("simple".to_string(), schema(), ());
    let sql = "SELECT * FROM \"items\" JOIN \"tags\"";
    let first = carrier.stored_query(StoredSelect { sql: sql.to_string(), select: 1 });
    let second = carrier.stored_query(StoredSelect { sql: sql.to_string(), select: 1 });
    assert_eq!(first.interested_tables, second.interested_tables);
    assert_eq!(schema(), second.interested_tables);
    assert!(!second.time_started.is_before(&first.time_started));
}

#[test]
fn query_without_storing_leaves_the_kept_statement() {
    let (mut carrier, _) = SimpleQueryCarrier::<u8>::register_new("simple".to_string(), schema(), ());
    carrier.stored_query_at(StoredSelect { sql: "SELECT \"tags\"".to_string(), select: 3 }, at(1));
    let job = carrier.query_at("SELECT * FROM \"items\"", at(2));
    assert_eq!(items(), job.interested_tables);
    assert_eq!("SELECT \"tags\"", carrier.stored_select().as_ref().unwrap().sql);
    let now = carrier.query("SELECT 1");
    assert!(now.interested_tables.is_empty());
    assert!(at(2).is_before(&now.time_started));
}

#[test]
fn excerpt_shows_at_most_the_logged_characters() {
    assert_eq!(500, LOGGED_CHARS);
    assert_eq!("SELECT 1", logged_excerpt("SELECT 1"));
    assert_eq!("", logged_excerpt(""));
    let long = "x".repeat(501);
    assert_eq!("x".repeat(500), logged_excerpt(&long));
    let exact = "y".repeat(500);
    assert_eq!(exact, logged_excerpt(&exact));
    // Characters count, not bytes.
    let wide = "é".repeat(600);
    assert_eq!("é".repeat(500), logged_excerpt(&wide));
}
