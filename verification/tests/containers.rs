use hermes::carrier::execute::{
    ExecuteCarrier, ExecuteResult, HasExecuteCarrier, ImplExecuteCarrier, TransactionAction,
};
use hermes::carrier::manual_query::{HasManualQueryCarrier, ImplManualQueryCarrier};
use hermes::carrier::query::{
    ExecutedQuery, HasQueryCarrier, ImplQueryCarrier, QueryPoll, UpdateState,
};
use hermes::carrier::simple_query::{
    HasSimpleQueryCarrier, ImplSimpleQueryCarrier, StoredSelect,
};
use hermes::carrier::{both_manual_carriers, both_simple_carriers};
use hermes::clock::Timestamp;
use hermes::container::data::{HasData, ImplData, Order};
use hermes::container::projecting::{project, ProjectingContainer};
use hermes::container::{manual, simple, TickActions, TickEvents};
use hermes::messenger::{InterestUpdate, Messenger};
use hermes::{FromEntity, ToActiveModel, ToEntity};

#[derive(Clone, Debug, PartialEq)]
struct ItemRow {
    id: i32,
    label: &'static str,
}

#[derive(Clone, Debug, PartialEq)]
struct Item {
    id: i32,
    label: String,
}

impl ToEntity<Item> for ItemRow {
    fn to_entity(self) -> Item {
        Item { id: self.id, label: self.label.to_uppercase() }
    }
}

impl FromEntity<Item> for ItemRow {
    fn from_entity(entity: Item) -> Self {
        ItemRow { id: entity.id, label: if entity.label == "A" { "a" } else { "other" } }
    }
}

impl ToActiveModel for Item {
    type ActiveModel = (i32, String);

    fn dml_clone(&self) -> Self::ActiveModel {
        (self.id, self.label.clone())
    }

    fn dml(self) -> Self::ActiveModel {
        (self.id, self.label)
    }
}

type View = ProjectingContainer<Item, fn(&Item, &Item) -> Order, u8>;

const SELECT_ITEMS: &str = "SELECT * FROM \"items\"";

fn table(name: &str) -> String {
    name.to_string()
}

fn at(secs: i64) -> Timestamp {
    Timestamp::new(secs, 0)
}

fn bus() -> Messenger<()> {
    Messenger::new(vec!["items".to_string(), "tags".to_string()])
}

fn view_on(bus: &mut Messenger<()>) -> View {
    let (view, registration) = bus.builder().projecting("View<Item>".to_string(), ());
    assert!(bus.state_update(vec![], &vec![], vec![registration], &vec![]).is_empty());
    view
}

fn stored_items() -> StoredSelect<u8> {
    StoredSelect { sql: SELECT_ITEMS.to_string(), select: 1 }
}

fn nothing() -> TickEvents<ItemRow, String> {
    TickEvents { changes: vec![], polled: QueryPoll::Empty, executes: vec![] }
}

fn answer(
    tables: Vec<String>,
    rows: Result<Vec<ItemRow>, String>,
    time_started: Timestamp,
) -> TickEvents<ItemRow, String> {
    TickEvents {
        changes: vec![],
        polled: QueryPoll::Ready(ExecutedQuery::new(tables, rows, time_started)),
        executes: vec![],
    }
}

fn labels(view: &View) -> Vec<String> {
    view.data().iter().map(|item| item.label.clone()).collect()
}

fn by_id_descending(a: &Item, b: &Item) -> Order {
    Order::from_ordering(b.id.cmp(&a.id))
}

/// What the bus does with what a look of the view at slot 0 brought.
fn round(
    bus: &mut Messenger<()>,
    actions: &TickActions<String, hermes::carrier::query::QueryJob>,
) -> Vec<Timestamp> {
    let interests = match &actions.publish {
        Some(tables) => vec![InterestUpdate { slot: 0, tables: tables.clone() }],
        None => vec![],
    };
    let sent = bus.state_update(interests, &actions.tables_changed, vec![], &vec![]);
    sent.iter().map(|notification| notification.time_of_change).collect()
}

#[test]
fn view_follows_a_write_to_its_table() {
    let mut bus = bus();
    let mut view = view_on(&mut bus);
    assert!(!view.has_changed());
    let job = view.stored_query(stored_items());
    assert_eq!(vec![table("items")], job.interested_tables);
    assert!(!view.has_changed());

    let actions = view.state_update(nothing(), true);
    assert!(!view.has_changed());
    assert!(actions.publish.is_none() && actions.requery.is_none());

    // The engine answers with no rows.
    let actions = view.state_update(answer(job.interested_tables, Ok(vec![]), job.time_started), true);
    assert!(view.data().is_empty());
    assert!(view.has_changed());
    assert_eq!(Some(vec![table("items")]), actions.publish);
    assert!(round(&mut bus, &actions).is_empty());
    view.set_viewed();

    // A row is inserted through the view's writer.
    let tables = view.execute("INSERT INTO \"items\" VALUES (1, 'a')");
    let report: ExecuteResult<String> = ExecuteCarrier::finish_execute(tables, Ok(()));
    let mut events = nothing();
    events.executes.push(report);
    let actions = view.state_update(events, true);
    assert_eq!(vec![vec![table("items")]], actions.tables_changed);
    assert!(!view.should_refresh());
    let changes = round(&mut bus, &actions);
    assert_eq!(1, changes.len());

    // On its next look the view learns of the change and runs the kept
    // statement again.
    let mut events = nothing();
    events.changes = changes;
    let actions = view.state_update(events, true);
    let job = actions.requery.expect("the kept statement is run again");
    assert_eq!(vec![table("items")], job.interested_tables);
    assert!(!view.should_refresh());
    assert!(!view.has_changed());

    let rows = vec![ItemRow { id: 1, label: "a" }];
    view.state_update(answer(job.interested_tables, Ok(rows), job.time_started), true);
    assert!(view.has_changed());
    assert_eq!(vec!["A".to_string()], labels(&view));
    assert_eq!(
        UpdateState::UpToDate,
        view.ref_simple_query_carrier().ref_query_carrier().state()
    );
}

#[test]
fn view_asks_for_a_refresh_when_it_does_not_requery_itself() {
    let mut bus = bus();
    let mut view = view_on(&mut bus);
    let job = view.stored_query_parts();
    let actions = view.state_update(answer(job.0, Ok(vec![]), job.1), false);
    round(&mut bus, &actions);
    let sent = bus.state_update(vec![], &vec![vec![table("items")]], vec![], &vec![]);
    let mut events = nothing();
    events.changes = sent.iter().map(|notification| notification.time_of_change).collect();
    let actions = view.state_update(events, false);
    assert!(actions.requery.is_none());
    assert!(view.should_refresh());
    // The owner's next look with automatic requery runs the statement.
    let actions = view.state_update(nothing(), true);
    assert!(actions.requery.is_some());
    assert!(!view.should_refresh());
}

trait StoredParts {
    fn stored_query_parts(&mut self) -> (Vec<String>, Timestamp);
}

impl StoredParts for View {
    fn stored_query_parts(&mut self) -> (Vec<String>, Timestamp) {
        let job = self.stored_query(stored_items());
        (job.interested_tables, job.time_started)
    }
}

#[test]
fn view_ignores_a_write_to_another_table() {
    let mut bus = bus();
    let mut view = view_on(&mut bus);
    let (tables, started) = view.stored_query_parts();
    let actions = view.state_update(answer(tables, Ok(vec![]), started), true);
    round(&mut bus, &actions);

    let writer = ExecuteCarrier::register_new("writer".to_string(), bus.all_tables().clone());
    let touched = writer.execute("UPDATE \"tags\" SET name = 'x'");
    assert_eq!(vec![table("tags")], touched);
    let sent = bus.state_update(vec![], &vec![touched], vec![], &vec![]);
    assert!(sent.is_empty());

    let actions = view.state_update(nothing(), true);
    assert!(actions.requery.is_none());
    assert!(!view.should_refresh());
}

#[test]
fn write_during_a_refresh_asks_for_one_more() {
    let bus = bus();
    let mut reader = both_simple_carriers::<u8, ()>("v".to_string(), bus.all_tables().clone(), ()).0;
    let job = reader.stored_query_at(stored_items(), at(100));
    reader.try_recive_should_update(&vec![at(101)]);
    let executed = ExecutedQuery::new(job.interested_tables, Ok::<_, String>(vec![1]), at(100));
    let resolution = reader.try_resolve_query(QueryPoll::Ready(executed));
    assert_eq!(Some(Ok(vec![1])), resolution.result);
    assert!(reader.should_refresh());
    let job = reader.requery_at(at(103)).unwrap();
    let executed = ExecutedQuery::new(job.interested_tables, Ok::<_, String>(vec![1, 2]), at(103));
    reader.try_resolve_query(QueryPoll::Ready(executed));
    assert_eq!(UpdateState::UpToDate, reader.ref_query_carrier().state());
}

#[test]
fn view_with_a_write_during_its_refresh_requeries_at_the_end() {
    let mut bus = bus();
    let mut view = view_on(&mut bus);
    let job = view.stored_query(stored_items());
    let later = Timestamp::new(job.time_started.secs + 1, 0);
    let mut events = answer(job.interested_tables, Ok(vec![]), job.time_started);
    events.changes.push(later);
    let actions = view.state_update_at(events, true, Timestamp::new(later.secs + 1, 0));
    // The rows are taken in, and one more refresh starts at once.
    assert!(actions.publish.is_some());
    let job = actions.requery.expect("one more refresh is owed");
    assert_eq!(Timestamp::new(later.secs + 1, 0), job.time_started);
    assert_eq!(
        UpdateState::Updating { time_started: job.time_started, back_to_back: None },
        view.ref_simple_query_carrier().ref_query_carrier().state()
    );
    view.state_update(answer(job.interested_tables, Ok(vec![]), job.time_started), true);
    assert_eq!(
        UpdateState::UpToDate,
        view.ref_simple_query_carrier().ref_query_carrier().state()
    );
}

#[test]
fn rows_of_a_superseded_query_are_discarded() {
    let mut bus = bus();
    let mut view = view_on(&mut bus);
    let first = view.query("SELECT * FROM \"items\"");
    let mut second = view.query("SELECT * FROM \"tags\"");
    while !first.time_started.is_before(&second.time_started) {
        second = view.query("SELECT * FROM \"tags\"");
    }
    view.set_viewed();

    // The second answers first.
    let rows = vec![ItemRow { id: 2, label: "second" }];
    let actions = view.state_update(answer(second.interested_tables, Ok(rows), second.time_started), true);
    assert_eq!(Some(vec![table("tags")]), actions.publish);
    assert_eq!(vec!["SECOND".to_string()], labels(&view));
    view.set_viewed();

    let rows = vec![ItemRow { id: 1, label: "first" }];
    let actions = view.state_update(answer(first.interested_tables, Ok(rows), first.time_started), true);
    assert!(actions.publish.is_none());
    assert!(actions.query_error.is_none());
    assert!(!view.has_changed());
    assert_eq!(vec!["SECOND".to_string()], labels(&view));
    assert_eq!(
        &vec![table("tags")],
        view.ref_simple_query_carrier().ref_query_carrier().interesting_tables()
    );
}

#[test]
fn rolled_back_transaction_reaches_nobody() {
    let mut bus = bus();
    let mut view = view_on(&mut bus);
    let (tables, started) = view.stored_query_parts();
    let actions = view.state_update(answer(tables, Ok(vec![]), started), true);
    round(&mut bus, &actions);

    let mut builder = view.ref_execute_carrier().execute_many();
    builder.execute("INSERT INTO \"items\" VALUES (1, 'a')");
    builder.execute("INSERT INTO \"items\" VALUES (1, 'duplicate')");
    let mut run = builder.finish();
    run.advance::<String>(Ok(()));
    run.advance::<String>(Ok(()));
    let report = match run.advance(Err("UNIQUE constraint failed".to_string())) {
        TransactionAction::Report(report) => report,
        _ => panic!("the run reports the failure"),
    };

    let mut events = nothing();
    events.executes.push(report);
    let actions = view.state_update(events, true);
    assert!(actions.tables_changed.is_empty());
    assert_eq!(vec!["UNIQUE constraint failed".to_string()], actions.execute_errors);
    assert!(round(&mut bus, &actions).is_empty());
    let actions = view.state_update(nothing(), true);
    assert!(actions.requery.is_none());
    assert!(!view.should_refresh());
}

#[test]
fn failed_refresh_hands_out_the_error_and_keeps_the_rows() {
    let mut bus = bus();
    let mut view = view_on(&mut bus);
    let (tables, started) = view.stored_query_parts();
    let rows = vec![ItemRow { id: 1, label: "kept" }];
    view.state_update(answer(tables, Ok(rows), started), true);
    view.set_viewed();

    let job = view.query("SELECT * FROM \"tags\"");
    let failed = answer(job.interested_tables, Err("busy".to_string()), job.time_started);
    let actions = view.state_update(failed, true);
    assert_eq!(Some("busy".to_string()), actions.query_error);
    assert!(actions.publish.is_none());
    assert!(!view.has_changed());
    assert_eq!(vec!["KEPT".to_string()], labels(&view));
    assert_eq!(
        &vec![table("items")],
        view.ref_simple_query_carrier().ref_query_carrier().interesting_tables()
    );
    assert_eq!(
        UpdateState::UpToDate,
        view.ref_simple_query_carrier().ref_query_carrier().state()
    );
}

#[test]
fn view_whose_refresh_was_given_up_stays_safe() {
    let mut bus = bus();
    let mut view = view_on(&mut bus);
    view.stored_query_parts();
    let mut events = nothing();
    events.polled = QueryPoll::Closed;
    let actions = view.state_update(events, true);
    assert!(actions.publish.is_none() && actions.query_error.is_none());
    assert!(!view.ref_simple_query_carrier().ref_query_carrier().is_executing());
    // The bus forgets the view once its owner has dropped it.
    drop(view);
    bus.prune(&vec![true]);
    assert_eq!(0, bus.len());
    assert!(bus.state_update(vec![], &vec![vec![table("items")]], vec![], &vec![]).is_empty());
}

#[test]
fn rows_are_projected_in_order_and_sorted_on_request() {
    let mut bus = bus();
    let mut view = view_on(&mut bus);
    let (tables, started) = view.stored_query_parts();
    let rows = vec![
        ItemRow { id: 2, label: "b" },
        ItemRow { id: 3, label: "c" },
        ItemRow { id: 1, label: "a" },
    ];
    view.state_update(answer(tables, Ok(rows), started), true);
    assert_eq!(vec!["B".to_string(), "C".to_string(), "A".to_string()], labels(&view));
    view.sort(by_id_descending);
    let sorted: Vec<i32> = view.sorted().into_iter().map(|item| item.id).collect();
    assert_eq!(vec![3, 2, 1], sorted);
    assert_eq!("View<Item>", view.name());
}

#[test]
fn project_turns_each_row() {
    let rows = vec![ItemRow { id: 7, label: "x" }, ItemRow { id: 8, label: "y" }];
    assert_eq!(
        vec![Item { id: 7, label: "X".to_string() }, Item { id: 8, label: "Y".to_string() }],
        project(rows)
    );
    assert!(project(Vec::<ItemRow>::new()).is_empty());
    let item = Item { id: 1, label: "A".to_string() };
    assert_eq!((1, "A".to_string()), item.dml_clone());
    assert_eq!(ItemRow { id: 1, label: "a" }, ItemRow::from_entity(item.clone()));
    assert_eq!((1, "A".to_string()), item.dml());
}

#[test]
fn simple_view_keeps_the_rows_as_they_come() {
    let bus = bus();
    let (mut view, _) = bus.builder().simple::<ItemRow, u8, ()>("Container<ItemRow>".to_string(), ());
    assert!(view.values().is_empty());
    let job = view.stored_query(stored_items());
    let rows = vec![ItemRow { id: 1, label: "a" }];
    let actions = view.state_update(answer(job.interested_tables, Ok(rows.clone()), job.time_started));
    assert_eq!(&rows, view.values());
    assert_eq!(Some(vec![table("items")]), actions.publish);
    assert!(actions.requery.is_none());

    let mut events = nothing();
    events.changes.push(Timestamp::now());
    events.executes.push(Err("lost".to_string()));
    events.executes.push(Ok(view.execute("DELETE FROM \"tags\"")));
    let actions = view.state_update(events);
    assert!(view.should_refresh());
    assert!(actions.requery.is_none());
    assert_eq!(vec![vec![table("tags")]], actions.tables_changed);
    assert_eq!(vec!["lost".to_string()], actions.execute_errors);
    assert_eq!(&rows, view.values());

    let job = view.query("SELECT * FROM \"tags\"");
    assert_eq!(vec![table("tags")], job.interested_tables);
    assert!(!view.should_refresh());
    let failed = answer(job.interested_tables, Err("gone".to_string()), job.time_started);
    let actions = view.state_update(failed);
    assert_eq!(Some("gone".to_string()), actions.query_error);
    assert_eq!(&rows, view.values());
    let held: simple::Container<ItemRow, u8> = view;
    assert!(held.ref_simple_query_carrier().stored_select().is_some());
}

#[test]
fn manual_view_runs_its_kept_work_again() {
    type Manual = manual::Container<i32, fn(&i32, &i32) -> Order>;
    let bus = bus();
    let (mut view, _): (Manual, _) = bus.builder().name("numbers".to_string()).manual("x".to_string(), ());
    assert_eq!("numbers", view.name());

    // Work that is not kept is not run again.
    let mut collector = view.manual_query();
    collector.add(SELECT_ITEMS);
    let executed = ExecutedQuery::new_collector(collector, Ok::<_, String>(vec![4, 5]));
    let events = TickEvents { changes: vec![], polled: QueryPoll::Ready(executed), executes: vec![] };
    let actions = view.state_update_at(events, true, at(i64::MAX));
    assert_eq!(Some(vec![table("items")]), actions.publish);
    assert_eq!(&vec![4, 5], view.data());
    let events = TickEvents::<i32, String> {
        changes: vec![at(i64::MAX)],
        polled: QueryPoll::Empty,
        executes: vec![],
    };
    let actions = view.state_update(events, true);
    assert!(actions.requery.is_none());
    assert!(view.should_refresh());

    let collector = view.stored_query();
    assert!(!view.should_refresh());
    let started = collector.time_started();
    let executed = ExecutedQuery::new_collector(collector, Ok::<_, String>(vec![6]));
    let events = TickEvents {
        changes: vec![started],
        polled: QueryPoll::Ready(executed),
        executes: vec![Ok(view.execute("DELETE FROM \"tags\""))],
    };
    let later = Timestamp::new(started.secs + 1, 0);
    let actions = view.state_update_at(events, true, later);
    assert_eq!(&vec![6], view.data());
    assert_eq!(vec![vec![table("tags")]], actions.tables_changed);
    assert!(actions.publish.is_some());
    let collector = actions.requery.expect("the kept work is run again");
    assert_eq!(later, collector.time_started());
    assert!(collector.tables().is_empty());
    assert!(view.ref_manual_query_carrier().ref_query_carrier().is_executing());
    assert!(!view.should_refresh());

    let (reader, writer, _) = both_manual_carriers("pair".to_string(), bus.all_tables().clone(), ());
    let plain: Manual = manual::Container::from_carriers("pair".to_string(), reader, writer);
    assert!(plain.data().is_empty());
    assert_eq!("pair", plain.ref_execute_carrier().name());
}

#[test]
fn view_hands_out_writers_and_builders() {
    let mut bus = bus();
    let mut view = view_on(&mut bus);
    let actor = view.actor();
    assert_eq!("View<Item>", actor.name());
    assert_eq!(vec![table("tags")], actor.execute("DELETE FROM \"tags\""));

    let mut builder = view.execute_many();
    builder.execute("DELETE FROM \"tags\"");
    builder.execute("DELETE FROM \"items\"");
    let mut run = builder.finish();
    run.advance::<String>(Ok(()));
    run.advance::<String>(Ok(()));
    run.advance::<String>(Ok(()));
    match run.advance::<String>(Ok(())) {
        TransactionAction::Report(report) => {
            assert_eq!(Ok(vec![table("tags"), table("items")]), report)
        }
        _ => panic!("the run reports its tables"),
    }

    let reader = view.ref_simple_query_carrier();
    let (other, registration) = reader
        .builder()
        .name("other".to_string())
        .manual::<i32, fn(&i32, &i32) -> Order, ()>("unused".to_string(), ());
    assert_eq!("other", other.name());
    assert_eq!(bus.all_tables(), other.ref_execute_carrier().all_tables());
    assert!(bus.state_update(vec![], &vec![], vec![registration], &vec![]).is_empty());
    assert_eq!(2, bus.len());

    view.ref_mut_simple_query_carrier().ref_mut_query_carrier().try_recive_should_update(&vec![at(1)]);
    assert!(view.should_refresh());
    let writer = view.ref_mut_execute_carrier();
    let resolved = writer.try_resolve_executes(vec![Ok::<_, String>(vec![table("tags")])]);
    assert_eq!(vec![vec![table("tags")]], resolved.tables_changed);
    view.ref_mut_data().set(vec![Item { id: 9, label: "direct".to_string() }]);
    assert_eq!(vec!["direct".to_string()], labels(&view));
}
