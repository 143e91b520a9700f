use hermes::actor::Actor;
use hermes::carrier::execute::{
    ExecuteCarrier, ExecuteResult, TransactionAction, TransactionBuilder, TransactionExecute,
    TransactionPhase, TransactionRun,
};

fn table(name: &str) -> String {
    name.to_string()
}

fn schema() -> Vec<String> {
    vec![table("items"), table("tags"), table("users")]
}

fn carrier() -> ExecuteCarrier {
    ExecuteCarrier::register_new("writer".to_string(), schema())
}

fn report(action: TransactionAction<String>) -> ExecuteResult<String> {
    match action {
        TransactionAction::Report(result) => result,
        _ => panic!("the run did not report"),
    }
}

fn is_execute(action: &TransactionAction<String>, position: usize) -> bool {
    matches!(action, TransactionAction::Execute(at) if *at == position)
}

#[test]
fn write_touches_the_tables_it_names() {
    let carrier = carrier();
    assert_eq!("writer", carrier.name());
    assert_eq!(&schema(), carrier.all_tables());
    assert_eq!(vec![table("items")], carrier.execute("INSERT INTO \"items\" VALUES (1)"));
    assert_eq!(
        vec![table("items"), table("tags")],
        carrier.execute("UPDATE \"tags\" SET n = (SELECT count(*) FROM \"items\")")
    );
    assert!(carrier.execute("VACUUM").is_empty());
    assert_eq!(
        vec![table("users")],
        ExecuteCarrier::execute_static(&schema(), "DELETE FROM \"users\"")
    );
}

#[test]
fn committed_write_reports_its_tables_and_failed_write_its_error() {
    let tables = carrier().execute("INSERT INTO \"items\" VALUES (1)");
    assert_eq!(
        Ok(vec![table("items")]),
        ExecuteCarrier::finish_execute::<String>(tables.clone(), Ok(()))
    );
    assert_eq!(
        Err("constraint".to_string()),
        ExecuteCarrier::finish_execute(tables, Err("constraint".to_string()))
    );
}

#[test]
fn resolved_writes_are_forwarded_in_order_and_failures_announce_nothing() {
    let mut carrier = carrier();
    let received: Vec<ExecuteResult<String>> = vec![
        Ok(vec![table("items")]),
        Err("first".to_string()),
        Ok(vec![]),
        Ok(vec![table("tags"), table("users")]),
        Err("second".to_string()),
    ];
    let resolved = carrier.try_resolve_executes(received);
    assert_eq!(
        vec![vec![table("items")], vec![], vec![table("tags"), table("users")]],
        resolved.tables_changed
    );
    assert_eq!(vec!["first".to_string(), "second".to_string()], resolved.errors);

    let nothing = carrier.try_resolve_executes(Vec::<ExecuteResult<String>>::new());
    assert!(nothing.tables_changed.is_empty());
    assert!(nothing.errors.is_empty());
}

#[test]
fn transaction_that_commits_announces_the_union_of_its_statements() {
    let carrier = carrier();
    let mut builder = carrier.execute_many();
    builder.execute("INSERT INTO \"items\" VALUES (1)");
    builder.execute("UPDATE \"tags\" SET item = (SELECT max(id) FROM \"items\")");
    builder.execute("SELECT 1");
    assert_eq!(3, builder.len());
    let mut run = builder.finish();
    assert_eq!(TransactionPhase::Opening, run.phase());

    assert!(is_execute(&run.advance::<String>(Ok(())), 0));
    assert_eq!(TransactionPhase::Running, run.phase());
    assert!(is_execute(&run.advance::<String>(Ok(())), 1));
    assert!(is_execute(&run.advance::<String>(Ok(())), 2));
    assert!(matches!(run.advance::<String>(Ok(())), TransactionAction::Commit));
    assert_eq!(TransactionPhase::Committing, run.phase());
    assert_eq!(Ok(vec![table("items"), table("tags")]), report(run.advance(Ok(()))));
    assert_eq!(TransactionPhase::Finished, run.phase());
    assert!(matches!(run.advance::<String>(Ok(())), TransactionAction::Nothing));
    assert!(matches!(run.advance(Err("late".to_string())), TransactionAction::Nothing));
}

#[test]
fn transaction_that_fails_reports_the_error_and_no_tables() {
    let carrier = carrier();
    let mut builder = carrier.execute_many();
    builder.execute("INSERT INTO \"items\" VALUES (1)");
    builder.execute("INSERT INTO \"tags\" VALUES (NULL)");
    builder.execute("DELETE FROM \"users\"");
    let mut run = builder.finish();
    assert!(is_execute(&run.advance::<String>(Ok(())), 0));
    assert!(is_execute(&run.advance::<String>(Ok(())), 1));
    assert_eq!(Err("NOT NULL".to_string()), report(run.advance(Err("NOT NULL".to_string()))));
    assert_eq!(TransactionPhase::Finished, run.phase());
    assert!(matches!(run.advance::<String>(Ok(())), TransactionAction::Nothing));
}

#[test]
fn transaction_that_cannot_open_or_commit_reports_the_error() {
    let schema = schema();
    let mut builder = TransactionBuilder::new(&schema);
    builder.execute("DELETE FROM \"users\"");
    let mut run: TransactionRun = builder.finish();
    assert_eq!(Err("closed".to_string()), report(run.advance(Err("closed".to_string()))));

    let mut builder = TransactionBuilder::new(&schema);
    builder.execute("DELETE FROM \"users\"");
    let mut run = builder.finish();
    assert!(is_execute(&run.advance::<String>(Ok(())), 0));
    assert!(matches!(run.advance::<String>(Ok(())), TransactionAction::Commit));
    assert_eq!(Err("disk full".to_string()), report(run.advance(Err("disk full".to_string()))));
    assert_eq!(TransactionPhase::Finished, run.phase());
}

#[test]
fn empty_transaction_commits_and_announces_nothing() {
    let carrier = carrier();
    let mut run = carrier.execute_many().finish();
    assert!(matches!(run.advance::<String>(Ok(())), TransactionAction::Commit));
    assert_eq!(Ok(vec![]), report(run.advance(Ok(()))));
}

#[test]
fn statements_can_be_added_in_bulk() {
    let schema = schema();
    let mut builder = TransactionBuilder::new(&schema);
    builder.execute("DELETE FROM \"users\"");
    builder.execute_many(&vec![
        "DELETE FROM \"tags\"".to_string(),
        "DELETE FROM \"users\"".to_string(),
        "DELETE FROM \"items\"".to_string(),
    ]);
    assert_eq!(4, builder.len());
    let mut run = builder.finish();
    assert!(is_execute(&run.advance::<String>(Ok(())), 0));
    assert!(is_execute(&run.advance::<String>(Ok(())), 1));
    assert!(is_execute(&run.advance::<String>(Ok(())), 2));
    assert!(is_execute(&run.advance::<String>(Ok(())), 3));
    assert!(matches!(run.advance::<String>(Ok(())), TransactionAction::Commit));
    assert_eq!(
        Ok(vec![table("users"), table("tags"), table("items")]),
        report(run.advance(Ok(())))
    );
}

#[test]
fn statement_of_a_transaction_is_scanned_when_added() {
    let schema = schema();
    let _one: TransactionExecute = TransactionExecute::from_execute("SELECT \"tags\"", &schema);
}

#[test]
fn actor_writes_like_its_carrier() {
    let carrier = carrier();
    let actor: Actor = carrier.actor();
    assert_eq!("writer", actor.name());
    assert_eq!(&schema(), actor.all_tables());
    assert_eq!(vec![table("tags")], actor.execute("DELETE FROM \"tags\""));
    let copy = actor.clone();
    let mut builder = copy.execute_many();
    builder.execute("DELETE FROM \"tags\"");
    let mut run = builder.finish();
    run.advance::<String>(Ok(()));
    run.advance::<String>(Ok(()));
    assert_eq!(Ok(vec![table("tags")]), report(run.advance(Ok(()))));

    let own = Actor::new("worker".to_string(), &schema());
    assert_eq!("worker", own.name());
}
