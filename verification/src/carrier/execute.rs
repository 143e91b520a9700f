//! The writing side of a view: which tables a write touches, and what is
//! announced to the bus when writes come back.

use crate::actor::Actor;
use crate::{clone_tables, get_tables_present, lemma_merged, merge_tables, merged, tables_present};
use vstd::prelude::*;

verus! {

/// What a finished write reports: the tables it touched, or the engine's
/// error.
pub type ExecuteResult<E> = Result<Vec<String>, E>;

/// The tables of the writes among `received` that succeeded, in their order.
pub open spec fn announced<E>(received: Seq<ExecuteResult<E>>) -> Seq<Seq<Seq<char>>>
    decreases received.len(),
{
    if received.len() == 0 {
        Seq::empty()
    } else {
        match received.last() {
            Ok(tables) => announced(received.drop_last()).push(tables.deep_view()),
            Err(_) => announced(received.drop_last()),
        }
    }
}

/// The errors of the writes among `received` that failed, in their order.
pub open spec fn failures<E>(received: Seq<ExecuteResult<E>>) -> Seq<E>
    decreases received.len(),
{
    if received.len() == 0 {
        Seq::empty()
    } else {
        match received.last() {
            Ok(_) => failures(received.drop_last()),
            Err(error) => failures(received.drop_last()).push(error),
        }
    }
}

/// What the task of a write reports: the tables of the write if the engine
/// answered with success, else the engine's error.
pub open spec fn report_of<E>(tables: Vec<String>, outcome: Result<(), E>) -> ExecuteResult<E> {
    match outcome {
        Ok(_) => Ok(tables),
        Err(error) => Err(error),
    }
}

/// The lists of tables among `lists`, each as contracts see it.
pub open spec fn table_lists(lists: Seq<Vec<String>>) -> Seq<Seq<Seq<char>>> {
    Seq::new(lists.len(), |i: int| lists[i].deep_view())
}

/// What a look at the finished writes means: table changes to forward to
/// the bus, and errors to report.
pub struct ResolvedExecutes<E> {
    pub tables_changed: Vec<Vec<String>>,
    pub errors: Vec<E>,
}

/// The writing side of one view.
pub struct ExecuteCarrier {
    name: String,
    all_tables: Vec<String>,
}

impl ExecuteCarrier {
    pub closed spec fn known(&self) -> Seq<Seq<char>> {
        self.all_tables.deep_view()
    }

    pub closed spec fn label(&self) -> Seq<char> {
        self.name@
    }

    pub fn register_new(name: String, all_tables: Vec<String>) -> (carrier: Self)
        ensures
            carrier.label() == name@,
            carrier.known() == all_tables.deep_view(),
    {
        ExecuteCarrier { name, all_tables }
    }

    pub fn name(&self) -> (name: &String)
        ensures
            name@ == self.label(),
    {
        &self.name
    }

    pub fn all_tables(&self) -> (tables: &Vec<String>)
        ensures
            tables.deep_view() == self.known(),
    {
        &self.all_tables
    }

    /// The tables that a write with the text `sql` touches: they are
    /// announced once the write has succeeded.
    pub fn execute(&self, sql: &str) -> (tables: Vec<String>)
        ensures
            tables.deep_view() == tables_present(self.known(), sql@),
    {
        Self::execute_static(self.all_tables.as_slice(), sql)
    }

    /// As [`ExecuteCarrier::execute`], for a writer that holds only the
    /// list of tables.
    pub fn execute_static(all_tables: &[String], sql: &str) -> (tables: Vec<String>)
        ensures
            tables.deep_view() == tables_present(all_tables.deep_view(), sql@),
    {
        get_tables_present(all_tables, sql)
    }

    /// What the task of a write reports when the engine has answered: the
    /// tables of the write if it succeeded, else the engine's error.
    pub fn finish_execute<E>(tables: Vec<String>, outcome: Result<(), E>) -> (report:
        ExecuteResult<E>)
        ensures
            report == report_of(tables, outcome),
    {
        match outcome {
            Ok(_) => Ok(tables),
            Err(error) => Err(error),
        }
    }

    /// A transaction to which statements can be added.
    pub fn execute_many<'a>(&'a self) -> (builder: TransactionBuilder<'a>)
        ensures
            builder.known() == self.known(),
            builder.statements().len() == 0,
    {
        Self::execute_many_static(self.all_tables.as_slice())
    }

    /// As [`ExecuteCarrier::execute_many`], for a writer that holds only
    /// the list of tables.
    pub fn execute_many_static<'a>(all_tables: &'a [String]) -> (builder: TransactionBuilder<'a>)
        ensures
            builder.known() == all_tables.deep_view(),
            builder.statements().len() == 0,
    {
        TransactionBuilder::new(all_tables)
    }

    /// A writer with the name and the tables of this carrier, to be handed
    /// to a task.
    pub fn actor(&self) -> (actor: Actor)
        ensures
            actor.label() == self.label(),
            actor.known() == self.known(),
    {
        Actor::new(self.name.clone(), &self.all_tables)
    }

    /// Sorts the reports of finished writes: the tables of each write that
    /// succeeded are to be forwarded to the bus, in the order of the
    /// reports; a failed write announces nothing.
    pub fn try_resolve_executes<E>(&mut self, received: Vec<ExecuteResult<E>>) -> (resolved:
        ResolvedExecutes<E>)
        ensures
            *final(self) == *old(self),
            table_lists(resolved.tables_changed@) == announced(received@),
            resolved.errors@ == failures(received@),
    {
        let mut tables_changed: Vec<Vec<String>> = Vec::new();
        let mut errors: Vec<E> = Vec::new();
        proof {
            assert(received@.take(0) =~= Seq::<ExecuteResult<E>>::empty());
            assert(table_lists(tables_changed@) =~= announced(received@.take(0)));
        }
        for report in it: received
            invariant
                it.seq() == received@,
                *self == *old(self),
                table_lists(tables_changed@) == announced(received@.take(it.index() as int)),
                errors@ == failures(received@.take(it.index() as int)),
        {
            let ghost before = tables_changed@;
            proof {
                let taken = received@.take(it.index() + 1);
                assert(taken.drop_last() =~= received@.take(it.index() as int));
                assert(taken.last() == report);
            }
            match report {
                Ok(tables) => {
                    tables_changed.push(tables);
                    assert(table_lists(tables_changed@) =~= table_lists(before).push(
                        tables.deep_view(),
                    ));
                },
                Err(error) => {
                    errors.push(error);
                },
            }
        }
        assert(received@.take(received@.len() as int) =~= received@);
        ResolvedExecutes { tables_changed, errors }
    }
}

/// What holds an execute carrier.
pub trait HasExecuteCarrier: Sized {
    /// The carrier that is held.
    spec fn execute_carrier(&self) -> ExecuteCarrier;

    /// `other` is as `self` in all but the carrier.
    spec fn same_but_execute_carrier(&self, other: &Self) -> bool;

    fn ref_execute_carrier(&self) -> (carrier: &ExecuteCarrier)
        ensures
            *carrier == self.execute_carrier(),
    ;

    fn ref_mut_execute_carrier(&mut self) -> (carrier: &mut ExecuteCarrier)
        ensures
            *carrier == old(self).execute_carrier(),
            final(self).execute_carrier() == *final(carrier),
            old(self).same_but_execute_carrier(final(self)),
    ;
}

/// What the owner of a view can ask of its writing side.
pub trait ImplExecuteCarrier: HasExecuteCarrier {
    /// A writer with the name and the tables of this view, to be handed to
    /// a task.
    fn actor(&self) -> (actor: Actor)
        ensures
            actor.label() == self.execute_carrier().label(),
            actor.known() == self.execute_carrier().known(),
    ;

    /// The tables that a write with the text `sql` touches: they are
    /// announced once the write has succeeded.
    fn execute(&self, sql: &str) -> (tables: Vec<String>)
        ensures
            tables.deep_view() == tables_present(self.execute_carrier().known(), sql@),
    ;

    /// A transaction to which statements can be added.
    fn execute_many<'a>(&'a self) -> (builder: TransactionBuilder<'a>)
        ensures
            builder.known() == self.execute_carrier().known(),
            builder.statements().len() == 0,
    ;
}

impl<T> ImplExecuteCarrier for T where T: HasExecuteCarrier {
    fn actor(&self) -> (actor: Actor) {
        self.ref_execute_carrier().actor()
    }

    fn execute(&self, sql: &str) -> (tables: Vec<String>) {
        self.ref_execute_carrier().execute(sql)
    }

    fn execute_many<'a>(&'a self) -> (builder: TransactionBuilder<'a>) {
        self.ref_execute_carrier().execute_many()
    }
}

/// One statement of a transaction: the tables it names, known before the
/// transaction starts.
pub struct TransactionExecute {
    interested_tables: Vec<String>,
}

impl TransactionExecute {
    pub closed spec fn tables(&self) -> Seq<Seq<char>> {
        self.interested_tables.deep_view()
    }

    pub fn from_execute(sql: &str, all_tables: &[String]) -> (execute: Self)
        ensures
            execute.tables() == tables_present(all_tables.deep_view(), sql@),
    {
        TransactionExecute { interested_tables: get_tables_present(all_tables, sql) }
    }
}

/// Collects the statements of one transaction, in the order in which they
/// will run.
pub struct TransactionBuilder<'executor> {
    executes: Vec<TransactionExecute>,
    all_tables: &'executor [String],
}

impl<'executor> TransactionBuilder<'executor> {
    pub closed spec fn known(&self) -> Seq<Seq<char>> {
        self.all_tables.deep_view()
    }

    /// The tables of each statement added so far.
    pub closed spec fn statements(&self) -> Seq<Seq<Seq<char>>> {
        Seq::new(self.executes@.len(), |i: int| self.executes@[i].tables())
    }

    pub fn new(all_tables: &'executor [String]) -> (builder: Self)
        ensures
            builder.known() == all_tables.deep_view(),
            builder.statements().len() == 0,
    {
        TransactionBuilder { executes: Vec::new(), all_tables }
    }

    /// Adds a statement with the text `sql`.
    pub fn execute(&mut self, sql: &str)
        ensures
            final(self).known() == old(self).known(),
            final(self).statements() == old(self).statements().push(
                tables_present(old(self).known(), sql@),
            ),
    {
        let transaction_execute = TransactionExecute::from_execute(sql, self.all_tables);
        self.executes.push(transaction_execute);
        assert(self.statements() =~= old(self).statements().push(
            tables_present(old(self).known(), sql@),
        ));
    }

    /// Adds one statement for each text of `sqls`, in their order.
    pub fn execute_many(&mut self, sqls: &Vec<String>)
        ensures
            final(self).known() == old(self).known(),
            final(self).statements() == old(self).statements() + Seq::new(
                sqls@.len(),
                |i: int| tables_present(old(self).known(), sqls@[i]@),
            ),
    {
        let mut i: usize = 0;
        assert(self.statements() =~= old(self).statements() + Seq::new(
            0,
            |i: int| tables_present(old(self).known(), sqls@[i]@),
        ));
        while i < sqls.len()
            invariant
                i <= sqls.len(),
                self.known() == old(self).known(),
                self.statements() == old(self).statements() + Seq::new(
                    i as nat,
                    |i: int| tables_present(old(self).known(), sqls@[i]@),
                ),
            decreases sqls.len() - i,
        {
            self.execute(sqls[i].as_str());
            assert(self.statements() =~= old(self).statements() + Seq::new(
                (i + 1) as nat,
                |i: int| tables_present(old(self).known(), sqls@[i]@),
            ));
            i += 1;
        }
    }

    /// How many statements were added.
    pub fn len(&self) -> (n: usize)
        ensures
            n == self.statements().len(),
    {
        self.executes.len()
    }

    /// Ends the collecting: the run of this transaction, before its start.
    pub fn finish(self) -> (run: TransactionRun)
        ensures
            run@ == (TransactionRunView {
                statements: self.statements(),
                succeeded: 0,
                phase: TransactionPhase::Opening,
                tables: Seq::empty(),
            }),
            run.wf(),
    {
        let tables: Vec<String> = Vec::new();
        proof {
            assert(tables.deep_view() =~= Seq::<Seq<char>>::empty());
            assert(union_of(self.statements().take(0)) =~= tables.deep_view().to_set());
        }
        TransactionRun {
            statements: self.executes,
            succeeded: 0,
            phase: TransactionPhase::Opening,
            tables,
        }
    }
}

/// How far the run of a transaction has come.
#[derive(Clone, Copy, Debug, PartialEq, Eq)]
pub enum TransactionPhase {
    /// The engine was asked to open the transaction.
    Opening,
    /// The engine was asked to run the next statement.
    Running,
    /// Every statement has run; the engine was asked to commit.
    Committing,
    /// The run has reported and is over.
    Finished,
}

/// What the task of a transaction is to do next.
pub enum TransactionAction<E> {
    /// Run the statement that was added at this position.
    Execute(usize),
    /// Commit.
    Commit,
    /// Report to the carrier: the tables that changed, or the error after
    /// which the engine rolled the transaction back.
    Report(ExecuteResult<E>),
    /// The run is over: nothing is left to do.
    Nothing,
}

/// The tables that occur in any of `lists`.
pub open spec fn union_of(lists: Seq<Seq<Seq<char>>>) -> Set<Seq<char>> {
    Set::new(|table: Seq<char>| exists|i: int| 0 <= i < lists.len() && #[trigger] lists[i].contains(table))
}

/// The run of a transaction as contracts see it.
pub struct TransactionRunView {
    /// The tables of each statement, in the order in which they run.
    pub statements: Seq<Seq<Seq<char>>>,
    /// How many statements have run and succeeded.
    pub succeeded: nat,
    pub phase: TransactionPhase,
    /// The tables of the statements that have succeeded, each once.
    pub tables: Seq<Seq<char>>,
}

impl TransactionRunView {
    /// The run holds the tables of exactly the statements that succeeded,
    /// each once; it is at the commit only when every statement succeeded.
    pub open spec fn wf(self) -> bool {
        &&& self.succeeded <= self.statements.len()
        &&& self.tables.no_duplicates()
        &&& self.tables.to_set() == union_of(self.statements.take(self.succeeded as int))
        &&& self.phase is Opening ==> self.succeeded == 0
        &&& self.phase is Running ==> self.succeeded < self.statements.len()
        &&& self.phase is Committing ==> self.succeeded == self.statements.len()
    }

    /// The tables that the run reports as changed when the engine answers
    /// the last request, `ok` telling whether with success: those it holds,
    /// if the answer is that the commit succeeded; otherwise it reports no
    /// tables.
    pub open spec fn announces(self, ok: bool) -> Option<Seq<Seq<char>>> {
        if self.phase is Committing && ok {
            Some(self.tables)
        } else {
            None
        }
    }

    /// The run after the engine answered the last request: `ok` tells
    /// whether it succeeded.
    pub open spec fn advanced(self, ok: bool) -> TransactionRunView {
        match self.phase {
            TransactionPhase::Finished => self,
            _ if !ok => TransactionRunView { phase: TransactionPhase::Finished, ..self },
            TransactionPhase::Opening => TransactionRunView {
                phase: if self.statements.len() == 0 {
                    TransactionPhase::Committing
                } else {
                    TransactionPhase::Running
                },
                ..self
            },
            TransactionPhase::Running => TransactionRunView {
                succeeded: self.succeeded + 1,
                phase: if self.succeeded + 1 == self.statements.len() {
                    TransactionPhase::Committing
                } else {
                    TransactionPhase::Running
                },
                tables: merged(self.tables, self.statements[self.succeeded as int]),
                ..self
            },
            TransactionPhase::Committing => TransactionRunView {
                phase: TransactionPhase::Finished,
                ..self
            },
        }
    }
}

/// The run of one transaction: it tells the task what to ask of the engine
/// next, and gathers the tables of the statements that succeeded.
pub struct TransactionRun {
    statements: Vec<TransactionExecute>,
    succeeded: usize,
    phase: TransactionPhase,
    tables: Vec<String>,
}

impl View for TransactionRun {
    type V = TransactionRunView;

    closed spec fn view(&self) -> TransactionRunView {
        TransactionRunView {
            statements: Seq::new(self.statements@.len(), |i: int| self.statements@[i].tables()),
            succeeded: self.succeeded as nat,
            phase: self.phase,
            tables: self.tables.deep_view(),
        }
    }
}

impl TransactionRun {
    /// What holds of every run: see [`TransactionRunView::wf`].
    #[verifier::type_invariant]
    pub open spec fn wf(&self) -> bool {
        self@.wf()
    }

    pub fn phase(&self) -> (phase: TransactionPhase)
        ensures
            phase == self@.phase,
    {
        self.phase
    }

    /// Takes the engine's answer to the last request and says what to do
    /// next. After a failure the run reports the error and is over: the
    /// engine rolls back, and no table is announced. After the commit has
    /// succeeded the run reports the tables of all its statements, each
    /// once.
    pub fn advance<E>(&mut self, outcome: Result<(), E>) -> (action: TransactionAction<E>)
        ensures
            old(self).wf(),
            final(self).wf(),
            final(self)@ == old(self)@.advanced(outcome is Ok),
            action matches TransactionAction::Report(Ok(tables)) ==> old(self)@.announces(
                outcome is Ok,
            ) == Some(tables.deep_view()),
            old(self)@.announces(outcome is Ok) is Some ==> action matches TransactionAction::Report(
                Ok(_),
            ),
            match action {
                TransactionAction::Nothing => old(self)@.phase is Finished,
                TransactionAction::Report(Err(error)) => !(old(self)@.phase is Finished)
                    && outcome == Err::<(), E>(error),
                TransactionAction::Report(Ok(tables)) => old(self)@.phase is Committing
                    && outcome is Ok && tables.deep_view() == old(self)@.tables,
                TransactionAction::Commit => outcome is Ok && final(self)@.phase is Committing
                    && !(old(self)@.phase is Committing),
                TransactionAction::Execute(next) => outcome is Ok && final(self)@.phase is Running
                    && next == final(self)@.succeeded,
            },
    {
        proof {
            use_type_invariant(&*self);
        }
        let statements: Vec<TransactionExecute> = Vec::new();
        let tables: Vec<String> = Vec::new();
        proof {
            let none = Seq::new(statements@.len(), |i: int| statements@[i].tables());
            assert(tables.deep_view() =~= Seq::<Seq<char>>::empty());
            assert(union_of(none.take(0)) =~= tables.deep_view().to_set());
        }
        let mut run = TransactionRun {
            statements,
            succeeded: 0,
            phase: TransactionPhase::Finished,
            tables,
        };
        std::mem::swap(self, &mut run);
        let TransactionRun { statements, succeeded, phase, tables } = run;
        let (next, action) = Self::step(statements, succeeded, phase, tables, outcome);
        *self = next;
        action
    }

    /// The run after the engine's answer, and what to do next.
    fn step<E>(
        statements: Vec<TransactionExecute>,
        succeeded: usize,
        phase: TransactionPhase,
        tables: Vec<String>,
        outcome: Result<(), E>,
    ) -> (next: (TransactionRun, TransactionAction<E>))
        requires
            (TransactionRun { statements, succeeded, phase, tables }).wf(),
        ensures
            next.0.wf(),
            next.0@ == (TransactionRun { statements, succeeded, phase, tables })@.advanced(
                outcome is Ok,
            ),
            next.1 matches TransactionAction::Report(Ok(reported)) ==> reported.deep_view()
                == tables.deep_view(),
            match next.1 {
                TransactionAction::Nothing => phase is Finished,
                TransactionAction::Report(Err(error)) => !(phase is Finished) && outcome == Err::<
                    (),
                    E,
                >(error),
                TransactionAction::Report(Ok(_)) => phase is Committing && outcome is Ok,
                TransactionAction::Commit => outcome is Ok && next.0@.phase is Committing && !(phase
                    is Committing),
                TransactionAction::Execute(position) => outcome is Ok && next.0@.phase is Running
                    && position == next.0@.succeeded,
            },
            phase is Committing && outcome is Ok ==> next.1 matches TransactionAction::Report(Ok(_)),
    {
        let ghost before = (TransactionRun { statements, succeeded, phase, tables })@;
        match phase {
            TransactionPhase::Finished => {
                return (
                    TransactionRun { statements, succeeded, phase, tables },
                    TransactionAction::Nothing,
                );
            },
            _ => {},
        }
        let error = match outcome {
            Ok(_) => None,
            Err(error) => Some(error),
        };
        if let Some(error) = error {
            return (
                TransactionRun { statements, succeeded, phase: TransactionPhase::Finished, tables },
                TransactionAction::Report(Err(error)),
            );
        }
        let mut tables = tables;
        let mut succeeded = succeeded;
        match phase {
            TransactionPhase::Opening => {},
            TransactionPhase::Running => {
                let ghost lists = before.statements;
                assert(succeeded < statements.len());
                merge_tables(&mut tables, &statements[succeeded].interested_tables);
                proof {
                    lemma_merged(before.tables, lists[succeeded as int]);
                    lemma_union_of_push(lists.take(succeeded as int), lists[succeeded as int]);
                    assert(lists.take(succeeded + 1) =~= lists.take(succeeded as int).push(
                        lists[succeeded as int],
                    ));
                }
                succeeded = succeeded + 1;
            },
            _ => {
                let reported = clone_tables(&tables);
                return (
                    TransactionRun {
                        statements,
                        succeeded,
                        phase: TransactionPhase::Finished,
                        tables,
                    },
                    TransactionAction::Report(Ok(reported)),
                );
            },
        }
        if succeeded == statements.len() {
            (
                TransactionRun { statements, succeeded, phase: TransactionPhase::Committing, tables },
                TransactionAction::Commit,
            )
        } else {
            let position = succeeded;
            (
                TransactionRun { statements, succeeded, phase: TransactionPhase::Running, tables },
                TransactionAction::Execute(position),
            )
        }
    }
}

/// A write that succeeds announces the tables that its statement names, and
/// no others; a write that fails announces nothing.
pub proof fn lemma_write_announces_its_tables<E>(
    all_tables: Seq<Seq<char>>,
    sql: Seq<char>,
    tables: Vec<String>,
    outcome: Result<(), E>,
)
    requires
        tables.deep_view() == tables_present(all_tables, sql),
    ensures
        outcome is Ok ==> announced(seq![report_of(tables, outcome)]) == seq![
            tables_present(all_tables, sql),
        ],
        outcome is Err ==> announced(seq![report_of(tables, outcome)]).len() == 0,
{
    let received = seq![report_of(tables, outcome)];
    assert(received.drop_last() =~= Seq::<ExecuteResult<E>>::empty());
    assert(announced(received.drop_last()) =~= Seq::<Seq<Seq<char>>>::empty());
    if outcome is Ok {
        assert(announced(received) =~= seq![tables_present(all_tables, sql)]);
    }
}

/// A transaction that commits announces the tables of all its statements,
/// each once, and no others.
pub proof fn lemma_commit_announces_every_statement(run: TransactionRunView)
    requires
        run.wf(),
        run.announces(true) is Some,
    ensures
        run.announces(true)->0.to_set() == union_of(run.statements),
        run.announces(true)->0.no_duplicates(),
{
    assert(run.statements.take(run.succeeded as int) =~= run.statements);
}

/// A transaction in which a request fails announces nothing, then or
/// later: the run is over.
pub proof fn lemma_rolled_back_announces_nothing(run: TransactionRunView, later: bool)
    ensures
        run.announces(false) is None,
        run.advanced(false).phase is Finished,
        run.advanced(false).announces(later) is None,
        run.advanced(false).advanced(later) == run.advanced(false),
{
}

/// The tables of some lists and of one more list are those of the lists,
/// together with those of the one.
pub proof fn lemma_union_of_push(lists: Seq<Seq<Seq<char>>>, one: Seq<Seq<char>>)
    ensures
        union_of(lists.push(one)) == union_of(lists).union(one.to_set()),
{
    let all = lists.push(one);
    assert forall|table: Seq<char>| union_of(all).contains(table) implies union_of(lists).union(
        one.to_set(),
    ).contains(table) by {
        let i = choose|i: int| 0 <= i < all.len() && #[trigger] all[i].contains(table);
        if i < lists.len() {
            assert(lists[i].contains(table));
        }
    }
    assert forall|table: Seq<char>|
        union_of(lists).union(one.to_set()).contains(table) implies union_of(all).contains(
        table,
    ) by {
        if union_of(lists).contains(table) {
            let i = choose|i: int| 0 <= i < lists.len() && #[trigger] lists[i].contains(table);
            assert(all[i].contains(table));
        } else {
            assert(all[lists.len() as int].contains(table));
        }
    }
    assert(union_of(all) =~= union_of(lists).union(one.to_set()));
}

} // verus!
