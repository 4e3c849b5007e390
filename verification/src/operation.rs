//! A backup or a restore in progress: what to ask the engine next, given
//! what it answered last.
//!
//! An operation never talks to the engine itself. It hands out one
//! [`Request`] at a time; the caller carries it out and hands back the
//! [`Reply`]. Requests are issued strictly one after the other, and the first
//! failure ends the operation.

use vstd::prelude::*;
use vstd::string::*;
use crate::config::{BackupConfig, BackupConfigView, RestoreConfig, RestoreConfigView};
use crate::error::{Error, ErrorView};
use crate::plan::{backup_plan, backup_statements, restore_plan, restore_statements};
use crate::statement::{Statement, StatementView};
use crate::text::{contains_text, copy_texts, find_absent, first_absent, has_text, push_text};

verus! {

/// Where an operation stands.
#[derive(Debug, Clone, Copy, PartialEq, Eq)]
pub enum Phase {
    /// The list of databases was asked for.
    Databases,
    /// The list of tables of the database was asked for.
    Tables,
    /// The tables found in the backup were asked for.
    Discovery,
    /// A command for one table is with the engine.
    Issuing,
    /// Nothing more will be asked.
    Closed,
}

/// What the engine answered.
#[derive(Debug, Clone, PartialEq, Eq)]
pub enum Reply {
    /// The rows of a listing.
    Names(Vec<String>),
    /// The operation id that a command returned.
    Id(String),
    /// The request failed; the text is what the engine or the connection said.
    Failure(String),
}

/// The mathematical value of a [`Reply`].
pub enum ReplyView {
    Names(Seq<Seq<char>>),
    Id(Seq<char>),
    Failure(Seq<char>),
}

impl View for Reply {
    type V = ReplyView;

    open spec fn view(&self) -> ReplyView {
        match self {
            Reply::Names(n) => ReplyView::Names(n.deep_view()),
            Reply::Id(i) => ReplyView::Id(i@),
            Reply::Failure(m) => ReplyView::Failure(m@),
        }
    }
}

/// What the caller is to do next.
#[derive(Debug, Clone, PartialEq, Eq)]
pub enum Request {
    /// List the databases and reply with their names.
    ListDatabases,
    /// List the tables of this database and reply with their names.
    ListTables(String),
    /// Run the query and reply with all its rows.
    FetchAll(Statement),
    /// Run the command and reply with the one id it returns.
    FetchOne(Statement),
    /// The operation is complete: these are the operation ids, one per
    /// table, in the order of the tables.
    Done(Vec<String>),
    /// The operation has failed; nothing that was collected is returned.
    Failed(Error),
}

/// The mathematical value of a [`Request`].
pub enum RequestView {
    ListDatabases,
    ListTables(Seq<char>),
    FetchAll(StatementView),
    FetchOne(StatementView),
    Done(Seq<Seq<char>>),
    Failed(ErrorView),
}

impl View for Request {
    type V = RequestView;

    open spec fn view(&self) -> RequestView {
        match self {
            Request::ListDatabases => RequestView::ListDatabases,
            Request::ListTables(d) => RequestView::ListTables(d@),
            Request::FetchAll(s) => RequestView::FetchAll(s@),
            Request::FetchOne(s) => RequestView::FetchOne(s@),
            Request::Done(ids) => RequestView::Done(ids.deep_view()),
            Request::Failed(e) => RequestView::Failed(e@),
        }
    }
}

/// A backup or a restore in progress.
#[derive(Debug, Clone, PartialEq, Eq)]
pub struct Operation {
    pub phase: Phase,
    pub database: String,
    pub tables: Vec<String>,
    pub statements: Vec<Statement>,
    pub ids: Vec<String>,
}

/// The mathematical value of an [`Operation`].
pub struct OperationView {
    pub phase: Phase,
    /// The database whose existence is checked, or that is written to.
    pub database: Seq<char>,
    /// The tables asked for.
    pub tables: Seq<Seq<char>>,
    /// The command of each table.
    pub statements: Seq<StatementView>,
    /// The operation ids collected so far.
    pub ids: Seq<Seq<char>>,
}

impl View for Operation {
    type V = OperationView;

    open spec fn view(&self) -> OperationView {
        OperationView {
            phase: self.phase,
            database: self.database@,
            tables: self.tables.deep_view(),
            statements: self.statements.deep_view(),
            ids: self.ids.deep_view(),
        }
    }
}

/// The complaint about a database that does not exist.
pub open spec fn no_such_database(database: Seq<char>) -> Seq<char> {
    "Database '"@ + database + "' does not exist"@
}

/// The complaint about a table that the database does not have.
pub open spec fn no_such_table(table: Seq<char>, database: Seq<char>) -> Seq<char> {
    "Table '"@ + table + "' does not exist in database '"@ + database + "'"@
}

/// The complaint about a table that the backup does not hold.
pub open spec fn not_in_backup(table: Seq<char>) -> Seq<char> {
    "Table '"@ + table + "' not found in backup source"@
}

/// The complaint about a backup in which no table is found.
pub open spec fn nothing_to_restore() -> Seq<char> {
    "No tables found in the backup source"@
}

/// The complaint about a reply that answers no request.
pub open spec fn out_of_turn() -> Seq<char> {
    "Unexpected reply from the engine"@
}

impl OperationView {
    /// There is one command per table, no more ids than commands, and a
    /// command is with the engine only while one is still due.
    pub open spec fn wf(self) -> bool {
        &&& self.statements.len() == self.tables.len()
        &&& self.ids.len() <= self.statements.len()
        &&& self.phase == Phase::Issuing ==> self.ids.len() < self.statements.len()
    }

    /// An operation that was refused before it began.
    pub open spec fn refused() -> OperationView {
        OperationView {
            phase: Phase::Closed,
            database: Seq::empty(),
            tables: Seq::empty(),
            statements: Seq::empty(),
            ids: Seq::empty(),
        }
    }

    /// The operation ends with a failure.
    pub open spec fn fail(self, e: ErrorView) -> (OperationView, RequestView) {
        (OperationView { phase: Phase::Closed, ..self }, RequestView::Failed(e))
    }

    /// The checks are passed: issue the first command, or finish at once
    /// where there is no table.
    pub open spec fn issue_next(self) -> (OperationView, RequestView) {
        if self.ids.len() < self.statements.len() {
            (
                OperationView { phase: Phase::Issuing, ..self },
                RequestView::FetchOne(self.statements[self.ids.len() as int]),
            )
        } else {
            (OperationView { phase: Phase::Closed, ..self }, RequestView::Done(self.ids))
        }
    }

    /// The state after `reply`, and what to do next.
    pub open spec fn next(self, reply: ReplyView) -> (OperationView, RequestView) {
        match (self.phase, reply) {
            (Phase::Closed, _) => self.fail(ErrorView::ClickhouseError(out_of_turn())),
            (_, ReplyView::Failure(m)) => self.fail(ErrorView::ClickhouseError(m)),
            (Phase::Databases, ReplyView::Names(databases)) => if has_text(
                databases,
                self.database,
            ) {
                (
                    OperationView { phase: Phase::Tables, ..self },
                    RequestView::ListTables(self.database),
                )
            } else {
                self.fail(ErrorView::InvalidInput(no_such_database(self.database)))
            },
            (Phase::Tables, ReplyView::Names(tables)) => match first_absent(self.tables, tables) {
                Some(t) => self.fail(ErrorView::InvalidInput(no_such_table(t, self.database))),
                None => self.issue_next(),
            },
            (Phase::Discovery, ReplyView::Names(found)) => if found.len() == 0
                || self.tables.len() == 0 {
                self.fail(ErrorView::InvalidInput(nothing_to_restore()))
            } else {
                match first_absent(self.tables, found) {
                    Some(t) => self.fail(ErrorView::InvalidInput(not_in_backup(t))),
                    None => self.issue_next(),
                }
            },
            (Phase::Issuing, ReplyView::Id(id)) => (OperationView {
                ids: self.ids.push(id),
                ..self
            }).issue_next(),
            _ => self.fail(ErrorView::ClickhouseError(out_of_turn())),
        }
    }

    /// The state after each of `replies` in turn.
    pub open spec fn run(self, replies: Seq<ReplyView>) -> OperationView
        decreases replies.len(),
    {
        if replies.len() == 0 {
            self
        } else {
            self.run(replies.drop_last()).next(replies.last()).0
        }
    }

    /// How a backup begins: refused where the intent is invalid, else by
    /// asking for the databases.
    pub open spec fn begin_backup(c: BackupConfigView) -> (OperationView, RequestView) {
        match c.complaint() {
            Some(m) => (Self::refused(), RequestView::Failed(ErrorView::InvalidInput(m))),
            None => (
                OperationView {
                    phase: Phase::Databases,
                    database: c.db,
                    tables: c.tables,
                    statements: backup_statements(c),
                    ids: Seq::empty(),
                },
                RequestView::ListDatabases,
            ),
        }
    }

    /// How a restore begins: refused where the intent is invalid, else by
    /// asking which tables the backup holds for the database written to.
    pub open spec fn begin_restore(c: RestoreConfigView) -> (OperationView, RequestView) {
        match c.complaint() {
            Some(m) => (Self::refused(), RequestView::Failed(ErrorView::InvalidInput(m))),
            None => (
                OperationView {
                    phase: Phase::Discovery,
                    database: c.target(),
                    tables: c.tables,
                    statements: restore_statements(c),
                    ids: Seq::empty(),
                },
                RequestView::FetchAll(c.restore_from.discovery(c.target())),
            ),
        }
    }
}

/// A restore whose backup holds no table fails as invalid input, whatever
/// was asked for.
pub proof fn lemma_empty_discovery_fails(op: OperationView)
    requires
        op.phase == Phase::Discovery,
    ensures
        op.next(ReplyView::Names(Seq::empty())).1 == RequestView::Failed(
            ErrorView::InvalidInput(nothing_to_restore()),
        ),
        op.next(ReplyView::Names(Seq::empty())).0.phase == Phase::Closed,
{
}

/// The first failure ends an operation: the failure is handed on as it
/// came, no id is returned, and every later reply is refused.
pub proof fn lemma_fail_fast(op: OperationView, message: Seq<char>, later: ReplyView)
    requires
        op.phase != Phase::Closed,
    ensures
        op.next(ReplyView::Failure(message)).1 == RequestView::Failed(
            ErrorView::ClickhouseError(message),
        ),
        op.next(ReplyView::Failure(message)).0.phase == Phase::Closed,
        op.next(ReplyView::Failure(message)).0.next(later).1 is Failed,
        op.next(ReplyView::Failure(message)).0.next(later).0.phase == Phase::Closed,
{
}

/// A step keeps an operation well formed, and an operation is done
/// exactly with one id per table, in the order in which they came.
pub proof fn lemma_next_keeps_wf(op: OperationView, reply: ReplyView)
    requires
        op.wf(),
    ensures
        op.next(reply).0.wf(),
        op.next(reply).0.statements == op.statements,
        op.next(reply).0.tables == op.tables,
        op.next(reply).1 matches RequestView::Done(ids) ==> ids.len() == op.tables.len() && ids
            == op.next(reply).0.ids,
        op.next(reply).1 matches RequestView::FetchOne(s) ==> s == op.statements[op.next(
            reply,
        ).0.ids.len() as int],
{
}

/// The replies of an engine that answers each command with the next of `ids`.
pub open spec fn id_replies(ids: Seq<Seq<char>>) -> Seq<ReplyView> {
    Seq::new(ids.len(), |i: int| ReplyView::Id(ids[i]))
}

/// While commands are issued, each id that comes back is kept in the order
/// in which it came, the command of the next table follows it, and the id of
/// the last table completes the operation with all of them.
pub proof fn lemma_ids_in_order(op: OperationView, ids: Seq<Seq<char>>)
    requires
        op.wf(),
        op.phase == Phase::Issuing,
        op.ids.len() == 0,
        0 < ids.len() <= op.statements.len(),
    ensures
        ({
            let before = op.run(id_replies(ids.drop_last()));
            let (after, request) = before.next(ReplyView::Id(ids.last()));
            &&& before.phase == Phase::Issuing
            &&& before.ids == ids.drop_last()
            &&& after.ids == ids
            &&& after.statements == op.statements
            &&& after.wf()
            &&& after == op.run(id_replies(ids))
            &&& ids.len() < op.statements.len() ==> after.phase == Phase::Issuing && request
                == RequestView::FetchOne(op.statements[ids.len() as int])
            &&& ids.len() == op.statements.len() ==> after.phase == Phase::Closed && request
                == RequestView::Done(ids)
        }),
    decreases ids.len(),
{
    let shorter = ids.drop_last();
    assert(id_replies(ids).drop_last() =~= id_replies(shorter));
    assert(id_replies(ids).last() == ReplyView::Id(ids.last()));
    if ids.len() == 1 {
        assert(op.run(id_replies(shorter)) == op);
        assert(op.ids =~= shorter);
        assert(op.ids.push(ids.last()) =~= ids);
    } else {
        lemma_ids_in_order(op, shorter);
        assert(shorter.push(ids.last()) =~= ids);
    }
}

/// A backup without tables asks for the databases and for the tables of
/// its database, and is then done with no id and without a command.
pub proof fn lemma_no_table_no_command(
    c: BackupConfigView,
    databases: Seq<Seq<char>>,
    tables: Seq<Seq<char>>,
)
    requires
        c.valid(),
        c.tables.len() == 0,
        has_text(databases, c.db),
    ensures
        ({
            let (begun, first) = OperationView::begin_backup(c);
            let (checked, second) = begun.next(ReplyView::Names(databases));
            let (ended, third) = checked.next(ReplyView::Names(tables));
            &&& first == RequestView::ListDatabases
            &&& second == RequestView::ListTables(c.db)
            &&& third == RequestView::Done(Seq::empty())
            &&& ended.phase == Phase::Closed
        }),
{
    crate::destination::lemma_complaint_iff_field_empty(c.backup_to);
}

/// The message of an error about a quoted name: `head`, the name, `tail`.
fn quoted(head: &str, name: &str, tail: &str) -> (r: String)
    ensures
        r@ == head@ + name@ + tail@,
{
    let mut out = String::from_str(head);
    out.append(name);
    out.append(tail);
    out
}

impl Operation {
    /// An operation that was refused before it began.
    fn refused() -> (r: Operation)
        ensures
            r@ == OperationView::refused(),
    {
        let r = Operation {
            phase: Phase::Closed,
            database: String::new(),
            tables: Vec::new(),
            statements: Vec::new(),
            ids: Vec::new(),
        };
        assert(r.tables.deep_view() =~= Seq::empty());
        assert(r.statements.deep_view() =~= Seq::empty());
        assert(r.ids.deep_view() =~= Seq::empty());
        r
    }

    /// Begins a backup. An invalid intent is refused at once, before
    /// anything is asked of the engine; else the databases are asked for.
    pub fn backup(cfg: BackupConfig) -> (r: (Operation, Request))
        ensures
            (r.0@, r.1@) == OperationView::begin_backup(cfg@),
            r.0@.wf(),
    {
        match cfg.validate() {
            Err(e) => (Operation::refused(), Request::Failed(e)),
            Ok(_) => {
                let statements = backup_plan(&cfg);
                let op = Operation {
                    phase: Phase::Databases,
                    database: cfg.db,
                    tables: cfg.tables,
                    statements,
                    ids: Vec::new(),
                };
                assert(op.ids.deep_view() =~= Seq::empty());
                (op, Request::ListDatabases)
            },
        }
    }

    /// Begins a restore. An invalid intent is refused at once, before
    /// anything is asked of the engine; else the tables that the backup
    /// holds are asked for.
    pub fn restore(cfg: RestoreConfig) -> (r: (Operation, Request))
        ensures
            (r.0@, r.1@) == OperationView::begin_restore(cfg@),
            r.0@.wf(),
    {
        match cfg.validate() {
            Err(e) => (Operation::refused(), Request::Failed(e)),
            Ok(_) => {
                let statements = restore_plan(&cfg);
                let target = cfg.effective_target();
                let query = cfg.restore_from.discover_table_names(target.as_str());
                let op = Operation {
                    phase: Phase::Discovery,
                    database: target,
                    tables: cfg.tables,
                    statements,
                    ids: Vec::new(),
                };
                assert(op.ids.deep_view() =~= Seq::empty());
                (op, Request::FetchAll(query))
            },
        }
    }

    /// Whether nothing more will be asked.
    pub fn is_closed(&self) -> (r: bool)
        ensures
            r == (self@.phase == Phase::Closed),
    {
        match self.phase {
            Phase::Closed => true,
            _ => false,
        }
    }

    /// Ends the operation with a failure.
    fn fail(&mut self, e: Error) -> (r: Request)
        ensures
            (final(self)@, r@) == old(self)@.fail(e@),
    {
        self.phase = Phase::Closed;
        Request::Failed(e)
    }

    /// Issues the command of the next table, or finishes where every
    /// table has its id.
    fn issue_next(&mut self) -> (r: Request)
        ensures
            (final(self)@, r@) == old(self)@.issue_next(),
    {
        let done = self.ids.len();
        if done < self.statements.len() {
            self.phase = Phase::Issuing;
            Request::FetchOne(self.statements[done].duplicate())
        } else {
            self.phase = Phase::Closed;
            Request::Done(copy_texts(&self.ids))
        }
    }

    /// Takes the engine's reply to the last request and says what to do next.
    pub fn step(&mut self, reply: Reply) -> (r: Request)
        ensures
            (final(self)@, r@) == old(self)@.next(reply@),
            old(self)@.wf() ==> final(self)@.wf(),
    {
        match self.phase {
            Phase::Closed => {
                self.fail(Error::ClickhouseError(String::from_str("Unexpected reply from the engine")))
            },
            Phase::Databases => match reply {
                Reply::Failure(m) => self.fail(Error::ClickhouseError(m)),
                Reply::Names(databases) => {
                    if contains_text(&databases, self.database.as_str()) {
                        self.phase = Phase::Tables;
                        Request::ListTables(self.database.clone())
                    } else {
                        let m = quoted("Database '", self.database.as_str(), "' does not exist");
                        self.fail(Error::InvalidInput(m))
                    }
                },
                Reply::Id(_) => self.fail(
                    Error::ClickhouseError(String::from_str("Unexpected reply from the engine")),
                ),
            },
            Phase::Tables => match reply {
                Reply::Failure(m) => self.fail(Error::ClickhouseError(m)),
                Reply::Names(tables) => match find_absent(&self.tables, &tables) {
                    Some(t) => {
                        let mut m = quoted("Table '", t.as_str(), "' does not exist in database '");
                        m.append(self.database.as_str());
                        m.append("'");
                        self.fail(Error::InvalidInput(m))
                    },
                    None => self.issue_next(),
                },
                Reply::Id(_) => self.fail(
                    Error::ClickhouseError(String::from_str("Unexpected reply from the engine")),
                ),
            },
            Phase::Discovery => match reply {
                Reply::Failure(m) => self.fail(Error::ClickhouseError(m)),
                Reply::Names(found) => {
                    if found.len() == 0 || self.tables.len() == 0 {
                        self.fail(Error::invalid("No tables found in the backup source"))
                    } else {
                        match find_absent(&self.tables, &found) {
                            Some(t) => {
                                let m = quoted("Table '", t.as_str(), "' not found in backup source");
                                self.fail(Error::InvalidInput(m))
                            },
                            None => self.issue_next(),
                        }
                    }
                },
                Reply::Id(_) => self.fail(
                    Error::ClickhouseError(String::from_str("Unexpected reply from the engine")),
                ),
            },
            Phase::Issuing => match reply {
                Reply::Failure(m) => self.fail(Error::ClickhouseError(m)),
                Reply::Id(id) => {
                    push_text(&mut self.ids, id);
                    self.issue_next()
                },
                Reply::Names(_) => self.fail(
                    Error::ClickhouseError(String::from_str("Unexpected reply from the engine")),
                ),
            },
        }
    }
}

} // verus!
