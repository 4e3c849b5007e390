//! The commands of a backup and of a restore: one per table, in the
//! order of the tables.

use vstd::prelude::*;
use vstd::string::*;
use crate::config::{BackupConfig, BackupConfigView, RestoreConfig, RestoreConfigView};
use crate::statement::{Statement, StatementView};
use crate::text::{join_spaced, join_with_spaces};

verus! {

/// The settings at the end of a command: nothing without options, else
/// the keyword and the options, separated by single spaces, no commas.
pub open spec fn settings_suffix(options: Seq<Seq<char>>) -> Seq<char> {
    if options.len() > 0 {
        " SETTINGS "@ + join_spaced(options)
    } else {
        Seq::empty()
    }
}

/// The text of the command that writes one table. It always asks the
/// engine to answer at once with an operation id.
pub open spec fn backup_text(c: BackupConfigView) -> Seq<char> {
    "BACKUP TABLE ?.? TO "@ + c.backup_to.clause() + " ASYNC"@ + settings_suffix(c.options)
}

/// The command that writes `table`: database and table first, then the
/// values of the destination.
pub open spec fn backup_statement(c: BackupConfigView, table: Seq<char>) -> StatementView {
    StatementView {
        text: backup_text(c),
        params: seq![c.db, table] + c.backup_to.backup_params(c.db, table),
    }
}

/// One command for each table, in the order of the tables.
pub open spec fn backup_statements(c: BackupConfigView) -> Seq<StatementView> {
    Seq::new(c.tables.len(), |i: int| backup_statement(c, c.tables[i]))
}

/// The text of the command that reads one table back.
pub open spec fn restore_text(c: RestoreConfigView) -> Seq<char> {
    "RESTORE TABLE ?.? FROM "@ + c.restore_from.clause() + " ASYNC"@ + settings_suffix(
        c.all_options(),
    )
}

/// The command that reads `table` back: the database written to and the
/// table first, then the values of the destination, which point below the
/// database the backup was taken from.
pub open spec fn restore_statement(c: RestoreConfigView, table: Seq<char>) -> StatementView {
    StatementView {
        text: restore_text(c),
        params: seq![c.target(), table] + c.restore_from.restore_params(c.source_db, table),
    }
}

/// One command for each table, in the order of the tables.
pub open spec fn restore_statements(c: RestoreConfigView) -> Seq<StatementView> {
    Seq::new(c.tables.len(), |i: int| restore_statement(c, c.tables[i]))
}

/// A restore writes to the source database unless another is named, and
/// reads from below the source database either way.
pub proof fn lemma_restore_target(c: RestoreConfigView, table: Seq<char>)
    ensures
        c.target_db is None ==> c.target() == c.source_db,
        c.target_db matches Some(t) ==> c.target() == t,
        restore_statement(c, table).params[0] == c.target(),
        restore_statement(c, table).params[1] == table,
        restore_statement(c, table).params.skip(2) == c.restore_from.restore_params(
            c.source_db,
            table,
        ),
        restore_statement(c, table).params.len() == 2 + c.restore_from.arity(),
{
    assert(restore_statement(c, table).params.skip(2) =~= c.restore_from.restore_params(
        c.source_db,
        table,
    ));
}

/// The options of the mode come after the caller's own and replace none.
pub proof fn lemma_mode_options_are_added(c: RestoreConfigView)
    ensures
        c.all_options().len() == c.options.len() + c.mode_options().len(),
        c.all_options().subrange(0, c.options.len() as int) == c.options,
        c.all_options().skip(c.options.len() as int) == c.mode_options(),
{
    assert(c.all_options().subrange(0, c.options.len() as int) =~= c.options);
    assert(c.all_options().skip(c.options.len() as int) =~= c.mode_options());
}

/// The settings at the end of a command with these options.
pub fn render_settings(options: &Vec<String>) -> (r: String)
    ensures
        r@ == settings_suffix(options.deep_view()),
{
    if options.len() > 0 {
        let joined = join_with_spaces(options);
        String::from_str(" SETTINGS ").concat(joined.as_str())
    } else {
        String::new()
    }
}

/// The text of the command that writes one table.
pub fn backup_command(cfg: &BackupConfig) -> (r: String)
    ensures
        r@ == backup_text(cfg@),
{
    let mut out = String::from_str("BACKUP TABLE ?.? TO ");
    out.append(cfg.backup_to.render_clause().as_str());
    out.append(" ASYNC");
    out.append(render_settings(&cfg.options).as_str());
    out
}

/// One command for each table of the intent, in the order of the tables.
pub fn backup_plan(cfg: &BackupConfig) -> (r: Vec<Statement>)
    ensures
        r.deep_view() == backup_statements(cfg@),
{
    let text = backup_command(cfg);
    let mut out: Vec<Statement> = Vec::new();
    let mut i: usize = 0;
    while i < cfg.tables.len()
        invariant
            i <= cfg.tables.len(),
            text@ == backup_text(cfg@),
            out.len() == i,
            forall|j: int| 0 <= j < i ==> (#[trigger] out[j])@ == backup_statement(
                cfg@,
                cfg.tables[j]@,
            ),
        decreases cfg.tables.len() - i,
    {
        let table = cfg.tables[i].as_str();
        let values = cfg.backup_to.bind_parameters(cfg.db.as_str(), table);
        out.push(Statement::bound(text.as_str(), cfg.db.as_str(), table, &values));
        i = i + 1;
    }
    assert(out.deep_view() =~= backup_statements(cfg@)) by {
        assert forall|j: int| 0 <= j < out.len() implies out.deep_view()[j] == backup_statements(
            cfg@,
        )[j] by {
            assert(out[j]@ == backup_statement(cfg@, cfg.tables[j]@));
            assert(cfg@.tables[j] == cfg.tables[j]@);
        }
    }
    out
}

/// The text of the command that reads one table back.
pub fn restore_command(cfg: &RestoreConfig) -> (r: String)
    ensures
        r@ == restore_text(cfg@),
{
    let mut out = String::from_str("RESTORE TABLE ?.? FROM ");
    out.append(cfg.restore_from.render_clause().as_str());
    out.append(" ASYNC");
    out.append(render_settings(&cfg.effective_options()).as_str());
    out
}

/// One command for each table of the intent, in the order of the tables.
pub fn restore_plan(cfg: &RestoreConfig) -> (r: Vec<Statement>)
    ensures
        r.deep_view() == restore_statements(cfg@),
{
    let text = restore_command(cfg);
    let target = cfg.effective_target();
    let mut out: Vec<Statement> = Vec::new();
    let mut i: usize = 0;
    while i < cfg.tables.len()
        invariant
            i <= cfg.tables.len(),
            text@ == restore_text(cfg@),
            target@ == cfg@.target(),
            out.len() == i,
            forall|j: int| 0 <= j < i ==> (#[trigger] out[j])@ == restore_statement(
                cfg@,
                cfg.tables[j]@,
            ),
        decreases cfg.tables.len() - i,
    {
        let table = cfg.tables[i].as_str();
        let values = cfg.restore_from.restore_parameters(cfg.source_db.as_str(), table);
        out.push(Statement::bound(text.as_str(), target.as_str(), table, &values));
        i = i + 1;
    }
    assert(out.deep_view() =~= restore_statements(cfg@)) by {
        assert forall|j: int| 0 <= j < out.len() implies out.deep_view()[j] == restore_statements(
            cfg@,
        )[j] by {
            assert(out[j]@ == restore_statement(cfg@, cfg.tables[j]@));
            assert(cfg@.tables[j] == cfg.tables[j]@);
        }
    }
    out
}

} // verus!
