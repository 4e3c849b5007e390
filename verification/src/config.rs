//! What to back up or restore: validated intents, built field by field.

use vstd::prelude::*;
use vstd::string::*;
use crate::destination::{StoreMethod, StoreMethodView};
use crate::error::{Error, ErrorView};
use crate::text::{copy_texts, push_text};

verus! {

/// What to write: tables of one database, to one destination.
#[derive(Debug, Clone, PartialEq, Eq)]
pub struct BackupConfig {
    pub db: String,
    pub tables: Vec<String>,
    pub backup_to: StoreMethod,
    pub options: Vec<String>,
}

/// The mathematical value of a [`BackupConfig`].
pub struct BackupConfigView {
    pub db: Seq<char>,
    pub tables: Seq<Seq<char>>,
    pub backup_to: StoreMethodView,
    pub options: Seq<Seq<char>>,
}

impl View for BackupConfig {
    type V = BackupConfigView;

    open spec fn view(&self) -> BackupConfigView {
        BackupConfigView {
            db: self.db@,
            tables: self.tables.deep_view(),
            backup_to: self.backup_to@,
            options: self.options.deep_view(),
        }
    }
}

impl BackupConfigView {
    /// The database is named and the destination is valid.
    pub open spec fn valid(self) -> bool {
        self.db.len() > 0 && self.backup_to.valid()
    }

    /// What is wrong with the intent, the database first.
    pub open spec fn complaint(self) -> Option<Seq<char>> {
        if self.db.len() == 0 {
            Some("Database name must be specified"@)
        } else {
            self.backup_to.complaint()
        }
    }
}

/// Which part of a table to restore.
#[derive(Debug, Clone, Copy, PartialEq, Eq)]
pub enum RestoreMode {
    /// The table's definition, without its rows.
    StructureOnly,
    /// The rows, into a table that exists and may hold rows already.
    DataOnly,
}

/// What to read back: tables of a database in a backup, from one
/// destination, into the same or another database.
#[derive(Debug, Clone, PartialEq, Eq)]
pub struct RestoreConfig {
    pub restore_from: StoreMethod,
    pub target_db: Option<String>,
    pub source_db: String,
    pub tables: Vec<String>,
    pub options: Vec<String>,
    pub mode: Option<RestoreMode>,
}

/// The mathematical value of a [`RestoreConfig`].
pub struct RestoreConfigView {
    pub restore_from: StoreMethodView,
    pub target_db: Option<Seq<char>>,
    pub source_db: Seq<char>,
    pub tables: Seq<Seq<char>>,
    pub options: Seq<Seq<char>>,
    pub mode: Option<RestoreMode>,
}

impl View for RestoreConfig {
    type V = RestoreConfigView;

    open spec fn view(&self) -> RestoreConfigView {
        RestoreConfigView {
            restore_from: self.restore_from@,
            target_db: self.target_db.deep_view(),
            source_db: self.source_db@,
            tables: self.tables.deep_view(),
            options: self.options.deep_view(),
            mode: self.mode,
        }
    }
}

impl RestoreConfigView {
    /// The source database is named and the destination is valid.
    pub open spec fn valid(self) -> bool {
        self.source_db.len() > 0 && self.restore_from.valid()
    }

    /// What is wrong with the intent, the source database first.
    pub open spec fn complaint(self) -> Option<Seq<char>> {
        if self.source_db.len() == 0 {
            Some("Source database name must be specified"@)
        } else {
            self.restore_from.complaint()
        }
    }

    /// The database that is written to: the one asked for, else the one
    /// the backup was taken from.
    pub open spec fn target(self) -> Seq<char> {
        match self.target_db {
            Some(t) => t,
            None => self.source_db,
        }
    }

    /// The engine options that the mode stands for.
    pub open spec fn mode_options(self) -> Seq<Seq<char>> {
        match self.mode {
            Some(RestoreMode::StructureOnly) => seq!["structure_only=1"@],
            Some(RestoreMode::DataOnly) => seq!["struct_only=0"@, "allow_non_empty_tables=1"@],
            None => Seq::empty(),
        }
    }

    /// The caller's options, then those of the mode.
    pub open spec fn all_options(self) -> Seq<Seq<char>> {
        self.options + self.mode_options()
    }
}

impl BackupConfig {
    /// An intent to back up `db` to `method`, with no table and no option yet.
    pub fn new(method: StoreMethod, db: &str) -> (r: BackupConfig)
        ensures
            r@ == (BackupConfigView {
                db: db@,
                tables: Seq::empty(),
                backup_to: method@,
                options: Seq::empty(),
            }),
    {
        let r = BackupConfig {
            db: String::from_str(db),
            tables: Vec::new(),
            backup_to: method,
            options: Vec::new(),
        };
        assert(r.tables.deep_view() =~= Seq::empty());
        assert(r.options.deep_view() =~= Seq::empty());
        r
    }

    /// The same intent with another destination.
    pub fn store_method(self, method: StoreMethod) -> (r: BackupConfig)
        ensures
            r@ == (BackupConfigView { backup_to: method@, ..self@ }),
    {
        BackupConfig { db: self.db, tables: self.tables, backup_to: method, options: self.options }
    }

    /// The same intent with another list of tables.
    pub fn tables(self, tables: Vec<String>) -> (r: BackupConfig)
        ensures
            r@ == (BackupConfigView { tables: tables.deep_view(), ..self@ }),
    {
        BackupConfig { db: self.db, tables, backup_to: self.backup_to, options: self.options }
    }

    /// The same intent for another database.
    pub fn db(self, db: &str) -> (r: BackupConfig)
        ensures
            r@ == (BackupConfigView { db: db@, ..self@ }),
    {
        BackupConfig {
            db: String::from_str(db),
            tables: self.tables,
            backup_to: self.backup_to,
            options: self.options,
        }
    }

    /// The same intent with one more table, after those it has.
    pub fn add_table(self, table: &str) -> (r: BackupConfig)
        ensures
            r@ == (BackupConfigView { tables: self@.tables.push(table@), ..self@ }),
    {
        let mut tables = self.tables;
        tables.push(String::from_str(table));
        assert(tables.deep_view() =~= self@.tables.push(table@));
        BackupConfig { db: self.db, tables, backup_to: self.backup_to, options: self.options }
    }

    /// Checks that the database is named and the destination valid, and
    /// says what is wrong otherwise.
    pub fn validate(&self) -> (r: Result<(), Error>)
        ensures
            r is Ok <==> self@.valid(),
            match self@.complaint() {
                Some(m) => r matches Err(e) && e@ == ErrorView::InvalidInput(m),
                None => r is Ok,
            },
    {
        if self.db.as_str().is_empty() {
            return Err(Error::invalid("Database name must be specified"));
        }
        self.backup_to.validate()
    }

    /// The same intent with another list of engine options.
    pub fn options(self, options: Vec<String>) -> (r: BackupConfig)
        ensures
            r@ == (BackupConfigView { options: options.deep_view(), ..self@ }),
    {
        BackupConfig { db: self.db, tables: self.tables, backup_to: self.backup_to, options }
    }

    /// The same intent with one more engine option, after those it has.
    pub fn add_option(self, option: &str) -> (r: BackupConfig)
        ensures
            r@ == (BackupConfigView { options: self@.options.push(option@), ..self@ }),
    {
        let mut options = self.options;
        options.push(String::from_str(option));
        assert(options.deep_view() =~= self@.options.push(option@));
        BackupConfig { db: self.db, tables: self.tables, backup_to: self.backup_to, options }
    }
}

impl RestoreConfig {
    /// An intent to restore from the backup of `src_db` at `method`, into a
    /// database of the same name, with no table, option or mode yet.
    pub fn new(method: StoreMethod, src_db: &str) -> (r: RestoreConfig)
        ensures
            r@ == (RestoreConfigView {
                restore_from: method@,
                target_db: None,
                source_db: src_db@,
                tables: Seq::empty(),
                options: Seq::empty(),
                mode: None,
            }),
    {
        let r = RestoreConfig {
            restore_from: method,
            target_db: None,
            source_db: String::from_str(src_db),
            tables: Vec::new(),
            options: Vec::new(),
            mode: None,
        };
        assert(r.tables.deep_view() =~= Seq::empty());
        assert(r.options.deep_view() =~= Seq::empty());
        r
    }

    /// The same intent with another destination.
    pub fn store_method(self, method: StoreMethod) -> (r: RestoreConfig)
        ensures
            r@ == (RestoreConfigView { restore_from: method@, ..self@ }),
    {
        RestoreConfig {
            restore_from: method,
            target_db: self.target_db,
            source_db: self.source_db,
            tables: self.tables,
            options: self.options,
            mode: self.mode,
        }
    }

    /// The same intent writing to `db`, or, with `None`, to a database
    /// named like the source.
    pub fn target_db(self, db: Option<&str>) -> (r: RestoreConfig)
        ensures
            r@ == (RestoreConfigView {
                target_db: match db {
                    Some(d) => Some(d@),
                    None => None,
                },
                ..self@
            }),
    {
        let target_db = match db {
            Some(d) => Some(String::from_str(d)),
            None => None,
        };
        RestoreConfig {
            restore_from: self.restore_from,
            target_db,
            source_db: self.source_db,
            tables: self.tables,
            options: self.options,
            mode: self.mode,
        }
    }

    /// The same intent reading the backup of another database.
    pub fn source_db(self, db: &str) -> (r: RestoreConfig)
        ensures
            r@ == (RestoreConfigView { source_db: db@, ..self@ }),
    {
        RestoreConfig {
            restore_from: self.restore_from,
            target_db: self.target_db,
            source_db: String::from_str(db),
            tables: self.tables,
            options: self.options,
            mode: self.mode,
        }
    }

    /// The same intent with another list of tables.
    pub fn tables(self, tables: Vec<String>) -> (r: RestoreConfig)
        ensures
            r@ == (RestoreConfigView { tables: tables.deep_view(), ..self@ }),
    {
        RestoreConfig {
            restore_from: self.restore_from,
            target_db: self.target_db,
            source_db: self.source_db,
            tables,
            options: self.options,
            mode: self.mode,
        }
    }

    /// The same intent with one more table, after those it has.
    pub fn add_table(self, table: &str) -> (r: RestoreConfig)
        ensures
            r@ == (RestoreConfigView { tables: self@.tables.push(table@), ..self@ }),
    {
        let mut tables = self.tables;
        tables.push(String::from_str(table));
        assert(tables.deep_view() =~= self@.tables.push(table@));
        RestoreConfig {
            restore_from: self.restore_from,
            target_db: self.target_db,
            source_db: self.source_db,
            tables,
            options: self.options,
            mode: self.mode,
        }
    }

    /// The same intent with another list of engine options.
    pub fn options(self, options: Vec<String>) -> (r: RestoreConfig)
        ensures
            r@ == (RestoreConfigView { options: options.deep_view(), ..self@ }),
    {
        RestoreConfig {
            restore_from: self.restore_from,
            target_db: self.target_db,
            source_db: self.source_db,
            tables: self.tables,
            options,
            mode: self.mode,
        }
    }

    /// The same intent with one more engine option, after those it has.
    pub fn add_option(self, option: &str) -> (r: RestoreConfig)
        ensures
            r@ == (RestoreConfigView { options: self@.options.push(option@), ..self@ }),
    {
        let mut options = self.options;
        options.push(String::from_str(option));
        assert(options.deep_view() =~= self@.options.push(option@));
        RestoreConfig {
            restore_from: self.restore_from,
            target_db: self.target_db,
            source_db: self.source_db,
            tables: self.tables,
            options,
            mode: self.mode,
        }
    }

    /// The same intent restricted to one part of each table.
    pub fn mode(self, mode: RestoreMode) -> (r: RestoreConfig)
        ensures
            r@ == (RestoreConfigView { mode: Some(mode), ..self@ }),
    {
        RestoreConfig {
            restore_from: self.restore_from,
            target_db: self.target_db,
            source_db: self.source_db,
            tables: self.tables,
            options: self.options,
            mode: Some(mode),
        }
    }

    /// Checks that the source database is named and the destination valid,
    /// and says what is wrong otherwise.
    pub fn validate(&self) -> (r: Result<(), Error>)
        ensures
            r is Ok <==> self@.valid(),
            match self@.complaint() {
                Some(m) => r matches Err(e) && e@ == ErrorView::InvalidInput(m),
                None => r is Ok,
            },
    {
        if self.source_db.as_str().is_empty() {
            return Err(Error::invalid("Source database name must be specified"));
        }
        self.restore_from.validate()
    }

    /// The database that is written to: the one asked for, else the one
    /// the backup was taken from.
    pub fn effective_target(&self) -> (r: String)
        ensures
            r@ == self@.target(),
            self@.target_db is None ==> r@ == self@.source_db,
            self@.target_db matches Some(t) ==> r@ == t,
    {
        match &self.target_db {
            Some(t) => t.clone(),
            None => self.source_db.clone(),
        }
    }

    /// The engine options in force: the caller's own, then those that the
    /// mode adds.
    pub fn effective_options(&self) -> (r: Vec<String>)
        ensures
            r.deep_view() == self@.all_options(),
    {
        let mut out = copy_texts(&self.options);
        match self.mode {
            Some(RestoreMode::StructureOnly) => {
                push_text(&mut out, String::from_str("structure_only=1"));
            },
            Some(RestoreMode::DataOnly) => {
                push_text(&mut out, String::from_str("struct_only=0"));
                push_text(&mut out, String::from_str("allow_non_empty_tables=1"));
            },
            None => {},
        }
        assert(out.deep_view() =~= self@.all_options());
        out
    }
}

} // verus!
