//! Storage destinations: where a backup is written to or read from.

use vstd::prelude::*;
use vstd::string::*;
use crate::error::{Error, ErrorView};
use crate::statement::{Statement, StatementView};
use crate::text::{join_path, sep, table_path, trim_end, trim_end_separators, trim_start,
    trim_start_separators};

verus! {

/// A storage backend.
#[derive(Debug, Clone, PartialEq, Eq)]
pub enum StoreMethod {
    /// A bucket of an object store, below an optional prefix.
    S3 { url: String, access_key: String, secret_key: String, prefix_path: Option<String> },
    /// A disk that the engine knows by name, and a path on it.
    Disk { name: String, path: String },
    /// A path on the engine's local file system.
    File(String),
}

/// The mathematical value of a [`StoreMethod`].
pub enum StoreMethodView {
    S3 {
        url: Seq<char>,
        access_key: Seq<char>,
        secret_key: Seq<char>,
        prefix_path: Option<Seq<char>>,
    },
    Disk { name: Seq<char>, path: Seq<char> },
    File(Seq<char>),
}

impl View for StoreMethod {
    type V = StoreMethodView;

    open spec fn view(&self) -> StoreMethodView {
        match self {
            StoreMethod::S3 { url, access_key, secret_key, prefix_path } => StoreMethodView::S3 {
                url: url@,
                access_key: access_key@,
                secret_key: secret_key@,
                prefix_path: match prefix_path {
                    Some(p) => Some(p@),
                    None => None,
                },
            },
            StoreMethod::Disk { name, path } => StoreMethodView::Disk { name: name@, path: path@ },
            StoreMethod::File(path) => StoreMethodView::File(path@),
        }
    }
}

impl StoreMethodView {
    /// Every required field is non-empty.
    pub open spec fn valid(self) -> bool {
        match self {
            StoreMethodView::S3 { url, access_key, secret_key, .. } => url.len() > 0
                && access_key.len() > 0 && secret_key.len() > 0,
            StoreMethodView::Disk { name, path } => name.len() > 0 && path.len() > 0,
            StoreMethodView::File(path) => path.len() > 0,
        }
    }

    /// The complaint about the first required field that is empty, in the
    /// order in which the fields are declared.
    pub open spec fn complaint(self) -> Option<Seq<char>> {
        match self {
            StoreMethodView::S3 { url, access_key, secret_key, .. } => if url.len() == 0 {
                Some("S3 URL must be specified"@)
            } else if access_key.len() == 0 {
                Some("S3 Access Key must be specified"@)
            } else if secret_key.len() == 0 {
                Some("S3 Secret Key must be specified"@)
            } else {
                None
            },
            StoreMethodView::Disk { name, path } => if name.len() == 0 {
                Some("Disk name must be specified"@)
            } else if path.len() == 0 {
                Some("Disk path must be specified"@)
            } else {
                None
            },
            StoreMethodView::File(path) => if path.len() == 0 {
                Some("File path must be specified"@)
            } else {
                None
            },
        }
    }

    /// The bucket's address with the prefix below it; only an object store
    /// has one.
    pub open spec fn effective_url(self) -> Option<Seq<char>> {
        match self {
            StoreMethodView::S3 { url, prefix_path, .. } => match prefix_path {
                Some(p) => Some(trim_end(url) + seq![sep()] + trim_start(p)),
                None => Some(url),
            },
            _ => None,
        }
    }

    /// The base below which the tables of a database lie.
    pub open spec fn base(self) -> Seq<char> {
        match self {
            StoreMethodView::S3 { .. } => self.effective_url().unwrap(),
            StoreMethodView::Disk { path, .. } => path,
            StoreMethodView::File(path) => path,
        }
    }

    /// The destination as it stands in a command, one `?` for each value
    /// to bind.
    pub open spec fn clause(self) -> Seq<char> {
        match self {
            StoreMethodView::S3 { .. } => "S3(?, ?, ?)"@,
            StoreMethodView::Disk { .. } => "DISK(?, ?)"@,
            StoreMethodView::File(_) => "FILE(?)"@,
        }
    }

    /// How many values the clause takes.
    pub open spec fn arity(self) -> nat {
        match self {
            StoreMethodView::S3 { .. } => 3,
            StoreMethodView::Disk { .. } => 2,
            StoreMethodView::File(_) => 1,
        }
    }

    /// Two destinations are of the same kind.
    pub open spec fn same_kind(self, other: StoreMethodView) -> bool {
        match self {
            StoreMethodView::S3 { .. } => other is S3,
            StoreMethodView::Disk { .. } => other is Disk,
            StoreMethodView::File(_) => other is File,
        }
    }

    /// The values for the clause when one table is written: an object store
    /// is addressed as a whole, a disk or a local path by the table's own
    /// path below the base.
    pub open spec fn backup_params(self, database: Seq<char>, table: Seq<char>) -> Seq<Seq<char>> {
        match self {
            StoreMethodView::S3 { access_key, secret_key, .. } => seq![
                self.effective_url().unwrap(),
                access_key,
                secret_key,
            ],
            StoreMethodView::Disk { name, path } => seq![name, join_path(path, database, table)],
            StoreMethodView::File(path) => seq![join_path(path, database, table)],
        }
    }

    /// The values for the clause when one table is read back: always the
    /// table's own path below the base and the database it was taken from.
    pub open spec fn restore_params(self, source_database: Seq<char>, table: Seq<char>) -> Seq<
        Seq<char>,
    > {
        match self {
            StoreMethodView::S3 { access_key, secret_key, .. } => seq![
                join_path(self.base(), source_database, table),
                access_key,
                secret_key,
            ],
            StoreMethodView::Disk { name, path } => seq![
                name,
                join_path(path, source_database, table),
            ],
            StoreMethodView::File(path) => seq![join_path(path, source_database, table)],
        }
    }

    /// The pattern that matches the marker file of every table of
    /// `database` below the base.
    pub open spec fn marker_pattern(self, database: Seq<char>) -> Seq<char> {
        trim_end(self.base()) + seq![sep()] + database + "/*/.backup"@
    }

    /// The query that lists the tables found below the destination.
    pub open spec fn discovery(self, database: Seq<char>) -> StatementView {
        let head = "SELECT DISTINCT arrayElement(splitByChar('/', _path), -2) AS table_name FROM "@;
        let tail = "ORDER BY table_name"@;
        match self {
            StoreMethodView::S3 { access_key, secret_key, .. } => StatementView {
                text: head + "s3('?', '?', '?') "@ + tail,
                params: seq![self.marker_pattern(database), access_key, secret_key],
            },
            StoreMethodView::Disk { name, .. } => StatementView {
                text: head + "disk('?', '?') "@ + tail,
                params: seq![name, self.marker_pattern(database)],
            },
            StoreMethodView::File(_) => StatementView {
                text: head + "file('?') "@ + tail,
                params: seq![self.marker_pattern(database)],
            },
        }
    }
}

/// How many placeholders a text holds.
pub open spec fn placeholders(s: Seq<char>) -> nat
    decreases s.len(),
{
    if s.len() == 0 {
        0
    } else if s.last() == '?' {
        placeholders(s.drop_last()) + 1
    } else {
        placeholders(s.drop_last())
    }
}

/// The clause of a destination holds one placeholder for each value
/// that is bound to it.
pub proof fn lemma_clause_placeholders(d: StoreMethodView, database: Seq<char>, table: Seq<char>)
    ensures
        placeholders(d.clause()) == d.arity(),
        placeholders(d.clause()) == d.backup_params(database, table).len(),
        placeholders(d.clause()) == d.restore_params(database, table).len(),
{
    reveal_strlit("S3(?, ?, ?)");
    reveal_strlit("DISK(?, ?)");
    reveal_strlit("FILE(?)");
    reveal_with_fuel(placeholders, 12);
}

/// A destination is refused exactly when one of its required fields is empty.
pub proof fn lemma_complaint_iff_field_empty(d: StoreMethodView)
    ensures
        d.complaint() is Some <==> !d.valid(),
        d matches StoreMethodView::S3 { url, access_key, secret_key, .. } ==> (d.complaint() is Some
            <==> url.len() == 0 || access_key.len() == 0 || secret_key.len() == 0),
        d matches StoreMethodView::Disk { name, path } ==> (d.complaint() is Some <==> name.len()
            == 0 || path.len() == 0),
        d matches StoreMethodView::File(path) ==> (d.complaint() is Some <==> path.len() == 0),
{
}

/// The clause and the number of values bound to it depend on the kind of
/// destination alone, never on what its fields hold.
pub proof fn lemma_clause_by_kind(
    a: StoreMethodView,
    b: StoreMethodView,
    database: Seq<char>,
    table: Seq<char>,
)
    requires
        a.same_kind(b),
    ensures
        a.clause() == b.clause(),
        a.arity() == b.arity(),
        a.backup_params(database, table).len() == a.arity(),
        a.restore_params(database, table).len() == a.arity(),
        a.backup_params(database, table).len() == b.backup_params(database, table).len(),
        a.restore_params(database, table).len() == b.restore_params(database, table).len(),
{
}

impl StoreMethod {
    /// Checks that every required field is non-empty, and names the first
    /// one that is not.
    pub fn validate(&self) -> (r: Result<(), Error>)
        ensures
            r is Ok <==> self@.valid(),
            match self@.complaint() {
                Some(m) => r matches Err(e) && e@ == ErrorView::InvalidInput(m),
                None => r is Ok,
            },
    {
        match self {
            StoreMethod::S3 { url, access_key, secret_key, .. } => {
                if url.as_str().is_empty() {
                    return Err(Error::invalid("S3 URL must be specified"));
                }
                if access_key.as_str().is_empty() {
                    return Err(Error::invalid("S3 Access Key must be specified"));
                }
                if secret_key.as_str().is_empty() {
                    return Err(Error::invalid("S3 Secret Key must be specified"));
                }
            },
            StoreMethod::Disk { name, path } => {
                if name.as_str().is_empty() {
                    return Err(Error::invalid("Disk name must be specified"));
                }
                if path.as_str().is_empty() {
                    return Err(Error::invalid("Disk path must be specified"));
                }
            },
            StoreMethod::File(path) => {
                if path.as_str().is_empty() {
                    return Err(Error::invalid("File path must be specified"));
                }
            },
        }
        Ok(())
    }

    /// The bucket's address with the prefix below it: the address without
    /// trailing separators, one separator, the prefix without leading ones.
    /// `None` for a destination that is no object store.
    pub fn s3_url(&self) -> (r: Option<String>)
        ensures
            r.deep_view() == self@.effective_url(),
    {
        match self {
            StoreMethod::S3 { url, prefix_path, .. } => {
                match prefix_path {
                    Some(prefix) => {
                        proof {
                            reveal_strlit("/");
                        }
                        assert("/"@ == seq![sep()]);
                        let mut out = trim_end_separators(url.as_str());
                        out.append("/");
                        let p = trim_start_separators(prefix.as_str());
                        out.append(p.as_str());
                        Some(out)
                    },
                    None => Some(url.clone()),
                }
            },
            _ => None,
        }
    }

    /// The base below which the tables of a database lie.
    pub fn base_path(&self) -> (r: String)
        ensures
            r@ == self@.base(),
    {
        match self {
            StoreMethod::S3 { .. } => {
                match self.s3_url() {
                    Some(u) => u,
                    None => String::new(),
                }
            },
            StoreMethod::Disk { path, .. } => path.clone(),
            StoreMethod::File(path) => path.clone(),
        }
    }

    /// The destination as it stands in a command.
    pub fn render_clause(&self) -> (r: String)
        ensures
            r@ == self@.clause(),
    {
        match self {
            StoreMethod::S3 { .. } => String::from_str("S3(?, ?, ?)"),
            StoreMethod::Disk { .. } => String::from_str("DISK(?, ?)"),
            StoreMethod::File(_) => String::from_str("FILE(?)"),
        }
    }

    /// The values that fill the clause when `table` of `database` is
    /// written, in the order of its placeholders.
    pub fn bind_parameters(&self, database: &str, table: &str) -> (r: Vec<String>)
        ensures
            r.deep_view() == self@.backup_params(database@, table@),
            r.len() == self@.arity(),
    {
        let mut out: Vec<String> = Vec::new();
        match self {
            StoreMethod::S3 { access_key, secret_key, .. } => {
                out.push(self.base_path());
                out.push(access_key.clone());
                out.push(secret_key.clone());
            },
            StoreMethod::Disk { name, path } => {
                out.push(name.clone());
                out.push(table_path(path.as_str(), database, table));
            },
            StoreMethod::File(path) => {
                out.push(table_path(path.as_str(), database, table));
            },
        }
        assert(out.deep_view() =~= self@.backup_params(database@, table@));
        out
    }

    /// The values that fill the clause when `table` is read back from
    /// below `source_database`, in the order of its placeholders.
    pub fn restore_parameters(&self, source_database: &str, table: &str) -> (r: Vec<String>)
        ensures
            r.deep_view() == self@.restore_params(source_database@, table@),
            r.len() == self@.arity(),
    {
        let mut out: Vec<String> = Vec::new();
        let base = self.base_path();
        match self {
            StoreMethod::S3 { access_key, secret_key, .. } => {
                out.push(table_path(base.as_str(), source_database, table));
                out.push(access_key.clone());
                out.push(secret_key.clone());
            },
            StoreMethod::Disk { name, .. } => {
                out.push(name.clone());
                out.push(table_path(base.as_str(), source_database, table));
            },
            StoreMethod::File(_) => {
                out.push(table_path(base.as_str(), source_database, table));
            },
        }
        assert(out.deep_view() =~= self@.restore_params(source_database@, table@));
        out
    }

    /// The query that lists, in lexicographic order and without repeats,
    /// the tables of `database` found below the destination: the
    /// second-to-last segment of the path of every marker file.
    pub fn discover_table_names(&self, database: &str) -> (r: Statement)
        ensures
            r@ == self@.discovery(database@),
    {
        proof {
            reveal_strlit("/");
        }
        assert("/"@ == seq![sep()]);
        let mut pattern = trim_end_separators(self.base_path().as_str());
        pattern.append("/");
        pattern.append(database);
        pattern.append("/*/.backup");
        let mut text = String::from_str(
            "SELECT DISTINCT arrayElement(splitByChar('/', _path), -2) AS table_name FROM ",
        );
        let mut params: Vec<String> = Vec::new();
        match self {
            StoreMethod::S3 { access_key, secret_key, .. } => {
                text.append("s3('?', '?', '?') ");
                params.push(pattern);
                params.push(access_key.clone());
                params.push(secret_key.clone());
            },
            StoreMethod::Disk { name, .. } => {
                text.append("disk('?', '?') ");
                params.push(name.clone());
                params.push(pattern);
            },
            StoreMethod::File(_) => {
                text.append("file('?') ");
                params.push(pattern);
            },
        }
        text.append("ORDER BY table_name");
        assert(params.deep_view() =~= self@.discovery(database@).params);
        Statement { text, params }
    }
}

} // verus!
