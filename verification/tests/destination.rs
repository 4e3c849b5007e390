use chbackup::destination::StoreMethod;
use chbackup::error::Error;
use chbackup::text::{contains_text, find_absent, join_with_spaces, table_path, trim_end_separators,
    trim_start_separators};

fn s(x: &str) -> String {
    x.to_string()
}

fn s3(url: &str, access: &str, secret: &str, prefix: Option<&str>) -> StoreMethod {
    StoreMethod::S3 {
        url: s(url),
        access_key: s(access),
        secret_key: s(secret),
        prefix_path: prefix.map(s),
    }
}

fn disk(name: &str, path: &str) -> StoreMethod {
    StoreMethod::Disk { name: s(name), path: s(path) }
}

fn invalid(message: &str) -> Result<(), Error> {
    Err(Error::InvalidInput(s(message)))
}

#[test]
fn validate_accepts_complete_destinations() {
    assert_eq!(s3("http://host/bucket", "key", "secret", None).validate(), Ok(()));
    assert_eq!(s3("http://host/bucket", "key", "secret", Some("")).validate(), Ok(()));
    assert_eq!(disk("backups", "daily").validate(), Ok(()));
    assert_eq!(StoreMethod::File(s("/backups")).validate(), Ok(()));
}

#[test]
fn validate_names_the_empty_object_store_field() {
    assert_eq!(s3("", "key", "secret", None).validate(), invalid("S3 URL must be specified"));
    assert_eq!(s3("u", "", "secret", None).validate(), invalid("S3 Access Key must be specified"));
    assert_eq!(s3("u", "key", "", None).validate(), invalid("S3 Secret Key must be specified"));
}

#[test]
fn validate_reports_the_first_empty_field() {
    assert_eq!(s3("", "", "", None).validate(), invalid("S3 URL must be specified"));
    assert_eq!(s3("u", "", "", None).validate(), invalid("S3 Access Key must be specified"));
    assert_eq!(disk("", "").validate(), invalid("Disk name must be specified"));
}

#[test]
fn validate_names_the_empty_disk_field() {
    assert_eq!(disk("", "daily").validate(), invalid("Disk name must be specified"));
    assert_eq!(disk("backups", "").validate(), invalid("Disk path must be specified"));
}

#[test]
fn validate_names_the_empty_file_path() {
    assert_eq!(StoreMethod::File(s("")).validate(), invalid("File path must be specified"));
}

#[test]
fn validate_fails_exactly_when_a_required_field_is_empty() {
    for url in ["", "u"] {
        for access in ["", "a"] {
            for secret in ["", "s"] {
                let complete = !url.is_empty() && !access.is_empty() && !secret.is_empty();
                let r = s3(url, access, secret, None).validate();
                assert_eq!(r.is_ok(), complete);
                if let Err(e) = r {
                    assert!(e.is_invalid_input());
                }
            }
        }
    }
    for name in ["", "n"] {
        for path in ["", "p"] {
            let r = disk(name, path).validate();
            assert_eq!(r.is_ok(), !name.is_empty() && !path.is_empty());
        }
    }
}

#[test]
fn clause_depends_on_the_kind_alone() {
    assert_eq!(s3("a", "b", "c", None).render_clause(), "S3(?, ?, ?)");
    assert_eq!(s3("", "", "", Some("x")).render_clause(), "S3(?, ?, ?)");
    assert_eq!(disk("a", "b").render_clause(), "DISK(?, ?)");
    assert_eq!(disk("", "").render_clause(), "DISK(?, ?)");
    assert_eq!(StoreMethod::File(s("/x")).render_clause(), "FILE(?)");
    assert_eq!(StoreMethod::File(s("")).render_clause(), "FILE(?)");
}

#[test]
fn placeholders_match_bound_values() {
    let all = [s3("http://h/b", "k", "s", None), disk("d", "p"), StoreMethod::File(s("/x"))];
    for d in all.iter() {
        let marks = d.render_clause().matches('?').count();
        assert_eq!(d.bind_parameters("db", "t").len(), marks);
        assert_eq!(d.restore_parameters("db", "t").len(), marks);
    }
}

#[test]
fn url_joins_address_and_prefix() {
    assert_eq!(s3("http://h/b", "k", "s", None).s3_url(), Some(s("http://h/b")));
    assert_eq!(s3("http://h/b/", "k", "s", None).s3_url(), Some(s("http://h/b/")));
    assert_eq!(s3("http://h/b//", "k", "s", Some("//daily/")).s3_url(), Some(s("http://h/b/daily/")));
    assert_eq!(s3("http://h/b", "k", "s", Some("daily")).s3_url(), Some(s("http://h/b/daily")));
    assert_eq!(s3("http://h/b", "k", "s", Some("")).s3_url(), Some(s("http://h/b/")));
    assert_eq!(disk("d", "p").s3_url(), None);
    assert_eq!(StoreMethod::File(s("/x")).s3_url(), None);
}

#[test]
fn trimming_strips_every_trailing_separator() {
    assert_eq!(trim_end_separators("/backups"), "/backups");
    assert_eq!(trim_end_separators("/backups/"), "/backups");
    assert_eq!(trim_end_separators("/backups///"), "/backups");
    assert_eq!(trim_end_separators("///"), "");
    assert_eq!(trim_end_separators(""), "");
    assert_eq!(trim_end_separators("/a/b"), "/a/b");
    assert_eq!(trim_end_separators("données/"), "données");
    assert_eq!(trim_start_separators("//a/b/"), "a/b/");
    assert_eq!(trim_start_separators("a"), "a");
    assert_eq!(trim_start_separators("/"), "");
}

#[test]
fn trimming_is_idempotent() {
    for x in ["", "/", "a", "a/", "a//", "/a/b///", "//"] {
        let once = trim_end_separators(x);
        assert_eq!(trim_end_separators(&once), once);
        assert_eq!(trim_end_separators(&format!("{}/", x)), once);
    }
}

#[test]
fn table_path_joins_trimmed_segments() {
    assert_eq!(table_path("/backups", "metrics", "events"), "/backups/metrics/events");
    assert_eq!(table_path("/backups/", "metrics/", "events/"), "/backups/metrics/events");
    assert_eq!(table_path("/backups///", "metrics//", "events//"), "/backups/metrics/events");
    assert_eq!(table_path("", "", ""), "//");
    assert_eq!(table_path("/", "db", "t"), "/db/t");
}

#[test]
fn backup_values_per_kind() {
    assert_eq!(
        s3("http://h/b/", "k", "s", Some("/daily")).bind_parameters("metrics", "events"),
        vec![s("http://h/b/daily"), s("k"), s("s")]
    );
    assert_eq!(
        disk("backups", "daily/").bind_parameters("metrics", "events"),
        vec![s("backups"), s("daily/metrics/events")]
    );
    assert_eq!(
        StoreMethod::File(s("/backups")).bind_parameters("metrics", "events"),
        vec![s("/backups/metrics/events")]
    );
}

#[test]
fn restore_values_per_kind() {
    assert_eq!(
        s3("http://h/b/", "k", "s", Some("/daily/")).restore_parameters("metrics/", "events"),
        vec![s("http://h/b/daily/metrics/events"), s("k"), s("s")]
    );
    assert_eq!(
        s3("http://h/b", "k", "s", None).restore_parameters("metrics", "events"),
        vec![s("http://h/b/metrics/events"), s("k"), s("s")]
    );
    assert_eq!(
        disk("backups", "daily/").restore_parameters("metrics", "events/"),
        vec![s("backups"), s("daily/metrics/events")]
    );
    assert_eq!(
        StoreMethod::File(s("/backups/")).restore_parameters("metrics", "events"),
        vec![s("/backups/metrics/events")]
    );
}

#[test]
fn discovery_query_per_kind() {
    let head = "SELECT DISTINCT arrayElement(splitByChar('/', _path), -2) AS table_name FROM ";
    let q = StoreMethod::File(s("/backups/")).discover_table_names("metrics");
    assert_eq!(q.text, format!("{}file('?') ORDER BY table_name", head));
    assert_eq!(q.params, vec![s("/backups/metrics/*/.backup")]);

    let q = disk("backups", "daily").discover_table_names("metrics");
    assert_eq!(q.text, format!("{}disk('?', '?') ORDER BY table_name", head));
    assert_eq!(q.params, vec![s("backups"), s("daily/metrics/*/.backup")]);

    let q = s3("http://h/b/", "k", "s", Some("daily/")).discover_table_names("metrics");
    assert_eq!(q.text, format!("{}s3('?', '?', '?') ORDER BY table_name", head));
    assert_eq!(q.params, vec![s("http://h/b/daily/metrics/*/.backup"), s("k"), s("s")]);
}

#[test]
fn options_join_with_single_spaces() {
    assert_eq!(join_with_spaces(&vec![]), "");
    assert_eq!(join_with_spaces(&vec![s("a=1")]), "a=1");
    assert_eq!(join_with_spaces(&vec![s("a=1"), s("b=2"), s("c=3")]), "a=1 b=2 c=3");
}

#[test]
fn membership_and_first_absent() {
    let have = vec![s("a"), s("b")];
    assert!(contains_text(&have, "a"));
    assert!(contains_text(&have, "b"));
    assert!(!contains_text(&have, "c"));
    assert!(!contains_text(&vec![], "a"));
    assert_eq!(find_absent(&vec![s("b"), s("a")], &have), None);
    assert_eq!(find_absent(&vec![], &have), None);
    assert_eq!(find_absent(&vec![s("a"), s("x"), s("y")], &have), Some(s("x")));
}

#[test]
fn error_text() {
    assert_eq!(Error::InvalidInput(s("no")).message(), "Input is invalid: no");
    assert_eq!(Error::ClickhouseError(s("down")).message(), "down");
    assert!(Error::invalid("x").is_invalid_input());
    assert!(!Error::ClickhouseError(s("x")).is_invalid_input());
}
