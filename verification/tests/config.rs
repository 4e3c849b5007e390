use chbackup::config::{BackupConfig, RestoreConfig, RestoreMode};
use chbackup::destination::StoreMethod;
use chbackup::error::Error;
use chbackup::plan::{backup_command, backup_plan, restore_command, restore_plan};

fn s(x: &str) -> String {
    x.to_string()
}

fn file(path: &str) -> StoreMethod {
    StoreMethod::File(s(path))
}

#[test]
fn backup_builder_sets_each_field() {
    let c = BackupConfig::new(file("/b"), "metrics");
    assert_eq!(c.db, "metrics");
    assert!(c.tables.is_empty());
    assert!(c.options.is_empty());
    assert_eq!(c.backup_to, file("/b"));

    let c = c
        .add_table("a")
        .add_table("b")
        .add_option("x=1")
        .db("other")
        .store_method(file("/c"));
    assert_eq!(c.db, "other");
    assert_eq!(c.tables, vec![s("a"), s("b")]);
    assert_eq!(c.options, vec![s("x=1")]);
    assert_eq!(c.backup_to, file("/c"));

    let c = c.tables(vec![s("z")]).options(vec![s("p=1"), s("q=2")]);
    assert_eq!(c.tables, vec![s("z")]);
    assert_eq!(c.options, vec![s("p=1"), s("q=2")]);
    assert_eq!(c.db, "other");
}

#[test]
fn restore_builder_sets_each_field() {
    let c = RestoreConfig::new(file("/b"), "metrics");
    assert_eq!(c.source_db, "metrics");
    assert_eq!(c.target_db, None);
    assert_eq!(c.mode, None);
    assert!(c.tables.is_empty());
    assert!(c.options.is_empty());

    let c = c
        .add_table("a")
        .add_option("x=1")
        .target_db(Some("copy"))
        .mode(RestoreMode::DataOnly)
        .source_db("src")
        .store_method(file("/c"));
    assert_eq!(c.source_db, "src");
    assert_eq!(c.target_db, Some(s("copy")));
    assert_eq!(c.mode, Some(RestoreMode::DataOnly));
    assert_eq!(c.tables, vec![s("a")]);
    assert_eq!(c.options, vec![s("x=1")]);
    assert_eq!(c.restore_from, file("/c"));

    let c = c.tables(vec![s("z")]).options(vec![]).target_db(None);
    assert_eq!(c.tables, vec![s("z")]);
    assert!(c.options.is_empty());
    assert_eq!(c.target_db, None);
}

#[test]
fn backup_validate_checks_database_then_destination() {
    assert_eq!(BackupConfig::new(file("/b"), "metrics").validate(), Ok(()));
    assert_eq!(
        BackupConfig::new(file(""), "").validate(),
        Err(Error::InvalidInput(s("Database name must be specified")))
    );
    assert_eq!(
        BackupConfig::new(file(""), "metrics").validate(),
        Err(Error::InvalidInput(s("File path must be specified")))
    );
}

#[test]
fn restore_validate_checks_source_then_destination() {
    assert_eq!(RestoreConfig::new(file("/b"), "metrics").validate(), Ok(()));
    assert_eq!(
        RestoreConfig::new(file(""), "").validate(),
        Err(Error::InvalidInput(s("Source database name must be specified")))
    );
    assert_eq!(
        RestoreConfig::new(
            StoreMethod::Disk { name: s(""), path: s("p") },
            "metrics"
        )
        .validate(),
        Err(Error::InvalidInput(s("Disk name must be specified")))
    );
}

#[test]
fn restore_target_defaults_to_source() {
    let c = RestoreConfig::new(file("/b"), "metrics");
    assert_eq!(c.effective_target(), "metrics");
    let c = c.target_db(Some("copy"));
    assert_eq!(c.effective_target(), "copy");
    assert_eq!(c.source_db, "metrics");
}

#[test]
fn mode_adds_options_after_the_callers() {
    let c = RestoreConfig::new(file("/b"), "metrics").add_option("a=1");
    assert_eq!(c.effective_options(), vec![s("a=1")]);
    let c = c.mode(RestoreMode::StructureOnly);
    assert_eq!(c.effective_options(), vec![s("a=1"), s("structure_only=1")]);
    let c = c.mode(RestoreMode::DataOnly);
    assert_eq!(
        c.effective_options(),
        vec![s("a=1"), s("struct_only=0"), s("allow_non_empty_tables=1")]
    );
}

#[test]
fn backup_command_per_kind() {
    let c = BackupConfig::new(file("/b"), "metrics");
    assert_eq!(backup_command(&c), "BACKUP TABLE ?.? TO FILE(?) ASYNC");
    let c = c.store_method(StoreMethod::Disk { name: s("d"), path: s("p") }).add_option("a=1");
    assert_eq!(backup_command(&c), "BACKUP TABLE ?.? TO DISK(?, ?) ASYNC SETTINGS a=1");
    let c = c
        .store_method(StoreMethod::S3 {
            url: s("u"),
            access_key: s("k"),
            secret_key: s("s"),
            prefix_path: None,
        })
        .add_option("b=2");
    assert_eq!(backup_command(&c), "BACKUP TABLE ?.? TO S3(?, ?, ?) ASYNC SETTINGS a=1 b=2");
}

#[test]
fn restore_command_per_kind() {
    let c = RestoreConfig::new(file("/b"), "metrics");
    assert_eq!(restore_command(&c), "RESTORE TABLE ?.? FROM FILE(?) ASYNC");
    let c = c.store_method(StoreMethod::Disk { name: s("d"), path: s("p") }).add_option("a=1");
    assert_eq!(restore_command(&c), "RESTORE TABLE ?.? FROM DISK(?, ?) ASYNC SETTINGS a=1");
    let c = c
        .store_method(StoreMethod::S3 {
            url: s("u"),
            access_key: s("k"),
            secret_key: s("s"),
            prefix_path: None,
        })
        .mode(RestoreMode::DataOnly);
    assert_eq!(
        restore_command(&c),
        "RESTORE TABLE ?.? FROM S3(?, ?, ?) ASYNC SETTINGS a=1 struct_only=0 allow_non_empty_tables=1"
    );
}

#[test]
fn backup_plan_has_one_command_per_table_in_order() {
    let c = BackupConfig::new(StoreMethod::Disk { name: s("d"), path: s("p/") }, "metrics")
        .add_table("a")
        .add_table("b");
    let plan = backup_plan(&c);
    assert_eq!(plan.len(), 2);
    assert_eq!(plan[0].text, "BACKUP TABLE ?.? TO DISK(?, ?) ASYNC");
    assert_eq!(plan[0].params, vec![s("metrics"), s("a"), s("d"), s("p/metrics/a")]);
    assert_eq!(plan[1].text, plan[0].text);
    assert_eq!(plan[1].params, vec![s("metrics"), s("b"), s("d"), s("p/metrics/b")]);
    assert!(backup_plan(&BackupConfig::new(file("/b"), "metrics")).is_empty());
}

#[test]
fn restore_plan_reads_below_source_and_writes_to_target() {
    let c = RestoreConfig::new(file("/b"), "metrics")
        .target_db(Some("copy"))
        .add_table("a")
        .add_table("b");
    let plan = restore_plan(&c);
    assert_eq!(plan.len(), 2);
    assert_eq!(plan[0].text, "RESTORE TABLE ?.? FROM FILE(?) ASYNC");
    assert_eq!(plan[0].params, vec![s("copy"), s("a"), s("/b/metrics/a")]);
    assert_eq!(plan[1].params, vec![s("copy"), s("b"), s("/b/metrics/b")]);
    assert_eq!(plan[0].duplicate(), plan[0]);
}
