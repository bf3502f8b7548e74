use xero_toolkit::config::{Config, MigrationsConfig};
use xero_toolkit::migrations::{
    autostart_migration, migrate_legacy_autostart_state, run_startup_migrations, AutostartProbe,
    MigrationError, MigrationKind, MIGRATION_ID,
};

fn ids(v: &[&str]) -> Vec<String> {
    v.iter().map(|s| s.to_string()).collect()
}

#[test]
fn is_applied_finds_ids() {
    let m = MigrationsConfig { applied: ids(&["a", "b"]) };
    assert!(m.is_applied("b"));
    assert!(!m.is_applied("c"));
    assert!(!MigrationsConfig::default().is_applied("a"));
}

#[test]
fn mark_applied_sorts_and_skips_known() {
    let mut m = MigrationsConfig { applied: ids(&["b", "a"]) };
    m.mark_applied("c");
    assert_eq!(m.applied, ids(&["a", "b", "c"]));
    m.mark_applied("b");
    assert_eq!(m.applied, ids(&["a", "b", "c"]));
    m.mark_applied("aa");
    assert_eq!(m.applied, ids(&["a", "aa", "b", "c"]));
}

#[test]
fn default_config_is_empty() {
    let c = Config::default();
    assert!(!c.general.autostart);
    assert!(!c.warnings.dismissed_generic_distro_notice);
    assert!(c.migrations.applied.is_empty());
}

#[test]
fn autostart_migration_follows_detection() {
    let mut c = Config::default();
    let probe = AutostartProbe { user_entry_present: false, system_entry_present: true };
    migrate_legacy_autostart_state(&mut c, probe);
    assert!(c.general.autostart);
    let none = AutostartProbe { user_entry_present: false, system_entry_present: false };
    migrate_legacy_autostart_state(&mut c, none);
    assert!(!c.general.autostart);
    let m = autostart_migration();
    assert_eq!(m.id, MIGRATION_ID);
    assert_eq!(m.kind, MigrationKind::LegacyAutostart);
}

#[test]
fn startup_migrations_run_once() {
    let mut c = Config::default();
    let probe = AutostartProbe { user_entry_present: true, system_entry_present: false };
    assert_eq!(run_startup_migrations(&mut c, probe), Ok(()));
    assert!(c.general.autostart);
    assert_eq!(c.migrations.applied, ids(&[MIGRATION_ID]));
    // already recorded: the setting is left alone
    c.general.autostart = false;
    assert_eq!(run_startup_migrations(&mut c, probe), Ok(()));
    assert!(!c.general.autostart);
    assert_eq!(c.migrations.applied, ids(&[MIGRATION_ID]));
}

#[test]
fn duplicate_ids_are_reported() {
    let mut c = Config::default();
    c.migrations.applied = ids(&["x", "y", "x", "y"]);
    let probe = AutostartProbe { user_entry_present: false, system_entry_present: false };
    let r = run_startup_migrations(&mut c, probe);
    let err = r.unwrap_err();
    assert_eq!(err, MigrationError::DuplicateId("x".to_string()));
    assert_eq!(err.message(), "Duplicate migration id found in config: x");
    assert_eq!(
        c.migrations.applied,
        ids(&[MIGRATION_ID, "x", "x", "y", "y"])
    );
}
