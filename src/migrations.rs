//! One-time migrations of the user's settings, applied at startup and
//! recorded so that each runs once.

use vstd::prelude::*;
use crate::config::{Config, sorted_lex};

verus! {

/// The id of the migration that carries a legacy autostart entry over into
/// the settings.
pub const MIGRATION_ID: &'static str = "2026-02-26-autostart-state-from-desktop-entry";

/// What a migration does.
#[derive(Clone, Copy, Debug, PartialEq, Eq)]
pub enum MigrationKind {
    /// Sets the autostart setting from whether a legacy autostart entry exists.
    LegacyAutostart,
}

/// A one-time migration: its id, a description, and what it does.
#[derive(Clone, Copy, Debug)]
pub struct Migration {
    pub id: &'static str,
    pub name: &'static str,
    pub kind: MigrationKind,
}

/// Where a legacy autostart entry was found.
#[derive(Clone, Copy, Debug, PartialEq, Eq)]
pub struct AutostartProbe {
    /// The user's autostart entry exists, possibly as a dangling link.
    pub user_entry_present: bool,
    /// The system-wide autostart entry exists.
    pub system_entry_present: bool,
}

/// Why the migrations did not complete.
#[derive(Clone, Debug, PartialEq, Eq)]
pub enum MigrationError {
    /// The id occurs more than once among the applied migrations.
    DuplicateId(String),
}

impl MigrationError {
    /// A message for the user.
    pub fn message(&self) -> (r: String)
        ensures
            match self {
                MigrationError::DuplicateId(id) => r@ == "Duplicate migration id found in config: "@
                    + id@,
            },
    {
        match self {
            MigrationError::DuplicateId(id) => {
                let mut s: String = "Duplicate migration id found in config: ".to_owned();
                s.append(id.as_str());
                s
            },
        }
    }
}

/// The legacy autostart migration.
pub fn autostart_migration() -> (r: Migration)
    ensures
        r.id@ == MIGRATION_ID@,
        r.kind == MigrationKind::LegacyAutostart,
{
    Migration {
        id: MIGRATION_ID,
        name: "Migrate legacy autostart desktop-entry state into config",
        kind: MigrationKind::LegacyAutostart,
    }
}

/// Whether a legacy autostart entry exists anywhere.
pub open spec fn autostart_detected(probe: AutostartProbe) -> bool {
    probe.user_entry_present || probe.system_entry_present
}

/// Sets the autostart setting to whether a legacy autostart entry exists,
/// leaving everything else as it was.
pub fn migrate_legacy_autostart_state(config: &mut Config, probe: AutostartProbe)
    ensures
        final(config).general.autostart == autostart_detected(probe),
        final(config).warnings == old(config).warnings,
        final(config).migrations == old(config).migrations,
{
    let detected_state = probe.user_entry_present || probe.system_entry_present;
    if config.general.autostart != detected_state {
        config.general.autostart = detected_state;
    }
}

/// Whether the id at position `j` occurs earlier in `ids`.
pub open spec fn repeats_earlier(ids: Seq<Seq<char>>, j: int) -> bool {
    exists|i: int| 0 <= i < j && ids[i] == ids[j]
}

/// Whether no id among the first `n` of `ids` occurs twice.
pub open spec fn distinct_prefix(ids: Seq<Seq<char>>, n: int) -> bool {
    forall|j: int| 0 <= j < n ==> !#[trigger] repeats_earlier(ids, j)
}

/// Checks that no migration id is recorded twice, naming the first id that
/// repeats an earlier one.
fn ensure_no_duplicate_applied_ids(config: &Config) -> (r: Result<(), MigrationError>)
    ensures
        r is Ok <==> distinct_prefix(config.migrations.ids(), config.migrations.ids().len() as int),
        r matches Err(MigrationError::DuplicateId(d)) ==> first_duplicate(config.migrations.ids(), d@),
{
    let applied = &config.migrations.applied;
    let ghost ids = config.migrations.ids();
    let mut j: usize = 0;
    while j < applied.len()
        invariant
            j <= applied@.len(),
            ids == applied.deep_view(),
            ids == config.migrations.ids(),
            distinct_prefix(ids, j as int),
        decreases applied@.len() - j,
    {
        let mut i: usize = 0;
        while i < j
            invariant
                i <= j < applied@.len(),
                ids == applied.deep_view(),
                ids == config.migrations.ids(),
                distinct_prefix(ids, j as int),
                forall|k: int| 0 <= k < i ==> ids[k] != ids[j as int],
            decreases j - i,
        {
            if applied[i] == applied[j] {
                assert(ids[i as int] == applied@[i as int]@);
                assert(ids[j as int] == applied@[j as int]@);
                assert(repeats_earlier(ids, j as int));
                let d: String = applied[j].clone();
                assert(d@ == ids[j as int]);
                assert(first_duplicate(ids, d@));
                assert(!distinct_prefix(ids, ids.len() as int));
                return Err(MigrationError::DuplicateId(d));
            }
            assert(ids[i as int] == applied@[i as int]@);
            assert(ids[j as int] == applied@[j as int]@);
            i = i + 1;
        }
        assert(!repeats_earlier(ids, j as int));
        assert forall|k: int| 0 <= k < j + 1 implies !#[trigger] repeats_earlier(ids, k) by {
            if k < j {
            }
        }
        j = j + 1;
    }
    Ok(())
}

/// Whether `d` is the first id of `ids` that repeats an earlier one.
pub open spec fn first_duplicate(ids: Seq<Seq<char>>, d: Seq<char>) -> bool {
    exists|j: int|
        0 <= j < ids.len() && repeats_earlier(ids, j) && distinct_prefix(ids, j) && d == ids[j]
}

/// Whether `after` is `before` with the legacy autostart migration applied
/// and recorded.
pub open spec fn autostart_migrated(before: Config, after: Config, probe: AutostartProbe) -> bool {
    &&& after.general.autostart == autostart_detected(probe)
    &&& after.warnings == before.warnings
    &&& after.migrations.ids().to_multiset() == before.migrations.ids().push(
        MIGRATION_ID@,
    ).to_multiset()
    &&& sorted_lex(after.migrations.ids())
    &&& after.migrations.ids().len() == before.migrations.ids().len() + 1
}

/// Applies the migrations not yet recorded, records each one applied, then
/// checks that no id is recorded twice.
pub fn run_startup_migrations(config: &mut Config, probe: AutostartProbe) -> (r: Result<(), MigrationError>)
    ensures
        old(config).migrations.ids().contains(MIGRATION_ID@) ==> *final(config) == *old(config),
        !old(config).migrations.ids().contains(MIGRATION_ID@) ==> autostart_migrated(
            *old(config),
            *final(config),
            probe,
        ),
        r is Ok <==> distinct_prefix(final(config).migrations.ids(), final(config).migrations.ids().len() as int),
        r matches Err(MigrationError::DuplicateId(d)) ==> first_duplicate(final(config).migrations.ids(), d@),
{
    let migration = autostart_migration();
    if !config.migrations.is_applied(migration.id) {
        match migration.kind {
            MigrationKind::LegacyAutostart => migrate_legacy_autostart_state(config, probe),
        }
        config.migrations.mark_applied(migration.id);
    }
    ensure_no_duplicate_applied_ids(config)
}

} // verus!
