//! The migration runner: the top-level startup orchestrator.
//!
//! The runner owns the version/sentinel lifecycle: it decides between the
//! fresh-initialize and migrate paths, sequences the schema steps in strictly
//! ascending version order, runs the sentinel-gated feature repairs, asserts
//! the final version against the known-good set, and performs the
//! observability scans for forbidden usernames and aliases.  Its whole
//! effect on the store, and its result, are pinned down by [`run_model`].

use vstd::prelude::*;

use crate::ident::{contains_user, parse_localpart, valid_localpart};
use crate::keyfix::{
    all_keys_delimitable, all_values_empty, count_doubled, count_missing, fix_double_model,
    fix_double_separator, fix_missing_model, fix_missing_separator,
};
use crate::membership::{reconcile_model, reconcile_rooms};
use crate::rules::{apply_merge_step, apply_rename_step, merged_table, renamed_table};
use crate::store::{
    Config, ConfigModel, MigrationError, Report, Room, RoomModel, Sentinels, Store, StoreModel,
    names_model, room_table_model,
};
use crate::{COMPAT_VERSION, LATEST_VERSION, MIN_SUPPORTED_VERSION, known_good_version};

verus! {

// ---------------------------------------------------------------------------
// Version gate
// ---------------------------------------------------------------------------

/// Read the stored schema version; `0` stands for an absent version key,
/// i.e. a brand-new store.
pub fn read_version(store: &Store) -> (v: u64)
    ensures
        v == store.version,
{
    store.version
}

/// Unconditionally overwrite the stored schema version.  The caller
/// guarantees that `v` has been reached by fully-completed work.
pub fn bump_version(store: &mut Store, v: u64)
    ensures
        final(store).version == v,
        final(store).sentinels == old(store).sentinels,
        final(store).users == old(store).users,
        final(store).account_data == old(store).account_data,
        final(store).state_cache == old(store).state_cache,
        final(store).referenced_events == old(store).referenced_events,
        final(store).rooms == old(store).rooms,
{
    store.version = v;
}

// ---------------------------------------------------------------------------
// Observability scans
// ---------------------------------------------------------------------------

/// Number of names in `names` that match a forbidden pattern.  A pattern
/// set is a list of literal names; a name matches iff it is listed.
pub open spec fn count_forbidden(names: Seq<Seq<char>>, pats: Seq<Seq<char>>) -> int
    decreases names.len(),
{
    if names.len() == 0 {
        0
    } else {
        count_forbidden(names.drop_last(), pats) + if pats.contains(names.last()) {
            1int
        } else {
            0int
        }
    }
}

/// Whether any of `names` matches a forbidden pattern.
pub open spec fn any_forbidden(names: Seq<Seq<char>>, pats: Seq<Seq<char>>) -> bool {
    exists|i: int| 0 <= i < names.len() && pats.contains(#[trigger] names[i])
}

/// Number of rooms with at least one forbidden local alias.
pub open spec fn count_forbidden_alias_rooms(rooms: Seq<RoomModel>, pats: Seq<Seq<char>>) -> int
    decreases rooms.len(),
{
    if rooms.len() == 0 {
        0
    } else {
        count_forbidden_alias_rooms(rooms.drop_last(), pats) + if any_forbidden(
            rooms.last().aliases,
            pats,
        ) {
            1int
        } else {
            0int
        }
    }
}

/// Number of usernames that do not parse as a valid localpart; schema steps
/// skip these users.
pub open spec fn count_invalid(names: Seq<Seq<char>>) -> int
    decreases names.len(),
{
    if names.len() == 0 {
        0
    } else {
        count_invalid(names.drop_last()) + if !valid_localpart(names.last()) {
            1int
        } else {
            0int
        }
    }
}

/// Count the names matching a forbidden pattern (reported only, never
/// enforced).
fn scan_forbidden(names: &Vec<String>, pats: &Vec<String>) -> (c: usize)
    ensures
        c as int == count_forbidden(names_model(names@), names_model(pats@)),
{
    let ghost nm = names_model(names@);
    let n = names.len();
    let mut c: usize = 0;
    let mut i: usize = 0;
    while i < n
        invariant
            i <= n,
            nm.len() == n,
            c <= i,
            c as int == count_forbidden(nm.take(i as int), names_model(pats@)),
        decreases n - i,
    {
        proof {
            assert(nm.take(i + 1).drop_last() =~= nm.take(i as int));
            assert(nm.take(i + 1).last() == nm[i as int]);
        }
        if contains_user(pats, &names[i]) {
            c += 1;
        }
        i += 1;
    }
    proof {
        assert(nm.take(n as int) =~= nm);
    }
    c
}

/// Whether any of the names matches a forbidden pattern.
fn any_forbidden_name(names: &Vec<String>, pats: &Vec<String>) -> (r: bool)
    ensures
        r == any_forbidden(names_model(names@), names_model(pats@)),
{
    let ghost nm = names_model(names@);
    let n = names.len();
    let mut i: usize = 0;
    while i < n
        invariant
            i <= n,
            nm.len() == n,
            forall|j: int| 0 <= j < i ==> !names_model(pats@).contains(#[trigger] nm[j]),
        decreases n - i,
    {
        if contains_user(pats, &names[i]) {
            assert(names_model(pats@).contains(nm[i as int]));
            return true;
        }
        i += 1;
    }
    false
}

/// Count the rooms with a forbidden local alias (reported only).
fn scan_forbidden_aliases(rooms: &Vec<Room>, pats: &Vec<String>) -> (c: usize)
    ensures
        c as int == count_forbidden_alias_rooms(room_table_model(rooms@), names_model(pats@)),
{
    let ghost rm = room_table_model(rooms@);
    let n = rooms.len();
    let mut c: usize = 0;
    let mut i: usize = 0;
    while i < n
        invariant
            i <= n,
            rm.len() == n,
            c <= i,
            c as int == count_forbidden_alias_rooms(rm.take(i as int), names_model(pats@)),
        decreases n - i,
    {
        proof {
            assert(rm.take(i + 1).drop_last() =~= rm.take(i as int));
            assert(rm.take(i + 1).last() == rm[i as int]);
        }
        if any_forbidden_name(&rooms[i].aliases, pats) {
            c += 1;
        }
        i += 1;
    }
    proof {
        assert(rm.take(n as int) =~= rm);
    }
    c
}

/// Count the usernames that fail to parse as a localpart.
fn scan_invalid_users(names: &Vec<String>) -> (c: usize)
    ensures
        c as int == count_invalid(names_model(names@)),
{
    let ghost nm = names_model(names@);
    let n = names.len();
    let mut c: usize = 0;
    let mut i: usize = 0;
    while i < n
        invariant
            i <= n,
            nm.len() == n,
            c <= i,
            c as int == count_invalid(nm.take(i as int)),
        decreases n - i,
    {
        proof {
            assert(nm.take(i + 1).drop_last() =~= nm.take(i as int));
            assert(nm.take(i + 1).last() == nm[i as int]);
        }
        if !parse_localpart(&names[i]) {
            c += 1;
        }
        i += 1;
    }
    proof {
        assert(nm.take(n as int) =~= nm);
    }
    c
}

// ---------------------------------------------------------------------------
// The run, as a mathematical model
// ---------------------------------------------------------------------------

/// Effect of the fresh path on the store: the latest version is written
/// directly and every backward-compatibility sentinel is pre-set; there is
/// no data to repair in an empty store.
pub open spec fn fresh_model(s: StoreModel) -> StoreModel {
    StoreModel {
        version: LATEST_VERSION,
        sentinels: Sentinels {
            media_hashes: true,
            state_cache_separator: true,
            joined_counts: true,
            referenced_separator: true,
        },
        ..s
    }
}

/// Report of the fresh path: the admin bootstrap collaborator is invoked
/// exactly once; nothing is scanned or repaired.
pub open spec fn fresh_report() -> Report {
    Report {
        fresh: true,
        admin_bootstrap_invocations: 1,
        media_migration_requested: false,
        media_checkup_requested: false,
        state_cache_visited: 0,
        state_cache_fixed: 0,
        referenced_visited: 0,
        referenced_fixed: 0,
        skipped_users: 0,
        forbidden_username_matches: 0,
        forbidden_alias_rooms: 0,
    }
}

/// The schema steps, applied strictly in ascending version order, each
/// gated on `version < target` and followed by exactly one version bump.
pub open spec fn steps_model(s: StoreModel) -> StoreModel {
    let s1 = if s.version < 12 {
        StoreModel { version: 12, account_data: renamed_table(s.account_data, s.users), ..s }
    } else {
        s
    };
    if s1.version < 13 {
        StoreModel { version: 13, account_data: merged_table(s1.account_data, s1.users), ..s1 }
    } else {
        s1
    }
}

/// The media migration gate: when the sentinel is absent the external media
/// migration is requested and its completion recorded.
pub open spec fn media_model(s: StoreModel) -> StoreModel {
    if !s.sentinels.media_hashes {
        StoreModel { sentinels: Sentinels { media_hashes: true, ..s.sentinels }, ..s }
    } else {
        s
    }
}

/// The doubled-separator repair, gated by its sentinel.
pub open spec fn double_sep_model(s: StoreModel) -> StoreModel {
    if !s.sentinels.state_cache_separator {
        StoreModel {
            state_cache: fix_double_model(s.state_cache),
            sentinels: Sentinels { state_cache_separator: true, ..s.sentinels },
            ..s
        }
    } else {
        s
    }
}

/// The membership reconciliation, gated by its sentinel.
pub open spec fn joined_model(s: StoreModel) -> StoreModel {
    if !s.sentinels.joined_counts {
        StoreModel {
            rooms: reconcile_model(s.rooms),
            sentinels: Sentinels { joined_counts: true, ..s.sentinels },
            ..s
        }
    } else {
        s
    }
}

/// The missing-separator repair, gated by its sentinel.  Applied only when
/// the table's shape invariants hold; [`run_model`] surfaces a violation
/// as a fatal error with the table untouched and the sentinel absent.
pub open spec fn referenced_model(s: StoreModel) -> StoreModel {
    if !s.sentinels.referenced_separator {
        StoreModel {
            referenced_events: fix_missing_model(s.referenced_events),
            sentinels: Sentinels { referenced_separator: true, ..s.sentinels },
            ..s
        }
    } else {
        s
    }
}

/// Report of the migrate path.
pub open spec fn migrate_report(s: StoreModel, cfg: ConfigModel) -> Report {
    let s2 = steps_model(s);
    let s3 = media_model(s2);
    Report {
        fresh: false,
        admin_bootstrap_invocations: 0,
        media_migration_requested: !s2.sentinels.media_hashes,
        media_checkup_requested: s2.sentinels.media_hashes && cfg.media_startup_check,
        state_cache_visited: if !s3.sentinels.state_cache_separator {
            s3.state_cache.len() as usize
        } else {
            0
        },
        state_cache_fixed: if !s3.sentinels.state_cache_separator {
            count_doubled(s3.state_cache) as usize
        } else {
            0
        },
        referenced_visited: if !s3.sentinels.referenced_separator {
            s3.referenced_events.len() as usize
        } else {
            0
        },
        referenced_fixed: if !s3.sentinels.referenced_separator {
            count_missing(s3.referenced_events) as usize
        } else {
            0
        },
        skipped_users: count_invalid(s.users) as usize,
        forbidden_username_matches: count_forbidden(s.users, cfg.forbidden_usernames) as usize,
        forbidden_alias_rooms: count_forbidden_alias_rooms(
            joined_model(double_sep_model(s3)).rooms,
            cfg.forbidden_aliases,
        ) as usize,
    }
}

/// The store after a run together with the run's result.
pub struct RunModel {
    pub store: StoreModel,
    pub result: Result<Report, MigrationError>,
}

/// The whole startup run, as a function of the initial store and the
/// configuration.  This is the single contract of [`run`]; every property
/// of the runner is stated against it.
pub open spec fn run_model(s: StoreModel, cfg: ConfigModel) -> RunModel {
    if s.users.len() == 0 {
        RunModel { store: fresh_model(s), result: Ok(fresh_report()) }
    } else if !s.users.contains(cfg.server_user) {
        RunModel { store: s, result: Err(MigrationError::ServerIdentityChanged) }
    } else if s.version < MIN_SUPPORTED_VERSION {
        RunModel { store: s, result: Err(MigrationError::UnsupportedVersion { found: s.version }) }
    } else {
        let s5 = joined_model(double_sep_model(media_model(steps_model(s))));
        if !s5.sentinels.referenced_separator && !all_values_empty(s5.referenced_events) {
            RunModel { store: s5, result: Err(MigrationError::ValueShapeViolation) }
        } else if !s5.sentinels.referenced_separator && !all_keys_delimitable(
            s5.referenced_events,
        ) {
            RunModel { store: s5, result: Err(MigrationError::KeyShapeViolation) }
        } else {
            let s6 = referenced_model(s5);
            if known_good_version(s6.version) {
                RunModel { store: s6, result: Ok(migrate_report(s, cfg)) }
            } else {
                RunModel {
                    store: s6,
                    result: Err(MigrationError::VersionMismatch { found: s6.version }),
                }
            }
        }
    }
}

// ---------------------------------------------------------------------------
// The runner
// ---------------------------------------------------------------------------

/// The fresh path: write the latest schema version directly, pre-set the
/// backward-compatibility sentinels, and request the one-time bootstrap of
/// the administrative root user and room from the external admin
/// collaborator.
fn fresh(store: &mut Store) -> (report: Report)
    ensures
        final(store).model() == fresh_model(old(store).model()),
        report == fresh_report(),
{
    bump_version(store, LATEST_VERSION);
    store.sentinels.media_hashes = true;
    store.sentinels.state_cache_separator = true;
    store.sentinels.joined_counts = true;
    store.sentinels.referenced_separator = true;

    Report {
        fresh: true,
        admin_bootstrap_invocations: 1,
        media_migration_requested: false,
        media_checkup_requested: false,
        state_cache_visited: 0,
        state_cache_fixed: 0,
        referenced_visited: 0,
        referenced_fixed: 0,
        skipped_users: 0,
        forbidden_username_matches: 0,
        forbidden_alias_rooms: 0,
    }
}

/// The migrate path: the ordered schema steps, the sentinel-gated repairs,
/// the final version assertion and the observability scans.
fn migrate(store: &mut Store, cfg: &Config) -> (r: Result<Report, MigrationError>)
    requires
        old(store).users@.len() > 0,
        names_model(old(store).users@).contains(cfg.server_user@),
    ensures
        final(store).model() == run_model(old(store).model(), cfg.model()).store,
        r == run_model(old(store).model(), cfg.model()).result,
{
    let ghost s0 = old(store).model();

    if store.version < MIN_SUPPORTED_VERSION {
        return Err(MigrationError::UnsupportedVersion { found: store.version });
    }

    // Schema steps, strictly in ascending version order; each step bumps the
    // version exactly once, after processing all users.
    if store.version < 12 {
        apply_rename_step(&mut store.account_data, &store.users);
        bump_version(store, 12);
    }
    if store.version < 13 {
        apply_merge_step(&mut store.account_data, &store.users);
        bump_version(store, 13);
    }
    assert(store.model() == steps_model(s0));
    let ghost s2 = steps_model(s0);

    // Feature repairs, each independently gated by its sentinel.
    let mut media_migration_requested = false;
    let mut media_checkup_requested = false;
    if !store.sentinels.media_hashes {
        // The external media collaborator migrates its content hashes and
        // records completion durably.
        media_migration_requested = true;
        store.sentinels.media_hashes = true;
    } else if cfg.media_startup_check {
        media_checkup_requested = true;
    }
    assert(store.model() == media_model(s2));
    let ghost s3 = media_model(s2);

    let mut state_cache_visited: usize = 0;
    let mut state_cache_fixed: usize = 0;
    if !store.sentinels.state_cache_separator {
        state_cache_visited = store.state_cache.len();
        state_cache_fixed = fix_double_separator(&mut store.state_cache);
        store.sentinels.state_cache_separator = true;
    }
    assert(store.model() == double_sep_model(s3));
    let ghost s4 = double_sep_model(s3);

    if !store.sentinels.joined_counts {
        reconcile_rooms(&mut store.rooms);
        store.sentinels.joined_counts = true;
    }
    assert(store.model() == joined_model(s4));
    let ghost s5 = joined_model(s4);

    let mut referenced_visited: usize = 0;
    let mut referenced_fixed: usize = 0;
    if !store.sentinels.referenced_separator {
        match fix_missing_separator(&mut store.referenced_events) {
            Ok(counts) => {
                referenced_visited = counts.0;
                referenced_fixed = counts.1;
                store.sentinels.referenced_separator = true;
            },
            Err(e) => {
                assert(store.model() == s5);
                return Err(e);
            },
        }
    }
    assert(store.model() == referenced_model(s5));
    let ghost s6 = referenced_model(s5);

    // Final version assertion: the stored version must now be one of the
    // known-good versions; anything else is a missing or miscounted step.
    let v = read_version(store);
    if !(v == LATEST_VERSION || v == COMPAT_VERSION) {
        return Err(MigrationError::VersionMismatch { found: v });
    }

    // Observability: forbidden-username and forbidden-alias scans.  Matches
    // are reported only; they never block startup or mutate data.
    let skipped_users = scan_invalid_users(&store.users);
    let forbidden_username_matches = scan_forbidden(&store.users, &cfg.forbidden_usernames);
    let forbidden_alias_rooms = scan_forbidden_aliases(&store.rooms, &cfg.forbidden_aliases);

    let report = Report {
        fresh: false,
        admin_bootstrap_invocations: 0,
        media_migration_requested,
        media_checkup_requested,
        state_cache_visited,
        state_cache_fixed,
        referenced_visited,
        referenced_fixed,
        skipped_users,
        forbidden_username_matches,
        forbidden_alias_rooms,
    };
    assert(report == migrate_report(s0, cfg.model()));
    Ok(report)
}

/// The startup run: choose the fresh or migrate path, bring the schema
/// forward, run the gated repairs, assert the final version, and scan for
/// forbidden names.  The effect on the store and the result are exactly
/// [`run_model`] of the initial store and the configuration.
pub fn run(store: &mut Store, cfg: &Config) -> (r: Result<Report, MigrationError>)
    ensures
        final(store).model() == run_model(old(store).model(), cfg.model()).store,
        r == run_model(old(store).model(), cfg.model()).result,
{
    let users_count = store.users.len();

    // Resource ownership is derived from the server identity; reusing a
    // non-empty store under a different identity is refused outright.
    if users_count > 0 {
        if !contains_user(&store.users, &cfg.server_user) {
            return Err(MigrationError::ServerIdentityChanged);
        }
    }

    if users_count > 0 {
        migrate(store, cfg)
    } else {
        Ok(fresh(store))
    }
}

// ---------------------------------------------------------------------------
// Laws
// ---------------------------------------------------------------------------

/// Monotonicity: the stored schema version never decreases across any
/// sequence of runs.  The one excluded corner is a store that has no users
/// but already carries a version above the latest one: the fresh path
/// rewrites the latest version directly.  A store produced by a run never
/// exhibits that corner, so induction over a sequence of runs goes through.
pub proof fn lemma_version_monotonic(s: StoreModel, cfg: ConfigModel)
    requires
        s.users.len() == 0 ==> s.version <= LATEST_VERSION,
    ensures
        run_model(s, cfg).store.version >= s.version,
        run_model(s, cfg).store.users.len() == 0 ==> run_model(s, cfg).store.version
            <= LATEST_VERSION,
{
}

/// Idempotence: a second run on the store a successful run produced
/// succeeds and performs zero mutations — every version gate and sentinel
/// gate is already satisfied.
pub proof fn lemma_run_idempotent(s: StoreModel, cfg: ConfigModel)
    requires
        (run_model(s, cfg).result is Ok),
    ensures
        run_model(run_model(s, cfg).store, cfg).store == run_model(s, cfg).store,
        (run_model(run_model(s, cfg).store, cfg).result is Ok),
{
    let s1 = run_model(s, cfg).store;
    if s.users.len() == 0 {
        assert(run_model(s1, cfg).store == s1);
    } else {
        assert(s1.users == s.users);
        assert(run_model(s1, cfg).store == s1);
    }
}

} // verus!
