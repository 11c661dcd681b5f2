//! End-to-end scenarios for the startup migration runner.

use startup_integrity::store::{
    AccountRecord, Config, MemberEntry, MigrationError, PushRule, RawRecord, Room, Ruleset,
    Sentinels, Store,
};
use startup_integrity::runner::run;
use startup_integrity::{COMPAT_VERSION, LATEST_VERSION};

fn empty_config() -> Config {
    Config {
        server_user: "server".to_owned(),
        database_backend: "memory".to_owned(),
        media_startup_check: false,
        forbidden_usernames: Vec::new(),
        forbidden_aliases: Vec::new(),
    }
}

fn sentinels(media: bool, state_cache: bool, joined: bool, referenced: bool) -> Sentinels {
    Sentinels {
        media_hashes: media,
        state_cache_separator: state_cache,
        joined_counts: joined,
        referenced_separator: referenced,
    }
}

fn empty_store() -> Store {
    Store {
        version: 0,
        sentinels: sentinels(false, false, false, false),
        users: Vec::new(),
        account_data: Vec::new(),
        state_cache: Vec::new(),
        referenced_events: Vec::new(),
        rooms: Vec::new(),
    }
}

/// A settled store with one user, at the latest version, all sentinels set.
fn settled_store() -> Store {
    let mut s = empty_store();
    s.version = LATEST_VERSION;
    s.sentinels = sentinels(true, true, true, true);
    s.users.push("server".to_owned());
    s
}

#[test]
fn fresh_store_initializes_at_latest_version() {
    let mut s = empty_store();
    let r = run(&mut s, &empty_config()).unwrap();
    assert_eq!(s.version, LATEST_VERSION);
    assert!(r.fresh);
    assert_eq!(r.admin_bootstrap_invocations, 1);
    // Every backward-compatibility sentinel is pre-set: there is no data
    // to repair in an empty store.
    assert!(s.sentinels.media_hashes);
    assert!(s.sentinels.state_cache_separator);
    assert!(s.sentinels.joined_counts);
    assert!(s.sentinels.referenced_separator);
}

#[test]
fn fresh_store_run_is_idempotent() {
    let mut s = empty_store();
    run(&mut s, &empty_config()).unwrap();
    let after_first = s.clone();
    let r = run(&mut s, &empty_config()).unwrap();
    assert_eq!(s, after_first);
    assert!(r.fresh);
}

#[test]
fn unsupported_version_is_fatal_and_writes_nothing() {
    let mut s = settled_store();
    s.version = 10;
    let before = s.clone();
    let r = run(&mut s, &empty_config());
    assert_eq!(r, Err(MigrationError::UnsupportedVersion { found: 10 }));
    assert_eq!(s, before);
}

#[test]
fn changed_server_identity_is_fatal_and_writes_nothing() {
    let mut s = settled_store();
    let mut cfg = empty_config();
    cfg.server_user = "other".to_owned();
    let before = s.clone();
    let r = run(&mut s, &cfg);
    assert_eq!(r, Err(MigrationError::ServerIdentityChanged));
    assert_eq!(s, before);
}

#[test]
fn version_mismatch_after_all_work_is_fatal() {
    let mut s = settled_store();
    s.version = 14;
    let r = run(&mut s, &empty_config());
    assert_eq!(r, Err(MigrationError::VersionMismatch { found: 14 }));
    assert_eq!(s.version, 14);
}

#[test]
fn compat_version_is_accepted_as_final() {
    let mut s = settled_store();
    s.version = COMPAT_VERSION;
    let r = run(&mut s, &empty_config());
    assert!(r.is_ok());
    assert_eq!(s.version, COMPAT_VERSION);
}

#[test]
fn doubled_separator_key_is_repaired() {
    let mut s = settled_store();
    s.sentinels.state_cache_separator = false;
    s.state_cache.push(RawRecord { key: vec![0x41, 0xFF, 0xFF, 0x42], value: vec![0x01] });
    let r = run(&mut s, &empty_config()).unwrap();
    assert_eq!(s.state_cache.len(), 1);
    assert_eq!(s.state_cache[0].key, vec![0x41, 0xFF, 0x42]);
    assert_eq!(s.state_cache[0].value, vec![0x01]);
    assert_eq!(r.state_cache_visited, 1);
    assert_eq!(r.state_cache_fixed, 1);
    assert!(s.sentinels.state_cache_separator);
}

#[test]
fn well_formed_state_cache_keys_are_untouched() {
    let mut s = settled_store();
    s.sentinels.state_cache_separator = false;
    s.state_cache.push(RawRecord { key: vec![0x41, 0xFF, 0x42], value: vec![0x02] });
    s.state_cache.push(RawRecord { key: vec![0x43, 0x44], value: vec![0x03] });
    let r = run(&mut s, &empty_config()).unwrap();
    assert_eq!(s.state_cache[0].key, vec![0x41, 0xFF, 0x42]);
    assert_eq!(s.state_cache[1].key, vec![0x43, 0x44]);
    assert_eq!(r.state_cache_visited, 2);
    assert_eq!(r.state_cache_fixed, 0);
}

#[test]
fn missing_separator_key_is_repaired() {
    let mut s = settled_store();
    s.sentinels.referenced_separator = false;
    s.referenced_events.push(RawRecord {
        key: b"!room:example.com$eventid".to_vec(),
        value: Vec::new(),
    });
    let r = run(&mut s, &empty_config()).unwrap();
    let mut expected = b"!room:example.com".to_vec();
    expected.push(0xFF);
    expected.extend_from_slice(b"$eventid");
    assert_eq!(s.referenced_events.len(), 1);
    assert_eq!(s.referenced_events[0].key, expected);
    assert!(s.referenced_events[0].value.is_empty());
    assert_eq!(r.referenced_visited, 1);
    assert_eq!(r.referenced_fixed, 1);
    assert!(s.sentinels.referenced_separator);
}

#[test]
fn already_delimited_referenced_key_is_counted_but_untouched() {
    let mut s = settled_store();
    s.sentinels.referenced_separator = false;
    let mut good = b"!room:example.com".to_vec();
    good.push(0xFF);
    good.extend_from_slice(b"$other");
    s.referenced_events.push(RawRecord { key: good.clone(), value: Vec::new() });
    s.referenced_events.push(RawRecord {
        key: b"!room:example.com$eventid".to_vec(),
        value: Vec::new(),
    });
    let r = run(&mut s, &empty_config()).unwrap();
    assert_eq!(s.referenced_events[0].key, good);
    assert_eq!(r.referenced_visited, 2);
    assert_eq!(r.referenced_fixed, 1);
}

#[test]
fn non_empty_referenced_value_is_fatal() {
    let mut s = settled_store();
    s.sentinels.referenced_separator = false;
    s.referenced_events.push(RawRecord {
        key: b"!room:example.com$eventid".to_vec(),
        value: vec![0x09],
    });
    let before_table = s.referenced_events.clone();
    let r = run(&mut s, &empty_config());
    assert_eq!(r, Err(MigrationError::ValueShapeViolation));
    assert_eq!(s.referenced_events, before_table);
    assert!(!s.sentinels.referenced_separator);
}

#[test]
fn undelimitable_referenced_key_is_fatal() {
    let mut s = settled_store();
    s.sentinels.referenced_separator = false;
    s.referenced_events.push(RawRecord { key: b"plain".to_vec(), value: Vec::new() });
    let before_table = s.referenced_events.clone();
    let r = run(&mut s, &empty_config());
    assert_eq!(r, Err(MigrationError::KeyShapeViolation));
    assert_eq!(s.referenced_events, before_table);
    assert!(!s.sentinels.referenced_separator);
}

#[test]
fn reconciler_restores_markers_and_counter() {
    let mut s = settled_store();
    s.sentinels.joined_counts = false;
    s.rooms.push(Room {
        room_id: "!r:example.com".to_owned(),
        aliases: Vec::new(),
        members: vec![
            MemberEntry {
                user_id: "alice".to_owned(),
                cached_joined: false,
                auth_joined: true,
            },
            MemberEntry { user_id: "bob".to_owned(), cached_joined: true, auth_joined: false },
            MemberEntry {
                user_id: "carol".to_owned(),
                cached_joined: true,
                auth_joined: true,
            },
        ],
        joined_count: 99,
    });
    run(&mut s, &empty_config()).unwrap();
    let room = &s.rooms[0];
    assert!(room.members[0].cached_joined);
    // The "not joined" bucket is the negation of the "joined" predicate:
    // a user whose authoritative state is not a join is marked as left.
    assert!(!room.members[1].cached_joined);
    assert!(room.members[2].cached_joined);
    assert_eq!(room.joined_count, 2);
    assert!(s.sentinels.joined_counts);
}

#[test]
fn full_run_is_idempotent_on_a_dirty_store() {
    let mut s = settled_store();
    s.version = 11;
    s.sentinels = sentinels(false, false, false, false);
    s.users.push("alice".to_owned());
    s.account_data.push(AccountRecord {
        user_id: "alice".to_owned(),
        rules: Ruleset {
            content: vec![PushRule {
                rule_id: ".m.rules.contains_user_name".to_owned(),
                server_default: true,
                enabled: false,
                actions: 7,
                conditions: 99,
            }],
            underride: Vec::new(),
        },
    });
    s.state_cache.push(RawRecord { key: vec![0x41, 0xFF, 0xFF, 0x42], value: vec![0x01] });
    s.referenced_events.push(RawRecord {
        key: b"!room:example.com$eventid".to_vec(),
        value: Vec::new(),
    });
    s.rooms.push(Room {
        room_id: "!r:example.com".to_owned(),
        aliases: Vec::new(),
        members: vec![MemberEntry {
            user_id: "alice".to_owned(),
            cached_joined: false,
            auth_joined: true,
        }],
        joined_count: 0,
    });

    let r1 = run(&mut s, &empty_config());
    assert!(r1.is_ok());
    let after_first = s.clone();

    let r2 = run(&mut s, &empty_config()).unwrap();
    assert_eq!(s, after_first);
    assert_eq!(r2.state_cache_visited, 0);
    assert_eq!(r2.state_cache_fixed, 0);
    assert_eq!(r2.referenced_visited, 0);
    assert_eq!(r2.referenced_fixed, 0);
    assert!(!r2.media_migration_requested);
}

#[test]
fn version_never_decreases_across_runs() {
    let mut s = settled_store();
    s.version = 11;
    s.sentinels = sentinels(true, true, true, true);
    let v0 = s.version;
    run(&mut s, &empty_config()).unwrap();
    let v1 = s.version;
    assert!(v1 >= v0);
    run(&mut s, &empty_config()).unwrap();
    assert!(s.version >= v1);
    assert_eq!(s.version, LATEST_VERSION);
}

#[test]
fn media_migration_requested_once_then_checkup_on_demand() {
    let mut s = settled_store();
    s.sentinels.media_hashes = false;
    let mut cfg = empty_config();
    cfg.media_startup_check = true;
    let r1 = run(&mut s, &cfg).unwrap();
    assert!(r1.media_migration_requested);
    assert!(!r1.media_checkup_requested);
    let r2 = run(&mut s, &cfg).unwrap();
    assert!(!r2.media_migration_requested);
    assert!(r2.media_checkup_requested);
}

#[test]
fn forbidden_names_are_reported_not_enforced() {
    let mut s = settled_store();
    s.users.push("admin".to_owned());
    s.users.push("alice".to_owned());
    s.rooms.push(Room {
        room_id: "!r:example.com".to_owned(),
        aliases: vec!["#bad".to_owned(), "#fine".to_owned()],
        members: Vec::new(),
        joined_count: 0,
    });
    let before_users = s.users.clone();
    let mut cfg = empty_config();
    cfg.forbidden_usernames = vec!["admin".to_owned()];
    cfg.forbidden_aliases = vec!["#bad".to_owned()];
    let r = run(&mut s, &cfg).unwrap();
    assert_eq!(r.forbidden_username_matches, 1);
    assert_eq!(r.forbidden_alias_rooms, 1);
    assert_eq!(s.users, before_users);
}
