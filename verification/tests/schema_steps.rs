//! Component-level tests for the schema-step transformations, the key
//! repairs and the identifier parser, called directly.

use startup_integrity::ident::parse_localpart;
use startup_integrity::keyfix::{fix_double_separator, fix_missing_separator};
use startup_integrity::membership::reconcile_rooms;
use startup_integrity::rules::{
    rename_legacy_rules, rename_rule, server_default_ruleset, update_with_server_defaults,
};
use startup_integrity::runner::run;
use startup_integrity::store::{
    AccountRecord, Config, PushRule, RawRecord, Room, Ruleset, Sentinels, Store,
};
use startup_integrity::LATEST_VERSION;

fn rule(id: &str, server_default: bool, enabled: bool, actions: u64, conditions: u64) -> PushRule {
    PushRule { rule_id: id.to_owned(), server_default, enabled, actions, conditions }
}

#[test]
fn rename_moves_rule_to_end_under_new_identifier() {
    let mut rules = vec![
        rule(".m.rules.call", true, false, 7, 99),
        rule("other", false, true, 1, 1),
    ];
    rename_rule(&mut rules, &".m.rules.call".to_owned(), &".m.rule.call".to_owned());
    assert_eq!(rules.len(), 2);
    assert_eq!(rules[0].rule_id, "other");
    assert_eq!(rules[1].rule_id, ".m.rule.call");
    // All other fields of the renamed rule are preserved.
    assert!(rules[1].server_default);
    assert!(!rules[1].enabled);
    assert_eq!(rules[1].actions, 7);
    assert_eq!(rules[1].conditions, 99);
}

#[test]
fn rename_without_a_match_changes_nothing() {
    let mut rules = vec![rule("other", false, true, 1, 1)];
    let before = rules.clone();
    rename_rule(&mut rules, &".m.rules.call".to_owned(), &".m.rule.call".to_owned());
    assert_eq!(rules, before);
}

#[test]
fn rename_onto_an_existing_identifier_only_removes_the_old_entry() {
    let mut rules = vec![
        rule(".m.rules.call", true, false, 7, 99),
        rule(".m.rule.call", true, true, 8, 100),
    ];
    rename_rule(&mut rules, &".m.rules.call".to_owned(), &".m.rule.call".to_owned());
    assert_eq!(rules.len(), 1);
    assert_eq!(rules[0].rule_id, ".m.rule.call");
    assert_eq!(rules[0].actions, 8);
}

#[test]
fn legacy_rename_table_covers_content_and_underride() {
    let mut rs = Ruleset {
        content: vec![rule(".m.rules.contains_user_name", true, true, 1, 1)],
        underride: vec![
            rule(".m.rules.call", true, true, 2, 2),
            rule(".m.rules.room_one_to_one", true, true, 3, 3),
            rule(".m.rules.encrypted_room_one_to_one", true, true, 4, 4),
            rule(".m.rules.message", true, true, 5, 5),
            rule(".m.rules.encrypted", true, true, 6, 6),
        ],
    };
    rename_legacy_rules(&mut rs);
    assert_eq!(rs.content[0].rule_id, ".m.rule.contains_user_name");
    let ids: Vec<&str> = rs.underride.iter().map(|r| r.rule_id.as_str()).collect();
    assert_eq!(
        ids,
        vec![
            ".m.rule.call",
            ".m.rule.room_one_to_one",
            ".m.rule.encrypted_room_one_to_one",
            ".m.rule.message",
            ".m.rule.encrypted",
        ]
    );
}

#[test]
fn merge_refreshes_definitions_and_keeps_customizations() {
    let defaults = server_default_ruleset();
    let mut rs = Ruleset {
        content: vec![rule(".m.rule.contains_user_name", true, false, 7, 99)],
        underride: vec![rule("my.custom", false, true, 11, 12)],
    };
    update_with_server_defaults(&mut rs);

    // The stored default rule is refreshed to the server definition while
    // the user's enabled/actions customizations win.
    assert_eq!(rs.content.len(), 1);
    assert_eq!(rs.content[0].rule_id, ".m.rule.contains_user_name");
    assert!(!rs.content[0].enabled);
    assert_eq!(rs.content[0].actions, 7);
    assert_eq!(rs.content[0].conditions, defaults.content[0].conditions);

    // The user-authored rule survives first; the missing defaults are
    // appended after it.
    assert_eq!(rs.underride.len(), defaults.underride.len() + 1);
    assert_eq!(rs.underride[0].rule_id, "my.custom");
    assert_eq!(rs.underride[0].actions, 11);
    assert!(!rs.underride[0].server_default);
    for (i, d) in defaults.underride.iter().enumerate() {
        assert_eq!(rs.underride[i + 1].rule_id, d.rule_id);
        assert_eq!(rs.underride[i + 1].conditions, d.conditions);
        assert!(rs.underride[i + 1].enabled);
    }
}

#[test]
fn merge_drops_stale_server_default_rules() {
    // A stored server-default rule that no longer exists among the defaults
    // is not carried over.
    let mut rs = Ruleset {
        content: Vec::new(),
        underride: vec![rule(".m.rule.obsolete", true, true, 1, 1)],
    };
    update_with_server_defaults(&mut rs);
    assert!(rs.underride.iter().all(|r| r.rule_id != ".m.rule.obsolete"));
}

#[test]
fn localpart_parsing_accepts_the_historical_alphabet() {
    assert!(parse_localpart(&"alice".to_owned()));
    assert!(parse_localpart(&"a.b_c=d-e/f+9".to_owned()));
    // Historical identifiers cover all printable ASCII except the colon.
    assert!(parse_localpart(&"Alice".to_owned()));
    assert!(!parse_localpart(&"".to_owned()));
    assert!(!parse_localpart(&"al ice".to_owned()));
    assert!(!parse_localpart(&"bad:name".to_owned()));
    assert!(!parse_localpart(&"@alice:example.com".to_owned()));
}

#[test]
fn unparseable_user_is_skipped_by_schema_steps() {
    let mut s = Store {
        version: 11,
        sentinels: Sentinels {
            media_hashes: true,
            state_cache_separator: true,
            joined_counts: true,
            referenced_separator: true,
        },
        users: vec!["server".to_owned(), "Bad User".to_owned()],
        account_data: vec![AccountRecord {
            user_id: "Bad User".to_owned(),
            rules: Ruleset {
                content: vec![rule(".m.rules.contains_user_name", true, true, 1, 1)],
                underride: Vec::new(),
            },
        }],
        state_cache: Vec::new(),
        referenced_events: Vec::new(),
        rooms: Vec::new(),
    };
    let cfg = Config {
        server_user: "server".to_owned(),
        database_backend: "memory".to_owned(),
        media_startup_check: false,
        forbidden_usernames: Vec::new(),
        forbidden_aliases: Vec::new(),
    };
    let r = run(&mut s, &cfg).unwrap();
    // The record of the unparseable user is untouched; the batch still
    // completes and the version still advances.
    assert_eq!(s.account_data[0].rules.content[0].rule_id, ".m.rules.contains_user_name");
    assert_eq!(s.version, LATEST_VERSION);
    assert_eq!(r.skipped_users, 1);
}

#[test]
fn double_separator_pass_reports_fix_count() {
    let mut table = vec![
        RawRecord { key: vec![0x01, 0xFF, 0xFF, 0x02], value: vec![0xAA] },
        RawRecord { key: vec![0x03, 0xFF, 0x04], value: vec![0xBB] },
        RawRecord { key: vec![0x05, 0xFF, 0xFF, 0xFF], value: vec![0xCC] },
    ];
    let fixed = fix_double_separator(&mut table);
    assert_eq!(fixed, 2);
    assert_eq!(table[0].key, vec![0x01, 0xFF, 0x02]);
    assert_eq!(table[1].key, vec![0x03, 0xFF, 0x04]);
    // Only the duplicate directly after the first separator is deleted.
    assert_eq!(table[2].key, vec![0x05, 0xFF, 0xFF]);
    assert_eq!(table[0].value, vec![0xAA]);
}

#[test]
fn doubled_separator_at_the_very_front_is_repaired() {
    let mut table = vec![RawRecord { key: vec![0xFF, 0xFF], value: Vec::new() }];
    let fixed = fix_double_separator(&mut table);
    assert_eq!(fixed, 1);
    assert_eq!(table[0].key, vec![0xFF]);
}

#[test]
fn sigil_at_the_very_front_splits_into_empty_prefix() {
    let mut table = vec![RawRecord { key: b"$e".to_vec(), value: Vec::new() }];
    let r = fix_missing_separator(&mut table).unwrap();
    assert_eq!(r, (1, 1));
    assert_eq!(table[0].key, vec![0xFF, b'$', b'e']);
}

#[test]
fn referenced_key_without_sigil_or_separator_is_fatal() {
    // The component boundary of such a key cannot be recovered, so the
    // table's post-repair invariant would be unattainable.
    let mut table = vec![RawRecord { key: b"plain".to_vec(), value: Vec::new() }];
    let before = table.clone();
    let r = fix_missing_separator(&mut table);
    assert!(r.is_err());
    assert_eq!(table, before);
}

#[test]
fn missing_separator_pass_rejects_non_empty_values() {
    let mut table = vec![RawRecord { key: b"!r$e".to_vec(), value: vec![1] }];
    let before = table.clone();
    let r = fix_missing_separator(&mut table);
    assert!(r.is_err());
    assert_eq!(table, before);
}

#[test]
fn missing_separator_pass_splits_at_the_first_sigil() {
    let mut table = vec![RawRecord { key: b"!r:x$e$f".to_vec(), value: Vec::new() }];
    let r = fix_missing_separator(&mut table).unwrap();
    assert_eq!(r, (1, 1));
    let mut expected = b"!r:x".to_vec();
    expected.push(0xFF);
    expected.extend_from_slice(b"$e$f");
    assert_eq!(table[0].key, expected);
}

#[test]
fn reconcile_rooms_called_directly_fixes_every_room() {
    let mut rooms = vec![
        Room {
            room_id: "!a:x".to_owned(),
            aliases: Vec::new(),
            members: vec![startup_integrity::store::MemberEntry {
                user_id: "u1".to_owned(),
                cached_joined: true,
                auth_joined: false,
            }],
            joined_count: 1,
        },
        Room {
            room_id: "!b:x".to_owned(),
            aliases: Vec::new(),
            members: vec![startup_integrity::store::MemberEntry {
                user_id: "u2".to_owned(),
                cached_joined: false,
                auth_joined: true,
            }],
            joined_count: 0,
        },
    ];
    reconcile_rooms(&mut rooms);
    assert!(!rooms[0].members[0].cached_joined);
    assert_eq!(rooms[0].joined_count, 0);
    assert!(rooms[1].members[0].cached_joined);
    assert_eq!(rooms[1].joined_count, 1);
}
