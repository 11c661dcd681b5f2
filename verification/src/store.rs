//! The in-memory model of the persistent store and its run-time companions.
//!
//! The physical storage engine is an external collaborator; this layer sees
//! it only as a value of [`Store`]: a schema version, the set of repair
//! sentinels, the local user list, per-user push-rule account data, two raw
//! byte-keyed tables and the per-room membership cache.  Every component of
//! the migration runner is specified against the mathematical models
//! ([`StoreModel`] and friends) derived from these values.

use vstd::prelude::*;

verus! {

// ---------------------------------------------------------------------------
// Raw byte-keyed records
// ---------------------------------------------------------------------------

/// An opaque (key, value) pair in a raw byte-keyed table.  Composite keys
/// separate their components with [`crate::keyfix::SEPARATOR`], or, in one
/// legacy table, rely on a leading sigil character instead.
#[derive(Clone, Debug, PartialEq, Eq)]
pub struct RawRecord {
    pub key: Vec<u8>,
    pub value: Vec<u8>,
}

/// Model of a raw record: key and value as byte sequences.
pub struct RawModel {
    pub key: Seq<u8>,
    pub value: Seq<u8>,
}

impl RawRecord {
    pub open spec fn model(&self) -> RawModel {
        RawModel { key: self.key@, value: self.value@ }
    }
}

/// Model of a whole raw table, record by record.
pub open spec fn raw_table_model(t: Seq<RawRecord>) -> Seq<RawModel> {
    t.map(|i: int, r: RawRecord| r.model())
}

// ---------------------------------------------------------------------------
// Push-rule account data
// ---------------------------------------------------------------------------

/// One push rule of a user's ruleset.  `actions` and `enabled` carry the
/// user-visible settings a user may have customized; `conditions` stands for
/// the server-defined definition of the rule; `server_default` marks rules
/// that came from the server-provided default ruleset.
#[derive(Clone, Debug, PartialEq, Eq)]
pub struct PushRule {
    pub rule_id: String,
    pub server_default: bool,
    pub enabled: bool,
    pub actions: u64,
    pub conditions: u64,
}

/// Model of a push rule, with the identifier as a character sequence.
pub struct RuleModel {
    pub rule_id: Seq<char>,
    pub server_default: bool,
    pub enabled: bool,
    pub actions: u64,
    pub conditions: u64,
}

impl PushRule {
    pub open spec fn model(&self) -> RuleModel {
        RuleModel {
            rule_id: self.rule_id@,
            server_default: self.server_default,
            enabled: self.enabled,
            actions: self.actions,
            conditions: self.conditions,
        }
    }
}

/// A user's ruleset: the two rule lists the schema steps operate on.
/// Both are ordered lists with stable rule identifiers.
#[derive(Clone, Debug, PartialEq, Eq)]
pub struct Ruleset {
    pub content: Vec<PushRule>,
    pub underride: Vec<PushRule>,
}

pub struct RulesetModel {
    pub content: Seq<RuleModel>,
    pub underride: Seq<RuleModel>,
}

pub open spec fn rule_list_model(l: Seq<PushRule>) -> Seq<RuleModel> {
    l.map(|i: int, r: PushRule| r.model())
}

impl Ruleset {
    pub open spec fn model(&self) -> RulesetModel {
        RulesetModel {
            content: rule_list_model(self.content@),
            underride: rule_list_model(self.underride@),
        }
    }
}

/// A local user's push-rule account-data record.
#[derive(Clone, Debug, PartialEq, Eq)]
pub struct AccountRecord {
    pub user_id: String,
    pub rules: Ruleset,
}

pub struct AccountModel {
    pub user_id: Seq<char>,
    pub rules: RulesetModel,
}

impl AccountRecord {
    pub open spec fn model(&self) -> AccountModel {
        AccountModel { user_id: self.user_id@, rules: self.rules.model() }
    }
}

pub open spec fn account_table_model(t: Seq<AccountRecord>) -> Seq<AccountModel> {
    t.map(|i: int, r: AccountRecord| r.model())
}

// ---------------------------------------------------------------------------
// Membership cache
// ---------------------------------------------------------------------------

/// One user ever cached as a member of a room: the cached "joined" marker
/// and the authoritative current membership state for that (room, user).
#[derive(Clone, Debug, PartialEq, Eq)]
pub struct MemberEntry {
    pub user_id: String,
    /// Cached marker: `true` for joined, `false` for left.
    pub cached_joined: bool,
    /// Authoritative state: `true` iff the current membership event for this
    /// (room, user) exists and is a join.
    pub auth_joined: bool,
}

pub struct MemberModel {
    pub user_id: Seq<char>,
    pub cached_joined: bool,
    pub auth_joined: bool,
}

impl MemberEntry {
    pub open spec fn model(&self) -> MemberModel {
        MemberModel {
            user_id: self.user_id@,
            cached_joined: self.cached_joined,
            auth_joined: self.auth_joined,
        }
    }
}

/// A room's slice of the membership cache: its cached members and the cached
/// joined-member counter, plus the room's local aliases (read only by the
/// forbidden-alias scan).
#[derive(Clone, Debug, PartialEq, Eq)]
pub struct Room {
    pub room_id: String,
    pub aliases: Vec<String>,
    pub members: Vec<MemberEntry>,
    pub joined_count: u64,
}

pub struct RoomModel {
    pub room_id: Seq<char>,
    pub aliases: Seq<Seq<char>>,
    pub members: Seq<MemberModel>,
    pub joined_count: u64,
}

impl Room {
    pub open spec fn model(&self) -> RoomModel {
        RoomModel {
            room_id: self.room_id@,
            aliases: names_model(self.aliases@),
            members: self.members@.map(|i: int, m: MemberEntry| m.model()),
            joined_count: self.joined_count,
        }
    }
}

pub open spec fn room_table_model(t: Seq<Room>) -> Seq<RoomModel> {
    t.map(|i: int, r: Room| r.model())
}

// ---------------------------------------------------------------------------
// Version and sentinels
// ---------------------------------------------------------------------------

/// Presence of each feature-repair sentinel in the global table.  A sentinel
/// is present iff its repair has run to completion for the entire dataset;
/// absence is the sole trigger to run the repair.
#[derive(Clone, Copy, Debug, PartialEq, Eq, Structural)]
pub struct Sentinels {
    /// The media content-hash migration has completed (its data lives with
    /// the external media collaborator).
    pub media_hashes: bool,
    /// The doubled-separator repair of the membership state-cache table ran.
    pub state_cache_separator: bool,
    /// The membership-cache reconciliation ran.
    pub joined_counts: bool,
    /// The missing-separator repair of the referenced-events table ran.
    pub referenced_separator: bool,
}

// ---------------------------------------------------------------------------
// The store
// ---------------------------------------------------------------------------

/// The whole store, loaded once at startup and threaded explicitly through
/// the migration runner.  `version == 0` stands for an absent version key,
/// i.e. a brand-new store.
#[derive(Clone, Debug, PartialEq, Eq)]
pub struct Store {
    pub version: u64,
    pub sentinels: Sentinels,
    /// Local usernames (localparts).
    pub users: Vec<String>,
    /// Per-user push-rule account data.
    pub account_data: Vec<AccountRecord>,
    /// The raw (room, user) joined state-cache table, separator-delimited.
    pub state_cache: Vec<RawRecord>,
    /// The raw referenced-events table, legacy sigil-delimited keys.
    pub referenced_events: Vec<RawRecord>,
    /// Per-room membership cache and aliases.
    pub rooms: Vec<Room>,
}

/// Mathematical model of the store.
pub struct StoreModel {
    pub version: u64,
    pub sentinels: Sentinels,
    pub users: Seq<Seq<char>>,
    pub account_data: Seq<AccountModel>,
    pub state_cache: Seq<RawModel>,
    pub referenced_events: Seq<RawModel>,
    pub rooms: Seq<RoomModel>,
}

/// Model of a list of names as character sequences.
pub open spec fn names_model(v: Seq<String>) -> Seq<Seq<char>> {
    v.map(|i: int, s: String| s@)
}

impl Store {
    pub open spec fn model(&self) -> StoreModel {
        StoreModel {
            version: self.version,
            sentinels: self.sentinels,
            users: names_model(self.users@),
            account_data: account_table_model(self.account_data@),
            state_cache: raw_table_model(self.state_cache@),
            referenced_events: raw_table_model(self.referenced_events@),
            rooms: room_table_model(self.rooms@),
        }
    }
}

// ---------------------------------------------------------------------------
// Configuration, report, errors
// ---------------------------------------------------------------------------

/// Startup configuration consumed by the runner.
#[derive(Clone, Debug)]
pub struct Config {
    /// The well-known system user derived from the server identity.  On a
    /// non-empty store its absence means the server identity changed.
    pub server_user: String,
    /// Storage-engine label, for operator-facing messages only; the runner
    /// never interprets it.
    pub database_backend: String,
    /// Whether to run the optional consistency re-check of the media
    /// migration when its sentinel is already present.
    pub media_startup_check: bool,
    /// Forbidden username patterns; matches are reported, never enforced.
    pub forbidden_usernames: Vec<String>,
    /// Forbidden room-alias patterns; matches are reported, never enforced.
    pub forbidden_aliases: Vec<String>,
}

pub struct ConfigModel {
    pub server_user: Seq<char>,
    pub media_startup_check: bool,
    pub forbidden_usernames: Seq<Seq<char>>,
    pub forbidden_aliases: Seq<Seq<char>>,
}

impl Config {
    pub open spec fn model(&self) -> ConfigModel {
        ConfigModel {
            server_user: self.server_user@,
            media_startup_check: self.media_startup_check,
            forbidden_usernames: names_model(self.forbidden_usernames@),
            forbidden_aliases: names_model(self.forbidden_aliases@),
        }
    }
}

/// What a successful run did: requests made of external collaborators and
/// the summary counts of the repair passes and observability scans.
#[derive(Clone, Copy, Debug, PartialEq, Eq, Structural)]
pub struct Report {
    /// The store was brand new and was initialized at the latest version.
    pub fresh: bool,
    /// How many times the external admin bootstrap was asked to create the
    /// root administrative room and system user.
    pub admin_bootstrap_invocations: u64,
    /// The external media migration was requested this run.
    pub media_migration_requested: bool,
    /// The optional media consistency re-check was requested this run.
    pub media_checkup_requested: bool,
    /// Records visited / fixed by the doubled-separator repair.
    pub state_cache_visited: usize,
    pub state_cache_fixed: usize,
    /// Records visited / fixed by the missing-separator repair.
    pub referenced_visited: usize,
    pub referenced_fixed: usize,
    /// Local usernames that do not parse as a valid localpart; any schema
    /// step skips such users.  Counted on every migrate-path run, whether
    /// or not a step ran this time.
    pub skipped_users: usize,
    /// Local users matching a forbidden username pattern (reported only).
    pub forbidden_username_matches: usize,
    /// Rooms with at least one local alias matching a forbidden alias
    /// pattern (reported only).
    pub forbidden_alias_rooms: usize,
}

/// Fatal startup errors: each aborts the run before the server serves
/// traffic.  No error here is ever shown to an end user.
#[derive(Clone, Copy, Debug, PartialEq, Eq, Structural)]
pub enum MigrationError {
    /// A non-empty store does not contain the well-known system user: the
    /// store is being reused under a different server identity.
    ServerIdentityChanged,
    /// The stored schema version predates the minimum supported one; no
    /// automatic upgrade path exists.
    UnsupportedVersion { found: u64 },
    /// After all migration work the stored version matched no known-good
    /// version: a missing or miscounted migration step.
    VersionMismatch { found: u64 },
    /// The missing-separator repair found a record with a non-empty value,
    /// violating the table's value-shape invariant.
    ValueShapeViolation,
    /// The missing-separator repair found a separator-less key without the
    /// sigil character, so the component boundary cannot be recovered; the
    /// table's post-repair invariant (every key properly delimited) would
    /// be unattainable.
    KeyShapeViolation,
}

} // verus!
