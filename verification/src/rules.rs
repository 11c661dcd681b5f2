//! Schema-step migrations over per-user push-rule account data.
//!
//! Each step iterates every local user, applies a pure transformation to
//! that user's ruleset and persists the result; a user whose identifier
//! does not parse is skipped.  Two transformations exist:
//!
//! * the rule-identifier rename of legacy rule names (the step targeting
//!   schema version 12), and
//! * the merge of the freshly computed server-default ruleset into the
//!   user's stored ruleset, refreshing server-defined rule definitions
//!   while preserving the user's own `enabled`/`actions` customizations and
//!   user-authored rules (the step targeting schema version 13).
//!
//! Rule lists are ordered with stable identifiers; a rename is performed as
//! remove-then-reinsert, so the renamed rule moves to the end of its list —
//! an accepted behaviour, not a defect.

use vstd::prelude::*;

use crate::ident::{contains_user, parse_localpart, valid_localpart};
use crate::store::{
    AccountModel, AccountRecord, PushRule, RuleModel, Ruleset, RulesetModel, account_table_model,
    names_model, rule_list_model,
};

verus! {

// ---------------------------------------------------------------------------
// Finding rules by identifier
// ---------------------------------------------------------------------------

/// Index of the first rule carrying `id`, or `-1` if absent.
pub open spec fn find_rule(rules: Seq<RuleModel>, id: Seq<char>) -> int
    decreases rules.len(),
{
    if rules.len() == 0 {
        -1
    } else if rules[0].rule_id == id {
        0
    } else {
        let t = find_rule(rules.skip(1), id);
        if t == -1 {
            -1
        } else {
            t + 1
        }
    }
}

pub open spec fn contains_rule(rules: Seq<RuleModel>, id: Seq<char>) -> bool {
    exists|i: int| 0 <= i < rules.len() && rules[i].rule_id == id
}

pub proof fn lemma_find_rule(rules: Seq<RuleModel>, id: Seq<char>)
    ensures
        find_rule(rules, id) == -1 <==> !contains_rule(rules, id),
        contains_rule(rules, id) ==> {
            let i = find_rule(rules, id);
            &&& 0 <= i < rules.len()
            &&& rules[i].rule_id == id
            &&& forall|j: int| 0 <= j < i ==> rules[j].rule_id != id
        },
    decreases rules.len(),
{
    if rules.len() != 0 && rules[0].rule_id != id {
        lemma_find_rule(rules.skip(1), id);
        assert(forall|j: int|
            0 <= j < rules.skip(1).len() ==> rules.skip(1)[j] == rules[j + 1]);
        if contains_rule(rules, id) {
            let w = choose|i: int| 0 <= i < rules.len() && rules[i].rule_id == id;
            assert(rules.skip(1)[w - 1].rule_id == id);
            assert(contains_rule(rules.skip(1), id));
            let t = find_rule(rules.skip(1), id);
            assert(rules[t + 1] == rules.skip(1)[t]);
            assert forall|j: int| 0 <= j < t + 1 implies rules[j].rule_id != id by {
                if j > 0 {
                    assert(rules[j] == rules.skip(1)[j - 1]);
                }
            }
        } else {
            if contains_rule(rules.skip(1), id) {
                let w = choose|i: int|
                    0 <= i < rules.skip(1).len() && rules.skip(1)[i].rule_id == id;
                assert(rules[w + 1].rule_id == id);
            }
        }
    }
}

/// Find the first rule carrying `id` in a rule list.
pub fn find_rule_index(rules: &Vec<PushRule>, id: &String) -> (r: Option<usize>)
    ensures
        match r {
            Some(i) => {
                &&& find_rule(rule_list_model(rules@), id@) == i as int
                &&& (i as int) < rules@.len()
                &&& rule_list_model(rules@)[i as int].rule_id == id@
                &&& contains_rule(rule_list_model(rules@), id@)
            },
            None => !contains_rule(rule_list_model(rules@), id@),
        },
{
    let ghost m = rule_list_model(rules@);
    let n = rules.len();
    let mut i: usize = 0;
    while i < n
        invariant
            i <= n,
            m.len() == n,
            forall|j: int| 0 <= j < i ==> (#[trigger] m[j]).rule_id != id@,
        decreases n - i,
    {
        proof {
            assert(m[i as int] == rules@[i as int].model());
        }
        if rules[i].rule_id == *id {
            proof {
                lemma_find_rule(m, id@);
                assert(contains_rule(m, id@));
                let fi = find_rule(m, id@);
                if fi < i as int {
                    assert(m[fi].rule_id != id@);
                }
            }
            return Some(i);
        }
        i += 1;
    }
    proof {
        if contains_rule(m, id@) {
            let w = choose|j: int| 0 <= j < m.len() && m[j].rule_id == id@;
            assert(m[w].rule_id != id@);
        }
    }
    None
}

/// Copy of a rule, field by field.
fn clone_rule(r: &PushRule) -> (c: PushRule)
    ensures
        c.model() == r.model(),
{
    PushRule {
        rule_id: r.rule_id.clone(),
        server_default: r.server_default,
        enabled: r.enabled,
        actions: r.actions,
        conditions: r.conditions,
    }
}

// ---------------------------------------------------------------------------
// Rule-identifier rename (step targeting version 12)
// ---------------------------------------------------------------------------

/// Rename the rule carrying `old_id` to `new_id`: the rule is removed and
/// reinserted at the end of the list under the new identifier, all other
/// fields preserved.  If no rule carries `old_id`, nothing changes; if some
/// other rule already carries `new_id`, the old entry is only removed, as
/// inserting a duplicate identifier into the keyed list is a no-op.
pub open spec fn rename_model(rules: Seq<RuleModel>, old_id: Seq<char>, new_id: Seq<char>) -> Seq<
    RuleModel,
> {
    if contains_rule(rules, old_id) {
        let i = find_rule(rules, old_id);
        let renamed = RuleModel { rule_id: new_id, ..rules[i] };
        let removed = rules.remove(i);
        if contains_rule(removed, new_id) {
            removed
        } else {
            removed.push(renamed)
        }
    } else {
        rules
    }
}

/// Apply one rename to a rule list in place.
pub fn rename_rule(rules: &mut Vec<PushRule>, old_id: &String, new_id: &String)
    ensures
        rule_list_model(final(rules)@) == rename_model(
            rule_list_model(old(rules)@),
            old_id@,
            new_id@,
        ),
{
    let ghost m0 = rule_list_model(old(rules)@);
    match find_rule_index(rules, old_id) {
        None => {
            proof {
                lemma_find_rule(m0, old_id@);
            }
        },
        Some(i) => {
            assert(contains_rule(m0, old_id@));
            let mut rule = rules.remove(i);
            proof {
                assert(rule_list_model(rules@) =~= m0.remove(i as int));
            }
            rule.rule_id = new_id.clone();
            match find_rule_index(rules, new_id) {
                Some(_) => {
                    assert(contains_rule(m0.remove(i as int), new_id@));
                },
                None => {
                    rules.push(rule);
                    proof {
                        assert(rule_list_model(rules@) =~= m0.remove(i as int).push(
                            RuleModel { rule_id: new_id@, ..m0[i as int] },
                        ));
                    }
                },
            }
        },
    }
}

/// The fixed rename table of the version-12 step, applied to a ruleset:
/// one legacy content rule and five legacy underride rules.
pub open spec fn renamed_ruleset(rs: RulesetModel) -> RulesetModel {
    RulesetModel {
        content: rename_model(
            rs.content,
            ".m.rules.contains_user_name"@,
            ".m.rule.contains_user_name"@,
        ),
        underride: rename_model(
            rename_model(
                rename_model(
                    rename_model(
                        rename_model(rs.underride, ".m.rules.call"@, ".m.rule.call"@),
                        ".m.rules.room_one_to_one"@,
                        ".m.rule.room_one_to_one"@,
                    ),
                    ".m.rules.encrypted_room_one_to_one"@,
                    ".m.rule.encrypted_room_one_to_one"@,
                ),
                ".m.rules.message"@,
                ".m.rule.message"@,
            ),
            ".m.rules.encrypted"@,
            ".m.rule.encrypted"@,
        ),
    }
}

/// Apply the version-12 rename table to one ruleset.
pub fn rename_legacy_rules(rs: &mut Ruleset)
    ensures
        final(rs).model() == renamed_ruleset(old(rs).model()),
{
    let old_content = ".m.rules.contains_user_name".to_owned();
    let new_content = ".m.rule.contains_user_name".to_owned();
    rename_rule(&mut rs.content, &old_content, &new_content);

    rename_rule(&mut rs.underride, &".m.rules.call".to_owned(), &".m.rule.call".to_owned());
    rename_rule(
        &mut rs.underride,
        &".m.rules.room_one_to_one".to_owned(),
        &".m.rule.room_one_to_one".to_owned(),
    );
    rename_rule(
        &mut rs.underride,
        &".m.rules.encrypted_room_one_to_one".to_owned(),
        &".m.rule.encrypted_room_one_to_one".to_owned(),
    );
    rename_rule(
        &mut rs.underride,
        &".m.rules.message".to_owned(),
        &".m.rule.message".to_owned(),
    );
    rename_rule(
        &mut rs.underride,
        &".m.rules.encrypted".to_owned(),
        &".m.rule.encrypted".to_owned(),
    );
}

// ---------------------------------------------------------------------------
// Server-default merge (step targeting version 13)
// ---------------------------------------------------------------------------

/// The server-provided default ruleset.
pub open spec fn server_defaults_model() -> RulesetModel {
    RulesetModel {
        content: seq![
            RuleModel {
                rule_id: ".m.rule.contains_user_name"@,
                server_default: true,
                enabled: true,
                actions: 10,
                conditions: 1,
            },
        ],
        underride: seq![
            RuleModel {
                rule_id: ".m.rule.call"@,
                server_default: true,
                enabled: true,
                actions: 20,
                conditions: 2,
            },
            RuleModel {
                rule_id: ".m.rule.room_one_to_one"@,
                server_default: true,
                enabled: true,
                actions: 30,
                conditions: 3,
            },
            RuleModel {
                rule_id: ".m.rule.encrypted_room_one_to_one"@,
                server_default: true,
                enabled: true,
                actions: 40,
                conditions: 4,
            },
            RuleModel {
                rule_id: ".m.rule.message"@,
                server_default: true,
                enabled: true,
                actions: 50,
                conditions: 5,
            },
            RuleModel {
                rule_id: ".m.rule.encrypted"@,
                server_default: true,
                enabled: true,
                actions: 60,
                conditions: 6,
            },
        ],
    }
}

fn default_rule(id: &str, actions: u64, conditions: u64) -> (r: PushRule)
    ensures
        r.model() == (RuleModel {
            rule_id: id@,
            server_default: true,
            enabled: true,
            actions,
            conditions,
        }),
{
    PushRule { rule_id: id.to_owned(), server_default: true, enabled: true, actions, conditions }
}

/// Build the server-provided default ruleset.
pub fn server_default_ruleset() -> (r: Ruleset)
    ensures
        r.model() == server_defaults_model(),
{
    let mut content: Vec<PushRule> = Vec::new();
    content.push(default_rule(".m.rule.contains_user_name", 10, 1));

    let mut underride: Vec<PushRule> = Vec::new();
    underride.push(default_rule(".m.rule.call", 20, 2));
    underride.push(default_rule(".m.rule.room_one_to_one", 30, 3));
    underride.push(default_rule(".m.rule.encrypted_room_one_to_one", 40, 4));
    underride.push(default_rule(".m.rule.message", 50, 5));
    underride.push(default_rule(".m.rule.encrypted", 60, 6));

    let r = Ruleset { content, underride };
    proof {
        assert(r.model().content =~= server_defaults_model().content);
        assert(r.model().underride =~= server_defaults_model().underride);
    }
    r
}

/// A server-default rule refreshed against the user's stored list: the
/// definition (`conditions`) comes from the server, while the user's stored
/// `enabled` and `actions` customizations win if the user has the rule.
pub open spec fn refreshed_rule(d: RuleModel, user_rules: Seq<RuleModel>) -> RuleModel {
    if contains_rule(user_rules, d.rule_id) {
        let i = find_rule(user_rules, d.rule_id);
        RuleModel { enabled: user_rules[i].enabled, actions: user_rules[i].actions, ..d }
    } else {
        d
    }
}

/// The user-authored rules kept by the merge: rules that are not server
/// defaults and whose identifier does not collide with a default.
pub open spec fn custom_rules(user_rules: Seq<RuleModel>, defaults: Seq<RuleModel>) -> Seq<
    RuleModel,
>
    decreases user_rules.len(),
{
    if user_rules.len() == 0 {
        Seq::empty()
    } else {
        custom_rules(user_rules.drop_last(), defaults) + if !user_rules.last().server_default
            && !contains_rule(defaults, user_rules.last().rule_id) {
            seq![user_rules.last()]
        } else {
            Seq::empty()
        }
    }
}

/// "Update with server defaults": the user's own surviving custom rules,
/// followed by the refreshed defaults appended at the end of the list.
/// Stored server-default rules that are no longer among the defaults are
/// dropped.
pub open spec fn merged_list(user_rules: Seq<RuleModel>, defaults: Seq<RuleModel>) -> Seq<
    RuleModel,
> {
    custom_rules(user_rules, defaults) + defaults.map(
        |i: int, d: RuleModel| refreshed_rule(d, user_rules),
    )
}

pub open spec fn merged_ruleset(rs: RulesetModel, defaults: RulesetModel) -> RulesetModel {
    RulesetModel {
        content: merged_list(rs.content, defaults.content),
        underride: merged_list(rs.underride, defaults.underride),
    }
}

/// Merge the server defaults into one rule list.
fn merge_list(user_rules: &Vec<PushRule>, defaults: &Vec<PushRule>) -> (out: Vec<PushRule>)
    ensures
        rule_list_model(out@) == merged_list(rule_list_model(user_rules@), rule_list_model(
            defaults@,
        )),
{
    let ghost um = rule_list_model(user_rules@);
    let ghost dm = rule_list_model(defaults@);
    let ghost refreshed = dm.map(|i: int, d: RuleModel| refreshed_rule(d, um));

    let mut out: Vec<PushRule> = Vec::new();

    // The user's surviving custom rules come first.
    let un = user_rules.len();
    let mut k: usize = 0;
    while k < un
        invariant
            k <= un,
            um.len() == un,
            dm.len() == defaults@.len(),
            rule_list_model(out@) == custom_rules(um.take(k as int), dm),
        decreases un - k,
    {
        let ghost pre = rule_list_model(out@);
        proof {
            assert(um.take(k + 1).drop_last() =~= um.take(k as int));
            assert(um.take(k + 1).last() == um[k as int]);
            assert(um[k as int] == user_rules@[k as int].model());
        }
        if !user_rules[k].server_default {
            match find_rule_index(defaults, &user_rules[k].rule_id) {
                None => {
                    out.push(clone_rule(&user_rules[k]));
                    proof {
                        assert(rule_list_model(out@) =~= pre.push(um[k as int]));
                        assert(custom_rules(um.take(k + 1), dm) =~= pre.push(um[k as int]));
                    }
                },
                Some(_) => {
                    assert(contains_rule(dm, um[k as int].rule_id));
                    assert(custom_rules(um.take(k + 1), dm) =~= pre);
                },
            }
        } else {
            assert(custom_rules(um.take(k + 1), dm) =~= pre);
        }
        k += 1;
    }
    proof {
        assert(um.take(un as int) =~= um);
    }

    // The refreshed server defaults are appended at the end.
    let dn = defaults.len();
    let mut i: usize = 0;
    while i < dn
        invariant
            i <= dn,
            dm.len() == dn,
            um.len() == user_rules@.len(),
            rule_list_model(out@) == custom_rules(um, dm) + refreshed.take(i as int),
        decreases dn - i,
    {
        let ghost pre = rule_list_model(out@);
        proof {
            assert(dm[i as int] == defaults@[i as int].model());
        }
        match find_rule_index(user_rules, &defaults[i].rule_id) {
            Some(u) => {
                assert(contains_rule(um, dm[i as int].rule_id));
                proof {
                    assert(um[find_rule(um, dm[i as int].rule_id)] == user_rules@[u as int].model());
                }
                out.push(
                    PushRule {
                        rule_id: defaults[i].rule_id.clone(),
                        server_default: defaults[i].server_default,
                        enabled: user_rules[u].enabled,
                        actions: user_rules[u].actions,
                        conditions: defaults[i].conditions,
                    },
                );
            },
            None => {
                out.push(clone_rule(&defaults[i]));
            },
        }
        proof {
            let pushed = rule_list_model(out@).last();
            assert(rule_list_model(out@) =~= pre.push(pushed));
            assert(pushed == refreshed[i as int]);
            assert(refreshed.take(i + 1) =~= refreshed.take(i as int).push(refreshed[i as int]));
            assert(custom_rules(um, dm) + refreshed.take(i + 1) =~= pre.push(pushed));
        }
        i += 1;
    }
    proof {
        assert(refreshed.take(dn as int) =~= refreshed);
    }
    out
}

/// Merge the freshly computed server defaults into one user's ruleset.
pub fn update_with_server_defaults(rs: &mut Ruleset)
    ensures
        final(rs).model() == merged_ruleset(old(rs).model(), server_defaults_model()),
{
    let defaults = server_default_ruleset();
    let content = merge_list(&rs.content, &defaults.content);
    let underride = merge_list(&rs.underride, &defaults.underride);
    rs.content = content;
    rs.underride = underride;
}

// ---------------------------------------------------------------------------
// Whole-table steps
// ---------------------------------------------------------------------------

/// Whether a schema step processes the record of `user`: the user is listed
/// locally and the identifier parses as a valid localpart.  Unparseable
/// identifiers are skipped, a per-record soft failure.  The steps walk the
/// stored records; a listed user without a record has nothing to
/// transform.
pub open spec fn step_applies(users: Seq<Seq<char>>, user: Seq<char>) -> bool {
    users.contains(user) && valid_localpart(user)
}

/// Effect of the version-12 step on the account-data table.
pub open spec fn renamed_table(t: Seq<AccountModel>, users: Seq<Seq<char>>) -> Seq<AccountModel> {
    t.map(
        |i: int, a: AccountModel|
            if step_applies(users, a.user_id) {
                AccountModel { user_id: a.user_id, rules: renamed_ruleset(a.rules) }
            } else {
                a
            },
    )
}

/// Effect of the version-13 step on the account-data table.
pub open spec fn merged_table(t: Seq<AccountModel>, users: Seq<Seq<char>>) -> Seq<AccountModel> {
    t.map(
        |i: int, a: AccountModel|
            if step_applies(users, a.user_id) {
                AccountModel {
                    user_id: a.user_id,
                    rules: merged_ruleset(a.rules, server_defaults_model()),
                }
            } else {
                a
            },
    )
}

/// The version-12 step: apply the rename table to every listed, parseable
/// user's stored ruleset.
pub fn apply_rename_step(accounts: &mut Vec<AccountRecord>, users: &Vec<String>)
    ensures
        account_table_model(final(accounts)@) == renamed_table(
            account_table_model(old(accounts)@),
            names_model(users@),
        ),
{
    let ghost t0 = account_table_model(old(accounts)@);
    let ghost us = names_model(users@);
    let n = accounts.len();
    let mut i: usize = 0;
    while i < n
        invariant
            i <= n,
            accounts@.len() == n == t0.len(),
            forall|j: int| #![auto]
                0 <= j < i ==> accounts@[j].model() == renamed_table(t0, us)[j],
            forall|j: int| #![auto] i <= j < n ==> accounts@[j] == old(accounts)@[j],
        decreases n - i,
    {
        let ghost pre = accounts@;
        let listed = contains_user(users, &accounts[i].user_id);
        let parses = parse_localpart(&accounts[i].user_id);
        if listed && parses {
            assert(step_applies(us, t0[i as int].user_id));
            let mut rec = accounts.remove(i);
            rename_legacy_rules(&mut rec.rules);
            accounts.insert(i, rec);
            proof {
                assert(accounts@ =~= pre.update(i as int, accounts@[i as int]));
            }
        } else {
            assert(!step_applies(us, t0[i as int].user_id));
        }
        i += 1;
    }
    proof {
        assert(account_table_model(accounts@) =~= renamed_table(t0, us));
    }
}

/// The version-13 step: merge the server defaults into every listed,
/// parseable user's stored ruleset.
pub fn apply_merge_step(accounts: &mut Vec<AccountRecord>, users: &Vec<String>)
    ensures
        account_table_model(final(accounts)@) == merged_table(
            account_table_model(old(accounts)@),
            names_model(users@),
        ),
{
    let ghost t0 = account_table_model(old(accounts)@);
    let ghost us = names_model(users@);
    let n = accounts.len();
    let mut i: usize = 0;
    while i < n
        invariant
            i <= n,
            accounts@.len() == n == t0.len(),
            forall|j: int| #![auto]
                0 <= j < i ==> accounts@[j].model() == merged_table(t0, us)[j],
            forall|j: int| #![auto] i <= j < n ==> accounts@[j] == old(accounts)@[j],
        decreases n - i,
    {
        let ghost pre = accounts@;
        let listed = contains_user(users, &accounts[i].user_id);
        let parses = parse_localpart(&accounts[i].user_id);
        if listed && parses {
            assert(step_applies(us, t0[i as int].user_id));
            let mut rec = accounts.remove(i);
            update_with_server_defaults(&mut rec.rules);
            accounts.insert(i, rec);
            proof {
                assert(accounts@ =~= pre.update(i as int, accounts@[i as int]));
            }
        } else {
            assert(!step_applies(us, t0[i as int].user_id));
        }
        i += 1;
    }
    proof {
        assert(account_table_model(accounts@) =~= merged_table(t0, us));
    }
}

} // verus!
