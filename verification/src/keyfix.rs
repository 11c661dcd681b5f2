//! Byte-level key repair passes over the raw tables.
//!
//! Two historical encoding bugs are fixed here, each over one specific table:
//! a doubled separator byte in the membership state-cache table, and a
//! missing separator between the two textual components of a
//! referenced-events key, whose boundary is still recoverable because the
//! second component always begins with a fixed sigil character.
//!
//! Both passes visit every record exactly once and are silent self-healing:
//! malformed keys are corrected in place and only summary counts are
//! reported.  The doubled-separator pass leaves a key without the doubling
//! pattern untouched; the missing-separator pass demands that every
//! separator-less key carry the sigil — one that carries neither cannot be
//! given its delimiter and is surfaced as a fatal error.

use vstd::prelude::*;

use crate::store::{MigrationError, RawModel, RawRecord, raw_table_model};

verus! {

/// The reserved byte separating components within a composite raw key.
pub const SEPARATOR: u8 = 0xFF;

/// The reserved printable character beginning the second component of a
/// legacy referenced-events key.
pub const SIGIL: u8 = 0x24;

// ---------------------------------------------------------------------------
// First occurrence of a byte
// ---------------------------------------------------------------------------

/// Index of the first occurrence of `b` in `s`, or `-1` if absent.
pub open spec fn first_index_of(s: Seq<u8>, b: u8) -> int
    decreases s.len(),
{
    if s.len() == 0 {
        -1
    } else if s[0] == b {
        0
    } else {
        let t = first_index_of(s.skip(1), b);
        if t == -1 {
            -1
        } else {
            t + 1
        }
    }
}

pub open spec fn contains_byte(s: Seq<u8>, b: u8) -> bool {
    exists|i: int| 0 <= i < s.len() && s[i] == b
}

/// `first_index_of` returns either `-1` on a byte-free sequence or the
/// position of the first occurrence.
pub proof fn lemma_first_index_of(s: Seq<u8>, b: u8)
    ensures
        first_index_of(s, b) == -1 <==> !contains_byte(s, b),
        contains_byte(s, b) ==> {
            let i = first_index_of(s, b);
            &&& 0 <= i < s.len()
            &&& s[i] == b
            &&& forall|j: int| 0 <= j < i ==> s[j] != b
        },
    decreases s.len(),
{
    if s.len() != 0 && s[0] != b {
        lemma_first_index_of(s.skip(1), b);
        assert(forall|j: int| 0 <= j < s.skip(1).len() ==> s.skip(1)[j] == s[j + 1]);
        if contains_byte(s, b) {
            let w = choose|i: int| 0 <= i < s.len() && s[i] == b;
            assert(s.skip(1)[w - 1] == b);
            assert(contains_byte(s.skip(1), b));
            let t = first_index_of(s.skip(1), b);
            assert(s[t + 1] == s.skip(1)[t]);
            assert forall|j: int| 0 <= j < t + 1 implies s[j] != b by {
                if j > 0 {
                    assert(s[j] == s.skip(1)[j - 1]);
                }
            }
        } else {
            if contains_byte(s.skip(1), b) {
                let w = choose|i: int| 0 <= i < s.skip(1).len() && s.skip(1)[i] == b;
                assert(s[w + 1] == b);
            }
        }
    }
}

/// Find the first occurrence of `b` in `key`.
pub fn find_first(key: &Vec<u8>, b: u8) -> (r: Option<usize>)
    ensures
        match r {
            Some(i) => {
                &&& first_index_of(key@, b) == i as int
                &&& (i as int) < key@.len()
                &&& key@[i as int] == b
            },
            None => first_index_of(key@, b) == -1 && !contains_byte(key@, b),
        },
{
    let n = key.len();
    let mut i: usize = 0;
    while i < n
        invariant
            i <= n,
            forall|j: int| 0 <= j < i ==> key@[j] != b,
        decreases n - i,
    {
        if key[i] == b {
            proof {
                lemma_first_index_of(key@, b);
                assert(contains_byte(key@, b));
                let fi = first_index_of(key@, b);
                if fi < i as int {
                    assert(key@[fi] != b);
                }
            }
            return Some(i);
        }
        i += 1;
    }
    proof {
        if contains_byte(key@, b) {
            let w = choose|j: int| 0 <= j < key@.len() && key@[j] == b;
            assert(key@[w] != b);
        }
        lemma_first_index_of(key@, b);
    }
    None
}

// ---------------------------------------------------------------------------
// Doubled-separator repair
// ---------------------------------------------------------------------------

/// A key is malformed iff the byte immediately following its first
/// separator is also a separator.
pub open spec fn doubled_key(k: Seq<u8>) -> bool {
    let i = first_index_of(k, SEPARATOR);
    &&& i >= 0
    &&& i + 1 < k.len()
    &&& k[i + 1] == SEPARATOR
}

/// The corrected key: the duplicate separator byte deleted; a key without
/// the doubling pattern is left untouched.
pub open spec fn fix_doubled_key(k: Seq<u8>) -> Seq<u8> {
    if doubled_key(k) {
        k.remove(first_index_of(k, SEPARATOR))
    } else {
        k
    }
}

/// Effect of the doubled-separator pass on a whole table: every key is
/// corrected, every value is kept.
pub open spec fn fix_double_model(t: Seq<RawModel>) -> Seq<RawModel> {
    t.map(|i: int, r: RawModel| RawModel { key: fix_doubled_key(r.key), value: r.value })
}

/// Number of malformed keys in the table.
pub open spec fn count_doubled(t: Seq<RawModel>) -> int
    decreases t.len(),
{
    if t.len() == 0 {
        0
    } else {
        count_doubled(t.drop_last()) + if doubled_key(t.last().key) {
            1int
        } else {
            0int
        }
    }
}

/// Key-repair round trip for the doubling pattern: with the first separator
/// at position `i`, the corrected key is the original with exactly the one
/// byte at position `i + 1` removed, and nothing else.
pub proof fn lemma_doubled_key_round_trip(k: Seq<u8>)
    requires
        doubled_key(k),
    ensures
        fix_doubled_key(k) == k.remove(first_index_of(k, SEPARATOR) + 1),
        fix_doubled_key(k).len() == k.len() - 1,
{
    let i = first_index_of(k, SEPARATOR);
    lemma_first_index_of(k, SEPARATOR);
    assert(k.remove(i) =~= k.remove(i + 1));
}

/// On already-correct data the doubled-separator pass is a no-op: a table
/// without the doubling pattern is left byte-identical, and nothing is
/// counted as fixed.
pub proof fn lemma_double_repair_noop_on_clean(t: Seq<RawModel>)
    requires
        forall|i: int| 0 <= i < t.len() ==> !doubled_key((#[trigger] t[i]).key),
    ensures
        fix_double_model(t) == t,
        count_doubled(t) == 0,
    decreases t.len(),
{
    assert(fix_double_model(t) =~= t);
    if t.len() > 0 {
        lemma_double_repair_noop_on_clean(t.drop_last());
    }
}

/// The doubled-separator repair pass over the membership state-cache table.
/// Streams every record exactly once; a record whose key shows the doubling
/// pattern is replaced by the same value under the corrected key.  Returns
/// the number of records fixed.
pub fn fix_double_separator(table: &mut Vec<RawRecord>) -> (fixed: usize)
    ensures
        raw_table_model(final(table)@) == fix_double_model(raw_table_model(old(table)@)),
        fixed as int == count_doubled(raw_table_model(old(table)@)),
{
    let ghost t0 = raw_table_model(old(table)@);
    let n = table.len();
    let mut fixed: usize = 0;
    let mut i: usize = 0;
    while i < n
        invariant
            i <= n,
            table@.len() == n == t0.len(),
            fixed <= i,
            fixed as int == count_doubled(t0.take(i as int)),
            forall|j: int| #![auto] 0 <= j < i ==> table@[j].model() == fix_double_model(t0)[j],
            forall|j: int| #![auto] i <= j < n ==> table@[j] == old(table)@[j],
        decreases n - i,
    {
        proof {
            assert(t0.take(i + 1).drop_last() =~= t0.take(i as int));
            assert(t0.take(i + 1).last() == t0[i as int]);
        }
        let ghost pre = table@;
        let sep = find_first(&table[i].key, SEPARATOR);
        match sep {
            Some(p) => {
                let klen = table[i].key.len();
                assert(p < klen);
                if p + 1 < klen && table[i].key[p + 1] == SEPARATOR {
                    assert(doubled_key(t0[i as int].key));
                    let mut rec = table.remove(i);
                    rec.key.remove(p);
                    table.insert(i, rec);
                    proof {
                        assert(table@ =~= pre.update(i as int, table@[i as int]));
                        assert(table@[i as int].model() == RawModel {
                            key: fix_doubled_key(t0[i as int].key),
                            value: t0[i as int].value,
                        });
                    }
                    fixed += 1;
                } else {
                    assert(!doubled_key(t0[i as int].key));
                }
            },
            None => {
                assert(!doubled_key(t0[i as int].key));
            },
        }
        i += 1;
    }
    proof {
        assert(t0.take(n as int) =~= t0);
        assert(raw_table_model(table@) =~= fix_double_model(t0));
    }
    fixed
}

// ---------------------------------------------------------------------------
// Missing-separator repair
// ---------------------------------------------------------------------------

/// A key can be given its missing separator iff it lacks the separator byte
/// entirely and the start of its second component is recoverable from the
/// sigil character.
pub open spec fn missing_fixable(k: Seq<u8>) -> bool {
    !contains_byte(k, SEPARATOR) && contains_byte(k, SIGIL)
}

/// The corrected key: the two components, split at the first sigil, joined
/// by the table's normal separator-delimited encoding.
pub open spec fn fix_missing_key(k: Seq<u8>) -> Seq<u8> {
    if missing_fixable(k) {
        k.insert(first_index_of(k, SIGIL), SEPARATOR)
    } else {
        k
    }
}

/// Effect of the missing-separator pass on a whole table.
pub open spec fn fix_missing_model(t: Seq<RawModel>) -> Seq<RawModel> {
    t.map(|i: int, r: RawModel| RawModel { key: fix_missing_key(r.key), value: r.value })
}

/// Number of keys lacking the separator; on a table whose keys are all
/// delimitable these are exactly the keys the pass rewrites.
pub open spec fn count_missing(t: Seq<RawModel>) -> int
    decreases t.len(),
{
    if t.len() == 0 {
        0
    } else {
        count_missing(t.drop_last()) + if !contains_byte(t.last().key, SEPARATOR) {
            1int
        } else {
            0int
        }
    }
}

/// Every record of the table carries an empty value.
pub open spec fn all_values_empty(t: Seq<RawModel>) -> bool {
    forall|i: int| 0 <= i < t.len() ==> t[i].value.len() == 0
}

/// A key the pass can leave properly delimited: it already carries the
/// separator, or it contains the sigil that recovers the component
/// boundary.
pub open spec fn key_delimitable(k: Seq<u8>) -> bool {
    contains_byte(k, SEPARATOR) || contains_byte(k, SIGIL)
}

/// Every key of the table can be left properly delimited.
pub open spec fn all_keys_delimitable(t: Seq<RawModel>) -> bool {
    forall|i: int| 0 <= i < t.len() ==> key_delimitable((#[trigger] t[i]).key)
}

/// After a successful pass no key lacks its delimiter: repairing a table
/// whose keys are all delimitable leaves every key carrying the separator.
pub proof fn lemma_missing_repair_completes(t: Seq<RawModel>)
    requires
        all_keys_delimitable(t),
    ensures
        forall|i: int|
            0 <= i < t.len() ==> contains_byte(
                (#[trigger] fix_missing_model(t)[i]).key,
                SEPARATOR,
            ),
{
    assert forall|i: int|
        0 <= i < t.len() implies contains_byte(
        (#[trigger] fix_missing_model(t)[i]).key,
        SEPARATOR,
    ) by {
        let k = t[i].key;
        if !contains_byte(k, SEPARATOR) {
            assert(contains_byte(k, SIGIL));
            lemma_missing_key_round_trip(k);
            let fi = first_index_of(k, SIGIL);
            lemma_first_index_of(k, SIGIL);
            assert(fix_missing_key(k)[fi] == SEPARATOR);
        }
    }
}

/// Key-repair round trip for the missing separator: with the first sigil at
/// position `i`, the corrected key is the properly delimited concatenation
/// of the same two components the original key concatenated bare.
pub proof fn lemma_missing_key_round_trip(k: Seq<u8>)
    requires
        missing_fixable(k),
    ensures
        ({
            let i = first_index_of(k, SIGIL);
            let prefix = k.subrange(0, i);
            let suffix = k.subrange(i, k.len() as int);
            &&& prefix + suffix == k
            &&& fix_missing_key(k) == prefix + seq![SEPARATOR] + suffix
            &&& fix_missing_key(k).len() == k.len() + 1
        }),
{
    lemma_first_index_of(k, SIGIL);
    let i = first_index_of(k, SIGIL);
    let prefix = k.subrange(0, i);
    let suffix = k.subrange(i, k.len() as int);
    assert(prefix + suffix =~= k);
    assert(k.insert(i, SEPARATOR) =~= prefix + seq![SEPARATOR] + suffix);
}

/// On already-correct data the missing-separator pass is a no-op: a table
/// whose keys all carry the separator is left byte-identical, and nothing
/// is counted as fixed.
pub proof fn lemma_missing_repair_noop_on_clean(t: Seq<RawModel>)
    requires
        forall|i: int| 0 <= i < t.len() ==> contains_byte((#[trigger] t[i]).key, SEPARATOR),
    ensures
        fix_missing_model(t) == t,
        count_missing(t) == 0,
    decreases t.len(),
{
    assert(fix_missing_model(t) =~= t);
    if t.len() > 0 {
        lemma_missing_repair_noop_on_clean(t.drop_last());
    }
}

/// The missing-separator repair pass over the referenced-events table.
/// Values in this table must always be empty, and every separator-less key
/// must carry the sigil that recovers its component boundary; a record
/// violating either shape invariant is surfaced as a fatal error before
/// anything is rewritten (a non-empty value taking precedence).  On
/// success, every key lacking the separator is re-encoded with its
/// components properly delimited, and the total and fixed record counts
/// are returned.
pub fn fix_missing_separator(table: &mut Vec<RawRecord>) -> (r: Result<
    (usize, usize),
    MigrationError,
>)
    ensures
        match r {
            Ok(counts) => {
                &&& all_values_empty(raw_table_model(old(table)@))
                &&& all_keys_delimitable(raw_table_model(old(table)@))
                &&& raw_table_model(final(table)@) == fix_missing_model(
                    raw_table_model(old(table)@),
                )
                &&& counts.0 == old(table)@.len()
                &&& counts.1 as int == count_missing(raw_table_model(old(table)@))
            },
            Err(e) => {
                &&& final(table)@ == old(table)@
                &&& !(all_values_empty(raw_table_model(old(table)@)) && all_keys_delimitable(
                    raw_table_model(old(table)@),
                ))
                &&& e == (if !all_values_empty(raw_table_model(old(table)@)) {
                    MigrationError::ValueShapeViolation
                } else {
                    MigrationError::KeyShapeViolation
                })
            },
        },
{
    let ghost t0 = raw_table_model(old(table)@);
    let n = table.len();

    let mut i: usize = 0;
    while i < n
        invariant
            i <= n,
            table@ == old(table)@,
            forall|j: int| #![auto] 0 <= j < i ==> t0[j].value.len() == 0,
        decreases n - i,
    {
        if table[i].value.len() != 0 {
            assert(t0[i as int].value.len() != 0);
            return Err(MigrationError::ValueShapeViolation);
        }
        i += 1;
    }

    let mut i: usize = 0;
    while i < n
        invariant
            i <= n,
            table@ == old(table)@,
            forall|j: int| 0 <= j < i ==> key_delimitable((#[trigger] t0[j]).key),
        decreases n - i,
    {
        let has_sep = match find_first(&table[i].key, SEPARATOR) {
            Some(_) => true,
            None => false,
        };
        if !has_sep {
            if let None = find_first(&table[i].key, SIGIL) {
                assert(!key_delimitable(t0[i as int].key));
                return Err(MigrationError::KeyShapeViolation);
            }
        }
        assert(key_delimitable(t0[i as int].key));
        i += 1;
    }

    let mut fixed: usize = 0;
    let mut i: usize = 0;
    while i < n
        invariant
            i <= n,
            table@.len() == n == t0.len(),
            fixed <= i,
            fixed as int == count_missing(t0.take(i as int)),
            forall|j: int| #![auto] 0 <= j < i ==> table@[j].model() == fix_missing_model(t0)[j],
            forall|j: int| #![auto] i <= j < n ==> table@[j] == old(table)@[j],
        decreases n - i,
    {
        proof {
            assert(t0.take(i + 1).drop_last() =~= t0.take(i as int));
            assert(t0.take(i + 1).last() == t0[i as int]);
        }
        let ghost pre = table@;
        assert(key_delimitable(t0[i as int].key));
        if let None = find_first(&table[i].key, SEPARATOR) {
            if let Some(p) = find_first(&table[i].key, SIGIL) {
                assert(missing_fixable(t0[i as int].key));
                let mut rec = table.remove(i);
                rec.key.insert(p, SEPARATOR);
                table.insert(i, rec);
                proof {
                    assert(table@ =~= pre.update(i as int, table@[i as int]));
                    assert(table@[i as int].model() == RawModel {
                        key: fix_missing_key(t0[i as int].key),
                        value: t0[i as int].value,
                    });
                }
                fixed += 1;
            } else {
                // Unreachable: the shape scan admitted only delimitable keys.
                assert(false);
            }
        } else {
            assert(contains_byte(t0[i as int].key, SEPARATOR));
            assert(!missing_fixable(t0[i as int].key));
        }
        i += 1;
    }
    proof {
        assert(t0.take(n as int) =~= t0);
        assert(raw_table_model(table@) =~= fix_missing_model(t0));
    }
    Ok((n, fixed))
}

} // verus!
