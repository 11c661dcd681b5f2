//! Membership-cache reconciliation.
//!
//! The doubled-separator bug fixed in [`crate::keyfix`] could make cached
//! membership entries silently vanish or duplicate.  This pass recomputes,
//! for every room, each cached member's "joined"/"left" marker from the
//! authoritative current membership state, and then recomputes the room's
//! joined-member counter from the corrected cache.
//!
//! The classification deliberately marks a user as left exactly when the
//! authoritative state is *not* a join — the negation of the "joined"
//! predicate — rather than reusing the "joined" predicate for both buckets.

use vstd::prelude::*;

use crate::store::{MemberModel, Room, RoomModel, room_table_model};

verus! {

/// A member entry after reconciliation: the cached marker equals the
/// authoritative state.
pub open spec fn reconciled_member(m: MemberModel) -> MemberModel {
    MemberModel { user_id: m.user_id, cached_joined: m.auth_joined, auth_joined: m.auth_joined }
}

/// Number of members whose cached marker is "joined".
pub open spec fn count_joined(ms: Seq<MemberModel>) -> int
    decreases ms.len(),
{
    if ms.len() == 0 {
        0
    } else {
        count_joined(ms.drop_last()) + if ms.last().cached_joined {
            1int
        } else {
            0int
        }
    }
}

pub proof fn lemma_count_joined_bounds(ms: Seq<MemberModel>)
    ensures
        0 <= count_joined(ms) <= ms.len(),
    decreases ms.len(),
{
    if ms.len() > 0 {
        lemma_count_joined_bounds(ms.drop_last());
    }
}

/// A room after reconciliation: every cached marker equals the
/// authoritative state, and the joined counter equals the count of cached
/// "joined" users.
pub open spec fn reconciled_room(r: RoomModel) -> RoomModel {
    let ms = r.members.map(|i: int, m: MemberModel| reconciled_member(m));
    RoomModel {
        room_id: r.room_id,
        aliases: r.aliases,
        members: ms,
        joined_count: count_joined(ms) as u64,
    }
}

/// Effect of the reconciliation pass on the whole membership cache.
pub open spec fn reconcile_model(rooms: Seq<RoomModel>) -> Seq<RoomModel> {
    rooms.map(|i: int, r: RoomModel| reconciled_room(r))
}

/// Reconciliation correctness: in a reconciled room every (room, user)
/// cache marker equals the authoritative membership state for that pair,
/// and the room's joined counter is exactly the number of cached users
/// whose marker is "joined".
pub proof fn lemma_reconcile_correct(r: RoomModel)
    requires
        r.members.len() <= u64::MAX,
    ensures
        ({
            let rr = reconciled_room(r);
            &&& rr.members.len() == r.members.len()
            &&& forall|i: int|
                0 <= i < rr.members.len() ==> (#[trigger] rr.members[i]).cached_joined
                    == r.members[i].auth_joined
            &&& rr.joined_count as int == count_joined(rr.members)
        }),
{
    let ms = r.members.map(|i: int, m: MemberModel| reconciled_member(m));
    lemma_count_joined_bounds(ms);
}

/// Reconciliation correctness over the whole cache: after the pass, for
/// every (room, user) pair the cache marker equals the authoritative
/// membership state, and every room's joined counter equals the exact
/// count of its cached "joined" users.
pub proof fn lemma_reconcile_rooms_correct(rooms: Seq<RoomModel>)
    requires
        forall|i: int| 0 <= i < rooms.len() ==> (#[trigger] rooms[i]).members.len() <= u64::MAX,
    ensures
        reconcile_model(rooms).len() == rooms.len(),
        forall|i: int, j: int|
            0 <= i < rooms.len() && 0 <= j < rooms[i].members.len()
                ==> (#[trigger] reconcile_model(rooms)[i].members[j]).cached_joined
                == rooms[i].members[j].auth_joined,
        forall|i: int|
            0 <= i < rooms.len() ==> (#[trigger] reconcile_model(rooms)[i]).joined_count as int
                == count_joined(reconcile_model(rooms)[i].members),
{
    assert forall|i: int| 0 <= i < rooms.len() implies {
        &&& forall|j: int|
            0 <= j < rooms[i].members.len()
                ==> (#[trigger] reconcile_model(rooms)[i].members[j]).cached_joined
                == rooms[i].members[j].auth_joined
        &&& (#[trigger] reconcile_model(rooms)[i]).joined_count as int == count_joined(
            reconcile_model(rooms)[i].members,
        )
    } by {
        lemma_reconcile_correct(rooms[i]);
        assert(reconcile_model(rooms)[i] == reconciled_room(rooms[i]));
    }
}

/// On an already-correct cache the reconciliation is a no-op: when every
/// cached marker equals the authoritative state and every counter is
/// already the count of cached "joined" users, nothing changes.
pub proof fn lemma_reconcile_noop_on_clean(rooms: Seq<RoomModel>)
    requires
        forall|i: int, j: int|
            0 <= i < rooms.len() && 0 <= j < rooms[i].members.len()
                ==> (#[trigger] rooms[i].members[j]).cached_joined
                == rooms[i].members[j].auth_joined,
        forall|i: int|
            0 <= i < rooms.len() ==> (#[trigger] rooms[i]).joined_count as int == count_joined(
                rooms[i].members,
            ),
    ensures
        reconcile_model(rooms) == rooms,
{
    assert forall|i: int| 0 <= i < rooms.len() implies reconcile_model(rooms)[i] == rooms[i] by {
        let r = rooms[i];
        let ms = r.members.map(|k: int, m: MemberModel| reconciled_member(m));
        assert(ms =~= r.members);
        assert(reconciled_room(r) == rooms[i]);
    }
    assert(reconcile_model(rooms) =~= rooms);
}

/// Reconcile one room's members in place and recompute its joined counter.
fn reconcile_room(room: &mut Room)
    ensures
        final(room).model() == reconciled_room(old(room).model()),
{
    let ghost m0 = old(room).model().members;
    let n = room.members.len();
    let mut i: usize = 0;
    while i < n
        invariant
            i <= n,
            room.members@.len() == n == m0.len(),
            room.room_id@ == old(room).room_id@,
            room.aliases@ == old(room).aliases@,
            room.joined_count == old(room).joined_count,
            forall|j: int| #![auto]
                0 <= j < i ==> room.members@[j].model() == reconciled_member(m0[j]),
            forall|j: int| #![auto] i <= j < n ==> room.members@[j] == old(room).members@[j],
        decreases n - i,
    {
        let flag = room.members[i].auth_joined;
        room.members[i].cached_joined = flag;
        i += 1;
    }
    proof {
        assert(room.model().members =~= reconciled_room(old(room).model()).members);
    }

    let ghost ms = room.model().members;
    let mut cnt: usize = 0;
    let mut i: usize = 0;
    while i < n
        invariant
            i <= n,
            cnt <= i,
            room.members@.len() == n == ms.len(),
            room.model().members == ms,
            cnt as int == count_joined(ms.take(i as int)),
        decreases n - i,
    {
        proof {
            assert(ms.take(i + 1).drop_last() =~= ms.take(i as int));
            assert(ms.take(i + 1).last() == ms[i as int]);
        }
        if room.members[i].cached_joined {
            cnt += 1;
        }
        i += 1;
    }
    proof {
        assert(ms.take(n as int) =~= ms);
        lemma_count_joined_bounds(ms);
    }
    room.joined_count = cnt as u64;
}

/// The reconciliation pass: visit every room, reclassify every cached
/// member from the authoritative state, then recompute each room's joined
/// counter from the corrected cache.
pub fn reconcile_rooms(rooms: &mut Vec<Room>)
    ensures
        room_table_model(final(rooms)@) == reconcile_model(room_table_model(old(rooms)@)),
{
    let ghost r0 = room_table_model(old(rooms)@);
    let n = rooms.len();
    let mut i: usize = 0;
    while i < n
        invariant
            i <= n,
            rooms@.len() == n == r0.len(),
            forall|j: int| #![auto] 0 <= j < i ==> rooms@[j].model() == reconcile_model(r0)[j],
            forall|j: int| #![auto] i <= j < n ==> rooms@[j] == old(rooms)@[j],
        decreases n - i,
    {
        let ghost pre = rooms@;
        let mut room = rooms.remove(i);
        reconcile_room(&mut room);
        rooms.insert(i, room);
        proof {
            assert(rooms@ =~= pre.update(i as int, rooms@[i as int]));
        }
        i += 1;
    }
    proof {
        assert(room_table_model(rooms@) =~= reconcile_model(r0));
    }
}

} // verus!
