use vstd::prelude::*;
use crate::constants::{MAX_COORDINATE, MAX_THROW_ATTEMPTS};
use crate::randomness::{relocation_position, relocation_position_of};
use crate::state::{active_total, empty_slot, PokemonSlot, PokemonSlots};

verus! {

/// The slot of a creature that has just appeared.
pub open spec fn spawned_slot(id: u64, x: u16, y: u16, now: i64) -> PokemonSlot {
    PokemonSlot { is_active: true, pokemon_id: id, pos_x: x, pos_y: y, throw_attempts: 0, spawn_timestamp: now }
}

/// The slot after a missed throw: one more attempt, or, when that exhausts the
/// budget, a new position from the relocation bytes and a fresh budget.
pub open spec fn missed_slot(s: PokemonSlot, r: Seq<u8>) -> PokemonSlot {
    if s.throw_attempts + 1 >= MAX_THROW_ATTEMPTS {
        PokemonSlot {
            pos_x: relocation_position_of(r).0,
            pos_y: relocation_position_of(r).1,
            throw_attempts: 0,
            ..s
        }
    } else {
        PokemonSlot { throw_attempts: (s.throw_attempts + 1) as u8, ..s }
    }
}

/// The slot moved to `(x, y)` with a fresh attempt budget.
pub open spec fn moved_slot(s: PokemonSlot, x: u16, y: u16) -> PokemonSlot {
    PokemonSlot { pos_x: x, pos_y: y, throw_attempts: 0, ..s }
}

/// Active slots counted after one slot changes.
pub proof fn lemma_active_total_update(s: Seq<PokemonSlot>, i: int, v: PokemonSlot)
    requires
        0 <= i < s.len(),
    ensures
        active_total(s.update(i, v)) + (if s[i].is_active { 1int } else { 0int }) == active_total(s)
            + (if v.is_active { 1int } else { 0int }),
    decreases s.len(),
{
    if i == s.len() - 1 {
        assert(s.update(i, v).drop_last() =~= s.drop_last());
    } else {
        lemma_active_total_update(s.drop_last(), i, v);
        assert(s.update(i, v).drop_last() =~= s.drop_last().update(i, v));
    }
}

/// A sequence with no active slot counts zero.
pub proof fn lemma_active_total_none(s: Seq<PokemonSlot>)
    requires
        forall|i: int| 0 <= i < s.len() ==> !(#[trigger] s[i]).is_active,
    ensures
        active_total(s) == 0,
    decreases s.len(),
{
    if s.len() > 0 {
        lemma_active_total_none(s.drop_last());
    }
}

/// No more slots are active than there are slots.
pub proof fn lemma_active_total_bound(s: Seq<PokemonSlot>)
    ensures
        active_total(s) <= s.len(),
    decreases s.len(),
{
    if s.len() > 0 {
        lemma_active_total_bound(s.drop_last());
    }
}

/// A creature one miss short of its budget that is missed again flees: its
/// attempts start over at zero, it takes the relocation position, which lies on
/// the map, and it stays active.
pub proof fn lemma_exhausting_miss_relocates(s: PokemonSlot, r: Seq<u8>)
    requires
        s.wf(),
        s.is_active,
        s.throw_attempts == MAX_THROW_ATTEMPTS - 1,
    ensures
        missed_slot(s, r).is_active,
        missed_slot(s, r).pokemon_id == s.pokemon_id,
        missed_slot(s, r).throw_attempts == 0,
        (missed_slot(s, r).pos_x, missed_slot(s, r).pos_y) == relocation_position_of(r),
        missed_slot(s, r).pos_x <= MAX_COORDINATE,
        missed_slot(s, r).pos_y <= MAX_COORDINATE,
        missed_slot(s, r).wf(),
{
}

impl PokemonSlots {
    /// The empty registry.
    pub fn new(bump: u8) -> (r: PokemonSlots)
        ensures
            r.wf(),
            r.active_count == 0,
            r.bump == bump,
            forall|i: int| 0 <= i < 20 ==> (#[trigger] r.slots@[i]) == empty_slot(),
    {
        let r = PokemonSlots { slots: [PokemonSlot::default();20], active_count: 0, bump };
        proof {
            lemma_active_total_none(r.slots@);
        }
        r
    }

    /// Puts a new creature into slot `idx`, replacing whatever was there.
    pub fn place(&mut self, idx: usize, id: u64, x: u16, y: u16, now: i64)
        requires
            old(self).wf(),
            idx < 20,
            id != 0,
            x <= MAX_COORDINATE,
            y <= MAX_COORDINATE,
            forall|j: int| 0 <= j < 20 && j != idx && (#[trigger] old(self).slots@[j]).is_active
                ==> old(self).slots@[j].pokemon_id != id,
        ensures
            final(self).wf(),
            final(self).slots@ == old(self).slots@.update(idx as int, spawned_slot(id, x, y, now)),
            final(self).active_count == old(self).active_count + if old(self).slots@[idx as int].is_active { 0int } else { 1int },
            final(self).bump == old(self).bump,
    {
        let was_active = self.slots[idx].is_active;
        proof {
            lemma_active_total_update(self.slots@, idx as int, spawned_slot(id, x, y, now));
            lemma_active_total_bound(self.slots@.update(idx as int, spawned_slot(id, x, y, now)));
        }
        self.slots[idx] = PokemonSlot {
            is_active: true,
            pokemon_id: id,
            pos_x: x,
            pos_y: y,
            throw_attempts: 0,
            spawn_timestamp: now,
        };
        if !was_active {
            self.active_count = self.active_count + 1;
        }
    }

    /// Clears the active slot `idx`.
    pub fn clear(&mut self, idx: usize)
        requires
            old(self).wf(),
            idx < 20,
            old(self).slots@[idx as int].is_active,
        ensures
            final(self).wf(),
            final(self).slots@ == old(self).slots@.update(idx as int, empty_slot()),
            final(self).active_count == old(self).active_count - 1,
            final(self).bump == old(self).bump,
    {
        proof {
            lemma_active_total_update(self.slots@, idx as int, empty_slot());
        }
        self.slots[idx] = PokemonSlot::default();
        self.active_count = self.active_count - 1;
    }

    /// Moves the creature of the active slot `idx` to `(x, y)` with a fresh attempt budget.
    pub fn move_to(&mut self, idx: usize, x: u16, y: u16)
        requires
            old(self).wf(),
            idx < 20,
            old(self).slots@[idx as int].is_active,
            x <= MAX_COORDINATE,
            y <= MAX_COORDINATE,
        ensures
            final(self).wf(),
            final(self).slots@ == old(self).slots@.update(idx as int, moved_slot(old(self).slots@[idx as int], x, y)),
            final(self).active_count == old(self).active_count,
            final(self).bump == old(self).bump,
    {
        let ghost s0 = self.slots@;
        proof {
            lemma_active_total_update(s0, idx as int, moved_slot(s0[idx as int], x, y));
        }
        let mut s = self.slots[idx];
        s.pos_x = x;
        s.pos_y = y;
        s.throw_attempts = 0;
        self.slots[idx] = s;
    }

    /// Records a missed throw against the active slot `idx`; returns whether the
    /// creature used up its attempts and fled to the relocation position.
    pub fn record_miss(&mut self, idx: usize, r: &[u8; 64]) -> (fled: bool)
        requires
            old(self).wf(),
            idx < 20,
            old(self).slots@[idx as int].is_active,
        ensures
            final(self).wf(),
            final(self).slots@ == old(self).slots@.update(idx as int, missed_slot(old(self).slots@[idx as int], r@)),
            final(self).active_count == old(self).active_count,
            final(self).bump == old(self).bump,
            fled == (old(self).slots@[idx as int].throw_attempts + 1 >= MAX_THROW_ATTEMPTS),
            fled ==> final(self).slots@[idx as int].throw_attempts == 0,
            fled ==> final(self).slots@[idx as int].pos_x <= MAX_COORDINATE,
            fled ==> final(self).slots@[idx as int].pos_y <= MAX_COORDINATE,
            final(self).slots@[idx as int].is_active,
    {
        let ghost s0 = self.slots@;
        proof {
            lemma_active_total_update(s0, idx as int, missed_slot(s0[idx as int], r@));
        }
        let mut s = self.slots[idx];
        let attempts = s.throw_attempts + 1;
        if attempts >= MAX_THROW_ATTEMPTS {
            let (nx, ny) = relocation_position(r);
            s.pos_x = nx;
            s.pos_y = ny;
            s.throw_attempts = 0;
            self.slots[idx] = s;
            true
        } else {
            s.throw_attempts = attempts;
            self.slots[idx] = s;
            false
        }
    }
}

} // verus!
