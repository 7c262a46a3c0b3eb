use vstd::prelude::*;
use crate::constants::MAX_VAULT_SIZE;
use crate::errors::GameError;
use crate::randomness::{pool_index, pool_index_of};
use crate::state::{zero_key, NftVault, Pubkey};

verus! {

/// `s` with entry `i` replaced by the last entry and the last entry dropped.
pub open spec fn swap_remove(s: Seq<Pubkey>, i: int) -> Seq<Pubkey> {
    s.update(i, s.last()).drop_last()
}

/// `new` is `old` with entry `i` taken out by swap-with-last.
pub open spec fn removed_at(old: NftVault, new: NftVault, i: int) -> bool {
    &&& new.held() == swap_remove(old.held(), i)
    &&& new.count == old.count - 1
    &&& new.authority == old.authority
    &&& new.max_size == old.max_size
    &&& new.bump == old.bump
}

/// The award of one catch: nothing from an empty vault; otherwise the entry that
/// the selection bytes of `r` pick, taken out of the vault.
pub open spec fn awarded(old: NftVault, new: NftVault, r: Seq<u8>, prize: Option<Pubkey>) -> bool {
    if old.count == 0 {
        prize is None && new == old
    } else {
        let i = pool_index_of(r, old.count as nat) as int;
        prize == Some(old.mints@[i]) && removed_at(old, new, i)
    }
}

impl NftVault {
    /// An empty vault of the full capacity.
    pub fn new(authority: Pubkey, bump: u8) -> (v: NftVault)
        ensures
            v.wf(),
            v.count == 0,
            v.max_size == MAX_VAULT_SIZE,
            v.authority == authority,
            v.bump == bump,
    {
        let v = NftVault { authority, mints: [Pubkey::default();20], count: 0, max_size: MAX_VAULT_SIZE, bump };
        proof {
            assert forall|i: int| 0 <= i < 20 implies (#[trigger] v.mints@[i])@ == zero_key() by {
                assert(v.mints@[i].bytes@ =~= zero_key());
            }
        }
        v
    }

    /// Whether the vault holds `mint`.
    pub fn contains(&self, mint: &Pubkey) -> (r: bool)
        requires
            self.wf(),
        ensures
            r == self.holds(mint@),
    {
        let mut i: usize = 0;
        while i < self.count as usize
            invariant
                self.wf(),
                i <= self.count,
                forall|j: int| 0 <= j < i ==> (#[trigger] self.mints@[j])@ != mint@,
            decreases self.count - i,
        {
            if self.mints[i] == *mint {
                return true;
            }
            i += 1;
        }
        false
    }

    /// Adds `mint` at the end of the held entries.
    pub fn deposit(&mut self, mint: Pubkey) -> (r: Result<(), GameError>)
        requires
            old(self).wf(),
        ensures
            final(self).wf(),
            old(self).count >= old(self).max_size ==> r == Err::<(), GameError>(GameError::VaultFull),
            old(self).count < old(self).max_size && (mint@ == zero_key() || old(self).holds(mint@))
                ==> r == Err::<(), GameError>(GameError::InvalidNftMint),
            r is Err ==> *final(self) == *old(self),
            r is Ok ==> final(self).held() == old(self).held().push(mint),
            r is Ok ==> final(self).count == old(self).count + 1,
            r is Ok <==> (old(self).count < old(self).max_size && mint@ != zero_key()
                && !old(self).holds(mint@)),
            final(self).authority == old(self).authority,
            final(self).max_size == old(self).max_size,
            final(self).bump == old(self).bump,
    {
        if self.count >= self.max_size {
            return Err(GameError::VaultFull);
        }
        if mint.is_zero() || self.contains(&mint) {
            return Err(GameError::InvalidNftMint);
        }
        let ghost v0 = *self;
        let idx = self.count as usize;
        self.mints[idx] = mint;
        self.count = self.count + 1;
        proof {
            assert(self.held() =~= v0.held().push(mint));
            assert forall|i: int, j: int|
                0 <= i < self.count && 0 <= j < self.count && i != j implies (#[trigger] self.mints@[i])@
                    != (#[trigger] self.mints@[j])@ by {
                if i != idx && j != idx {
                    assert(v0.mints@[i] == self.mints@[i]);
                    assert(v0.mints@[j] == self.mints@[j]);
                } else if i == idx {
                    assert(v0.mints@[j] == self.mints@[j]);
                } else {
                    assert(v0.mints@[i] == self.mints@[i]);
                }
            }
        }
        Ok(())
    }

    /// Takes entry `index` out: the last held entry moves into its place and the
    /// vacated last position is cleared. Returns the removed mint.
    pub fn remove(&mut self, index: usize) -> (r: Result<Pubkey, GameError>)
        requires
            old(self).wf(),
        ensures
            final(self).wf(),
            index >= old(self).count ==> r == Err::<Pubkey, GameError>(GameError::InvalidNftIndex)
                && *final(self) == *old(self),
            index < old(self).count ==> r == Ok::<Pubkey, GameError>(old(self).mints@[index as int])
                && removed_at(*old(self), *final(self), index as int),
    {
        if index >= self.count as usize {
            return Err(GameError::InvalidNftIndex);
        }
        let ghost v0 = *self;
        let removed = self.mints[index];
        let last = (self.count - 1) as usize;
        if index != last {
            self.mints[index] = self.mints[last];
        }
        self.mints[last] = Pubkey::default();
        self.count = self.count - 1;
        proof {
            assert(self.held() =~= swap_remove(v0.held(), index as int));
            assert forall|i: int, j: int|
                0 <= i < self.count && 0 <= j < self.count && i != j implies (#[trigger] self.mints@[i])@
                    != (#[trigger] self.mints@[j])@ by {
                let oi = if i == index { last as int } else { i };
                let oj = if j == index { last as int } else { j };
                assert(self.mints@[i] == v0.mints@[oi]);
                assert(self.mints@[j] == v0.mints@[oj]);
            }
        }
        Ok(removed)
    }

    /// Takes out the collectible that a catch with randomness `r` wins, if any is
    /// held. The entry leaves the vault before anything is transferred.
    pub fn award(&mut self, r: &[u8; 64]) -> (prize: Option<Pubkey>)
        requires
            old(self).wf(),
        ensures
            final(self).wf(),
            awarded(*old(self), *final(self), r@, prize),
    {
        if self.count == 0 {
            return None;
        }
        let idx = pool_index(r, self.count);
        match self.remove(idx) {
            Ok(m) => Some(m),
            Err(_) => None,
        }
    }
}

/// A vault holding one collectible awards it to exactly one of two catches:
/// the first takes it and leaves the vault empty, the second gets nothing.
pub proof fn lemma_single_collectible_awarded_once(
    v0: NftVault,
    v1: NftVault,
    v2: NftVault,
    r1: Seq<u8>,
    r2: Seq<u8>,
    prize1: Option<Pubkey>,
    prize2: Option<Pubkey>,
)
    requires
        v0.wf(),
        v0.count == 1,
        awarded(v0, v1, r1, prize1),
        awarded(v1, v2, r2, prize2),
    ensures
        prize1 == Some(v0.mints@[0]),
        prize2 is None,
        v1.count == 0,
        v2.count == 0,
{
}

} // verus!
