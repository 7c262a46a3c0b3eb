use vstd::prelude::*;
use crate::constants::MAX_COORDINATE;

verus! {

/// The number that bytes `s` encode in little-endian order.
pub open spec fn le_value(s: Seq<u8>) -> nat
    decreases s.len(),
{
    if s.len() == 0 {
        0
    } else {
        s[0] as nat + 256 * le_value(s.subrange(1, s.len() as int))
    }
}

/// 256 to the power `n`.
pub open spec fn pow256(n: nat) -> nat
    decreases n,
{
    if n == 0 {
        1
    } else {
        256 * pow256((n - 1) as nat)
    }
}

/// Number of distinct values on one axis.
pub open spec fn axis_size() -> nat {
    MAX_COORDINATE as nat + 1
}

/// Spawn position: bytes 0..2 and 2..4, each reduced to an axis value.
pub open spec fn spawn_position_of(r: Seq<u8>) -> (u16, u16) {
    (
        (le_value(r.subrange(0, 2)) % axis_size()) as u16,
        (le_value(r.subrange(2, 4)) % axis_size()) as u16,
    )
}

/// Catch roll: bytes 0..8 reduced mod 100.
pub open spec fn catch_roll_of(r: Seq<u8>) -> nat {
    le_value(r.subrange(0, 8)) % 100
}

/// Whether a throw with catch probability `rate` (percent) catches.
pub open spec fn caught_of(r: Seq<u8>, rate: u8) -> bool {
    catch_roll_of(r) < rate
}

/// Vault selection: bytes 8..16 reduced mod the number of held collectibles.
pub open spec fn pool_index_of(r: Seq<u8>, count: nat) -> nat
    recommends
        count > 0,
{
    le_value(r.subrange(8, 16)) % count
}

/// Relocation position: bytes 16..18 and 18..20, each reduced to an axis value.
pub open spec fn relocation_position_of(r: Seq<u8>) -> (u16, u16) {
    (
        (le_value(r.subrange(16, 18)) % axis_size()) as u16,
        (le_value(r.subrange(18, 20)) % axis_size()) as u16,
    )
}

proof fn lemma_le_value_bound(s: Seq<u8>)
    ensures
        le_value(s) < pow256(s.len()),
    decreases s.len(),
{
    if s.len() > 0 {
        let t = s.subrange(1, s.len() as int);
        lemma_le_value_bound(t);
        assert(pow256(s.len()) == 256 * pow256(t.len()));
        let a = s[0] as nat;
        let b = le_value(t);
        let p = pow256(t.len());
        assert(a + 256 * b < 256 * p) by (nonlinear_arith)
            requires
                a < 256,
                b < p,
        ;
    }
}

proof fn lemma_pow256_mono(m: nat, n: nat)
    requires
        m <= n,
    ensures
        pow256(m) <= pow256(n),
    decreases n,
{
    if m < n {
        lemma_pow256_mono(m, (n - 1) as nat);
    }
}

/// Reads `len` bytes of `r` from `start` as a little-endian number.
fn read_le(r: &[u8; 64], start: usize, len: usize) -> (v: u64)
    requires
        len <= 8,
        start + len <= 64,
    ensures
        v as nat == le_value(r@.subrange(start as int, start + len)),
{
    let end = start + len;
    let mut i: usize = end;
    let mut acc: u64 = 0;
    proof {
        reveal_with_fuel(pow256, 9);
        assert(r@.subrange(end as int, end as int) =~= Seq::<u8>::empty());
    }
    while i > start
        invariant
            start <= i <= end,
            end == start + len,
            len <= 8,
            end <= 64,
            acc as nat == le_value(r@.subrange(i as int, end as int)),
            pow256(8) == 0x1_0000_0000_0000_0000nat,
        decreases i - start,
    {
        let b = r[i - 1];
        proof {
            let s = r@.subrange(i - 1, end as int);
            assert(s.subrange(1, s.len() as int) =~= r@.subrange(i as int, end as int));
            assert(s[0] == b);
            lemma_le_value_bound(s);
            lemma_pow256_mono(s.len(), 8);
        }
        acc = acc * 256 + b as u64;
        i -= 1;
    }
    acc
}

/// Where a spawned creature appears.
pub fn spawn_position(r: &[u8; 64]) -> (p: (u16, u16))
    ensures
        p == spawn_position_of(r@),
        p.0 <= MAX_COORDINATE,
        p.1 <= MAX_COORDINATE,
{
    let x = read_le(r, 0, 2) % (MAX_COORDINATE as u64 + 1);
    let y = read_le(r, 2, 2) % (MAX_COORDINATE as u64 + 1);
    (x as u16, y as u16)
}

/// The catch roll, in `0..100`.
pub fn catch_roll(r: &[u8; 64]) -> (roll: u8)
    ensures
        roll as nat == catch_roll_of(r@),
        roll < 100,
{
    (read_le(r, 0, 8) % 100) as u8
}

/// Whether a throw with catch probability `rate` catches: the roll is below the rate.
pub fn is_caught(r: &[u8; 64], rate: u8) -> (caught: bool)
    ensures
        caught == caught_of(r@, rate),
        caught == (catch_roll_of(r@) < rate),
{
    catch_roll(r) < rate
}

/// Which held collectible a catch wins.
pub fn pool_index(r: &[u8; 64], count: u8) -> (idx: usize)
    requires
        count > 0,
    ensures
        idx as nat == pool_index_of(r@, count as nat),
        idx < count,
{
    (read_le(r, 8, 8) % count as u64) as usize
}

/// Where a creature flees to once its attempts run out.
pub fn relocation_position(r: &[u8; 64]) -> (p: (u16, u16))
    ensures
        p == relocation_position_of(r@),
        p.0 <= MAX_COORDINATE,
        p.1 <= MAX_COORDINATE,
{
    let x = read_le(r, 16, 2) % (MAX_COORDINATE as u64 + 1);
    let y = read_le(r, 18, 2) % (MAX_COORDINATE as u64 + 1);
    (x as u16, y as u16)
}

/// The decisions drawn from one randomness blob read disjoint byte ranges: the
/// catch roll reads bytes 0..8, the vault selection bytes 8..16 and the
/// relocation bytes 16..20. Two blobs that agree on a decision's range give the
/// same decision, whatever the other bytes hold, and a throw is caught exactly
/// when its roll is below the tier's catch probability.
pub proof fn lemma_derivations_disjoint(a: Seq<u8>, b: Seq<u8>, count: nat, rate: u8)
    requires
        a.len() == 64,
        b.len() == 64,
    ensures
        caught_of(a, rate) <==> catch_roll_of(a) < rate,
        a.subrange(0, 8) == b.subrange(0, 8) ==> catch_roll_of(a) == catch_roll_of(b),
        count > 0 && a.subrange(8, 16) == b.subrange(8, 16) ==> pool_index_of(a, count)
            == pool_index_of(b, count),
        a.subrange(16, 20) == b.subrange(16, 20) ==> relocation_position_of(a)
            == relocation_position_of(b),
{
    if a.subrange(16, 20) == b.subrange(16, 20) {
        assert(a.subrange(16, 18) =~= a.subrange(16, 20).subrange(0, 2));
        assert(b.subrange(16, 18) =~= b.subrange(16, 20).subrange(0, 2));
        assert(a.subrange(18, 20) =~= a.subrange(16, 20).subrange(2, 4));
        assert(b.subrange(18, 20) =~= b.subrange(16, 20).subrange(2, 4));
    }
}

} // verus!
