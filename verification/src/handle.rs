//! Content-addressed job handles.
//!
//! A submitted movement list is identified by a structural hash of its
//! coordinates and pen flags (64-bit FNV-1a over their little-endian bytes),
//! so identical lists always map to the same handle and re-submission is
//! idempotent.
use vstd::prelude::*;

use crate::models::Movement;

verus! {

/// The FNV-1a 64-bit offset basis.
pub const FNV_OFFSET: u64 = 0xcbf29ce484222325;

/// The FNV-1a 64-bit prime.
pub const FNV_PRIME: u64 = 0x100000001b3;

/// One FNV-1a round: fold one byte into the running hash.
pub open spec fn fnv_step(h: u64, b: u8) -> u64 {
    (((h ^ (b as u64)) as u128) * (FNV_PRIME as u128)) as u64
}

/// Folds the eight little-endian bytes of a 64-bit word into the hash.
pub open spec fn fnv_word(h: u64, w: u64) -> u64 {
    let h0 = fnv_step(h, (w & 0xff) as u8);
    let h1 = fnv_step(h0, ((w >> 8) & 0xff) as u8);
    let h2 = fnv_step(h1, ((w >> 16) & 0xff) as u8);
    let h3 = fnv_step(h2, ((w >> 24) & 0xff) as u8);
    let h4 = fnv_step(h3, ((w >> 32) & 0xff) as u8);
    let h5 = fnv_step(h4, ((w >> 40) & 0xff) as u8);
    let h6 = fnv_step(h5, ((w >> 48) & 0xff) as u8);
    fnv_step(h6, ((w >> 56) & 0xff) as u8)
}

/// Folds one movement into the hash: the bit patterns of both coordinates,
/// then the pen flag as one byte.
pub open spec fn fnv_movement(h: u64, m: Movement) -> u64 {
    fnv_step(
        fnv_word(fnv_word(h, m.dest.x as u64), m.dest.y as u64),
        if m.pen_down {
            1u8
        } else {
            0u8
        },
    )
}

/// The handle of a movement list: FNV-1a over all movements in order.
pub open spec fn movements_hash(ms: Seq<Movement>) -> u64
    decreases ms.len(),
{
    if ms.len() == 0 {
        FNV_OFFSET
    } else {
        fnv_movement(movements_hash(ms.drop_last()), ms.last())
    }
}

/// One FNV-1a round, executable.
fn mix_byte(h: u64, b: u8) -> (r: u64)
    ensures
        r == fnv_step(h, b),
{
    let x: u64 = h ^ (b as u64);
    proof {
        assert((x as u128) * (FNV_PRIME as u128) <= (u64::MAX as u128) * (FNV_PRIME as u128))
            by (nonlinear_arith)
            requires
                0 <= x <= u64::MAX,
        ;
    }
    let wide: u128 = (x as u128) * (FNV_PRIME as u128);
    #[verifier::truncate]
    let r = wide as u64;
    r
}

/// Folds the eight little-endian bytes of a word into the hash, executable.
fn mix_word(h: u64, w: u64) -> (r: u64)
    ensures
        r == fnv_word(h, w),
{
    let h0 = mix_byte(h, (w & 0xff) as u8);
    let h1 = mix_byte(h0, ((w >> 8) & 0xff) as u8);
    let h2 = mix_byte(h1, ((w >> 16) & 0xff) as u8);
    let h3 = mix_byte(h2, ((w >> 24) & 0xff) as u8);
    let h4 = mix_byte(h3, ((w >> 32) & 0xff) as u8);
    let h5 = mix_byte(h4, ((w >> 40) & 0xff) as u8);
    let h6 = mix_byte(h5, ((w >> 48) & 0xff) as u8);
    mix_byte(h6, ((w >> 56) & 0xff) as u8)
}

/// The content-addressed handle of a movement list.
///
/// The handle is a pure function of the list's structure: the coordinate
/// words and pen flags in order. Identical lists always yield the same
/// handle; any change to a coordinate or flag reaches the hash input.
pub fn movements_handle(movements: &Vec<Movement>) -> (h: u64)
    ensures
        h == movements_hash(movements@),
{
    let mut h: u64 = FNV_OFFSET;
    let mut i: usize = 0;
    while i < movements.len()
        invariant
            i <= movements@.len(),
            h == movements_hash(movements@.take(i as int)),
        decreases movements@.len() - i,
    {
        let mv = movements[i];
        #[verifier::truncate]
        let wx = mv.dest.x as u64;
        #[verifier::truncate]
        let wy = mv.dest.y as u64;
        h = mix_word(h, wx);
        h = mix_word(h, wy);
        h = mix_byte(
            h,
            if mv.pen_down {
                1
            } else {
                0
            },
        );
        proof {
            let pre = movements@.take(i + 1);
            assert(pre.drop_last() =~= movements@.take(i as int));
            assert(pre.last() == movements@[i as int]);
        }
        i = i + 1;
    }
    proof {
        assert(movements@.take(movements@.len() as int) =~= movements@);
    }
    h
}

/// Two movements agree structurally: same coordinates, same pen flag.
pub open spec fn same_movement(m: Movement, n: Movement) -> bool {
    m.dest.x == n.dest.x && m.dest.y == n.dest.y && m.pen_down == n.pen_down
}

/// Content addressing: two movement lists that agree structurally — same
/// length, and the same destination and pen flag at every index — always
/// hash to the same job handle.
pub proof fn lemma_handle_structural(a: Seq<Movement>, b: Seq<Movement>)
    requires
        a.len() == b.len(),
        forall|i: int| 0 <= i < a.len() ==> #[trigger] same_movement(a[i], b[i]),
    ensures
        movements_hash(a) == movements_hash(b),
{
    assert forall|i: int| 0 <= i < a.len() implies a[i] == b[i] by {
        assert(same_movement(a[i], b[i]));
        assert(a[i].dest == b[i].dest);
    }
    assert(a =~= b);
}

} // verus!
