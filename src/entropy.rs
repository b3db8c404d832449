//! The encounter fingerprint: a keccak-256 commitment to the host's sequence
//! counter and clock and to the record's own state. It is replay-resistant
//! (the record's previous fingerprint feeds the next one), not unpredictable.

use vstd::prelude::*;
use crate::record::{GameError, Player};

verus! {

/// The keccak-256 digest of `data`.
pub uninterp spec fn keccak256_of(data: Seq<u8>) -> Seq<u8>;

/// Relies on `solana_program::keccak::hashv`, which feeds each slice to one
/// keccak-256 hasher in turn: a single slice gives the digest of its bytes.
#[verifier::external_body]
fn keccak256(data: &[u8]) -> (r: [u8; 32])
    ensures
        r@ == keccak256_of(data@),
{
    anchor_lang::solana_program::keccak::hashv(&[data]).0
}

/// The `n` low bytes of `x`, least significant first.
pub open spec fn le_bytes(x: nat, n: nat) -> Seq<u8>
    decreases n,
{
    if n == 0 {
        Seq::empty()
    } else {
        seq![(x % 256) as u8].add(le_bytes(x / 256, (n - 1) as nat))
    }
}

/// A signed timestamp as the unsigned value with the same 64 bits.
pub open spec fn twos_complement(t: i64) -> nat {
    if t >= 0 {
        t as nat
    } else {
        (t + 0x1_0000_0000_0000_0000) as nat
    }
}

/// The bytes committed to by `explore`, in this order: the sequence counter
/// (8 bytes), the timestamp (8), the identity (32), the previous fingerprint
/// (32), the hit points (1) and the level (4), integers little-endian.
pub open spec fn explore_seed(slot: u64, timestamp: i64, p: Player) -> Seq<u8> {
    le_bytes(slot as nat, 8) + le_bytes(twos_complement(timestamp), 8) + p.authority@
        + p.last_event@ + seq![p.hp] + le_bytes(p.level as nat, 4)
}

/// Appends the `n` low bytes of `x` to `out`, least significant first.
fn push_le(out: &mut Vec<u8>, x: u64, n: usize)
    requires
        n <= 8,
    ensures
        final(out)@ == old(out)@ + le_bytes(x as nat, n as nat),
{
    let mut v: u64 = x;
    let mut i: usize = 0;
    while i < n
        invariant
            i <= n,
            out@ + le_bytes(v as nat, (n - i) as nat) == old(out)@ + le_bytes(x as nat, n as nat),
        decreases n - i,
    {
        let ghost prev = out@;
        out.push((v % 256) as u8);
        proof {
            assert(le_bytes(v as nat, (n - i) as nat) == seq![(v % 256) as u8].add(
                le_bytes((v / 256) as nat, (n - i - 1) as nat),
            ));
            assert(out@ + le_bytes((v / 256) as nat, (n - i - 1) as nat) == prev + le_bytes(
                v as nat,
                (n - i) as nat,
            ));
        }
        v = v / 256;
        i = i + 1;
    }
    assert(out@ + le_bytes(v as nat, 0) == out@);
}

/// The timestamp's bits read as an unsigned number.
fn timestamp_bits(t: i64) -> (r: u64)
    ensures
        r as nat == twos_complement(t),
{
    if t >= 0 {
        t as u64
    } else {
        ((t + i64::MAX) + 1) as u64 + 0x8000_0000_0000_0000u64
    }
}

/// Appends every byte of `bytes` to `out`.
fn push_all(out: &mut Vec<u8>, bytes: &[u8; 32])
    ensures
        final(out)@ == old(out)@ + bytes@,
{
    let mut i: usize = 0;
    while i < 32
        invariant
            i <= 32,
            bytes@.len() == 32,
            out@ == old(out)@ + bytes@.subrange(0, i as int),
        decreases 32 - i,
    {
        out.push(bytes[i]);
        assert(bytes@.subrange(0, i + 1) == bytes@.subrange(0, i as int).push(bytes@[i as int]));
        i = i + 1;
    }
    assert(bytes@.subrange(0, 32) == bytes@);
}

/// Lays out the bytes that `explore` hashes.
pub fn encounter_seed(slot: u64, timestamp: i64, p: &Player) -> (r: Vec<u8>)
    ensures
        r@ == explore_seed(slot, timestamp, *p),
{
    let mut out: Vec<u8> = Vec::new();
    push_le(&mut out, slot, 8);
    push_le(&mut out, timestamp_bits(timestamp), 8);
    push_all(&mut out, &p.authority);
    push_all(&mut out, &p.last_event);
    out.push(p.hp);
    push_le(&mut out, p.level as u64, 4);
    out
}

/// Commits to a new encounter: stores the keccak-256 digest of the sequence
/// counter, the timestamp and the record's identity, fingerprint, hit points
/// and level. Nothing else changes. A dead player cannot explore.
pub fn explore(player: &mut Player, slot: u64, timestamp: i64) -> (r: Result<(), GameError>)
    ensures
        r == Err::<(), GameError>(GameError::PlayerDead) <==> old(player).hp == 0,
        r is Ok <==> old(player).hp != 0,
        r is Err ==> *final(player) == *old(player),
        r is Ok ==> final(player).last_event@ == keccak256_of(
            explore_seed(slot, timestamp, *old(player)),
        ),
        r is Ok ==> *final(player) == (Player { last_event: final(player).last_event, ..*old(player) }),
{
    if player.hp == 0 {
        return Err(GameError::PlayerDead);
    }
    let seed = encounter_seed(slot, timestamp, player);
    player.last_event = keccak256(seed.as_slice());
    Ok(())
}

} // verus!
