//! The player record, the errors of the operations on it, and the
//! sentinel that marks "no pending encounter".

use vstd::prelude::*;

verus! {

/// Number of bytes in an encounter fingerprint and in an identity key.
pub const FINGERPRINT_LEN: usize = 32;

/// Highest hit-point value a record can hold.
pub const MAX_HP: u8 = 100;

/// The state kept for one identity.
#[derive(Clone, Copy, Debug)]
pub struct Player {
    /// Key of the owning principal; never changed after creation.
    pub authority: [u8; 32],
    /// Hit points; 0 means dead.
    pub hp: u8,
    pub atk: u8,
    pub def: u8,
    /// Fingerprint of the pending encounter; all zero when there is none.
    pub last_event: [u8; 32],
    /// True only between a victory and its claim.
    pub can_claim: bool,
    pub level: u32,
}

/// Why an operation was refused; a refused operation changes nothing.
#[derive(Clone, Copy, Debug, PartialEq, Eq, Structural)]
pub enum GameError {
    /// The player has no hit points left.
    PlayerDead,
    /// `fight` was called with no pending encounter.
    NoEventFound,
    /// `claim` was called with no unclaimed victory.
    NoRewardInfo,
}

/// Every byte of `fp` is zero: the sentinel for "no pending encounter".
pub open spec fn is_zero_fingerprint(fp: Seq<u8>) -> bool {
    forall|i: int| 0 <= i < fp.len() ==> fp[i] == 0u8
}

/// Whether a record has an encounter waiting to be fought.
pub open spec fn has_pending_encounter(p: Player) -> bool {
    !is_zero_fingerprint(p.last_event@)
}

/// The invariant that every operation keeps: hit points never exceed the cap.
pub open spec fn player_inv(p: Player) -> bool {
    p.hp <= MAX_HP
}

/// Tests whether a fingerprint is the all-zero sentinel.
pub fn is_zero(fp: &[u8; 32]) -> (r: bool)
    ensures
        r == is_zero_fingerprint(fp@),
{
    let mut i: usize = 0;
    while i < FINGERPRINT_LEN
        invariant
            i <= FINGERPRINT_LEN,
            fp@.len() == FINGERPRINT_LEN,
            forall|j: int| 0 <= j < i ==> fp@[j] == 0u8,
        decreases FINGERPRINT_LEN - i,
    {
        if fp[i] != 0 {
            return false;
        }
        i = i + 1;
    }
    true
}

/// The all-zero fingerprint.
pub fn zero_fingerprint() -> (r: [u8; 32])
    ensures
        is_zero_fingerprint(r@),
        r@.len() == FINGERPRINT_LEN,
{
    let r = [0u8; 32];
    assert(forall|i: int| 0 <= i < 32 ==> r@[i] == 0u8);
    r
}

/// Hit points a claim restores, up to the cap.
pub const CLAIM_HEAL: u8 = 20;

/// Attack and defence of a fresh record, on which `equip` adds its bonuses.
pub const BASE_ATK: u8 = 10;
pub const BASE_DEF: u8 = 5;

/// A fresh record for `authority`: full health, base stats, level 1, no
/// pending encounter and nothing to claim.
pub fn init_player(authority: [u8; 32]) -> (p: Player)
    ensures
        p.authority == authority,
        p.hp == MAX_HP,
        p.atk == BASE_ATK,
        p.def == BASE_DEF,
        is_zero_fingerprint(p.last_event@),
        !p.can_claim,
        p.level == 1,
        player_inv(p),
{
    Player {
        authority,
        hp: MAX_HP,
        atk: BASE_ATK,
        def: BASE_DEF,
        last_event: zero_fingerprint(),
        can_claim: false,
        level: 1,
    }
}

/// Sets attack and defence to the base values plus the bonuses of an item;
/// the bonuses must keep both stats within a byte.
pub fn equip(player: &mut Player, atk_bonus: u8, def_bonus: u8) -> (r: Result<(), GameError>)
    requires
        BASE_ATK + atk_bonus <= u8::MAX,
        BASE_DEF + def_bonus <= u8::MAX,
    ensures
        r is Ok,
        final(player).atk == BASE_ATK + atk_bonus,
        final(player).def == BASE_DEF + def_bonus,
        *final(player) == (Player { atk: final(player).atk, def: final(player).def, ..*old(player) }),
{
    player.atk = BASE_ATK + atk_bonus;
    player.def = BASE_DEF + def_bonus;
    Ok(())
}

/// Hit points after a claim: twenty more, up to the cap.
pub open spec fn healed(hp: u8) -> u8 {
    if hp + CLAIM_HEAL > MAX_HP {
        MAX_HP
    } else {
        (hp + CLAIM_HEAL) as u8
    }
}

/// The record after a successful claim.
pub open spec fn claimed(p: Player) -> Player {
    Player { can_claim: false, hp: healed(p.hp), ..p }
}

/// Consumes the reward of a victory: the claim is locked again until the next
/// victory, and the player heals by twenty hit points, up to the cap.
pub fn claim(player: &mut Player) -> (r: Result<(), GameError>)
    ensures
        r == Err::<(), GameError>(GameError::NoRewardInfo) <==> !old(player).can_claim,
        r is Ok <==> old(player).can_claim,
        r is Err ==> *final(player) == *old(player),
        r is Ok ==> *final(player) == claimed(*old(player)),
{
    if !player.can_claim {
        return Err(GameError::NoRewardInfo);
    }
    player.can_claim = false;
    let raised = player.hp.saturating_add(CLAIM_HEAL);
    player.hp = if raised < MAX_HP {
        raised
    } else {
        MAX_HP
    };
    Ok(())
}

} // verus!
