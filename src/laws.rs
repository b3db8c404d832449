//! Properties that relate several operations or hold of every input.

use vstd::prelude::*;
use vstd::arithmetic::div_mod::lemma_fundamental_div_mod;
use crate::record::{
    claimed, has_pending_encounter, healed, is_zero_fingerprint, player_inv, Player, MAX_HP,
};
use crate::combat::{
    ceil_div, damage_taken, enemy_damage, enemy_of, fought, hp_after, is_victory, rounds_to_die,
    rounds_to_kill, clamped_damage,
};
use crate::entropy::{explore_seed, keccak256_of};

verus! {

/// `explore` is deterministic: two records that agree on identity,
/// fingerprint, hit points and level, explored with the same sequence counter
/// and timestamp, receive the same new fingerprint.
pub proof fn lemma_explore_deterministic(slot: u64, timestamp: i64, a: Player, b: Player)
    requires
        a.authority == b.authority,
        a.last_event == b.last_event,
        a.hp == b.hp,
        a.level == b.level,
    ensures
        explore_seed(slot, timestamp, a) == explore_seed(slot, timestamp, b),
        keccak256_of(explore_seed(slot, timestamp, a)) == keccak256_of(
            explore_seed(slot, timestamp, b),
        ),
{
}

/// Enemy generation is deterministic: it reads the level and the first three
/// bytes of the fingerprint, and nothing else.
pub proof fn lemma_enemy_deterministic(a: Seq<u8>, b: Seq<u8>, level: u32)
    requires
        a.len() == 32,
        b.len() == 32,
        a[0] == b[0],
        a[1] == b[1],
        a[2] == b[2],
    ensures
        enemy_of(a, level) == enemy_of(b, level),
{
}

/// Every fingerprint, whatever its bytes, gives an enemy within the
/// documented ranges: hit points in `[20, 49] + 5 * level`, attack in
/// `[5, 14] + 2 * level`, defence in `[0, 4] + level / 2`.
pub proof fn lemma_enemy_ranges(fp: Seq<u8>, level: u32)
    requires
        fp.len() == 32,
    ensures
        20 + 5 * level <= enemy_of(fp, level).hp <= 49 + 5 * level,
        5 + 2 * level <= enemy_of(fp, level).atk <= 14 + 2 * level,
        level / 2 <= enemy_of(fp, level).def <= 4 + level / 2,
{
}

/// With `b >= 1` blows of `b` damage, one round fewer than `ceil(a / b)` does
/// not bring `a >= 1` hit points to zero.
proof fn lemma_one_round_short(a: int, b: int)
    requires
        a >= 1,
        b >= 1,
    ensures
        (ceil_div(a, b) - 1) * b < a,
        ceil_div(a, b) >= 1,
{
    lemma_fundamental_div_mod(a, b);
    let q = a / b;
    if a % b == 0 {
        assert((q - 1) * b == q * b - b) by (nonlinear_arith);
        assert(q >= 1) by (nonlinear_arith)
            requires
                a == b * q,
                a >= 1,
                b >= 1,
        ;
    } else {
        assert(b * q == q * b) by (nonlinear_arith);
    }
}

/// A victory never kills: the damage taken is less than the hit points the
/// player had, so it survives with at least one.
pub proof fn lemma_victory_survives(p: Player)
    requires
        p.hp >= 1,
        is_victory(p, enemy_of(p.last_event@, p.level)),
    ensures
        damage_taken(p, enemy_of(p.last_event@, p.level)) < p.hp,
        hp_after(p, enemy_of(p.last_event@, p.level)) >= 1,
{
    let e = enemy_of(p.last_event@, p.level);
    let d = enemy_damage(p, e);
    let kill = rounds_to_kill(p, e);
    let die = rounds_to_die(p, e);
    lemma_one_round_short(p.hp as int, d);
    let hits = if kill >= 1 {
        kill - 1
    } else {
        0
    };
    assert(hits * d <= (die - 1) * d) by (nonlinear_arith)
        requires
            0 <= hits <= die - 1,
            d >= 1,
    ;
    assert(damage_taken(p, e) == hits * d);
    assert(clamped_damage(p, e) == damage_taken(p, e));
}

/// Hit points stay within `[0, 100]` across `fight`: a victory only lowers
/// them and a defeat sets them to zero.
pub proof fn lemma_fight_keeps_hp_bound(old: Player, new: Player)
    requires
        player_inv(old),
        fought(old, new),
    ensures
        player_inv(new),
        new.hp <= old.hp,
{
}

/// Hit points stay within `[0, 100]` across `claim`, whatever they were.
pub proof fn lemma_claim_keeps_hp_bound(p: Player)
    ensures
        player_inv(claimed(p)),
        healed(p.hp) <= MAX_HP,
{
}

/// A resolved encounter cannot be fought again. After `fight`, the
/// fingerprint is zero, whatever the outcome. After a victory the player is
/// alive, so a second `fight` before the next `explore` is refused as having
/// no pending encounter; after a defeat the player is dead, and a second
/// `fight` is refused for that.
pub proof fn lemma_no_replay(old: Player, new: Player)
    requires
        old.hp != 0,
        fought(old, new),
    ensures
        is_zero_fingerprint(new.last_event@),
        !has_pending_encounter(new),
        new.can_claim ==> new.hp != 0,
        !new.can_claim ==> new.hp == 0,
{
    if is_victory(old, enemy_of(old.last_event@, old.level)) {
        lemma_victory_survives(old);
    }
}

/// A claim cannot be taken twice: after a successful claim nothing is left
/// to claim, so an immediate second one is refused.
pub proof fn lemma_claim_once(p: Player)
    requires
        p.can_claim,
    ensures
        !claimed(p).can_claim,
{
}

} // verus!
