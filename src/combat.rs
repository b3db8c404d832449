//! Procedural enemies and the deterministic multi-round battle.
//!
//! The battle is resolved by projection rather than by simulation: each side
//! deals a fixed damage per round, so the number of rounds each side needs to
//! win is a ceiling division, and the player, who strikes first in every
//! round, wins whenever it needs no more rounds than the enemy.

use vstd::prelude::*;
use crate::record::{
    has_pending_encounter, is_zero, is_zero_fingerprint, zero_fingerprint, GameError, Player,
};

verus! {

/// Largest damage applied to the 8-bit hit-point field in one battle.
pub const MAX_DAMAGE_TAKEN: u64 = 255;

/// The stats of a generated opponent.
#[derive(Clone, Copy, Debug, PartialEq, Eq, Structural)]
pub struct Enemy {
    pub hp: u64,
    pub atk: u64,
    pub def: u64,
}

/// What a battle came to for the player.
#[derive(Clone, Copy, Debug, PartialEq, Eq, Structural)]
pub struct Battle {
    pub victory: bool,
    /// The player's hit points once the battle is over.
    pub hp: u8,
}

/// Enemy hit points: byte 0 of the fingerprint in `[20, 49]`, plus five per level.
pub open spec fn enemy_hp_of(fp: Seq<u8>, level: u32) -> int {
    (fp[0] % 30) as int + 20 + 5 * level
}

/// Enemy attack: byte 1 of the fingerprint in `[5, 14]`, plus two per level.
pub open spec fn enemy_atk_of(fp: Seq<u8>, level: u32) -> int {
    (fp[1] % 10) as int + 5 + 2 * level
}

/// Enemy defence: byte 2 of the fingerprint in `[0, 4]`, plus half the level.
pub open spec fn enemy_def_of(fp: Seq<u8>, level: u32) -> int {
    (fp[2] % 5) as int + level / 2
}

/// The enemy that a fingerprint summons at a given level.
pub open spec fn enemy_of(fp: Seq<u8>, level: u32) -> Enemy {
    Enemy {
        hp: enemy_hp_of(fp, level) as u64,
        atk: enemy_atk_of(fp, level) as u64,
        def: enemy_def_of(fp, level) as u64,
    }
}

/// Damage per blow: attack minus defence, floored at zero, and never below one.
pub open spec fn damage(atk: int, def: int) -> int {
    if atk - def >= 1 {
        atk - def
    } else {
        1
    }
}

/// `ceil(a / b)` for `a >= 0` and `b >= 1`.
pub open spec fn ceil_div(a: int, b: int) -> int {
    a / b + if a % b == 0 {
        0int
    } else {
        1int
    }
}

/// What each of the player's blows takes off the enemy.
pub open spec fn player_damage(p: Player, e: Enemy) -> int {
    damage(p.atk as int, e.def as int)
}

/// What each of the enemy's blows takes off the player.
pub open spec fn enemy_damage(p: Player, e: Enemy) -> int {
    damage(e.atk as int, p.def as int)
}

/// Rounds the player needs to bring the enemy to zero.
pub open spec fn rounds_to_kill(p: Player, e: Enemy) -> int {
    ceil_div(e.hp as int, player_damage(p, e))
}

/// Rounds the enemy needs to bring the player to zero.
pub open spec fn rounds_to_die(p: Player, e: Enemy) -> int {
    ceil_div(p.hp as int, enemy_damage(p, e))
}

/// The player strikes first in every round, so it wins ties.
pub open spec fn is_victory(p: Player, e: Enemy) -> bool {
    rounds_to_kill(p, e) <= rounds_to_die(p, e)
}

/// Damage the player takes in a victory: one enemy blow per round but the
/// last, in which the enemy falls before striking (none if it has no hit points).
pub open spec fn damage_taken(p: Player, e: Enemy) -> int {
    let hits = if rounds_to_kill(p, e) >= 1 {
        rounds_to_kill(p, e) - 1
    } else {
        0
    };
    hits * enemy_damage(p, e)
}

/// `damage_taken` clamped to what the 8-bit hit-point field can lose.
pub open spec fn clamped_damage(p: Player, e: Enemy) -> int {
    if damage_taken(p, e) > MAX_DAMAGE_TAKEN {
        MAX_DAMAGE_TAKEN as int
    } else {
        damage_taken(p, e)
    }
}

/// Hit points left after the battle: reduced by the clamped damage, saturating
/// at zero, on a victory; zero on a defeat.
pub open spec fn hp_after(p: Player, e: Enemy) -> int {
    if is_victory(p, e) {
        if p.hp - clamped_damage(p, e) >= 0 {
            p.hp - clamped_damage(p, e)
        } else {
            0
        }
    } else {
        0
    }
}

/// The level after a victory; it stops at the largest value it can hold.
pub open spec fn next_level(level: u32) -> u32 {
    if level < u32::MAX {
        (level + 1) as u32
    } else {
        level
    }
}

/// `new` is what `fight` makes of the record `old`, whose encounter is pending.
pub open spec fn fought(old: Player, new: Player) -> bool {
    let e = enemy_of(old.last_event@, old.level);
    &&& new.authority == old.authority
    &&& new.atk == old.atk
    &&& new.def == old.def
    &&& is_zero_fingerprint(new.last_event@)
    &&& new.hp == hp_after(old, e)
    &&& new.can_claim == is_victory(old, e)
    &&& new.level == if is_victory(old, e) {
        next_level(old.level)
    } else {
        old.level
    }
}

/// Derives the opponent of an encounter from bytes 0 to 2 of its fingerprint
/// and the player's level. Total: every fingerprint and level give an enemy.
pub fn derive_enemy(fp: &[u8; 32], level: u32) -> (e: Enemy)
    ensures
        e == enemy_of(fp@, level),
        e.hp == enemy_hp_of(fp@, level),
        e.atk == enemy_atk_of(fp@, level),
        e.def == enemy_def_of(fp@, level),
{
    let lv = level as u64;
    let hp = (fp[0] as u64 % 30) + 20 + lv * 5;
    let atk = (fp[1] as u64 % 10) + 5 + lv * 2;
    let def = (fp[2] as u64 % 5) + lv / 2;
    Enemy { hp, atk, def }
}

/// Damage per blow, as `damage` states it.
fn blow(atk: u64, def: u64) -> (r: u64)
    ensures
        r == damage(atk as int, def as int),
        r >= 1,
{
    if atk > def {
        atk - def
    } else {
        1
    }
}

/// `ceil(a / b)`, without the overflow of `(a + b - 1) / b`.
fn rounds(a: u64, b: u64) -> (r: u64)
    requires
        b >= 1,
    ensures
        r == ceil_div(a as int, b as int),
{
    let q = a / b;
    if a % b == 0 {
        q
    } else {
        proof {
            assert(q <= a) by (nonlinear_arith)
                requires
                    q == a / b,
                    b >= 1,
            ;
            assert(q < a) by {
                assert(a == b * q + a % b) by (nonlinear_arith)
                    requires
                        q == a / b,
                        b >= 1,
                ;
                assert(b * q >= q) by (nonlinear_arith)
                    requires
                        b >= 1,
                        q >= 0,
                ;
            }
        }
        q + 1
    }
}

/// Resolves a battle between the player and an enemy, without touching the
/// record: who wins, and the player's hit points afterwards.
pub fn resolve(p: &Player, e: &Enemy) -> (r: Battle)
    ensures
        r.victory == is_victory(*p, *e),
        r.hp == hp_after(*p, *e),
{
    let player_dmg = blow(p.atk as u64, e.def);
    let enemy_dmg = blow(e.atk, p.def as u64);
    let rounds_to_kill = rounds(e.hp, player_dmg);
    let rounds_to_die = rounds(p.hp as u64, enemy_dmg);
    if rounds_to_kill <= rounds_to_die {
        let hits: u64 = if rounds_to_kill >= 1 {
            rounds_to_kill - 1
        } else {
            0
        };
        let clamped: u64 = if hits == 0 {
            assert(hits * enemy_dmg == 0);
            0
        } else if enemy_dmg > MAX_DAMAGE_TAKEN || hits > MAX_DAMAGE_TAKEN {
            proof {
                assert(hits * enemy_dmg > 255) by (nonlinear_arith)
                    requires
                        hits >= 1,
                        enemy_dmg >= 1,
                        enemy_dmg > 255 || hits > 255,
                ;
                assert(hits * enemy_dmg > MAX_DAMAGE_TAKEN);
            }
            MAX_DAMAGE_TAKEN
        } else {
            proof {
                assert(hits * enemy_dmg <= 255 * 255) by (nonlinear_arith)
                    requires
                        hits <= 255,
                        enemy_dmg <= 255,
                ;
            }
            let taken = hits * enemy_dmg;
            if taken > MAX_DAMAGE_TAKEN {
                MAX_DAMAGE_TAKEN
            } else {
                taken
            }
        };
        assert(hits * enemy_dmg == damage_taken(*p, *e));
        assert(clamped == clamped_damage(*p, *e));
        Battle { victory: true, hp: p.hp.saturating_sub(clamped as u8) }
    } else {
        Battle { victory: false, hp: 0 }
    }
}

/// Resolves the pending encounter: derives the enemy from the stored
/// fingerprint and level, fights it, and applies the outcome. A victory
/// lowers the hit points by the clamped damage, unlocks the claim and raises
/// the level; a defeat leaves the player dead with nothing to claim. Either
/// way the fingerprint is cleared, so the encounter cannot be fought twice.
pub fn fight(player: &mut Player) -> (r: Result<(), GameError>)
    ensures
        old(player).hp == 0 <==> r == Err::<(), GameError>(GameError::PlayerDead),
        old(player).hp != 0 && !has_pending_encounter(*old(player)) <==> r == Err::<(), GameError>(
            GameError::NoEventFound,
        ),
        r is Ok <==> old(player).hp != 0 && has_pending_encounter(*old(player)),
        r is Err ==> *final(player) == *old(player),
        r is Ok ==> fought(*old(player), *final(player)),
{
    if player.hp == 0 {
        return Err(GameError::PlayerDead);
    }
    if is_zero(&player.last_event) {
        return Err(GameError::NoEventFound);
    }
    let enemy = derive_enemy(&player.last_event, player.level);
    let battle = resolve(player, &enemy);
    player.hp = battle.hp;
    player.can_claim = battle.victory;
    if battle.victory {
        player.level = player.level.saturating_add(1);
    }
    player.last_event = zero_fingerprint();
    Ok(())
}

} // verus!
