use proof_of_play::combat::{derive_enemy, fight, resolve, Battle, Enemy};
use proof_of_play::entropy::{encounter_seed, explore};
use proof_of_play::record::{claim, equip, init_player, is_zero, GameError, Player};

fn fingerprint(b0: u8, b1: u8, b2: u8) -> [u8; 32] {
    let mut fp = [0u8; 32];
    fp[0] = b0;
    fp[1] = b1;
    fp[2] = b2;
    fp[31] = 0xAA;
    fp
}

fn player(hp: u8, atk: u8, def: u8, level: u32, fp: [u8; 32]) -> Player {
    Player {
        authority: [7u8; 32],
        hp,
        atk,
        def,
        last_event: fp,
        can_claim: false,
        level,
    }
}

#[test]
fn end_to_end_victory() {
    let fp = fingerprint(5, 2, 1);
    assert_eq!(derive_enemy(&fp, 0), Enemy { hp: 25, atk: 7, def: 1 });
    let mut p = player(100, 10, 5, 0, fp);
    assert_eq!(fight(&mut p), Ok(()));
    assert_eq!(p.hp, 96);
    assert!(p.can_claim);
    assert_eq!(p.last_event, [0u8; 32]);
    assert_eq!(p.level, 1);
    assert_eq!(p.atk, 10);
    assert_eq!(p.def, 5);
}

#[test]
fn defeat_example() {
    let fp = fingerprint(29, 9, 4);
    assert_eq!(derive_enemy(&fp, 0), Enemy { hp: 49, atk: 14, def: 4 });
    let mut p = player(100, 10, 0, 0, fp);
    p.can_claim = true;
    assert_eq!(fight(&mut p), Ok(()));
    assert_eq!(p.hp, 0);
    assert!(!p.can_claim);
    assert_eq!(p.last_event, [0u8; 32]);
    assert_eq!(p.level, 0);
}

#[test]
fn tie_goes_to_player() {
    // Enemy {hp 20, atk 5, def 0}: both sides need exactly two rounds.
    let fp = fingerprint(0, 0, 0);
    assert_eq!(derive_enemy(&fp, 0), Enemy { hp: 20, atk: 5, def: 0 });
    let mut p = player(10, 10, 0, 0, fp);
    assert_eq!(fight(&mut p), Ok(()));
    assert!(p.can_claim);
    assert_eq!(p.hp, 5);
    let q = player(10, 5, 0, 0, [0u8; 32]);
    assert_eq!(resolve(&q, &Enemy { hp: 10, atk: 5, def: 0 }), Battle { victory: true, hp: 5 });
}

#[test]
fn one_round_short_of_tie_is_defeat() {
    let q = player(10, 5, 0, 0, [0u8; 32]);
    assert_eq!(resolve(&q, &Enemy { hp: 11, atk: 5, def: 0 }), Battle { victory: false, hp: 0 });
}

#[test]
fn huge_damage_never_wraps() {
    // At level 200 the enemy hits for at least 405, far past one byte.
    let mut p = player(100, 255, 0, 200, fingerprint(0, 0, 0));
    assert_eq!(fight(&mut p), Ok(()));
    assert_eq!(p.hp, 0);
    assert!(!p.can_claim);
    // A huge blow that never lands leaves the hit points untouched.
    let q = player(100, 10, 0, 0, [0u8; 32]);
    assert_eq!(resolve(&q, &Enemy { hp: 1, atk: 100_000, def: 0 }), Battle { victory: true, hp: 100 });
    // Saturated stats on both sides still resolve.
    let r = player(255, 255, 255, 0, [0u8; 32]);
    let e = Enemy { hp: u64::MAX, atk: u64::MAX, def: u64::MAX };
    assert_eq!(resolve(&r, &e), Battle { victory: false, hp: 0 });
}

#[test]
fn victory_damage_is_rounds_minus_one_blows() {
    // player_dmg 3, rounds_to_kill 4; enemy_dmg 7, rounds_to_die 15.
    let q = player(100, 5, 3, 0, [0u8; 32]);
    assert_eq!(resolve(&q, &Enemy { hp: 12, atk: 10, def: 2 }), Battle { victory: true, hp: 79 });
}

#[test]
fn enemy_without_hit_points_deals_nothing() {
    let q = player(50, 1, 0, 0, [0u8; 32]);
    assert_eq!(resolve(&q, &Enemy { hp: 0, atk: 9, def: 9 }), Battle { victory: true, hp: 50 });
}

#[test]
fn enemy_stats_within_ranges_for_every_byte() {
    for level in [0u32, 1, 2, 7, 1000, u32::MAX] {
        let l = level as u64;
        for b in 0..=255u8 {
            let e = derive_enemy(&fingerprint(b, b, b), level);
            assert!(e.hp >= 20 + 5 * l && e.hp <= 49 + 5 * l);
            assert!(e.atk >= 5 + 2 * l && e.atk <= 14 + 2 * l);
            assert!(e.def >= l / 2 && e.def <= 4 + l / 2);
        }
    }
}

#[test]
fn enemy_level_scaling() {
    let fp = fingerprint(5, 2, 1);
    assert_eq!(derive_enemy(&fp, 3), Enemy { hp: 40, atk: 13, def: 2 });
    assert_eq!(derive_enemy(&fp, 3), derive_enemy(&fp, 3));
}

#[test]
fn second_fight_without_explore_is_refused() {
    let mut p = player(100, 10, 5, 0, fingerprint(5, 2, 1));
    assert_eq!(fight(&mut p), Ok(()));
    let before = p;
    assert_eq!(fight(&mut p), Err(GameError::NoEventFound));
    assert_eq!(p.hp, before.hp);
    assert_eq!(p.level, before.level);
    assert_eq!(p.can_claim, before.can_claim);
}

#[test]
fn fight_after_defeat_is_refused_as_dead() {
    let mut p = player(100, 10, 0, 0, fingerprint(29, 9, 4));
    assert_eq!(fight(&mut p), Ok(()));
    assert_eq!(fight(&mut p), Err(GameError::PlayerDead));
}

#[test]
fn fight_dead_player_is_refused_before_event_check() {
    let mut p = player(0, 10, 5, 0, fingerprint(5, 2, 1));
    assert_eq!(fight(&mut p), Err(GameError::PlayerDead));
    assert_eq!(p.last_event, fingerprint(5, 2, 1));
}

#[test]
fn level_stops_at_its_maximum() {
    let mut p = player(100, 255, 255, u32::MAX, fingerprint(0, 0, 0));
    p.def = 255;
    let e = derive_enemy(&p.last_event, p.level);
    assert_eq!(e.hp, 20 + 5 * u32::MAX as u64);
    let mut strong = p;
    strong.atk = 255;
    assert_eq!(fight(&mut strong), Ok(()));
    assert_eq!(strong.level, u32::MAX);
}

#[test]
fn claim_only_once() {
    let mut p = player(50, 10, 5, 1, [0u8; 32]);
    p.can_claim = true;
    assert_eq!(claim(&mut p), Ok(()));
    assert!(!p.can_claim);
    assert_eq!(p.hp, 70);
    assert_eq!(claim(&mut p), Err(GameError::NoRewardInfo));
    assert_eq!(p.hp, 70);
}

#[test]
fn claim_heal_is_capped() {
    let mut p = player(90, 10, 5, 1, [0u8; 32]);
    p.can_claim = true;
    assert_eq!(claim(&mut p), Ok(()));
    assert_eq!(p.hp, 100);
}

#[test]
fn claim_after_victory() {
    let mut p = player(100, 10, 5, 0, fingerprint(5, 2, 1));
    assert_eq!(claim(&mut p), Err(GameError::NoRewardInfo));
    assert_eq!(fight(&mut p), Ok(()));
    assert_eq!(claim(&mut p), Ok(()));
    assert_eq!(p.hp, 100);
}

#[test]
fn init_player_defaults() {
    let p = init_player([3u8; 32]);
    assert_eq!(p.authority, [3u8; 32]);
    assert_eq!(p.hp, 100);
    assert_eq!(p.atk, 10);
    assert_eq!(p.def, 5);
    assert_eq!(p.last_event, [0u8; 32]);
    assert!(!p.can_claim);
    assert_eq!(p.level, 1);
    assert!(is_zero(&p.last_event));
}

#[test]
fn equip_sets_stats_from_base() {
    let mut p = init_player([3u8; 32]);
    assert_eq!(equip(&mut p, 7, 2), Ok(()));
    assert_eq!((p.atk, p.def), (17, 7));
    assert_eq!(equip(&mut p, 0, 0), Ok(()));
    assert_eq!((p.atk, p.def), (10, 5));
    assert_eq!(equip(&mut p, 245, 250), Ok(()));
    assert_eq!((p.atk, p.def), (255, 255));
    assert_eq!(p.hp, 100);
}

#[test]
fn explore_is_deterministic() {
    let mut a = init_player([9u8; 32]);
    let mut b = init_player([9u8; 32]);
    b.atk = 40;
    assert_eq!(explore(&mut a, 1234, 1_700_000_000), Ok(()));
    assert_eq!(explore(&mut b, 1234, 1_700_000_000), Ok(()));
    assert_eq!(a.last_event, b.last_event);
    assert!(!is_zero(&a.last_event));
    assert_eq!(a.hp, 100);
    assert_eq!(a.level, 1);
    assert!(!a.can_claim);
}

#[test]
fn explore_depends_on_every_input() {
    let base = init_player([9u8; 32]);
    let mut a = base;
    explore(&mut a, 1, 2).unwrap();
    let mut b = base;
    explore(&mut b, 2, 2).unwrap();
    let mut c = base;
    explore(&mut c, 1, 3).unwrap();
    let mut d = init_player([8u8; 32]);
    explore(&mut d, 1, 2).unwrap();
    let mut e = a;
    explore(&mut e, 1, 2).unwrap();
    assert_ne!(a.last_event, b.last_event);
    assert_ne!(a.last_event, c.last_event);
    assert_ne!(a.last_event, d.last_event);
    assert_ne!(a.last_event, e.last_event);
}

#[test]
fn explore_hashes_the_seed_not_a_copy_of_it() {
    let p = init_player([9u8; 32]);
    let seed = encounter_seed(1, 2, &p);
    let mut q = p;
    explore(&mut q, 1, 2).unwrap();
    assert_ne!(&q.last_event[..], &seed[..32]);
    assert_ne!(&q.last_event[..], &seed[seed.len() - 32..]);
}

#[test]
fn explore_dead_player_is_refused() {
    let mut p = init_player([9u8; 32]);
    p.hp = 0;
    assert_eq!(explore(&mut p, 1, 2), Err(GameError::PlayerDead));
    assert_eq!(p.last_event, [0u8; 32]);
}

#[test]
fn encounter_seed_layout() {
    let mut p = init_player([9u8; 32]);
    p.last_event = fingerprint(1, 2, 3);
    p.hp = 77;
    p.level = 0x0102_0304;
    let seed = encounter_seed(0x1122_3344_5566_7788, -2, &p);
    assert_eq!(seed.len(), 85);
    assert_eq!(&seed[0..8], &[0x88, 0x77, 0x66, 0x55, 0x44, 0x33, 0x22, 0x11]);
    assert_eq!(&seed[8..16], &(-2i64).to_le_bytes());
    assert_eq!(&seed[16..48], &[9u8; 32]);
    assert_eq!(&seed[48..80], &fingerprint(1, 2, 3));
    assert_eq!(seed[80], 77);
    assert_eq!(&seed[81..85], &[4, 3, 2, 1]);
    let min = encounter_seed(0, i64::MIN, &p);
    assert_eq!(&min[8..16], &i64::MIN.to_le_bytes());
}

#[test]
fn full_cycle() {
    let mut p = init_player([1u8; 32]);
    assert_eq!(fight(&mut p), Err(GameError::NoEventFound));
    explore(&mut p, 10, 20).unwrap();
    assert!(!is_zero(&p.last_event));
    let enemy = derive_enemy(&p.last_event, p.level);
    let expected = resolve(&p, &enemy);
    assert_eq!(fight(&mut p), Ok(()));
    assert_eq!(p.hp, expected.hp);
    assert_eq!(p.can_claim, expected.victory);
    assert!(is_zero(&p.last_event));
    assert!(p.hp <= 100);
}
