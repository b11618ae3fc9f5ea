use snake_evo::evolution::Enemy;
use snake_evo::location::{enemy_index, Biome, KillError, Location, SpawnError};

const KINDS: [Enemy; 4] = [Enemy::Frog, Enemy::Lizard, Enemy::Mouse, Enemy::Bird];

fn counter_sum(l: &Location) -> u32 {
    KINDS.iter().map(|k| l.count_of(*k)).sum()
}

#[test]
fn swamp_setup() {
    let l = Location::swamp();
    assert_eq!(l.biome(), Biome::Swamp);
    assert_eq!(l.capacity(), 5);
    assert_eq!(l.population(), 0);
    assert_eq!(l.chance_of(Enemy::Frog), 50);
    assert_eq!(l.chance_of(Enemy::Lizard), 35);
    assert_eq!(l.chance_of(Enemy::Mouse), 10);
    assert_eq!(l.chance_of(Enemy::Bird), 5);
    for k in KINDS {
        assert_eq!(l.count_of(k), 0);
    }
}

#[test]
fn swamp_spawn_fills_to_capacity() {
    for _ in 0..200 {
        let mut l = Location::swamp();
        assert_eq!(l.spawn_enemies(), Ok(()));
        assert_eq!(l.population(), 5);
        assert_eq!(counter_sum(&l), 5);
    }
}

#[test]
fn repeated_spawns_keep_population_the_sum() {
    let mut l = Location::swamp();
    for round in 1..=20u32 {
        assert_eq!(l.spawn_enemies(), Ok(()));
        assert_eq!(l.population(), 5 * round);
        assert_eq!(counter_sum(&l), l.population());
    }
}

#[test]
fn zero_weight_kinds_never_spawn() {
    let mut l = Location::new(Biome::Swamp, 7, 0, 3, 0, 0);
    assert_eq!(l.spawn_enemies(), Ok(()));
    assert_eq!(l.count_of(Enemy::Lizard), 7);
    assert_eq!(l.count_of(Enemy::Frog), 0);
    assert_eq!(l.count_of(Enemy::Mouse), 0);
    assert_eq!(l.count_of(Enemy::Bird), 0);

    let mut b = Location::new(Biome::Swamp, 4, 0, 0, 0, 9);
    assert_eq!(b.spawn_enemies(), Ok(()));
    assert_eq!(b.count_of(Enemy::Bird), 4);
    assert_eq!(b.population(), 4);
}

#[test]
fn all_zero_weights_refuse_to_spawn() {
    let mut l = Location::new(Biome::Swamp, 5, 0, 0, 0, 0);
    assert_eq!(l.spawn_enemies(), Err(SpawnError::NoWeight));
    assert_eq!(l.population(), 0);
    assert_eq!(counter_sum(&l), 0);
}

#[test]
fn other_biomes_spawn_nothing() {
    let mut p = Location::prairie();
    assert_eq!(p.biome(), Biome::Prairie);
    assert_eq!(p.capacity(), 8);
    assert_eq!(p.spawn_enemies(), Ok(()));
    assert_eq!(p.population(), 0);

    let mut m = Location::new(Biome::Mountain, 3, 1, 1, 1, 1);
    assert_eq!(m.spawn_enemies(), Ok(()));
    assert_eq!(m.population(), 0);
}

#[test]
fn kill_takes_exactly_one() {
    let mut l = Location::swamp();
    assert_eq!(l.spawn_enemies(), Ok(()));
    for k in KINDS {
        while l.count_of(k) > 0 {
            let before: Vec<u32> = KINDS.iter().map(|o| l.count_of(*o)).collect();
            let pop = l.population();
            assert_eq!(l.kill_enemy(k), Ok(()));
            assert_eq!(l.population(), pop - 1);
            for (i, o) in KINDS.iter().enumerate() {
                let expected = if *o == k { before[i] - 1 } else { before[i] };
                assert_eq!(l.count_of(*o), expected);
            }
            assert_eq!(counter_sum(&l), l.population());
        }
    }
    assert_eq!(l.population(), 0);
}

#[test]
fn kill_of_absent_kind_is_refused() {
    let mut l = Location::new(Biome::Swamp, 2, 1, 0, 0, 0);
    assert_eq!(l.kill_enemy(Enemy::Frog), Err(KillError::NoneLeft));
    assert_eq!(l.spawn_enemies(), Ok(()));
    assert_eq!(l.kill_enemy(Enemy::Mouse), Err(KillError::NoneLeft));
    assert_eq!(l.population(), 2);
    assert_eq!(l.count_of(Enemy::Frog), 2);
}

#[test]
fn one_draw_adds_one_enemy() {
    let mut l = Location::prairie();
    l.add_enemy(Enemy::Mouse);
    l.add_enemy(Enemy::Mouse);
    l.add_enemy(Enemy::Bird);
    assert_eq!(l.count_of(Enemy::Mouse), 2);
    assert_eq!(l.count_of(Enemy::Bird), 1);
    assert_eq!(l.count_of(Enemy::Frog), 0);
    assert_eq!(l.count_of(Enemy::Lizard), 0);
    assert_eq!(l.population(), 3);
}

#[test]
fn draw_positions_name_the_kinds_in_order() {
    assert_eq!(enemy_index(0), Enemy::Frog);
    assert_eq!(enemy_index(1), Enemy::Lizard);
    assert_eq!(enemy_index(2), Enemy::Mouse);
    assert_eq!(enemy_index(3), Enemy::Bird);
}

#[test]
fn spawn_and_kill_keep_the_weights() {
    let mut l = Location::swamp();
    assert_eq!(l.spawn_enemies(), Ok(()));
    let _ = l.kill_enemy(Enemy::Frog);
    assert_eq!(l.chance_of(Enemy::Frog), 50);
    assert_eq!(l.chance_of(Enemy::Lizard), 35);
    assert_eq!(l.chance_of(Enemy::Mouse), 10);
    assert_eq!(l.chance_of(Enemy::Bird), 5);
    assert_eq!(l.capacity(), 5);
    assert_eq!(l.biome(), Biome::Swamp);
}

#[test]
fn a_nearly_full_prairie_still_spawns_nothing() {
    let mut p = Location::new(Biome::Prairie, 8, 0, 0, 0, 0);
    for _ in 0..3 {
        p.add_enemy(Enemy::Frog);
    }
    assert_eq!(p.spawn_enemies(), Ok(()));
    assert_eq!(p.population(), 3);
}
