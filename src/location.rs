use crate::draw::{draw_index, seeded_rng, table_weights, weight_sum, weighted_index};
use crate::evolution::Enemy;
use vstd::prelude::*;

verus! {

/// The kind of land an area is; only a swamp spawns anything.
#[derive(Clone, Copy, Debug, PartialEq, Eq, Structural)]
pub enum Biome {
    Swamp,
    Prairie,
    Mountain,
}

/// Why a spawn could not take place.
#[derive(Clone, Copy, Debug, PartialEq, Eq, Structural)]
pub enum SpawnError {
    /// Every spawn weight of the area is zero.
    NoWeight,
    /// The system's random source could not seed a generator.
    NoEntropy,
}

/// Why an enemy could not be removed.
#[derive(Clone, Copy, Debug, PartialEq, Eq, Structural)]
pub enum KillError {
    /// No enemy of that kind is present.
    NoneLeft,
}

/// The enemy kind that stands at position `i` of the fixed order
/// frog, lizard, mouse, bird.
pub open spec fn enemy_at(i: int) -> Enemy {
    if i == 0 {
        Enemy::Frog
    } else if i == 1 {
        Enemy::Lizard
    } else if i == 2 {
        Enemy::Mouse
    } else {
        Enemy::Bird
    }
}

/// The enemy kind at position `i` of the fixed order.
pub fn enemy_index(i: usize) -> (r: Enemy)
    requires
        i < 4,
    ensures
        r == enemy_at(i as int),
{
    if i == 0 {
        Enemy::Frog
    } else if i == 1 {
        Enemy::Lizard
    } else if i == 2 {
        Enemy::Mouse
    } else {
        Enemy::Bird
    }
}

/// An area: its biome, how many enemies one spawn brings, the weight with
/// which each kind is drawn, and how many of each kind are present.
pub struct Location {
    biome: Biome,
    capacity: u32,
    frogs: u32,
    lizards: u32,
    mice: u32,
    birds: u32,
    frog_chance: u32,
    lizard_chance: u32,
    mice_chance: u32,
    bird_chance: u32,
    population: u32,
}

impl Location {
    pub closed spec fn spec_biome(&self) -> Biome {
        self.biome
    }

    pub closed spec fn spec_capacity(&self) -> nat {
        self.capacity as nat
    }

    pub closed spec fn spec_population(&self) -> nat {
        self.population as nat
    }

    /// How many enemies of kind `e` are present.
    pub closed spec fn count(&self, e: Enemy) -> nat {
        match e {
            Enemy::Frog => self.frogs as nat,
            Enemy::Lizard => self.lizards as nat,
            Enemy::Mouse => self.mice as nat,
            Enemy::Bird => self.birds as nat,
        }
    }

    /// The weight with which kind `e` is drawn.
    pub closed spec fn chance(&self, e: Enemy) -> nat {
        match e {
            Enemy::Frog => self.frog_chance as nat,
            Enemy::Lizard => self.lizard_chance as nat,
            Enemy::Mouse => self.mice_chance as nat,
            Enemy::Bird => self.bird_chance as nat,
        }
    }

    /// The weights in the order frog, lizard, mouse, bird.
    pub closed spec fn weights(&self) -> Seq<u32> {
        seq![self.frog_chance, self.lizard_chance, self.mice_chance, self.bird_chance]
    }

    pub open spec fn total_chance(&self) -> nat {
        self.chance(Enemy::Frog) + self.chance(Enemy::Lizard) + self.chance(Enemy::Mouse)
            + self.chance(Enemy::Bird)
    }

    pub open spec fn total_count(&self) -> nat {
        self.count(Enemy::Frog) + self.count(Enemy::Lizard) + self.count(Enemy::Mouse)
            + self.count(Enemy::Bird)
    }

    /// The population is the sum of the four counters, and the weights add up
    /// within range; all of them are machine integers.
    pub open spec fn wf(&self) -> bool {
        &&& self.spec_population() == self.total_count()
        &&& self.total_chance() <= u32::MAX
        &&& self.spec_capacity() <= u32::MAX
    }

    /// Same configuration: biome, capacity and weights.
    pub open spec fn same_setup(&self, other: &Location) -> bool {
        &&& self.spec_biome() == other.spec_biome()
        &&& self.spec_capacity() == other.spec_capacity()
        &&& self.weights() == other.weights()
        &&& forall|e: Enemy| #[trigger] self.chance(e) == other.chance(e)
    }

    /// What every outcome of a successful spawn satisfies: the setup is kept,
    /// the population grows by the capacity, no counter shrinks, and a kind
    /// whose weight is zero gains nothing.
    pub open spec fn spawned_from(&self, before: &Location) -> bool {
        &&& self.same_setup(before)
        &&& self.wf()
        &&& self.spec_population() == before.spec_population() + before.spec_capacity()
        &&& forall|e: Enemy| #[trigger] self.count(e) >= before.count(e)
        &&& forall|e: Enemy| before.chance(e) == 0 ==> #[trigger] self.count(e) == before.count(e)
    }

    /// An empty swamp of capacity five, weighted 50, 35, 10 and 5 for frog,
    /// lizard, mouse and bird.
    pub open spec fn is_fresh_swamp(&self) -> bool {
        &&& self.wf()
        &&& self.spec_biome() == Biome::Swamp
        &&& self.spec_capacity() == 5
        &&& self.weights() == seq![50u32, 35u32, 10u32, 5u32]
        &&& self.chance(Enemy::Frog) == 50
        &&& self.chance(Enemy::Lizard) == 35
        &&& self.chance(Enemy::Mouse) == 10
        &&& self.chance(Enemy::Bird) == 5
        &&& self.spec_population() == 0
        &&& forall|e: Enemy| #[trigger] self.count(e) == 0
    }

    /// An empty area of the given setup.
    pub fn new(
        biome: Biome,
        capacity: u32,
        frog_chance: u32,
        lizard_chance: u32,
        mice_chance: u32,
        bird_chance: u32,
    ) -> (r: Location)
        requires
            frog_chance + lizard_chance + mice_chance + bird_chance <= u32::MAX,
        ensures
            r.wf(),
            r.spec_biome() == biome,
            r.spec_capacity() == capacity,
            r.weights() == seq![frog_chance, lizard_chance, mice_chance, bird_chance],
            r.chance(Enemy::Frog) == frog_chance,
            r.chance(Enemy::Lizard) == lizard_chance,
            r.chance(Enemy::Mouse) == mice_chance,
            r.chance(Enemy::Bird) == bird_chance,
            forall|e: Enemy| #[trigger] r.count(e) == 0,
            r.spec_population() == 0,
    {
        Location {
            biome,
            capacity,
            frogs: 0,
            lizards: 0,
            mice: 0,
            birds: 0,
            frog_chance,
            lizard_chance,
            mice_chance,
            bird_chance,
            population: 0,
        }
    }

    /// The swamp: five enemies per spawn, drawn with weights 50, 35, 10 and 5
    /// for frog, lizard, mouse and bird.
    pub fn swamp() -> (r: Location)
        ensures
            r.is_fresh_swamp(),
    {
        Location::new(Biome::Swamp, 5, 50, 35, 10, 5)
    }

    /// The prairie: eight enemies per spawn, with no weights set.
    pub fn prairie() -> (r: Location)
        ensures
            r.wf(),
            r.spec_biome() == Biome::Prairie,
            r.spec_capacity() == 8,
            r.weights() == seq![0u32, 0u32, 0u32, 0u32],
            forall|e: Enemy| #[trigger] r.chance(e) == 0,
            r.spec_population() == 0,
            forall|e: Enemy| #[trigger] r.count(e) == 0,
    {
        Location::new(Biome::Prairie, 8, 0, 0, 0, 0)
    }

    pub fn biome(&self) -> (r: Biome)
        ensures
            r == self.spec_biome(),
    {
        self.biome
    }

    pub fn capacity(&self) -> (r: u32)
        ensures
            r == self.spec_capacity(),
    {
        self.capacity
    }

    pub fn population(&self) -> (r: u32)
        ensures
            r == self.spec_population(),
    {
        self.population
    }

    /// How many enemies of kind `e` are present.
    pub fn count_of(&self, e: Enemy) -> (r: u32)
        ensures
            r == self.count(e),
    {
        match e {
            Enemy::Frog => self.frogs,
            Enemy::Lizard => self.lizards,
            Enemy::Mouse => self.mice,
            Enemy::Bird => self.birds,
        }
    }

    /// The weight with which kind `e` is drawn.
    pub fn chance_of(&self, e: Enemy) -> (r: u32)
        ensures
            r == self.chance(e),
    {
        match e {
            Enemy::Frog => self.frog_chance,
            Enemy::Lizard => self.lizard_chance,
            Enemy::Mouse => self.mice_chance,
            Enemy::Bird => self.bird_chance,
        }
    }
}

impl Location {
    /// Adds one enemy of kind `e`: what one draw of a spawn does.
    pub fn add_enemy(&mut self, e: Enemy)
        requires
            old(self).wf(),
            old(self).spec_population() < u32::MAX,
        ensures
            final(self).wf(),
            final(self).same_setup(old(self)),
            final(self).count(e) == old(self).count(e) + 1,
            forall|o: Enemy| o != e ==> #[trigger] final(self).count(o) == old(self).count(o),
            final(self).spec_population() == old(self).spec_population() + 1,
    {
        match e {
            Enemy::Frog => self.frogs = self.frogs + 1,
            Enemy::Lizard => self.lizards = self.lizards + 1,
            Enemy::Mouse => self.mice = self.mice + 1,
            Enemy::Bird => self.birds = self.birds + 1,
        }
        self.population = self.frogs + self.lizards + self.mice + self.birds;
    }

    /// Spawns enemies: in a swamp, `capacity` independent draws, each adding
    /// one enemy of a kind picked with probability proportional to its
    /// weight. Other biomes spawn nothing. A swamp whose weights are all zero
    /// cannot draw; nor can one when no generator could be seeded. Either
    /// failure leaves the area as it was.
    pub fn spawn_enemies(&mut self) -> (r: Result<(), SpawnError>)
        requires
            old(self).wf(),
            old(self).spec_biome() == Biome::Swamp ==> old(self).spec_population() + old(
                self,
            ).spec_capacity() <= u32::MAX,
        ensures
            final(self).wf(),
            final(self).spec_population() == final(self).total_count(),
            old(self).spec_biome() == Biome::Swamp ==> ((r == Err::<(), SpawnError>(
                SpawnError::NoWeight,
            )) == (old(self).total_chance() == 0)),
            old(self).spec_biome() != Biome::Swamp ==> r.is_ok(),
            r.is_err() || old(self).spec_biome() != Biome::Swamp ==> *final(self) == *old(self),
            r.is_ok() && old(self).spec_biome() == Biome::Swamp ==> final(self).spawned_from(
                old(self),
            ),
            r.is_ok() && old(self).spec_biome() == Biome::Swamp ==> final(self).spec_population()
                == old(self).spec_population() + old(self).spec_capacity(),
    {
        match self.biome {
            Biome::Swamp => {
                let weights: Vec<u32> = vec![
                    self.frog_chance,
                    self.lizard_chance,
                    self.mice_chance,
                    self.bird_chance,
                ];
                proof {
                    lemma_weight_sum_four(weights@);
                }
                let table = match weighted_index(&weights) {
                    Ok(t) => t,
                    Err(_) => {
                        return Err(SpawnError::NoWeight);
                    },
                };
                let mut rng = match seeded_rng() {
                    Ok(g) => g,
                    Err(_) => {
                        return Err(SpawnError::NoEntropy);
                    },
                };
                let ghost before = *self;
                let mut k: u32 = 0;
                while k < self.capacity
                    invariant
                        self.wf(),
                        self.same_setup(&before),
                        before.wf(),
                        k <= before.capacity,
                        before.population + before.capacity <= u32::MAX,
                        self.population == before.population + k,
                        table_weights(table) == before.weights(),
                        forall|e: Enemy| #[trigger] self.count(e) >= before.count(e),
                        forall|e: Enemy|
                            before.chance(e) == 0 ==> #[trigger] self.count(e) == before.count(e),
                    decreases before.capacity - k,
                {
                    let i = draw_index(&table, &mut rng);
                    let e = enemy_index(i);
                    assert(before.chance(e) > 0) by {
                        assert(before.weights()[i as int] > 0);
                    }
                    self.add_enemy(e);
                    k = k + 1;
                }
                Ok(())
            },
            Biome::Prairie => Ok(()),
            Biome::Mountain => Ok(()),
        }
    }

    /// Removes one enemy of kind `enemy`; fails, changing nothing, when none
    /// is present.
    pub fn kill_enemy(&mut self, enemy: Enemy) -> (r: Result<(), KillError>)
        requires
            old(self).wf(),
        ensures
            final(self).wf(),
            final(self).spec_population() == final(self).total_count(),
            final(self).same_setup(old(self)),
            r.is_err() == (old(self).count(enemy) == 0),
            r.is_err() ==> r == Err::<(), KillError>(KillError::NoneLeft) && *final(self) == *old(
                self,
            ),
            r.is_ok() ==> final(self).count(enemy) == old(self).count(enemy) - 1,
            r.is_ok() ==> final(self).spec_population() == old(self).spec_population() - 1,
            forall|o: Enemy| o != enemy ==> #[trigger] final(self).count(o) == old(self).count(o),
    {
        match enemy {
            Enemy::Frog => {
                if self.frogs == 0 {
                    return Err(KillError::NoneLeft);
                }
                self.frogs = self.frogs - 1;
            },
            Enemy::Lizard => {
                if self.lizards == 0 {
                    return Err(KillError::NoneLeft);
                }
                self.lizards = self.lizards - 1;
            },
            Enemy::Mouse => {
                if self.mice == 0 {
                    return Err(KillError::NoneLeft);
                }
                self.mice = self.mice - 1;
            },
            Enemy::Bird => {
                if self.birds == 0 {
                    return Err(KillError::NoneLeft);
                }
                self.birds = self.birds - 1;
            },
        }
        self.population = self.frogs + self.lizards + self.mice + self.birds;
        Ok(())
    }
}

proof fn lemma_weight_sum_four(w: Seq<u32>)
    requires
        w.len() == 4,
    ensures
        weight_sum(w) == w[0] as nat + w[1] as nat + w[2] as nat + w[3] as nat,
{
    let w3 = w.drop_last();
    let w2 = w3.drop_last();
    let w1 = w2.drop_last();
    let w0 = w1.drop_last();
    assert(w0.len() == 0);
    reveal_with_fuel(weight_sum, 5);
}

/// Draws are made with replacement: a spawn in an empty swamp of capacity
/// five always leaves five enemies, and the population is the sum of the
/// counters.
pub proof fn lemma_swamp_spawn_fills(before: Location, after: Location)
    requires
        before.wf(),
        before.spec_biome() == Biome::Swamp,
        before.spec_capacity() == 5,
        before.spec_population() == 0,
        after.spawned_from(&before),
    ensures
        after.spec_population() == 5,
        after.spec_population() == after.total_count(),
{
}

} // verus!
