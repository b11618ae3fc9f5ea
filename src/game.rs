use crate::answer::Answer;
use crate::evolution::{next_tier, Enemy, Snake, Tier};
use crate::location::{enemy_at, enemy_index, Biome, Location, SpawnError};
use vstd::prelude::*;

verus! {

/// What the session does next when no answer is awaited.
#[derive(Clone, Copy, Debug, PartialEq, Eq, Structural)]
pub enum Event {
    /// The area was empty and has been filled; the new population.
    Spawned(u32),
    /// The area was empty and could not be filled, for this reason; the
    /// session is over.
    SpawnFailed(SpawnError),
    /// The area was empty and the snake is diamond: the player has won.
    Won,
    /// An enemy of this kind is present: ask whether to kill it.
    Prompt(Enemy),
    /// The session has ended already.
    Over,
}

/// What came of an answer to a prompt.
#[derive(Clone, Copy, Debug, PartialEq, Eq, Structural)]
pub enum Reply {
    /// The enemy was killed; `evolved` tells whether the tier changed.
    Killed { enemy: Enemy, evolved: bool },
    /// The player refused and was killed: the session is over.
    Died(Enemy),
    /// The player refused a lizard and lives on.
    Wounded,
    /// The answer was neither yes nor no; the prompt is dropped.
    Invalid,
    /// No prompt was awaiting an answer.
    NoPrompt,
}

/// The position of the first kind, at or after position `from` of the fixed
/// order, that is present in `area`; 4 if there is none.
pub open spec fn first_present_from(area: Location, from: int) -> int
    decreases 4 - from,
{
    if from >= 4 {
        4
    } else if area.count(enemy_at(from)) > 0 {
        from
    } else {
        first_present_from(area, from + 1)
    }
}

/// The position of the kind that the sweep asks about next: the first one
/// present from `cursor` on, or else from the start of a new sweep.
pub open spec fn prompt_position(area: Location, cursor: int) -> int {
    if first_present_from(area, cursor) < 4 {
        first_present_from(area, cursor)
    } else {
        first_present_from(area, 0)
    }
}

/// Whether eating `enemy` changes tier `t`.
pub open spec fn evolves(t: Tier, enemy: Enemy) -> bool {
    next_tier(t, enemy) != t
}

fn find_present(area: &Location, from: usize) -> (r: usize)
    requires
        from <= 4,
    ensures
        r == first_present_from(*area, from as int),
    decreases 4 - from,
{
    if from >= 4 {
        4
    } else if area.count_of(enemy_index(from)) > 0 {
        from
    } else {
        find_present(area, from + 1)
    }
}

proof fn lemma_present_found(area: Location, from: int)
    requires
        0 <= from <= 4,
    ensures
        from <= first_present_from(area, from) <= 4,
        first_present_from(area, from) < 4 ==> area.count(
            enemy_at(first_present_from(area, from)),
        ) > 0,
        first_present_from(area, from) == 4 ==> forall|j: int|
            from <= j < 4 ==> area.count(#[trigger] enemy_at(j)) == 0,
    decreases 4 - from,
{
    if from < 4 && area.count(enemy_at(from)) == 0 {
        lemma_present_found(area, from + 1);
    }
}

proof fn lemma_some_present(area: Location)
    requires
        area.wf(),
        area.spec_population() > 0,
    ensures
        first_present_from(area, 0) < 4,
{
    lemma_present_found(area, 0);
    if first_present_from(area, 0) == 4 {
        assert(area.count(enemy_at(0)) == 0);
        assert(area.count(enemy_at(1)) == 0);
        assert(area.count(enemy_at(2)) == 0);
        assert(area.count(enemy_at(3)) == 0);
    }
}

/// One playing session: the snake, the area it hunts in, where the current
/// sweep over the enemy kinds stands, and the prompt awaiting an answer.
pub struct Game {
    snake: Snake,
    area: Location,
    cursor: usize,
    pending: Option<Enemy>,
    running: bool,
}

impl Game {
    pub closed spec fn spec_tier(&self) -> Tier {
        self.snake.state
    }

    pub closed spec fn spec_area(&self) -> Location {
        self.area
    }

    pub closed spec fn spec_cursor(&self) -> int {
        self.cursor as int
    }

    pub closed spec fn spec_pending(&self) -> Option<Enemy> {
        self.pending
    }

    pub closed spec fn spec_running(&self) -> bool {
        self.running
    }

    /// The area is a well formed swamp, the sweep stands within the four kinds, and a
    /// prompt is awaited only while the session runs and about a kind that is
    /// present.
    pub open spec fn wf(&self) -> bool {
        &&& self.spec_area().wf()
        &&& self.spec_area().spec_biome() == Biome::Swamp
        &&& 0 <= self.spec_cursor() <= 4
        &&& self.spec_pending() is Some ==> self.spec_running() && self.spec_area().count(
            self.spec_pending()->0,
        ) > 0
    }

    /// The session is idle: it runs and the area is empty.
    pub open spec fn idle(&self) -> bool {
        self.spec_running() && self.spec_area().spec_population() == 0
    }

    /// The session is engaging: it runs and enemies are present.
    pub open spec fn engaging(&self) -> bool {
        self.spec_running() && self.spec_area().spec_population() > 0
    }

    /// What `next_event` does from `before`, leading to `self` and giving `r`.
    pub open spec fn event_from(&self, before: &Game, r: Event) -> bool {
        if before.spec_pending() is Some {
            r == Event::Prompt(before.spec_pending()->0) && *self == *before
        } else if !before.spec_running() {
            r == Event::Over && *self == *before
        } else if before.spec_area().spec_population() == 0 {
            &&& self.spec_tier() == before.spec_tier()
            &&& self.spec_pending() is None
            &&& if before.spec_tier() == Tier::Diamond {
                &&& r == Event::Won
                &&& !self.spec_running()
                &&& self.spec_area() == before.spec_area()
            } else {
                &&& self.spec_cursor() == 0
                &&& match r {
                    Event::Spawned(p) => {
                        &&& before.spec_area().total_chance() > 0
                        &&& self.spec_running()
                        &&& self.spec_area().spawned_from(&before.spec_area())
                        &&& p == self.spec_area().spec_population()
                    },
                    Event::SpawnFailed(e) => {
                        &&& (e == SpawnError::NoWeight) == (before.spec_area().total_chance() == 0)
                        &&& !self.spec_running()
                        &&& self.spec_area() == before.spec_area()
                    },
                    _ => false,
                }
            }
        } else {
            let i = prompt_position(before.spec_area(), before.spec_cursor());
            &&& r == Event::Prompt(enemy_at(i))
            &&& self.spec_pending() == Some(enemy_at(i))
            &&& self.spec_cursor() == i + 1
            &&& self.spec_running()
            &&& self.spec_tier() == before.spec_tier()
            &&& self.spec_area() == before.spec_area()
        }
    }

    /// What `answer` does from `before` given answer `a`, leading to `self`
    /// and giving `r`. Yes kills the enemy asked about and feeds it to the
    /// snake; a frog eaten by a snake past the base tier restarts the sweep.
    /// No ends the session, except before a lizard. Any other answer drops
    /// the prompt.
    pub open spec fn answered_from(&self, before: &Game, a: Answer, r: Reply) -> bool {
        match before.spec_pending() {
            None => r == Reply::NoPrompt && *self == *before,
            Some(k) => {
                &&& self.spec_pending() is None
                &&& match a {
                    Answer::Yes => {
                        &&& r == (Reply::Killed { enemy: k, evolved: evolves(before.spec_tier(), k) })
                        &&& self.spec_tier() == next_tier(before.spec_tier(), k)
                        &&& self.spec_running() == before.spec_running()
                        &&& self.spec_area().same_setup(&before.spec_area())
                        &&& self.spec_area().count(k) == before.spec_area().count(k) - 1
                        &&& forall|o: Enemy|
                            o != k ==> #[trigger] self.spec_area().count(o)
                                == before.spec_area().count(o)
                        &&& self.spec_area().spec_population() == before.spec_area().spec_population()
                            - 1
                        &&& self.spec_cursor() == if k == Enemy::Frog && before.spec_tier()
                            != Tier::Base {
                            0
                        } else {
                            before.spec_cursor()
                        }
                    },
                    Answer::No => {
                        &&& self.spec_tier() == before.spec_tier()
                        &&& self.spec_area() == before.spec_area()
                        &&& self.spec_cursor() == before.spec_cursor()
                        &&& if k == Enemy::Lizard {
                            r == Reply::Wounded && self.spec_running() == before.spec_running()
                        } else {
                            r == Reply::Died(k) && !self.spec_running()
                        }
                    },
                    Answer::Other => {
                        &&& r == Reply::Invalid
                        &&& self.spec_tier() == before.spec_tier()
                        &&& self.spec_area() == before.spec_area()
                        &&& self.spec_cursor() == before.spec_cursor()
                        &&& self.spec_running() == before.spec_running()
                    },
                }
            },
        }
    }

    /// A session at its start: a base snake in an empty swamp.
    pub fn new() -> (r: Game)
        ensures
            r.wf(),
            r.spec_tier() == Tier::Base,
            r.spec_area().is_fresh_swamp(),
            r.spec_running(),
            r.spec_pending() is None,
            r.spec_cursor() == 0,
    {
        Game { snake: Snake::new(), area: Location::swamp(), cursor: 0, pending: None, running: true }
    }

    /// A session at its start with a base snake in the given swamp.
    pub fn with_area(area: Location) -> (r: Game)
        requires
            area.wf(),
            area.spec_biome() == Biome::Swamp,
        ensures
            r.wf(),
            r.spec_tier() == Tier::Base,
            r.spec_area() == area,
            r.spec_running(),
            r.spec_pending() is None,
            r.spec_cursor() == 0,
    {
        Game { snake: Snake::new(), area, cursor: 0, pending: None, running: true }
    }

    pub fn tier(&self) -> (r: Tier)
        ensures
            r == self.spec_tier(),
    {
        self.snake.state
    }

    pub fn area(&self) -> (r: &Location)
        ensures
            *r == self.spec_area(),
    {
        &self.area
    }

    pub fn is_running(&self) -> (r: bool)
        ensures
            r == self.spec_running(),
    {
        self.running
    }

    pub fn pending(&self) -> (r: Option<Enemy>)
        ensures
            r == self.spec_pending(),
    {
        self.pending
    }

    /// Moves the session on when no answer is awaited: an empty area is
    /// filled, or the game is won by a diamond snake; otherwise the sweep asks
    /// about the next kind present. An awaited prompt is asked again.
    pub fn next_event(&mut self) -> (r: Event)
        requires
            old(self).wf(),
        ensures
            final(self).wf(),
            final(self).event_from(old(self), r),
    {
        if let Some(k) = self.pending {
            return Event::Prompt(k);
        }
        if !self.running {
            return Event::Over;
        }
        if self.area.population() == 0 {
            if self.snake.state != Tier::Diamond {
                self.cursor = 0;
                match self.area.spawn_enemies() {
                    Ok(()) => Event::Spawned(self.area.population()),
                    Err(e) => {
                        self.running = false;
                        Event::SpawnFailed(e)
                    },
                }
            } else {
                self.running = false;
                Event::Won
            }
        } else {
            proof {
                lemma_present_found(self.area, self.cursor as int);
                lemma_present_found(self.area, 0);
                lemma_some_present(self.area);
            }
            let mut i = find_present(&self.area, self.cursor);
            if i >= 4 {
                i = find_present(&self.area, 0);
            }
            let k = enemy_index(i);
            self.pending = Some(k);
            self.cursor = i + 1;
            Event::Prompt(k)
        }
    }

    /// Takes the player's answer to the awaited prompt.
    pub fn answer(&mut self, a: Answer) -> (r: Reply)
        requires
            old(self).wf(),
        ensures
            final(self).wf(),
            final(self).answered_from(old(self), a, r),
    {
        let k = match self.pending {
            None => {
                return Reply::NoPrompt;
            },
            Some(k) => k,
        };
        self.pending = None;
        match a {
            Answer::Yes => {
                let killed = self.area.kill_enemy(k);
                let t = self.snake.state;
                let evolved = match k {
                    Enemy::Frog => {
                        if t == Tier::Base {
                            self.snake.collect(Enemy::Frog);
                            true
                        } else {
                            self.cursor = 0;
                            false
                        }
                    },
                    Enemy::Lizard => {
                        let e = t != Tier::Silver;
                        if e {
                            self.snake.collect(Enemy::Lizard);
                        }
                        e
                    },
                    Enemy::Mouse => {
                        let e = t != Tier::Gold;
                        self.snake.collect(Enemy::Mouse);
                        e
                    },
                    Enemy::Bird => {
                        let e = t != Tier::Diamond;
                        if e {
                            self.snake.collect(Enemy::Bird);
                        }
                        e
                    },
                };
                Reply::Killed { enemy: k, evolved }
            },
            Answer::No => {
                if k == Enemy::Lizard {
                    Reply::Wounded
                } else {
                    self.running = false;
                    Reply::Died(k)
                }
            },
            Answer::Other => Reply::Invalid,
        }
    }
}

} // verus!

verus! {

/// A refusal ends the session at once when a frog, a mouse or a bird was asked
/// about, and leaves it running when a lizard was.
pub proof fn lemma_refusal_ends(before: Game, after: Game, r: Reply)
    requires
        before.wf(),
        before.spec_pending() is Some,
        after.answered_from(&before, Answer::No, r),
    ensures
        !after.spec_running() <==> before.spec_pending()->0 != Enemy::Lizard,
{
}

/// An idle session whose snake is not diamond, in an area that can draw,
/// spawns exactly once: unless no generator could be seeded, the next step
/// fills the area with one spawn's worth of enemies, keeps the tier, and
/// leaves the session engaging.
pub proof fn lemma_idle_spawns_once(before: Game, after: Game, r: Event)
    requires
        before.wf(),
        before.idle(),
        before.spec_tier() != Tier::Diamond,
        before.spec_area().total_chance() > 0,
        before.spec_area().spec_capacity() > 0,
        after.event_from(&before, r),
    ensures
        r == Event::Spawned(before.spec_area().spec_capacity() as u32) || r == Event::SpawnFailed(
            SpawnError::NoEntropy,
        ),
        after.spec_tier() == before.spec_tier(),
        r is Spawned ==> {
            &&& after.spec_area().spawned_from(&before.spec_area())
            &&& after.spec_area().spec_population() == before.spec_area().spec_capacity()
            &&& after.engaging()
        },
        r is SpawnFailed ==> !after.spec_running() && after.spec_area() == before.spec_area(),
{
    assert(before.spec_pending() is None);
}

} // verus!
