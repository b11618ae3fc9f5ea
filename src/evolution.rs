use vstd::prelude::*;

verus! {

/// The snake's evolution stage.
#[derive(Clone, Copy, Debug, PartialEq, Eq, Structural)]
pub enum Tier {
    Base,
    Bronze,
    Silver,
    Gold,
    Diamond,
}

/// The kinds of prey that live in an area.
#[derive(Clone, Copy, Debug, PartialEq, Eq, Structural)]
pub enum Enemy {
    Frog,
    Lizard,
    Mouse,
    Bird,
}

/// The transition table: a frog only lifts a base snake to bronze; a lizard,
/// a mouse and a bird set the tier to silver, gold and diamond whatever it was.
pub open spec fn next_tier(current: Tier, enemy: Enemy) -> Tier {
    match enemy {
        Enemy::Frog => if current == Tier::Base {
            Tier::Bronze
        } else {
            current
        },
        Enemy::Lizard => Tier::Silver,
        Enemy::Mouse => Tier::Gold,
        Enemy::Bird => Tier::Diamond,
    }
}

/// The tier reached from `current` by eating `enemy`.
pub fn collect(current: Tier, enemy: Enemy) -> (r: Tier)
    ensures
        r == next_tier(current, enemy),
{
    match (current, enemy) {
        (Tier::Base, Enemy::Frog) => Tier::Bronze,
        (Tier::Bronze, Enemy::Frog) => Tier::Bronze,
        (Tier::Silver, Enemy::Frog) => Tier::Silver,
        (Tier::Gold, Enemy::Frog) => Tier::Gold,
        (Tier::Diamond, Enemy::Frog) => Tier::Diamond,
        (_, Enemy::Lizard) => Tier::Silver,
        (_, Enemy::Mouse) => Tier::Gold,
        (_, Enemy::Bird) => Tier::Diamond,
    }
}

impl Tier {
    /// The name under which the tier is shown to the player.
    pub open spec fn spec_name(self) -> Seq<char> {
        match self {
            Tier::Base => "Snake"@,
            Tier::Bronze => "BronzeSnake"@,
            Tier::Silver => "SilverSnake"@,
            Tier::Gold => "GoldSnake"@,
            Tier::Diamond => "DiamondSnake"@,
        }
    }

    pub fn name(&self) -> (r: &'static str)
        ensures
            r@ == self.spec_name(),
    {
        match self {
            Tier::Base => "Snake",
            Tier::Bronze => "BronzeSnake",
            Tier::Silver => "SilverSnake",
            Tier::Gold => "GoldSnake",
            Tier::Diamond => "DiamondSnake",
        }
    }
}

/// The player: a snake at some tier.
pub struct Snake {
    pub state: Tier,
}

impl Snake {
    /// A snake that has eaten nothing yet.
    pub fn new() -> (r: Snake)
        ensures
            r.state == Tier::Base,
    {
        Snake { state: Tier::Base }
    }

    /// Eats `power`, moving along the transition table.
    pub fn collect(&mut self, power: Enemy)
        ensures
            final(self).state == next_tier(old(self).state, power),
    {
        self.state = collect(self.state, power);
    }
}

} // verus!
