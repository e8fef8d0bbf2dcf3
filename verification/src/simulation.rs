//! The toy rock-paper-scissors rule that the demo simulation draws sprites
//! for: a three-way cyclic comparison between shapes.

use vstd::prelude::*;

verus! {

/// Whether the simulation is running, paused, or over.
#[derive(Debug, Clone, Copy, PartialEq, Eq, Structural)]
pub enum SimulationState {
    Play,
    Pause,
    Finish,
}

/// Outcome of one fight, seen from the left-hand shape.
#[derive(Debug, Clone, Copy, PartialEq, Eq, Structural)]
pub enum FightResults {
    Won,
    Tied,
    Lost,
}

/// One of the three shapes of the game.
#[derive(Debug, Clone, Copy, PartialEq, Eq, Structural)]
pub enum Shape {
    Rock,
    Paper,
    Scissors,
}

/// `a` beats exactly its cyclic predecessor: paper beats rock, scissors beat
/// paper, rock beats scissors.
pub open spec fn beats(a: Shape, b: Shape) -> bool {
    ||| (a == Shape::Paper && b == Shape::Rock)
    ||| (a == Shape::Scissors && b == Shape::Paper)
    ||| (a == Shape::Rock && b == Shape::Scissors)
}

impl Shape {
    /// Fight another shape: a tie on equal shapes, a win exactly when this
    /// shape beats the other, a loss otherwise.
    pub fn fight(self, other: Self) -> (r: FightResults)
        ensures
            r == FightResults::Tied <==> self == other,
            r == FightResults::Won <==> beats(self, other),
            r == FightResults::Lost <==> (self != other && !beats(self, other)),
    {
        if self == other {
            FightResults::Tied
        } else {
            let wins = match (self, other) {
                (Shape::Paper, Shape::Rock) => true,
                (Shape::Scissors, Shape::Paper) => true,
                (Shape::Rock, Shape::Scissors) => true,
                _ => false,
            };
            if wins {
                FightResults::Won
            } else {
                FightResults::Lost
            }
        }
    }
}

} // verus!
