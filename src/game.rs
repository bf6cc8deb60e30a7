//! Where the game is, and who is playing it.
use vstd::prelude::*;

verus! {

/// The screen the game shows.
#[derive(Clone, Copy, Debug, PartialEq, Eq, Structural)]
pub enum Scene {
    StartScreen,
    Level(u8),
    FinishedGame,
    Credits,
}

/// Whether one local player plays, or two players over the network.
#[derive(Clone, Copy, Debug, PartialEq, Eq, Structural)]
pub enum PlayerMode {
    SinglePlayer,
    MultiPlayer,
}

/// The number of the last level.
pub const LAST_LEVEL: u8 = 4;

/// The scene after finishing `scene`: the start screen leads to level 1,
/// each level to the next, the last level to the end of the game.
pub open spec fn scene_after(scene: Scene) -> Scene {
    match scene {
        Scene::StartScreen => Scene::Level(1),
        Scene::Level(n) => if n < LAST_LEVEL {
            Scene::Level((n + 1) as u8)
        } else {
            Scene::FinishedGame
        },
        other => other,
    }
}

/// The scene after finishing `scene`, as `scene_after` says.
pub fn next_scene(scene: Scene) -> (r: Scene)
    ensures
        r == scene_after(scene),
{
    match scene {
        Scene::StartScreen => Scene::Level(1),
        Scene::Level(n) => if n < LAST_LEVEL {
            Scene::Level(n + 1)
        } else {
            Scene::FinishedGame
        },
        other => other,
    }
}

} // verus!
