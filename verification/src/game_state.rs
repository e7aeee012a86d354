use vstd::prelude::*;

verus! {

/// The two phases of a session: the arena is live, or the Game Over overlay is up.
#[derive(Clone, Copy, Debug, PartialEq, Eq, Structural)]
pub enum GameState {
    Playing,
    GameOver,
}

impl Default for GameState {
    /// A session starts in play.
    fn default() -> (s: GameState)
        ensures
            s == GameState::Playing,
    {
        GameState::Playing
    }
}

/// A request, sent by the restart button, to start a new session.
#[derive(Clone, Copy, Debug)]
pub struct RestartGame;

/// The number of enemies killed in the current session.
#[derive(Clone, Copy, Debug, PartialEq, Eq, Structural)]
pub struct Score(pub u32);

impl Default for Score {
    /// A session starts with no kills.
    fn default() -> (s: Score)
        ensures
            s.0 == 0,
    {
        Score(0)
    }
}

impl Score {
    /// Counts `kills` more killed enemies.
    pub fn add_kills(&mut self, kills: u32)
        requires
            old(self).0 + kills <= u32::MAX,
        ensures
            final(self).0 == old(self).0 + kills,
    {
        self.0 = self.0 + kills;
    }
}

/// When a restart was requested the score goes back to zero; otherwise it stays.
pub fn reset_score_on_restart(restart_requested: bool, score: &mut Score)
    ensures
        final(score).0 == if restart_requested { 0 } else { old(score).0 },
{
    if restart_requested {
        score.0 = 0;
    }
}

/// The state that a restart request schedules next: `Playing` when a restart was
/// requested, and no change of state otherwise.
pub fn resume_on_restart(restart_requested: bool) -> (next: Option<GameState>)
    ensures
        next == if restart_requested { Some(GameState::Playing) } else { None::<GameState> },
{
    if restart_requested {
        Some(GameState::Playing)
    } else {
        None
    }
}

} // verus!
