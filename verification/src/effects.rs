use crate::game_state::GameState;
use crate::random::{RandomSource, WithJitter};
use crate::timer::OnceTimer;
use vstd::arithmetic::div_mod::lemma_fundamental_div_mod_converse;
use vstd::prelude::*;

verus! {

/// The pause between the player's death and the Game Over screen, while the death
/// effects play out. No timer means no death sequence is running.
pub struct PendingGameOver {
    timer: Option<OnceTimer>,
}

impl Default for PendingGameOver {
    fn default() -> (p: PendingGameOver)
        ensures
            p.pending() is None,
    {
        PendingGameOver { timer: None }
    }
}

impl PendingGameOver {
    pub closed spec fn pending(&self) -> Option<OnceTimer> {
        self.timer
    }

    /// Starts (or starts over) a death sequence of the given length.
    pub fn begin_death_sequence(&mut self, sequence_ns: u64)
        ensures
            final(self).pending() matches Some(t) && (t.duration() == sequence_ns && t.elapsed() == 0
                && !t.finished() && !t.finished_last_tick()),
    {
        self.timer = Some(OnceTimer::new(sequence_ns));
    }

    /// Cancels a running death sequence when a restart was requested.
    pub fn clear_on_restart(&mut self, restart_requested: bool)
        ensures
            restart_requested ==> final(self).pending() is None,
            !restart_requested ==> final(self).pending() == old(self).pending(),
    {
        if restart_requested {
            self.timer = None;
        }
    }
}

/// The fixed-step gameplay is frozen while a death sequence runs.
pub fn death_sequence_inactive(pending_game_over: &PendingGameOver) -> (r: bool)
    ensures
        r == pending_game_over.pending() is None,
{
    pending_game_over.timer.is_none()
}

/// Advances a running death sequence by `delta_ns`. When it finishes the sequence is
/// cleared and the game moves to `GameOver`; otherwise no change of state is scheduled.
pub fn finish_game_over_delay(pending_game_over: &mut PendingGameOver, delta_ns: u64) -> (next: Option<GameState>)
    ensures
        old(pending_game_over).pending() is None ==> next is None && final(pending_game_over).pending() is None,
        old(pending_game_over).pending() matches Some(t) ==> {
            let ticked = crate::timer::once_tick(t.duration(), t.elapsed(), t.finished(), delta_ns as nat);
            &&& ticked.1 ==> next == Some(GameState::GameOver) && final(pending_game_over).pending() is None
            &&& !ticked.1 ==> (next is None && (final(pending_game_over).pending() matches Some(u)
                && u.is_tick_of(t, delta_ns as nat)))
        },
{
    match pending_game_over.timer.take() {
        None => None,
        Some(mut timer) => {
            timer.tick(delta_ns);
            if timer.is_finished() {
                Some(GameState::GameOver)
            } else {
                pending_game_over.timer = Some(timer);
                None
            }
        },
    }
}

/// One fragment of a death burst: a cell of the square core grid, or an extra fragment.
#[derive(Clone, Copy, Debug, PartialEq, Eq, Structural)]
pub enum Fragment {
    Core { col: usize, row: usize },
    Extra,
}

/// The fragments of a death burst in the order they are spawned: the cells of a
/// `core_grid_size` by `core_grid_size` grid row by row, then `extra_count` extras.
pub fn fragment_plan(core_grid_size: usize, extra_count: usize) -> (plan: Vec<Fragment>)
    requires
        core_grid_size * core_grid_size + extra_count <= usize::MAX,
    ensures
        plan@.len() == core_grid_size * core_grid_size + extra_count,
        forall|i: int|
            0 <= i < core_grid_size * core_grid_size ==> plan@[i] == (Fragment::Core {
                col: (i % core_grid_size as int) as usize,
                row: (i / core_grid_size as int) as usize,
            }),
        forall|i: int| core_grid_size * core_grid_size <= i < plan@.len() ==> plan@[i] == Fragment::Extra,
{
    let g = core_grid_size;
    let ghost gg: int = g * g;
    let mut plan: Vec<Fragment> = Vec::new();
    let mut row: usize = 0;
    while row < g
        invariant
            g == core_grid_size,
            gg == g * g,
            gg + extra_count <= usize::MAX,
            row <= g,
            plan@.len() == row * g,
            forall|i: int| 0 <= i < plan@.len() ==> plan@[i] == (Fragment::Core {
                col: (i % g as int) as usize,
                row: (i / g as int) as usize,
            }),
        decreases g - row,
    {
        proof {
            assert(row * g + g == (row + 1) * g) by (nonlinear_arith);
            assert((row + 1) * g <= g * g) by (nonlinear_arith)
                requires
                    row < g,
            ;
        }
        let mut col: usize = 0;
        while col < g
            invariant
                g == core_grid_size,
                row < g,
                (row + 1) * g <= gg,
                row * g + g == (row + 1) * g,
                gg + extra_count <= usize::MAX,
                col <= g,
                plan@.len() == row * g + col,
                forall|i: int| 0 <= i < plan@.len() ==> plan@[i] == (Fragment::Core {
                    col: (i % g as int) as usize,
                    row: (i / g as int) as usize,
                }),
            decreases g - col,
        {
            proof {
                lemma_fundamental_div_mod_converse(row * g + col, g as int, row as int, col as int);
            }
            plan.push(Fragment::Core { col, row });
            col = col + 1;
        }
        row = row + 1;
    }
    assert(plan@.len() == gg);
    let mut k: usize = 0;
    while k < extra_count
        invariant
            g == core_grid_size,
            gg == g * g,
            gg + extra_count <= usize::MAX,
            k <= extra_count,
            plan@.len() == gg + k,
            forall|i: int| 0 <= i < gg ==> plan@[i] == (Fragment::Core {
                col: (i % g as int) as usize,
                row: (i / g as int) as usize,
            }),
            forall|i: int| gg <= i < plan@.len() ==> plan@[i] == Fragment::Extra,
        decreases extra_count - k,
    {
        plan.push(Fragment::Extra);
        k = k + 1;
    }
    plan
}

/// The number of extra fragments for one burst, drawn from the configured spread.
pub fn random_extra_count(extra_count: &WithJitter<usize>, rng: &mut RandomSource) -> (n: usize)
    requires
        extra_count.value + extra_count.jitter <= usize::MAX,
    ensures
        extra_count.low() <= n <= extra_count.high(),
{
    extra_count.sample(rng)
}

} // verus!
