//! Game states and the pause protocol.

use vstd::prelude::*;

verus! {

/// The states a run goes through.
#[derive(Clone, Copy, PartialEq, Eq, Structural, Debug, Hash)]
pub enum GameState {
    /// Main menu
    Menu,
    /// Active gameplay
    Playing,
    /// Game is paused
    Paused,
    /// Upgrade selection screen
    Upgrading,
    /// Game over screen
    GameOver,
}

impl Default for GameState {
    fn default() -> (r: GameState)
        ensures
            r == GameState::Menu,
    {
        GameState::Menu
    }
}

/// Why the game is paused.
#[derive(Clone, Copy, PartialEq, Eq, Structural, Debug, Default)]
pub struct PauseState {
    /// Whether the pause was triggered by upgrade selection
    pub was_paused_by_upgrade: bool,
}

/// The state the pause key asks for in `current`, if any: it pauses a running
/// game and resumes one that the player paused, but not one paused for an
/// upgrade choice.
pub fn handle_pause_input(pause_just_pressed: bool, current: GameState, pause_state: &mut PauseState) -> (r:
    Option<GameState>)
    ensures
        r == (if pause_just_pressed && current == GameState::Playing {
            Some(GameState::Paused)
        } else if pause_just_pressed && current == GameState::Paused && !old(pause_state).was_paused_by_upgrade {
            Some(GameState::Playing)
        } else {
            None
        }),
        final(pause_state).was_paused_by_upgrade == (if pause_just_pressed && current == GameState::Playing {
            false
        } else {
            old(pause_state).was_paused_by_upgrade
        }),
{
    if !pause_just_pressed {
        return None;
    }
    match current {
        GameState::Playing => {
            pause_state.was_paused_by_upgrade = false;
            Some(GameState::Paused)
        },
        GameState::Paused => {
            if !pause_state.was_paused_by_upgrade {
                Some(GameState::Playing)
            } else {
                None
            }
        },
        _ => None,
    }
}

/// Figures of the current run.
#[derive(Clone, Copy, PartialEq, Eq, Structural, Debug, Default)]
pub struct RunStats {
    /// Time elapsed in the current run, in microseconds
    pub elapsed_micros: u64,
    /// Number of enemies killed this run
    pub enemies_killed: u32,
    /// Maximum territory coverage achieved, in thousandths
    pub max_territory: u32,
    /// Total nutrients collected this run, in nutrient units
    pub nutrients_collected: u64,
}

impl RunStats {
    pub open spec fn zero() -> RunStats {
        RunStats { elapsed_micros: 0, enemies_killed: 0, max_territory: 0, nutrients_collected: 0 }
    }

    /// Reset every figure to zero for a new run.
    pub fn reset(&mut self)
        ensures
            *final(self) == RunStats::zero(),
    {
        *self = RunStats { elapsed_micros: 0, enemies_killed: 0, max_territory: 0, nutrients_collected: 0 };
    }
}

/// Advance the run's clock by a frame of `delta_micros`, stopping at the
/// largest count.
pub fn update_run_time(delta_micros: u64, run_stats: &mut RunStats)
    ensures
        final(run_stats).elapsed_micros == (if old(run_stats).elapsed_micros + delta_micros > u64::MAX {
            u64::MAX as int
        } else {
            old(run_stats).elapsed_micros + delta_micros
        }),
        final(run_stats).enemies_killed == old(run_stats).enemies_killed,
        final(run_stats).max_territory == old(run_stats).max_territory,
        final(run_stats).nutrients_collected == old(run_stats).nutrients_collected,
{
    run_stats.elapsed_micros = run_stats.elapsed_micros.saturating_add(delta_micros);
}

} // verus!
