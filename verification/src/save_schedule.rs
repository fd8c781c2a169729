//! A plugin that schedules exponentially spaced saves.

use vstd::prelude::*;

use crate::action::Action;
use crate::manager::{MonteCarlo, Plugin};

verus! {

/// A plugin that schedules when to save: it requests a `Save` whenever
/// the move count passes a threshold, then doubles the threshold, so
/// saves happen at exponentially growing move counts.
#[derive(Debug, Clone)]
pub struct Save {
    next_output: u64,
    moves_left: u64,
}

/// The parameter to define the save schedule.
#[derive(Debug)]
pub struct SaveParams;

impl Save {
    /// The move count at which the next save is due.
    pub closed spec fn next_output_spec(&self) -> u64 {
        self.next_output
    }

    /// The distance from the last consultation to the next save,
    /// offered as this plugin's preferred period.
    pub closed spec fn moves_left_spec(&self) -> u64 {
        self.moves_left
    }
}

/// The threshold doubles after every save; far beyond any realistic
/// move count it stops growing rather than wrap around.
pub open spec fn doubled(threshold: u64) -> u64 {
    if threshold <= u64::MAX / 2 {
        (2 * threshold) as u64
    } else {
        u64::MAX
    }
}

impl Default for SaveParams {
    /// The schedule takes no parameters.
    fn default() -> (r: SaveParams) {
        SaveParams
    }
}

impl vstd::std_specs::convert::FromSpecImpl<SaveParams> for Save {
    open spec fn obeys_from_spec() -> bool {
        true
    }

    closed spec fn from_spec(_params: SaveParams) -> Save {
        Save { next_output: 1, moves_left: 1 }
    }
}

impl From<SaveParams> for Save {
    /// A fresh schedule saves on the very first move it sees.
    fn from(_params: SaveParams) -> (r: Save)
        ensures
            r.next_output_spec() == 1,
            r.moves_left_spec() == 1,
    {
        Save { next_output: 1, moves_left: 1 }
    }
}

impl<MC: MonteCarlo> Plugin<MC> for Save {
    open spec fn preferred(&self) -> Option<u64> {
        Some(self.moves_left_spec())
    }

    /// Ask for a save once the move count reaches the threshold, then
    /// double the threshold; remember the distance to the (possibly
    /// new) threshold as the preferred period.
    fn run(&mut self, mc: &MC, _sys: &MC::System) -> (a: Action)
        ensures
            a == (if mc.moves_spec() >= old(self).next_output_spec() {
                Action::Save
            } else {
                Action::Idle
            }),
            final(self).next_output_spec() == (if mc.moves_spec() >= old(self).next_output_spec() {
                doubled(old(self).next_output_spec())
            } else {
                old(self).next_output_spec()
            }),
            final(self).moves_left_spec() == (if mc.moves_spec() < final(self).next_output_spec() {
                final(self).next_output_spec() - mc.moves_spec()
            } else {
                0
            }),
    {
        let next_output = self.next_output;
        let moves = mc.num_moves();
        let action = if moves >= next_output {
            self.next_output = if next_output <= u64::MAX / 2 {
                2 * next_output
            } else {
                u64::MAX
            };
            Action::Save
        } else {
            Action::Idle
        };
        self.moves_left = if moves < self.next_output {
            self.next_output - moves
        } else {
            0
        };
        action
    }

    fn run_period(&self) -> (p: Option<u64>) {
        Some(self.moves_left)
    }
}

} // verus!
