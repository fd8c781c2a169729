//! The orchestrator that consults plugins and merges their decisions.

use vstd::prelude::*;

use crate::action::{Action, action_le, merge_seq};

verus! {

/// When no plugin asks for a specific period, consult them again after
/// this many steps at the latest (about a trillion).
pub const FALLBACK_PERIOD: u64 = 1u64 << 40;

/// The host simulation, seen through the narrow interface the plugin
/// layer needs: a move counter, a rejection counter, and a checkpoint
/// operation that durably persists the run.
///
/// `moves_spec`, `rejected_spec` and `checkpoints_spec` are the
/// implementor's model of those three facilities; the executable methods
/// must answer according to it, and a checkpoint must leave the two
/// counters as they were.
pub trait MonteCarlo: Sized {
    /// The state of the simulated system, handed through to the plugins.
    type System;

    /// How many moves the simulation has executed so far.
    spec fn moves_spec(&self) -> u64;

    /// How many of those moves were rejected.
    spec fn rejected_spec(&self) -> u64;

    /// How many checkpoints have been requested so far.
    spec fn checkpoints_spec(&self) -> u64;

    /// The number of moves executed so far.
    fn num_moves(&self) -> (r: u64)
        ensures
            r == self.moves_spec(),
    ;

    /// The number of rejected moves so far.
    fn num_rejected_moves(&self) -> (r: u64)
        ensures
            r == self.rejected_spec(),
    ;

    /// Durably persist the simulation, manager and plugin state as one
    /// atomic unit.  Persisting changes no counter.
    fn checkpoint(&mut self)
        ensures
            final(self).checkpoints_spec() == bumped(old(self).checkpoints_spec()),
            final(self).moves_spec() == old(self).moves_spec(),
            final(self).rejected_spec() == old(self).rejected_spec(),
    ;
}

/// One more checkpoint, the count pegged at its greatest value rather
/// than wrapped.
pub open spec fn bumped(count: u64) -> u64 {
    if count < u64::MAX {
        (count + 1) as u64
    } else {
        u64::MAX
    }
}

/// An observer that can be attached to a simulation loop.  The manager
/// calls it regularly, and it then has a chance to ask for logging, for
/// a checkpoint, or for the run to terminate.
///
/// A plugin may keep private bookkeeping: the decision and notification
/// hooks take `&mut self`, while the simulation itself is only ever
/// handed out as a shared view.
pub trait Plugin<MC: MonteCarlo>: Sized {
    /// The period this plugin currently asks for: the model of what
    /// [`Plugin::run_period`] returns.
    spec fn preferred(&self) -> Option<u64>;

    /// Inspect the state and return the most urgent action this plugin
    /// wants taken right now.  The default wants nothing.
    fn run(&mut self, _mc: &MC, _sys: &MC::System) -> (a: Action) {
        Action::Idle
    }

    /// An upper bound on how many steps may pass before this plugin
    /// should be consulted again; `None` means it never needs to run.
    /// It is re-read after every consultation, so it may change.
    fn run_period(&self) -> (p: Option<u64>)
        ensures
            p == self.preferred(),
    ;

    /// We might be about to die, so do any cleanup or saving.  Called
    /// when the merged action is `Save` or `Exit`, after the host was
    /// asked to checkpoint.  The default does nothing.
    fn save(&mut self, _mc: &MC, _sys: &MC::System) {
    }

    /// Report anything the user might care about.  Called when the
    /// merged action is `Log`, `Save` or `Exit`.  The default does
    /// nothing.
    fn log(&mut self, _mc: &MC, _sys: &MC::System) {
    }
}

/// The periods asked for by each plugin in a list, in list order.
pub open spec fn prefs_of<MC: MonteCarlo, P: Plugin<MC>>(s: Seq<P>) -> Seq<Option<u64>> {
    s.map(|_i: int, p: P| p.preferred())
}

/// The least period asked for by any plugin, reading an absent request
/// as [`FALLBACK_PERIOD`].
pub open spec fn min_preferred(prefs: Seq<Option<u64>>) -> u64
    decreases prefs.len(),
{
    if prefs.len() == 0 {
        FALLBACK_PERIOD
    } else {
        let rest = min_preferred(prefs.drop_last());
        match prefs.last() {
            Some(p) => if p < rest {
                p
            } else {
                rest
            },
            None => rest,
        }
    }
}

/// The period a consultation leaves behind: the least requested period,
/// clamped to at least one step.
pub open spec fn next_period(prefs: Seq<Option<u64>>) -> u64 {
    if min_preferred(prefs) < 1 {
        1
    } else {
        min_preferred(prefs)
    }
}

/// Whether a consultation whose merged action is `a` fires the log hooks.
pub open spec fn fires_log(a: Action) -> bool {
    action_le(Action::Log, a)
}

/// Whether a consultation whose merged action is `a` requests a
/// checkpoint and fires the save hooks.
pub open spec fn fires_save(a: Action) -> bool {
    action_le(Action::Save, a)
}

/// Whether a consultation whose merged action is `a` asks the host loop
/// to terminate.
pub open spec fn fires_exit(a: Action) -> bool {
    action_le(Action::Exit, a)
}

/// A helper to let simulation loops run their plugins without
/// duplicating code.  It counts the steps since the plugins were last
/// consulted and the current consultation period.
pub struct PluginManager {
    period: u64,
    moves: u64,
}

impl PluginManager {
    /// The step interval before the next mandatory consultation.
    pub closed spec fn period_spec(&self) -> u64 {
        self.period
    }

    /// Steps elapsed since the plugins were last consulted.
    pub closed spec fn moves_spec(&self) -> u64 {
        self.moves
    }

    /// The manager's invariant: the period is at least one step, and the
    /// elapsed counter has not yet reached it.
    pub open spec fn wf(&self) -> bool {
        1 <= self.period_spec() && self.moves_spec() < self.period_spec()
    }

    /// Whether the next call to [`PluginManager::run`] will consult the
    /// plugins.
    pub open spec fn due_next(&self) -> bool {
        self.moves_spec() + 1 >= self.period_spec()
    }

    /// Create a plugin manager.  It starts eager: the very first step
    /// consults the plugins, which then set the real period.
    pub fn new() -> (m: PluginManager)
        ensures
            m.wf(),
            m.period_spec() == 1,
            m.moves_spec() == 0,
    {
        PluginManager { period: 1, moves: 0 }
    }

    /// Run all the plugins, if needed.  This should always be called
    /// with the same list of plugins; for a different list, use a
    /// different manager.
    ///
    /// On most steps this only bumps the step counter and touches
    /// nothing else.  When the counter reaches the period, every
    /// plugin's [`Plugin::run`] decision is merged; the log hooks fire
    /// when the merged action reaches `Log`; the host checkpoints and
    /// the save hooks fire when it reaches `Save`; and the merged action
    /// is returned, `Exit` meaning the caller must terminate the run.
    /// The checkpoint always precedes the save hooks, and every due hook
    /// has completed by the time the `Exit` signal is returned.  Unless
    /// it exits, the consultation re-reads every plugin's preferred
    /// period and keeps the tightest one.
    pub fn run<MC: MonteCarlo, P: Plugin<MC>>(
        &mut self,
        mc: &mut MC,
        sys: &MC::System,
        plugins: &mut Vec<P>,
    ) -> (outcome: Action)
        requires
            old(self).wf(),
        ensures
            final(self).wf(),
            final(plugins)@.len() == old(plugins)@.len(),
            // the cheap path: nothing is touched
            !old(self).due_next() ==> final(self).moves_spec() == old(self).moves_spec() + 1,
            !old(self).due_next() ==> final(self).period_spec() == old(self).period_spec(),
            !old(self).due_next() ==> *final(plugins) == *old(plugins),
            !old(self).due_next() ==> *final(mc) == *old(mc),
            !old(self).due_next() ==> outcome == Action::Idle,
            // a consultation: the step counter resets
            old(self).due_next() ==> final(self).moves_spec() == 0,
            // the simulation's counters are never touched
            final(mc).moves_spec() == old(mc).moves_spec(),
            final(mc).rejected_spec() == old(mc).rejected_spec(),
            // a checkpoint happens exactly when the merged action reaches `Save`
            fires_save(outcome) ==> final(mc).checkpoints_spec() == bumped(
                old(mc).checkpoints_spec(),
            ),
            !fires_save(outcome) ==> final(mc).checkpoints_spec() == old(mc).checkpoints_spec(),
            // the new period is the tightest request, unless the run is over
            old(self).due_next() && !fires_exit(outcome) ==> final(self).period_spec()
                == next_period(prefs_of(final(plugins)@)),
            old(self).due_next() && fires_exit(outcome) ==> final(self).period_spec() == old(
                self,
            ).period_spec(),
    {
        let moves: u64 = self.moves + 1;
        self.moves = moves;
        if moves >= self.period {
            self.moves = 0;
            let n = plugins.len();
            let mut todo = Action::Idle;
            let mut i: usize = 0;
            while i < n
                invariant
                    i <= n,
                    n == plugins@.len(),
                    mc.moves_spec() == old(mc).moves_spec(),
                    mc.rejected_spec() == old(mc).rejected_spec(),
                    mc.checkpoints_spec() == old(mc).checkpoints_spec(),
                decreases n - i,
            {
                let p = &mut plugins[i];
                let a = p.run(&*mc, sys);
                todo = todo.and(a);
                i = i + 1;
            }
            if todo.at_least(Action::Log) {
                let mut i: usize = 0;
                while i < plugins.len()
                    invariant
                        n == plugins@.len(),
                        mc.moves_spec() == old(mc).moves_spec(),
                        mc.rejected_spec() == old(mc).rejected_spec(),
                        mc.checkpoints_spec() == old(mc).checkpoints_spec(),
                    decreases plugins@.len() - i,
                {
                    let p = &mut plugins[i];
                    p.log(&*mc, sys);
                    i = i + 1;
                }
            }
            if todo.at_least(Action::Save) {
                mc.checkpoint();
                let mut i: usize = 0;
                while i < plugins.len()
                    invariant
                        n == plugins@.len(),
                        mc.moves_spec() == old(mc).moves_spec(),
                        mc.rejected_spec() == old(mc).rejected_spec(),
                        mc.checkpoints_spec() == bumped(old(mc).checkpoints_spec()),
                    decreases plugins@.len() - i,
                {
                    let p = &mut plugins[i];
                    p.save(&*mc, sys);
                    i = i + 1;
                }
            }
            if todo.at_least(Action::Exit) {
                return todo;
            }
            let ghost prefs = prefs_of(plugins@);
            let mut new_period: u64 = FALLBACK_PERIOD;
            let mut i: usize = 0;
            while i < plugins.len()
                invariant
                    i <= n,
                    n == plugins@.len(),
                    prefs == prefs_of(plugins@),
                    new_period == min_preferred(prefs.take(i as int)),
                    mc.moves_spec() == old(mc).moves_spec(),
                    mc.rejected_spec() == old(mc).rejected_spec(),
                    mc.checkpoints_spec() == (if fires_save(todo) {
                        bumped(old(mc).checkpoints_spec())
                    } else {
                        old(mc).checkpoints_spec()
                    }),
                decreases n - i,
            {
                proof {
                    assert(prefs.take(i as int + 1).drop_last() =~= prefs.take(i as int));
                    assert(prefs.take(i as int + 1).last() == prefs[i as int]);
                }
                match plugins[i].run_period() {
                    Some(period) => {
                        if period < new_period {
                            new_period = period;
                        }
                    },
                    None => {},
                }
                i = i + 1;
            }
            proof {
                assert(prefs.take(n as int) =~= prefs);
            }
            if new_period < 1 {
                new_period = 1;
            }
            self.period = new_period;
            todo
        } else {
            Action::Idle
        }
    }
}

/// One consultation cycle never fires early and never skips: after a
/// consultation reset the counter, a manager with period `p` stays quiet
/// on each of the following steps until the `p`-th, which consults.  The
/// `k`-th following step (so the one that sees `k - 1` elapsed steps) is
/// due exactly when `k` reaches `p`.
pub proof fn lemma_consultation_schedule(m: PluginManager, k: u64)
    requires
        m.wf(),
        1 <= k,
        m.moves_spec() == k - 1,
    ensures
        m.due_next() <==> k >= m.period_spec(),
        m.due_next() <==> k == m.period_spec(),
{
}

/// After a consultation in which no plugin returned `Log` or anything
/// more urgent, the merged action fires no log hook, requests no
/// checkpoint and fires no save hook, and does not terminate the run.
pub proof fn lemma_quiet_consultation(decisions: Seq<Action>)
    requires
        forall|i: int| 0 <= i < decisions.len() ==> !action_le(
            Action::Log,
            #[trigger] decisions[i],
        ),
    ensures
        merge_seq(decisions) == Action::Idle,
        !fires_log(merge_seq(decisions)),
        !fires_save(merge_seq(decisions)),
        !fires_exit(merge_seq(decisions)),
{
    crate::action::lemma_merge_seq_is_max(decisions);
}

/// If any plugin decides `Exit`, the merged action is `Exit`, so that
/// same consultation fires the log hooks, requests the checkpoint and
/// fires the save hooks, before the exit signal is handed back.
pub proof fn lemma_exit_drains(decisions: Seq<Action>)
    requires
        exists|i: int| 0 <= i < decisions.len() && decisions[i] == Action::Exit,
    ensures
        merge_seq(decisions) == Action::Exit,
        fires_log(merge_seq(decisions)),
        fires_save(merge_seq(decisions)),
        fires_exit(merge_seq(decisions)),
{
    crate::action::lemma_merge_seq_is_max(decisions);
    let i = choose|i: int| 0 <= i < decisions.len() && decisions[i] == Action::Exit;
    assert(action_le(decisions[i], merge_seq(decisions)));
}

/// The recomputed period is the least of the plugins' preferred periods,
/// an absent preference standing for the fallback bound, and the whole
/// clamped to at least one step: it is a lower bound on every request,
/// and it is attained by some plugin unless it is the fallback.
pub proof fn lemma_next_period_is_min(prefs: Seq<Option<u64>>)
    ensures
        1 <= next_period(prefs),
        min_preferred(prefs) <= FALLBACK_PERIOD,
        forall|i: int|
            0 <= i < prefs.len() && (#[trigger] prefs[i]) is Some ==> min_preferred(prefs)
                <= prefs[i]->0,
        min_preferred(prefs) == FALLBACK_PERIOD || exists|i: int|
            0 <= i < prefs.len() && prefs[i] == Some(min_preferred(prefs)),
    decreases prefs.len(),
{
    if prefs.len() > 0 {
        lemma_next_period_is_min(prefs.drop_last());
        assert(forall|i: int|
            0 <= i < prefs.len() - 1 ==> prefs.drop_last()[i] == #[trigger] prefs[i]);
        assert(prefs.last() == prefs[prefs.len() - 1]);
        if min_preferred(prefs.drop_last()) != FALLBACK_PERIOD {
            let j = choose|j: int|
                0 <= j < prefs.drop_last().len() && prefs.drop_last()[j] == Some(
                    min_preferred(prefs.drop_last()),
                );
            assert(prefs[j] == Some(min_preferred(prefs.drop_last())));
        }
    }
}

} // verus!
