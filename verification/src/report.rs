//! A plugin that limits the run length and reports progress.

use vstd::prelude::*;
use vstd::string::StringExecFns;

use crate::action::Action;
use crate::manager::{MonteCarlo, Plugin};
use crate::text::{decimal_spec, decimal_string, format_seconds, human_duration_of};

verus! {

/// A plugin that terminates the simulation after a fixed number of
/// iterations, and renders progress lines for the log and save hooks.
#[derive(Debug, Clone)]
pub struct Report {
    max_iter: Option<u64>,
    start: Option<u64>,
    remaining: Option<u64>,
}

/// The parameter to define the maximum number of iterations.
#[derive(Debug)]
pub struct ReportParams {
    /// The maximum number of iterations to run.
    pub max_iter: Option<u64>,
}

impl Report {
    /// The configured iteration budget; `None` means unlimited.
    pub closed spec fn max_iter_spec(&self) -> Option<u64> {
        self.max_iter
    }

    /// The move count at which timing began, once it is known.
    pub closed spec fn start_spec(&self) -> Option<u64> {
        self.start
    }

    /// The distance to the iteration budget as of the last decision,
    /// offered as this plugin's preferred period.
    pub closed spec fn remaining_spec(&self) -> Option<u64> {
        self.remaining
    }
}

impl Default for ReportParams {
    /// By default there is no iteration limit.
    fn default() -> (r: ReportParams)
        ensures
            r.max_iter is None,
    {
        ReportParams { max_iter: None }
    }
}

impl vstd::std_specs::convert::FromSpecImpl<ReportParams> for Report {
    open spec fn obeys_from_spec() -> bool {
        true
    }

    closed spec fn from_spec(params: ReportParams) -> Report {
        Report { max_iter: params.max_iter, start: Some(0), remaining: params.max_iter }
    }
}

impl From<ReportParams> for Report {
    /// A fresh report times from the start of the run and asks to be
    /// consulted again just when the budget runs out.
    fn from(params: ReportParams) -> (r: Report)
        ensures
            r.max_iter_spec() == params.max_iter,
            r.start_spec() == Some(0u64),
            r.remaining_spec() == params.max_iter,
    {
        Report { max_iter: params.max_iter, start: Some(0), remaining: params.max_iter }
    }
}

/// The whole percentage of the iteration budget spent after `moves`
/// moves, saturated at `u64::MAX`.
pub open spec fn percent_complete_spec(moves: u64, max_iter: u64) -> int
    recommends
        1 <= max_iter,
{
    if 100 * moves / (max_iter as int) > u64::MAX {
        u64::MAX as int
    } else {
        100 * moves / (max_iter as int)
    }
}

/// The estimated seconds left before the budget runs out, at the average
/// pace observed since timing began: the elapsed time per move, times the
/// moves still to do, saturated at `u64::MAX`.
pub open spec fn seconds_left_spec(
    runtime_secs: u64,
    moves: u64,
    start_iter: u64,
    max_iter: u64,
) -> int
    recommends
        start_iter < moves,
{
    let left: int = if moves <= max_iter {
        max_iter - moves
    } else {
        0
    };
    let est = runtime_secs * left / (moves - start_iter);
    if est > u64::MAX {
        u64::MAX as int
    } else {
        est
    }
}

/// The percentage of moves rejected so far.
pub open spec fn rejection_percent_spec(rejects: u64, moves: u64) -> int
    recommends
        rejects <= moves,
        1 <= moves,
{
    100 * rejects / (moves as int)
}

/// The whole percentage of the iteration budget spent.
pub fn percent_complete(moves: u64, max_iter: u64) -> (r: u64)
    requires
        1 <= max_iter,
    ensures
        r == percent_complete_spec(moves, max_iter),
{
    let p: u128 = 100u128 * (moves as u128) / (max_iter as u128);
    if p > u64::MAX as u128 {
        u64::MAX
    } else {
        p as u64
    }
}

/// The estimated seconds left before the budget runs out.
pub fn seconds_left(runtime_secs: u64, moves: u64, start_iter: u64, max_iter: u64) -> (r: u64)
    requires
        start_iter < moves,
    ensures
        r == seconds_left_spec(runtime_secs, moves, start_iter, max_iter),
{
    let left: u64 = if moves <= max_iter {
        max_iter - moves
    } else {
        0
    };
    proof {
        assert((runtime_secs as int) * (left as int) <= u128::MAX) by (nonlinear_arith)
            requires
                runtime_secs <= u64::MAX,
                left <= u64::MAX,
        ;
    }
    let est: u128 = (runtime_secs as u128) * (left as u128) / ((moves - start_iter) as u128);
    if est > u64::MAX as u128 {
        u64::MAX
    } else {
        est as u64
    }
}

/// The percentage of moves rejected so far.
pub fn rejection_percent(rejects: u64, moves: u64) -> (r: u64)
    requires
        rejects <= moves,
        1 <= moves,
    ensures
        r == rejection_percent_spec(rejects, moves),
{
    let p: u128 = 100u128 * (rejects as u128) / (moves as u128);
    proof {
        assert(100 * (rejects as int) / (moves as int) <= 100) by (nonlinear_arith)
            requires
                rejects <= moves,
                1 <= moves,
        ;
    }
    p as u64
}

/// The progress line reported while an iteration budget is set: the move
/// count, the share of the budget spent, the elapsed time, and the
/// estimated time left.
pub open spec fn progress_line_spec(
    moves: u64,
    percent: u64,
    runtime_secs: u64,
    left_secs: u64,
) -> Seq<char> {
    "["@ + decimal_spec(moves) + "] "@ + decimal_spec(percent) + "% complete after "@
        + human_duration_of(runtime_secs) + " ("@ + human_duration_of(left_secs) + " left)"@
}

/// The progress line reported when no estimate can be made: the move
/// count and the elapsed time.
pub open spec fn plain_line_spec(moves: u64, runtime_secs: u64) -> Seq<char> {
    "["@ + decimal_spec(moves) + "] after "@ + human_duration_of(runtime_secs)
}

/// The summary line reported by the save hook.
pub open spec fn save_line_spec(rejects: u64, moves: u64, percent: u64) -> Seq<char> {
    "Rejected "@ + decimal_spec(rejects) + "/"@ + decimal_spec(moves) + " = "@ + decimal_spec(
        percent,
    ) + "% of the moves"@
}

/// The progress line without an estimate.
fn plain_line(moves: u64, runtime_secs: u64) -> (r: String)
    ensures
        r@ == plain_line_spec(moves, runtime_secs),
{
    let mut s = "[".to_owned();
    s.append(decimal_string(moves).as_str());
    s.append("] after ");
    s.append(format_seconds(runtime_secs).as_str());
    proof {
        assert(s@ =~= plain_line_spec(moves, runtime_secs));
    }
    s
}

/// The summary line for the save hook: how many of the moves so far were
/// rejected, and what share of them that is.
pub fn save_message(rejects: u64, moves: u64) -> (r: String)
    requires
        rejects <= moves,
        1 <= moves,
    ensures
        r@ == save_line_spec(rejects, moves, rejection_percent_spec(rejects, moves) as u64),
{
    let percent = rejection_percent(rejects, moves);
    let mut s = "Rejected ".to_owned();
    s.append(decimal_string(rejects).as_str());
    s.append("/");
    s.append(decimal_string(moves).as_str());
    s.append(" = ");
    s.append(decimal_string(percent).as_str());
    s.append("% of the moves");
    proof {
        assert(s@ =~= save_line_spec(rejects, moves, rejection_percent_spec(rejects, moves) as u64));
    }
    s
}

impl Report {
    /// The progress line for the log hook, given the move count and the
    /// elapsed whole seconds: `None` before timing has begun; the full
    /// line with an estimate while a reachable budget is set and moves
    /// have been observed since timing began; the plain line otherwise.
    pub fn log_message(&self, moves: u64, runtime_secs: u64) -> (r: Option<String>)
        ensures
            self.start_spec() is None <==> r is None,
            (match (self.start_spec(), self.max_iter_spec()) {
                (Some(s), Some(mx)) => if s < moves && 1 <= mx {
                    r matches Some(msg) && msg@ == progress_line_spec(
                        moves,
                        percent_complete_spec(moves, mx) as u64,
                        runtime_secs,
                        seconds_left_spec(runtime_secs, moves, s, mx) as u64,
                    )
                } else {
                    r matches Some(msg) && msg@ == plain_line_spec(moves, runtime_secs)
                },
                (Some(_), None) => r matches Some(msg) && msg@ == plain_line_spec(
                    moves,
                    runtime_secs,
                ),
                (None, _) => r is None,
            }),
    {
        match self.start {
            None => None,
            Some(start_iter) => match self.max_iter {
                Some(mx) => {
                    if start_iter < moves && 1 <= mx {
                        let percent = percent_complete(moves, mx);
                        let left = seconds_left(runtime_secs, moves, start_iter, mx);
                        let mut s = "[".to_owned();
                        s.append(decimal_string(moves).as_str());
                        s.append("] ");
                        s.append(decimal_string(percent).as_str());
                        s.append("% complete after ");
                        s.append(format_seconds(runtime_secs).as_str());
                        s.append(" (");
                        s.append(format_seconds(left).as_str());
                        s.append(" left)");
                        proof {
                            assert(s@ =~= progress_line_spec(
                                moves,
                                percent_complete_spec(moves, mx) as u64,
                                runtime_secs,
                                seconds_left_spec(runtime_secs, moves, start_iter, mx) as u64,
                            ));
                        }
                        Some(s)
                    } else {
                        Some(plain_line(moves, runtime_secs))
                    }
                },
                None => Some(plain_line(moves, runtime_secs)),
            },
        }
    }
}

impl<MC: MonteCarlo> Plugin<MC> for Report {
    open spec fn preferred(&self) -> Option<u64> {
        self.remaining_spec()
    }

    /// Ask to exit once the configured move budget is reached, and
    /// remember the distance still to go as the preferred period, so the
    /// manager consults again just when the budget runs out and never
    /// early.
    fn run(&mut self, mc: &MC, _sys: &MC::System) -> (a: Action)
        ensures
            a == (match old(self).max_iter_spec() {
                Some(mx) => if mc.moves_spec() >= mx {
                    Action::Exit
                } else {
                    Action::Idle
                },
                None => Action::Idle,
            }),
            final(self).max_iter_spec() == old(self).max_iter_spec(),
            final(self).start_spec() == old(self).start_spec(),
            final(self).remaining_spec() == (match old(self).max_iter_spec() {
                Some(mx) => Some(
                    if mc.moves_spec() < mx {
                        (mx - mc.moves_spec()) as u64
                    } else {
                        1u64
                    },
                ),
                None => Option::<u64>::None,
            }),
    {
        match self.max_iter {
            Some(mx) => {
                let moves = mc.num_moves();
                if moves >= mx {
                    self.remaining = Some(1);
                    Action::Exit
                } else {
                    self.remaining = Some(mx - moves);
                    Action::Idle
                }
            },
            None => {
                self.remaining = None;
                Action::Idle
            },
        }
    }

    fn run_period(&self) -> (p: Option<u64>) {
        self.remaining
    }

    /// Record where timing began, the first time the log hook fires.
    fn log(&mut self, mc: &MC, _sys: &MC::System)
        ensures
            final(self).max_iter_spec() == old(self).max_iter_spec(),
            final(self).remaining_spec() == old(self).remaining_spec(),
            old(self).start_spec() is Some ==> final(self).start_spec() == old(self).start_spec(),
            old(self).start_spec() is None ==> final(self).start_spec() == Some(mc.moves_spec()),
    {
        if self.start.is_none() {
            self.start = Some(mc.num_moves());
        }
    }
}

} // verus!
