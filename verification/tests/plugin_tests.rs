use std::cell::RefCell;
use std::rc::Rc;

use mc_plugins::action::Action;
use mc_plugins::manager::{MonteCarlo, Plugin, PluginManager};
use mc_plugins::report::{
    percent_complete, rejection_percent, save_message, seconds_left, Report, ReportParams,
};
use mc_plugins::save_schedule::{Save, SaveParams};
use mc_plugins::text::decimal_string;

type Checkpoints = Rc<RefCell<u64>>;

struct Sim {
    moves: u64,
    rejected: u64,
    checkpoints: Checkpoints,
}

impl MonteCarlo for Sim {
    type System = ();

    // The ghost model functions are never called at runtime.
    fn moves_spec(&self) -> u64 {
        unreachable!()
    }

    fn rejected_spec(&self) -> u64 {
        unreachable!()
    }

    fn checkpoints_spec(&self) -> u64 {
        unreachable!()
    }

    fn num_moves(&self) -> u64 {
        self.moves
    }

    fn num_rejected_moves(&self) -> u64 {
        self.rejected
    }

    fn checkpoint(&mut self) {
        *self.checkpoints.borrow_mut() += 1;
    }
}

fn fresh(checkpoints: &Checkpoints) -> Sim {
    Sim {
        moves: 0,
        rejected: 0,
        checkpoints: checkpoints.clone(),
    }
}

#[test]
fn save_schedule_doubles_its_threshold() {
    let checkpoints: Checkpoints = Rc::new(RefCell::new(0));
    let mut sim = fresh(&checkpoints);
    let mut save: Save = SaveParams.into();

    sim.moves = 1;
    assert_eq!(save.run(&sim, &()), Action::Save);
    assert_eq!(Plugin::<Sim>::run_period(&save), Some(1));

    sim.moves = 2;
    assert_eq!(save.run(&sim, &()), Action::Save);
    assert_eq!(Plugin::<Sim>::run_period(&save), Some(2));

    sim.moves = 3;
    assert_eq!(save.run(&sim, &()), Action::Idle);
    assert_eq!(Plugin::<Sim>::run_period(&save), Some(1));

    sim.moves = 4;
    assert_eq!(save.run(&sim, &()), Action::Save);
    assert_eq!(Plugin::<Sim>::run_period(&save), Some(4));
}

#[test]
fn save_schedule_checkpoints_at_powers_of_two() {
    let checkpoints: Checkpoints = Rc::new(RefCell::new(0));
    let mut sim = fresh(&checkpoints);
    let mut manager = PluginManager::new();
    let mut plugins: Vec<Save> = vec![SaveParams::default().into()];
    let mut saved_at = Vec::new();
    for step in 1..=10u64 {
        sim.moves += 1;
        if manager.run(&mut sim, &(), &mut plugins) == Action::Save {
            saved_at.push(step);
        }
    }
    assert_eq!(saved_at, [1, 2, 4, 8]);
    assert_eq!(*checkpoints.borrow(), 4);
}

#[test]
fn report_decides_exit_exactly_at_the_limit() {
    let checkpoints: Checkpoints = Rc::new(RefCell::new(0));
    let mut sim = fresh(&checkpoints);
    let mut report: Report = ReportParams { max_iter: Some(5) }.into();

    sim.moves = 4;
    assert_eq!(report.run(&sim, &()), Action::Idle);
    assert_eq!(Plugin::<Sim>::run_period(&report), Some(1));

    sim.moves = 5;
    assert_eq!(report.run(&sim, &()), Action::Exit);
}

#[test]
fn report_without_a_limit_never_needs_to_run() {
    let checkpoints: Checkpoints = Rc::new(RefCell::new(0));
    let mut sim = fresh(&checkpoints);
    let mut report: Report = ReportParams::default().into();
    sim.moves = 1_000_000;
    assert_eq!(report.run(&sim, &()), Action::Idle);
    assert_eq!(Plugin::<Sim>::run_period(&report), None);
}

#[test]
fn report_stops_the_run_exactly_when_due() {
    let checkpoints: Checkpoints = Rc::new(RefCell::new(0));
    let mut sim = fresh(&checkpoints);
    let mut manager = PluginManager::new();
    let mut plugins: Vec<Report> = vec![ReportParams { max_iter: Some(5) }.into()];
    let mut consulted_at = Vec::new();
    for step in 1..=10u64 {
        sim.moves += 1;
        let outcome = manager.run(&mut sim, &(), &mut plugins);
        if outcome != Action::Idle || step == 1 {
            consulted_at.push((step, outcome));
        }
        if outcome == Action::Exit {
            break;
        }
    }
    // Consulted at step 1 (fresh manager), told to wait 4 more steps,
    // and the limit of 5 is then announced exactly on step 5: an exit
    // implies a checkpoint and a save first.
    assert_eq!(consulted_at, [(1, Action::Idle), (5, Action::Exit)]);
    assert_eq!(*checkpoints.borrow(), 1);
}

#[test]
fn decimal_rendering_is_exact() {
    assert_eq!(decimal_string(0), "0");
    assert_eq!(decimal_string(7), "7");
    assert_eq!(decimal_string(10), "10");
    assert_eq!(decimal_string(120), "120");
    assert_eq!(decimal_string(98765), "98765");
    assert_eq!(decimal_string(u64::MAX), "18446744073709551615");
}

#[test]
fn percent_and_estimate_formulas_are_exact() {
    assert_eq!(percent_complete(3, 6), 50);
    assert_eq!(percent_complete(0, 10), 0);
    assert_eq!(percent_complete(10, 10), 100);
    assert_eq!(percent_complete(7, 3), 233);
    assert_eq!(percent_complete(u64::MAX, 1), u64::MAX);
    assert_eq!(seconds_left(63, 5, 0, 10), 63);
    assert_eq!(seconds_left(10, 4, 2, 10), 30);
    assert_eq!(seconds_left(10, 12, 2, 10), 0);
    assert_eq!(rejection_percent(1, 4), 25);
    assert_eq!(rejection_percent(0, 9), 0);
    assert_eq!(rejection_percent(9, 9), 100);
}

#[test]
fn log_message_renders_progress_with_human_durations() {
    let report: Report = ReportParams { max_iter: Some(10) }.into();
    let msg = report.log_message(5, 63).unwrap();
    assert_eq!(msg, "[5] 50% complete after 1m 3s (1m 3s left)");
}

#[test]
fn log_message_without_a_limit_is_plain() {
    let report: Report = ReportParams::default().into();
    let msg = report.log_message(120, 7200).unwrap();
    assert_eq!(msg, "[120] after 2h");
}

#[test]
fn log_message_with_no_observed_moves_is_plain() {
    let report: Report = ReportParams { max_iter: Some(10) }.into();
    let msg = report.log_message(0, 5).unwrap();
    assert_eq!(msg, "[0] after 5s");
}

#[test]
fn save_message_reports_the_rejection_share() {
    assert_eq!(save_message(1, 4), "Rejected 1/4 = 25% of the moves");
    assert_eq!(save_message(0, 7), "Rejected 0/7 = 0% of the moves");
}

#[test]
fn zero_seconds_render_as_0s() {
    let report: Report = ReportParams::default().into();
    let msg = report.log_message(1, 0).unwrap();
    assert_eq!(msg, "[1] after 0s");
}
