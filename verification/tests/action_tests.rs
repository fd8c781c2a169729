use mc_plugins::action::Action;

fn all_actions() -> Vec<Action> {
    vec![Action::Idle, Action::Log, Action::Save, Action::Exit]
}

fn merge_all(actions: &[Action]) -> Action {
    let mut todo = Action::Idle;
    for a in actions {
        todo = todo.and(*a);
    }
    todo
}

#[test]
fn and_is_max_on_every_pair() {
    for a in all_actions() {
        for b in all_actions() {
            let expected = if a.level() >= b.level() { a } else { b };
            assert_eq!(a.and(b), expected);
            assert_eq!(a.and(b), b.and(a));
            assert_eq!(a.and(b), std::cmp::max(a, b));
        }
    }
}

#[test]
fn and_is_associative_and_idempotent() {
    for a in all_actions() {
        assert_eq!(a.and(a), a);
        for b in all_actions() {
            for c in all_actions() {
                assert_eq!(a.and(b).and(c), a.and(b.and(c)));
            }
        }
    }
}

#[test]
fn levels_follow_the_fixed_order() {
    assert_eq!(Action::Idle.level(), 0);
    assert_eq!(Action::Log.level(), 1);
    assert_eq!(Action::Save.level(), 2);
    assert_eq!(Action::Exit.level(), 3);
    assert!(Action::Idle < Action::Log);
    assert!(Action::Log < Action::Save);
    assert!(Action::Save < Action::Exit);
}

#[test]
fn at_least_agrees_with_the_order() {
    for a in all_actions() {
        for b in all_actions() {
            assert_eq!(a.at_least(b), a.level() >= b.level());
        }
    }
}

#[test]
fn merge_is_the_maximum_in_any_order() {
    let seqs: Vec<Vec<Action>> = vec![
        vec![],
        vec![Action::Idle],
        vec![Action::Idle, Action::Log, Action::Idle],
        vec![Action::Log, Action::Save],
        vec![Action::Save, Action::Log, Action::Exit, Action::Idle],
        vec![Action::Idle, Action::Idle, Action::Idle],
    ];
    for s in seqs {
        let merged = merge_all(&s);
        let max = s.iter().copied().max().unwrap_or(Action::Idle);
        assert_eq!(merged, max);
        let mut rev = s.clone();
        rev.reverse();
        assert_eq!(merge_all(&rev), merged);
        let mut rot = s.clone();
        rot.rotate_left(s.len() / 2 + 1 % (s.len() + 1));
        assert_eq!(merge_all(&rot), merged);
    }
}

#[test]
fn empty_merge_is_idle() {
    assert_eq!(merge_all(&[]), Action::Idle);
}
