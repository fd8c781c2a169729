//! The totally ordered lattice of outcomes a plugin can request on a check.

use vstd::prelude::*;

verus! {

/// An action that should be taken based on a plugin's decision.
///
/// The variants form a fixed total order
/// `Idle < Log < Save < Exit`; merging several requests with
/// [`Action::and`] yields the maximum element present.
#[derive(Copy, Clone, Debug, PartialOrd, Ord, PartialEq, Eq, Structural)]
pub enum Action {
    /// Nothing special need be done.
    Idle,
    /// Log interesting information.
    Log,
    /// Save things.
    Save,
    /// Exit the program.
    Exit,
}

/// The position of an action in the fixed total order.
pub open spec fn action_level(a: Action) -> int {
    match a {
        Action::Idle => 0,
        Action::Log => 1,
        Action::Save => 2,
        Action::Exit => 3,
    }
}

/// The fixed total order on actions: `Idle < Log < Save < Exit`.
pub open spec fn action_le(a: Action, b: Action) -> bool {
    action_level(a) <= action_level(b)
}

/// The join (maximum) of two actions under the fixed total order.
pub open spec fn action_join(a: Action, b: Action) -> Action {
    if action_level(a) >= action_level(b) {
        a
    } else {
        b
    }
}

/// The merged decision of a whole consultation: the join of every
/// action in the sequence, `Action::Idle` when the sequence is empty.
pub open spec fn merge_seq(s: Seq<Action>) -> Action
    decreases s.len(),
{
    if s.len() == 0 {
        Action::Idle
    } else {
        action_join(merge_seq(s.drop_last()), s.last())
    }
}

impl Action {
    /// The position of this action in the fixed total order, as a number.
    pub fn level(self) -> (r: u8)
        ensures
            r == action_level(self),
    {
        match self {
            Action::Idle => 0,
            Action::Log => 1,
            Action::Save => 2,
            Action::Exit => 3,
        }
    }

    /// Do both of two actions: the more urgent of the two.
    pub fn and(self, other: Action) -> (r: Action)
        ensures
            r == action_join(self, other),
            action_le(self, r),
            action_le(other, r),
            r == self || r == other,
    {
        if self.level() >= other.level() {
            self
        } else {
            other
        }
    }

    /// Whether this action is at least as urgent as `other`.
    pub fn at_least(self, other: Action) -> (r: bool)
        ensures
            r == action_le(other, self),
    {
        self.level() >= other.level()
    }
}

/// The join of two actions is the same in either order.
pub proof fn lemma_join_commutative(a: Action, b: Action)
    ensures
        action_join(a, b) == action_join(b, a),
{
}

/// Joining actions in any grouping gives the same result.
pub proof fn lemma_join_associative(a: Action, b: Action, c: Action)
    ensures
        action_join(action_join(a, b), c) == action_join(a, action_join(b, c)),
{
}

/// Joining an action with itself changes nothing.
pub proof fn lemma_join_idempotent(a: Action)
    ensures
        action_join(a, a) == a,
{
}

/// The merged decision of a consultation is the maximum element present:
/// it dominates every decision in the sequence, and (when the sequence is
/// not empty) it is one of them.  An empty consultation merges to
/// `Action::Idle`.
pub proof fn lemma_merge_seq_is_max(s: Seq<Action>)
    ensures
        forall|i: int| 0 <= i < s.len() ==> action_le(#[trigger] s[i], merge_seq(s)),
        s.len() == 0 ==> merge_seq(s) == Action::Idle,
        s.len() > 0 ==> exists|i: int| 0 <= i < s.len() && merge_seq(s) == s[i],
    decreases s.len(),
{
    if s.len() > 0 {
        lemma_merge_seq_is_max(s.drop_last());
        if s.drop_last().len() > 0 {
            let j = choose|j: int|
                0 <= j < s.drop_last().len() && merge_seq(s.drop_last()) == s.drop_last()[j];
            assert(s.drop_last()[j] == s[j]);
        }
        assert(forall|i: int| 0 <= i < s.len() - 1 ==> s.drop_last()[i] == #[trigger] s[i]);
        assert(s.last() == s[s.len() - 1]);
    }
}

/// Merging a consultation's decisions does not depend on the order in
/// which the plugins were consulted: any two sequences holding the same
/// decisions (as a multiset) merge to the same action.
pub proof fn lemma_merge_seq_order_independent(s1: Seq<Action>, s2: Seq<Action>)
    requires
        s1.to_multiset() == s2.to_multiset(),
    ensures
        merge_seq(s1) == merge_seq(s2),
{
    s1.to_multiset_ensures();
    s2.to_multiset_ensures();
    lemma_merge_seq_is_max(s1);
    lemma_merge_seq_is_max(s2);
    if s1.len() == 0 {
        assert(s2.len() == 0);
    } else {
        assert(s2.len() > 0);
        assert(s1.contains(merge_seq(s1)));
        assert(s2.contains(merge_seq(s2)));
        assert(s2.to_multiset().contains(merge_seq(s1)));
        assert(s1.to_multiset().contains(merge_seq(s2)));
        assert(s2.contains(merge_seq(s1)));
        assert(s1.contains(merge_seq(s2)));
        assert(action_le(merge_seq(s1), merge_seq(s2)));
        assert(action_le(merge_seq(s2), merge_seq(s1)));
    }
}

} // verus!
