use vstd::prelude::*;

use crate::trust::Action;

verus! {

/// Record of one interaction. `S` is the type of trust scores.
#[derive(Debug, Clone, Copy)]
pub struct Interaction<S> {
    pub round: usize,
    pub action: Action,
    pub trust_before: S,
    pub trust_after: S,
}

/// A relationship between two agents. `S` is the type of trust scores.
#[derive(Debug, Clone)]
pub struct Relationship<S> {
    pub trust_score: S,
    pub history: Vec<Interaction<S>>,
    pub consecutive_cooperations: usize,
    pub consecutive_defections: usize,
    pub total_cooperations: usize,
    pub total_defections: usize,
    pub last_forgiveness_round: Option<usize>,
    pub in_forgiveness_window: bool,
}

/// Number of cooperations recorded in a history.
pub open spec fn count_cooperations<S>(history: Seq<Interaction<S>>) -> nat
    decreases history.len(),
{
    if history.len() == 0 {
        0
    } else {
        count_cooperations(history.drop_last()) + if history.last().action == Action::Cooperate {
            1nat
        } else {
            0nat
        }
    }
}

/// Adding one interaction to a history adds one to the count exactly when it is a cooperation.
pub proof fn lemma_count_cooperations_push<S>(history: Seq<Interaction<S>>, it: Interaction<S>)
    ensures
        count_cooperations(history.push(it)) == count_cooperations(history) + if it.action
            == Action::Cooperate {
            1nat
        } else {
            0nat
        },
{
    assert(history.push(it).drop_last() =~= history);
}

impl<S> Relationship<S> {
    /// The bookkeeping that every relationship of an engine keeps consistent.
    pub open spec fn wf(&self) -> bool {
        &&& self.total_cooperations + self.total_defections == self.history@.len()
        &&& self.total_cooperations == count_cooperations(self.history@)
        &&& self.consecutive_cooperations <= self.total_cooperations + 1
        &&& self.consecutive_defections <= self.total_defections
        &&& (self.consecutive_cooperations == 0 || self.consecutive_defections == 0)
        &&& (self.in_forgiveness_window ==> self.last_forgiveness_round is Some)
    }

    /// Every round recorded in the relationship is at most `round`, and its history is in
    /// round order.
    pub open spec fn recorded_by(&self, round: usize) -> bool {
        &&& (self.last_forgiveness_round matches Some(r) ==> r <= round)
        &&& forall|i: int| 0 <= i < self.history@.len() ==> #[trigger] self.history@[i].round <= round
        &&& forall|i: int, j: int|
            0 <= i <= j < self.history@.len() ==> #[trigger] self.history@[i].round
                <= #[trigger] self.history@[j].round
    }

    /// A relationship that has just been created with the given trust.
    pub open spec fn is_fresh(&self, initial_trust: S) -> bool {
        &&& self.trust_score == initial_trust
        &&& self.history@.len() == 0
        &&& self.consecutive_cooperations == 0
        &&& self.consecutive_defections == 0
        &&& self.total_cooperations == 0
        &&& self.total_defections == 0
        &&& self.last_forgiveness_round is None
        &&& !self.in_forgiveness_window
    }

    /// Total number of interactions.
    pub open spec fn spec_total_interactions(&self) -> int {
        self.total_cooperations + self.total_defections
    }

    /// `self` is `prev` after `action` in round `round`, with a forgiveness threshold of
    /// `threshold`, and with the trust score `trust_after` that the action left.
    pub open spec fn followed_action(
        &self,
        prev: Relationship<S>,
        action: Action,
        round: usize,
        threshold: usize,
        trust_after: S,
    ) -> bool {
        &&& self.trust_score == trust_after
        &&& self.history@ == prev.history@.push(
            Interaction { round, action, trust_before: prev.trust_score, trust_after },
        )
        &&& match action {
            Action::Cooperate => {
                &&& self.consecutive_cooperations == prev.consecutive_cooperations + 1
                &&& self.consecutive_defections == 0
                &&& self.total_cooperations == prev.total_cooperations + 1
                &&& self.total_defections == prev.total_defections
                &&& if self.consecutive_cooperations >= threshold {
                    &&& self.in_forgiveness_window
                    &&& self.last_forgiveness_round == Some(round)
                } else {
                    &&& self.in_forgiveness_window == prev.in_forgiveness_window
                    &&& self.last_forgiveness_round == prev.last_forgiveness_round
                }
            },
            Action::Defect => {
                &&& self.consecutive_defections == prev.consecutive_defections + 1
                &&& self.consecutive_cooperations == 0
                &&& self.total_defections == prev.total_defections + 1
                &&& self.total_cooperations == prev.total_cooperations
                &&& !self.in_forgiveness_window
                &&& self.last_forgiveness_round == prev.last_forgiveness_round
            },
        }
    }

    /// `self` is `prev` repaired in round `round`, with the trust score `trust_after`.
    pub open spec fn followed_repair(&self, prev: Relationship<S>, round: usize, trust_after: S) -> bool {
        &&& self.trust_score == trust_after
        &&& self.history@ == prev.history@
        &&& self.consecutive_defections == 0
        &&& self.consecutive_cooperations == 1
        &&& self.total_cooperations == prev.total_cooperations
        &&& self.total_defections == prev.total_defections
        &&& self.in_forgiveness_window
        &&& self.last_forgiveness_round == Some(round)
    }

    /// A new relationship with the given initial trust and no history.
    pub fn new(initial_trust: S) -> (r: Self)
        ensures
            r.is_fresh(initial_trust),
            r.wf(),
    {
        Relationship {
            trust_score: initial_trust,
            history: Vec::new(),
            consecutive_cooperations: 0,
            consecutive_defections: 0,
            total_cooperations: 0,
            total_defections: 0,
            last_forgiveness_round: None,
            in_forgiveness_window: false,
        }
    }

    /// Total interactions.
    pub fn total_interactions(&self) -> (n: usize)
        requires
            self.spec_total_interactions() <= usize::MAX,
        ensures
            n == self.spec_total_interactions(),
    {
        self.total_cooperations + self.total_defections
    }
}

} // verus!
