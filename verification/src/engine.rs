use vstd::prelude::*;

use crate::relationship::{lemma_count_cooperations_push, Interaction, Relationship};
use crate::trust::Action;

verus! {

/// Configuration for forgiveness mechanics. `S` is the type of trust scores and rates.
#[derive(Debug, Clone, Copy)]
pub struct ForgivenessConfig<S> {
    /// Base forgiveness rate (how quickly trust recovers per step)
    pub forgiveness_rate: S,
    /// Maximum trust score
    pub max_trust: S,
    /// Minimum trust score
    pub min_trust: S,
    /// Trust lost on defection
    pub defection_penalty: S,
    /// Trust gained on cooperation
    pub cooperation_bonus: S,
    /// Forgiveness timing window (in RPS cycles)
    pub forgiveness_window: usize,
    /// Number of consecutive cooperations needed for forgiveness to kick in
    pub forgiveness_threshold: usize,
    /// Whether forgiveness is enabled
    pub enabled: bool,
}

/// How an action changes the trust score of a relationship.
#[derive(Debug, Clone, Copy, PartialEq, Eq, Structural)]
pub enum TrustAdjustment {
    /// Add the cooperation bonus times one plus the forgiveness rate, capped at the maximum trust.
    EnhancedBonus,
    /// Add the cooperation bonus, capped at the maximum trust.
    Bonus,
    /// Subtract the defection penalty, floored at the minimum trust.
    Penalty,
}

/// The share of the forgiveness rate that passive forgiveness adds to a trust score
/// in a round (capped at the maximum trust).
#[derive(Debug, Clone, Copy, PartialEq, Eq, Structural)]
pub enum ForgivenessRate {
    /// Twice the rate: in a forgiveness window, on an RPS cycle boundary.
    Doubled,
    /// The rate itself: in a forgiveness window, off the cycle boundary.
    Full,
    /// Half the rate: background forgiveness outside any window.
    Half,
}

/// The adjustment that `action` applies to a relationship whose current streak of
/// cooperations is `consecutive_cooperations`.
pub open spec fn spec_adjustment(
    enabled: bool,
    threshold: usize,
    consecutive_cooperations: usize,
    action: Action,
) -> TrustAdjustment {
    match action {
        Action::Cooperate => if enabled && consecutive_cooperations + 1 >= threshold {
            TrustAdjustment::EnhancedBonus
        } else {
            TrustAdjustment::Bonus
        },
        Action::Defect => TrustAdjustment::Penalty,
    }
}

/// A relationship is in a forgiveness window when its flag says so or when it has
/// cooperated at least twice in a row.
pub open spec fn spec_in_window<S>(r: Relationship<S>) -> bool {
    r.in_forgiveness_window || r.consecutive_cooperations >= 2
}

/// The passive forgiveness rate of a relationship in round `round` with RPS cycle length `cycle`.
pub open spec fn spec_forgiveness_rate<S>(
    r: Relationship<S>,
    round: usize,
    cycle: usize,
) -> ForgivenessRate {
    if spec_in_window(r) && round % cycle == 0 {
        ForgivenessRate::Doubled
    } else if spec_in_window(r) {
        ForgivenessRate::Full
    } else {
        ForgivenessRate::Half
    }
}

/// A relationship counts as forgiving when it is in a forgiveness window or its
/// current streak of cooperations is not empty.
pub open spec fn spec_is_forgiving_strategy<S>(r: Relationship<S>) -> bool {
    r.in_forgiveness_window || r.consecutive_cooperations > 0
}

/// Number of forgiving relationships.
pub open spec fn count_forgiving<S>(rels: Seq<Relationship<S>>) -> nat
    decreases rels.len(),
{
    if rels.len() == 0 {
        0
    } else {
        count_forgiving(rels.drop_last()) + if spec_is_forgiving_strategy(rels.last()) {
            1nat
        } else {
            0nat
        }
    }
}

/// The forgiveness engine: its relationships, the current round and the RPS cycle length.
pub struct ForgivenessEngine<S> {
    config: ForgivenessConfig<S>,
    relationships: Vec<Relationship<S>>,
    current_round: usize,
    rps_cycle_length: usize,
}

impl<S: Copy> ForgivenessEngine<S> {
    /// The configuration.
    pub closed spec fn spec_config(&self) -> ForgivenessConfig<S> {
        self.config
    }

    /// The relationships, by index.
    pub closed spec fn spec_relationships(&self) -> Seq<Relationship<S>> {
        self.relationships@
    }

    /// The current round.
    pub closed spec fn spec_current_round(&self) -> usize {
        self.current_round
    }

    /// The RPS cycle length.
    pub closed spec fn spec_rps_cycle_length(&self) -> usize {
        self.rps_cycle_length
    }

    /// Every relationship keeps its bookkeeping consistent and records no round after the
    /// current one.
    pub open spec fn wf(&self) -> bool {
        forall|i: int|
            0 <= i < self.spec_relationships().len() ==> {
                &&& #[trigger] self.spec_relationships()[i].wf()
                &&& self.spec_relationships()[i].recorded_by(self.spec_current_round())
            }
    }

    /// Configuration, round and cycle length are those of `other`.
    pub open spec fn same_settings(&self, other: Self) -> bool {
        &&& self.spec_config() == other.spec_config()
        &&& self.spec_current_round() == other.spec_current_round()
        &&& self.spec_rps_cycle_length() == other.spec_rps_cycle_length()
    }

    /// Every relationship but the one at `idx` is that of `other`.
    pub open spec fn same_relationships_except(&self, other: Self, idx: int) -> bool {
        &&& self.spec_relationships().len() == other.spec_relationships().len()
        &&& forall|j: int|
            0 <= j < self.spec_relationships().len() && j != idx ==> #[trigger] self.spec_relationships()[j]
                == other.spec_relationships()[j]
    }

    /// The passive forgiveness each relationship gets this round, given which ones are
    /// below the maximum trust: none when forgiveness is disabled or the trust is at the
    /// maximum, else the rate of `spec_forgiveness_rate`.
    pub open spec fn spec_forgiveness_plan(&self, below_max: Seq<bool>) -> Seq<Option<ForgivenessRate>> {
        Seq::new(
            below_max.len(),
            |i: int|
                if self.spec_config().enabled && below_max[i] {
                    Some(
                        spec_forgiveness_rate(
                            self.spec_relationships()[i],
                            self.spec_current_round(),
                            self.spec_rps_cycle_length(),
                        ),
                    )
                } else {
                    None
                },
        )
    }

    /// A new engine with no relationships, in round 0, with an RPS cycle of length 3.
    pub fn new(config: ForgivenessConfig<S>) -> (e: Self)
        ensures
            e.spec_config() == config,
            e.spec_relationships().len() == 0,
            e.spec_current_round() == 0,
            e.spec_rps_cycle_length() == 3,
            e.wf(),
    {
        ForgivenessEngine { config, relationships: Vec::new(), current_round: 0, rps_cycle_length: 3 }
    }

    /// Set the RPS cycle length for timing synchronization.
    pub fn set_rps_cycle_length(&mut self, length: usize)
        requires
            old(self).wf(),
        ensures
            final(self).wf(),
            final(self).spec_rps_cycle_length() == length,
            final(self).spec_config() == old(self).spec_config(),
            final(self).spec_current_round() == old(self).spec_current_round(),
            final(self).spec_relationships() == old(self).spec_relationships(),
    {
        self.rps_cycle_length = length;
        assert(self.spec_relationships() == old(self).spec_relationships());
        assert(self.spec_current_round() == old(self).spec_current_round());
    }

    /// The configuration.
    pub fn config(&self) -> (c: &ForgivenessConfig<S>)
        ensures
            *c == self.spec_config(),
    {
        &self.config
    }

    /// The RPS cycle length.
    pub fn rps_cycle_length(&self) -> (n: usize)
        ensures
            n == self.spec_rps_cycle_length(),
    {
        self.rps_cycle_length
    }

    /// Add a new relationship; returns its index.
    pub fn add_relationship(&mut self, initial_trust: S) -> (idx: usize)
        requires
            old(self).wf(),
        ensures
            final(self).wf(),
            final(self).same_settings(*old(self)),
            idx == old(self).spec_relationships().len(),
            final(self).spec_relationships().len() == old(self).spec_relationships().len() + 1,
            forall|i: int|
                0 <= i < idx ==> #[trigger] final(self).spec_relationships()[i]
                    == old(self).spec_relationships()[i],
            final(self).spec_relationships()[idx as int].is_fresh(initial_trust),
    {
        let idx = self.relationships.len();
        self.relationships.push(Relationship::new(initial_trust));
        assert forall|i: int| 0 <= i < self.spec_relationships().len() implies {
            &&& #[trigger] self.spec_relationships()[i].wf()
            &&& self.spec_relationships()[i].recorded_by(self.spec_current_round())
        } by {
            if i < idx {
                assert(self.spec_relationships()[i] == old(self).spec_relationships()[i]);
            }
        }
        idx
    }

    /// Get a relationship by index.
    pub fn get_relationship(&self, idx: usize) -> (r: Option<&Relationship<S>>)
        ensures
            idx < self.spec_relationships().len() ==> r == Some(&self.spec_relationships()[idx as int]),
            idx >= self.spec_relationships().len() ==> r is None,
    {
        if idx < self.relationships.len() {
            Some(&self.relationships[idx])
        } else {
            None
        }
    }

    /// Get all relationships.
    pub fn relationships(&self) -> (rels: &[Relationship<S>])
        ensures
            rels@ == self.spec_relationships(),
    {
        self.relationships.as_slice()
    }

    /// Get current round.
    pub fn current_round(&self) -> (round: usize)
        ensures
            round == self.spec_current_round(),
    {
        self.current_round
    }

    /// Check if a relationship is in active forgiveness mode.
    pub fn is_forgiving(&self, rel_idx: usize) -> (b: bool)
        ensures
            b == (rel_idx < self.spec_relationships().len()
                && self.spec_relationships()[rel_idx as int].in_forgiveness_window),
    {
        if rel_idx < self.relationships.len() {
            self.relationships[rel_idx].in_forgiveness_window
        } else {
            false
        }
    }
    /// The adjustment that processing `action` on relationship `rel_idx` applies to its
    /// trust score; `None` when there is no such relationship.
    pub fn plan_action(&self, rel_idx: usize, action: Action) -> (adj: Option<TrustAdjustment>)
        ensures
            rel_idx < self.spec_relationships().len() ==> adj == Some(
                spec_adjustment(
                    self.spec_config().enabled,
                    self.spec_config().forgiveness_threshold,
                    self.spec_relationships()[rel_idx as int].consecutive_cooperations,
                    action,
                ),
            ),
            rel_idx >= self.spec_relationships().len() ==> adj is None,
            rel_idx < self.spec_relationships().len() && action == Action::Defect ==> adj == Some(
                TrustAdjustment::Penalty,
            ),
            rel_idx < self.spec_relationships().len() && action == Action::Cooperate ==> adj == Some(
                if self.spec_config().enabled && self.spec_relationships()[rel_idx as int].consecutive_cooperations
                    + 1 >= self.spec_config().forgiveness_threshold {
                    TrustAdjustment::EnhancedBonus
                } else {
                    TrustAdjustment::Bonus
                },
            ),
    {
        if rel_idx >= self.relationships.len() {
            return None;
        }
        match action {
            Action::Cooperate => {
                let streak = self.relationships[rel_idx].consecutive_cooperations;
                let threshold = self.config.forgiveness_threshold;
                if self.config.enabled && (threshold <= streak || threshold - streak == 1) {
                    Some(TrustAdjustment::EnhancedBonus)
                } else {
                    Some(TrustAdjustment::Bonus)
                }
            },
            Action::Defect => Some(TrustAdjustment::Penalty),
        }
    }

    /// Record `action` on relationship `rel_idx` in the current round: update its streaks,
    /// totals and forgiveness window, set its trust score to `trust_after` and append the
    /// interaction to its history. Returns `false`, changing nothing, when there is no such
    /// relationship. (The bound on the history's length always holds of a `Vec` of
    /// interactions, whose elements take more than one byte each.)
    pub fn record_action(&mut self, rel_idx: usize, action: Action, trust_after: S) -> (recorded: bool)
        requires
            old(self).wf(),
            rel_idx < old(self).spec_relationships().len() ==> old(
                self,
            ).spec_relationships()[rel_idx as int].history@.len() + 2 <= usize::MAX,
        ensures
            final(self).wf(),
            final(self).same_settings(*old(self)),
            final(self).same_relationships_except(*old(self), rel_idx as int),
            recorded == (rel_idx < old(self).spec_relationships().len()),
            recorded ==> final(self).spec_relationships()[rel_idx as int].followed_action(
                old(self).spec_relationships()[rel_idx as int],
                action,
                old(self).spec_current_round(),
                old(self).spec_config().forgiveness_threshold,
                trust_after,
            ),
            recorded ==> final(self).spec_relationships()[rel_idx as int].trust_score == trust_after,
            recorded && action == Action::Defect ==> {
                &&& !final(self).spec_relationships()[rel_idx as int].in_forgiveness_window
                &&& final(self).spec_relationships()[rel_idx as int].consecutive_cooperations == 0
            },
    {
        if rel_idx >= self.relationships.len() {
            return false;
        }
        let round = self.current_round;
        let threshold = self.config.forgiveness_threshold;
        let ghost prev = self.relationships@[rel_idx as int];
        assert(prev.wf());
        let rel = &mut self.relationships[rel_idx];
        let trust_before = rel.trust_score;
        match action {
            Action::Cooperate => {
                rel.consecutive_cooperations = rel.consecutive_cooperations + 1;
                rel.consecutive_defections = 0;
                rel.total_cooperations = rel.total_cooperations + 1;
                if rel.consecutive_cooperations >= threshold {
                    rel.in_forgiveness_window = true;
                    rel.last_forgiveness_round = Some(round);
                }
            },
            Action::Defect => {
                rel.consecutive_defections = rel.consecutive_defections + 1;
                rel.consecutive_cooperations = 0;
                rel.total_defections = rel.total_defections + 1;
                rel.in_forgiveness_window = false;
            },
        }
        rel.trust_score = trust_after;
        let it = Interaction { round, action, trust_before, trust_after };
        rel.history.push(it);
        proof {
            lemma_count_cooperations_push(prev.history@, it);
        }
        assert forall|i: int| 0 <= i < self.spec_relationships().len() implies {
            &&& #[trigger] self.spec_relationships()[i].wf()
            &&& self.spec_relationships()[i].recorded_by(self.spec_current_round())
        } by {
            if i != rel_idx {
                assert(self.spec_relationships()[i] == old(self).spec_relationships()[i]);
            }
        }
        true
    }
    /// The passive forgiveness of this round for each relationship, given for each whether
    /// its trust is below the maximum trust (see `spec_forgiveness_plan`).
    pub fn forgiveness_plan(&self, below_max: &Vec<bool>) -> (plan: Vec<Option<ForgivenessRate>>)
        requires
            below_max@.len() == self.spec_relationships().len(),
            self.spec_config().enabled && (exists|i: int|
                0 <= i < below_max@.len() && #[trigger] below_max@[i]) ==> self.spec_rps_cycle_length()
                > 0,
        ensures
            plan@ == self.spec_forgiveness_plan(below_max@),
            plan@.len() == below_max@.len(),
            forall|i: int|
                0 <= i < plan@.len() ==> {
                    let r = self.spec_relationships()[i];
                    let windowed = r.in_forgiveness_window || r.consecutive_cooperations >= 2;
                    let on_cycle = self.spec_current_round() % self.spec_rps_cycle_length() == 0;
                    #[trigger] plan@[i] == if !self.spec_config().enabled || !below_max@[i] {
                        None
                    } else if windowed && on_cycle {
                        Some(ForgivenessRate::Doubled)
                    } else if windowed {
                        Some(ForgivenessRate::Full)
                    } else {
                        Some(ForgivenessRate::Half)
                    }
                },
    {
        let n = below_max.len();
        let mut plan: Vec<Option<ForgivenessRate>> = Vec::new();
        for i in 0..n
            invariant
                n == below_max@.len(),
                n == self.spec_relationships().len(),
                self.spec_config().enabled && (exists|k: int|
                    0 <= k < below_max@.len() && #[trigger] below_max@[k]) ==> self.spec_rps_cycle_length()
                    > 0,
                plan@.len() == i,
                forall|k: int| 0 <= k < i ==> #[trigger] plan@[k] == self.spec_forgiveness_plan(below_max@)[k],
        {
            let entry = if self.config.enabled && below_max[i] {
                let rel = &self.relationships[i];
                let in_window = rel.in_forgiveness_window || rel.consecutive_cooperations >= 2;
                let on_cycle = self.current_round % self.rps_cycle_length == 0;
                if in_window && on_cycle {
                    Some(ForgivenessRate::Doubled)
                } else if in_window {
                    Some(ForgivenessRate::Full)
                } else {
                    Some(ForgivenessRate::Half)
                }
            } else {
                None
            };
            plan.push(entry);
        }
        assert(plan@ =~= self.spec_forgiveness_plan(below_max@));
        plan
    }

    /// Set the trust score of relationship `rel_idx`, as passive forgiveness does. Returns
    /// `false`, changing nothing, when there is no such relationship.
    pub fn set_trust_score(&mut self, rel_idx: usize, trust: S) -> (set: bool)
        requires
            old(self).wf(),
        ensures
            final(self).wf(),
            final(self).same_settings(*old(self)),
            final(self).same_relationships_except(*old(self), rel_idx as int),
            set == (rel_idx < old(self).spec_relationships().len()),
            set ==> final(self).spec_relationships()[rel_idx as int] == (Relationship {
                trust_score: trust,
                ..old(self).spec_relationships()[rel_idx as int]
            }),
    {
        if rel_idx >= self.relationships.len() {
            return false;
        }
        let ghost prev = self.spec_relationships()[rel_idx as int];
        assert(prev.wf());
        assert(prev.recorded_by(self.spec_current_round()));
        let rel = &mut self.relationships[rel_idx];
        rel.trust_score = trust;
        assert forall|i: int| 0 <= i < self.spec_relationships().len() implies {
            &&& #[trigger] self.spec_relationships()[i].wf()
            &&& self.spec_relationships()[i].recorded_by(self.spec_current_round())
        } by {
            if i != rel_idx {
                assert(self.spec_relationships()[i] == old(self).spec_relationships()[i]);
            }
        }
        true
    }

    /// Record the repair of relationship `rel_idx` after a defection spiral in the current
    /// round: its trust becomes `trust_after`, its defection streak ends, its cooperation
    /// streak restarts at one and it enters a forgiveness window. Returns `false`, changing
    /// nothing, when there is no such relationship.
    pub fn record_repair(&mut self, rel_idx: usize, trust_after: S) -> (recorded: bool)
        requires
            old(self).wf(),
        ensures
            final(self).wf(),
            final(self).same_settings(*old(self)),
            final(self).same_relationships_except(*old(self), rel_idx as int),
            recorded == (rel_idx < old(self).spec_relationships().len()),
            recorded ==> final(self).spec_relationships()[rel_idx as int].followed_repair(
                old(self).spec_relationships()[rel_idx as int],
                old(self).spec_current_round(),
                trust_after,
            ),
            recorded ==> {
                let r = final(self).spec_relationships()[rel_idx as int];
                &&& r.trust_score == trust_after
                &&& r.consecutive_defections == 0
                &&& r.consecutive_cooperations == 1
                &&& r.in_forgiveness_window
                &&& r.last_forgiveness_round == Some(old(self).spec_current_round())
            },
    {
        if rel_idx >= self.relationships.len() {
            return false;
        }
        let round = self.current_round;
        let ghost prev = self.spec_relationships()[rel_idx as int];
        assert(prev.wf());
        assert(prev.recorded_by(self.spec_current_round()));
        let rel = &mut self.relationships[rel_idx];
        rel.trust_score = trust_after;
        rel.consecutive_defections = 0;
        rel.consecutive_cooperations = 1;
        rel.in_forgiveness_window = true;
        rel.last_forgiveness_round = Some(round);
        assert forall|i: int| 0 <= i < self.spec_relationships().len() implies {
            &&& #[trigger] self.spec_relationships()[i].wf()
            &&& self.spec_relationships()[i].recorded_by(self.spec_current_round())
        } by {
            if i != rel_idx {
                assert(self.spec_relationships()[i] == old(self).spec_relationships()[i]);
            }
        }
        true
    }

    /// Move to the next round.
    pub fn next_round(&mut self)
        requires
            old(self).wf(),
            old(self).spec_current_round() < usize::MAX,
        ensures
            final(self).wf(),
            final(self).spec_current_round() == old(self).spec_current_round() + 1,
            final(self).spec_config() == old(self).spec_config(),
            final(self).spec_rps_cycle_length() == old(self).spec_rps_cycle_length(),
            final(self).spec_relationships() == old(self).spec_relationships(),
    {
        self.current_round = self.current_round + 1;
        assert(self.spec_relationships() == old(self).spec_relationships());
        assert forall|i: int| 0 <= i < self.spec_relationships().len() implies {
            &&& #[trigger] self.spec_relationships()[i].wf()
            &&& self.spec_relationships()[i].recorded_by(self.spec_current_round())
        } by {
            assert(old(self).spec_relationships()[i].wf());
            assert(old(self).spec_relationships()[i].recorded_by(old(self).spec_current_round()));
        }
    }

    /// Number of relationships in a forgiveness window or on a cooperation streak.
    pub fn forgiving_count(&self) -> (n: usize)
        ensures
            n == count_forgiving(self.spec_relationships()),
    {
        let mut n: usize = 0;
        let len = self.relationships.len();
        for i in 0..len
            invariant
                len == self.spec_relationships().len(),
                n == count_forgiving(self.spec_relationships().take(i as int)),
                n <= i,
        {
            proof {
                assert(self.spec_relationships().take(i + 1).drop_last()
                    =~= self.spec_relationships().take(i as int));
            }
            let rel = &self.relationships[i];
            if rel.in_forgiveness_window || rel.consecutive_cooperations > 0 {
                n = n + 1;
            }
        }
        assert(self.spec_relationships().take(len as int) =~= self.spec_relationships());
        n
    }
}

} // verus!
