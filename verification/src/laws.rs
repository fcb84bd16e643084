use vstd::prelude::*;

use crate::engine::{
    count_forgiving, spec_adjustment, spec_forgiveness_rate, spec_in_window,
    spec_is_forgiving_strategy, ForgivenessEngine, ForgivenessRate, TrustAdjustment,
};
use crate::erasure::{count_true, lemma_count_true_bounded, spec_verdict};
use crate::relationship::{count_cooperations, Interaction, Relationship};
use crate::trust::Action;

verus! {

/// In every state of a well-formed engine, a relationship's history holds exactly its
/// interactions: one entry per cooperation or defection, the cooperations among them
/// counted by `total_cooperations`, in round order and none after the current round.
pub proof fn law_history_matches_totals<S: Copy>(e: ForgivenessEngine<S>, idx: int)
    requires
        e.wf(),
        0 <= idx < e.spec_relationships().len(),
    ensures
        e.spec_relationships()[idx].history@.len() == e.spec_relationships()[idx].spec_total_interactions(),
        count_cooperations(e.spec_relationships()[idx].history@)
            == e.spec_relationships()[idx].total_cooperations,
        forall|i: int, j: int|
            0 <= i <= j < e.spec_relationships()[idx].history@.len() ==> #[trigger] e.spec_relationships()[idx].history@[i].round
                <= #[trigger] e.spec_relationships()[idx].history@[j].round,
        forall|i: int|
            0 <= i < e.spec_relationships()[idx].history@.len() ==> #[trigger] e.spec_relationships()[idx].history@[i].round
                <= e.spec_current_round(),
{
    assert(e.spec_relationships()[idx].wf());
}

/// A relationship of a well-formed engine is never on a cooperation streak and a defection
/// streak at once, and whenever it is in a forgiveness window, the round in which it
/// entered it is recorded.
pub proof fn law_streaks_exclusive<S: Copy>(e: ForgivenessEngine<S>, idx: int)
    requires
        e.wf(),
        0 <= idx < e.spec_relationships().len(),
    ensures
        e.spec_relationships()[idx].consecutive_cooperations == 0
            || e.spec_relationships()[idx].consecutive_defections == 0,
        e.spec_relationships()[idx].in_forgiveness_window
            ==> e.spec_relationships()[idx].last_forgiveness_round is Some,
{
    assert(e.spec_relationships()[idx].wf());
}

/// A defection ends the cooperation streak and closes the forgiveness window; a cooperation
/// that brings the streak to the threshold opens the window in the current round.
pub proof fn law_window_follows_streak<S>(
    prev: Relationship<S>,
    next: Relationship<S>,
    action: Action,
    round: usize,
    threshold: usize,
    trust_after: S,
)
    requires
        next.followed_action(prev, action, round, threshold, trust_after),
    ensures
        action == Action::Defect ==> !next.in_forgiveness_window && next.consecutive_cooperations == 0
            && next.consecutive_defections == prev.consecutive_defections + 1,
        action == Action::Cooperate ==> next.consecutive_defections == 0
            && next.consecutive_cooperations == prev.consecutive_cooperations + 1,
        action == Action::Cooperate && next.consecutive_cooperations >= threshold
            ==> next.in_forgiveness_window && next.last_forgiveness_round == Some(round),
        action == Action::Cooperate && next.consecutive_cooperations < threshold
            ==> next.in_forgiveness_window == prev.in_forgiveness_window
            && next.last_forgiveness_round == prev.last_forgiveness_round,
        action == Action::Defect ==> next.last_forgiveness_round == prev.last_forgiveness_round,
        next.spec_total_interactions() == prev.spec_total_interactions() + 1,
        next.total_cooperations == prev.total_cooperations + if action == Action::Cooperate {
            1int
        } else {
            0int
        },
        next.history@.len() == prev.history@.len() + 1,
        next.history@.drop_last() == prev.history@,
        next.history@.last().round == round,
        next.history@.last().action == action,
        next.history@.last().trust_before == prev.trust_score,
        next.history@.last().trust_after == next.trust_score,
        next.trust_score == trust_after,
{
    assert(next.history@.drop_last() =~= prev.history@);
}

/// A relationship that has just been created has the given trust, no interactions, no
/// streak and no window, so it does not count as forgiving.
pub proof fn law_fresh_relationship<S>(r: Relationship<S>, initial_trust: S)
    requires
        r.is_fresh(initial_trust),
    ensures
        r.trust_score == initial_trust,
        r.spec_total_interactions() == 0,
        r.history@.len() == 0,
        r.consecutive_cooperations == 0 && r.consecutive_defections == 0,
        !r.in_forgiveness_window,
        r.last_forgiveness_round is None,
        !spec_is_forgiving_strategy(r),
        r.wf(),
{
}

/// The count of `true` flags starts at zero and grows by one for each `true` flag appended
/// and by nothing for each `false` one.
pub proof fn law_count_true_push(flags: Seq<bool>, b: bool)
    ensures
        count_true(Seq::<bool>::empty()) == 0,
        count_true(flags.push(b)) == count_true(flags) + if b {
            1nat
        } else {
            0nat
        },
{
    assert(flags.push(b).drop_last() =~= flags);
}

/// The count of cooperations starts at zero and grows by one for each cooperation
/// appended and by nothing for each defection.
pub proof fn law_count_cooperations_push<S>(history: Seq<Interaction<S>>, it: Interaction<S>)
    ensures
        count_cooperations(Seq::<Interaction<S>>::empty()) == 0,
        count_cooperations(history.push(it)) == count_cooperations(history) + if it.action
            == Action::Cooperate {
            1nat
        } else {
            0nat
        },
{
    assert(history.push(it).drop_last() =~= history);
}

/// The enhanced cooperation bonus that `plan_action` picks is exactly the one for a
/// cooperation whose recorded streak reaches the forgiveness threshold while forgiveness
/// is enabled.
pub proof fn law_enhanced_bonus_iff_threshold<S: Copy>(
    e: ForgivenessEngine<S>,
    next: Relationship<S>,
    idx: int,
    action: Action,
    trust_after: S,
)
    requires
        0 <= idx < e.spec_relationships().len(),
        next.followed_action(
            e.spec_relationships()[idx],
            action,
            e.spec_current_round(),
            e.spec_config().forgiveness_threshold,
            trust_after,
        ),
    ensures
        (spec_adjustment(
            e.spec_config().enabled,
            e.spec_config().forgiveness_threshold,
            e.spec_relationships()[idx].consecutive_cooperations,
            action,
        ) == TrustAdjustment::EnhancedBonus) <==> (action == Action::Cooperate
            && e.spec_config().enabled && next.consecutive_cooperations
            >= e.spec_config().forgiveness_threshold),
        (spec_adjustment(
            e.spec_config().enabled,
            e.spec_config().forgiveness_threshold,
            e.spec_relationships()[idx].consecutive_cooperations,
            action,
        ) == TrustAdjustment::EnhancedBonus) ==> next.in_forgiveness_window,
{
}

/// A repair ends a defection spiral: the defection streak is over, the cooperation streak
/// restarts at one and the relationship is forgiving from the current round on.
pub proof fn law_repair_restarts<S>(prev: Relationship<S>, next: Relationship<S>, round: usize, trust_after: S)
    requires
        next.followed_repair(prev, round, trust_after),
    ensures
        next.trust_score == trust_after,
        next.consecutive_defections == 0,
        next.consecutive_cooperations == 1,
        next.in_forgiveness_window,
        next.last_forgiveness_round == Some(round),
        next.history@ == prev.history@,
{
}

/// With forgiveness disabled, no relationship gets passive forgiveness.
pub proof fn law_disabled_never_forgives<S: Copy>(e: ForgivenessEngine<S>, below_max: Seq<bool>)
    requires
        !e.spec_config().enabled,
    ensures
        forall|i: int|
            0 <= i < below_max.len() ==> #[trigger] e.spec_forgiveness_plan(below_max)[i] is None,
{
}

/// A relationship at the maximum trust gets no passive forgiveness; one below it gets some
/// whenever forgiveness is enabled.
pub proof fn law_forgiveness_only_below_max<S: Copy>(e: ForgivenessEngine<S>, below_max: Seq<bool>, i: int)
    requires
        0 <= i < below_max.len(),
    ensures
        (e.spec_forgiveness_plan(below_max)[i] is Some) == (e.spec_config().enabled && below_max[i]),
{
}

/// Forgiveness is synchronized to the RPS cycle: a relationship in a forgiveness window
/// gets the doubled rate exactly in rounds on a cycle boundary, the full rate otherwise;
/// one outside any window gets half the rate whatever the round.
pub proof fn law_cycle_boundary_doubles<S: Copy>(e: ForgivenessEngine<S>, below_max: Seq<bool>, i: int)
    requires
        0 <= i < below_max.len(),
        e.spec_config().enabled,
        below_max[i],
    ensures
        spec_in_window(e.spec_relationships()[i]) ==> (e.spec_forgiveness_plan(below_max)[i] == Some(
            ForgivenessRate::Doubled,
        )) == (e.spec_current_round() % e.spec_rps_cycle_length() == 0),
        spec_in_window(e.spec_relationships()[i]) ==> e.spec_forgiveness_plan(below_max)[i] != Some(
            ForgivenessRate::Half,
        ),
        !spec_in_window(e.spec_relationships()[i]) ==> e.spec_forgiveness_plan(below_max)[i] == Some(
            ForgivenessRate::Half,
        ),
{
}

/// The number of forgiving relationships is at most the number of relationships.
pub proof fn law_forgiving_count_bounded<S>(rels: Seq<Relationship<S>>)
    ensures
        count_forgiving(rels) <= rels.len(),
    decreases rels.len(),
{
    if rels.len() > 0 {
        law_forgiving_count_bounded(rels.drop_last());
    }
}

/// Recoverable fragments are among the scores, and an embedded erasure code needs more than
/// half of the scores recoverable, at least three scores and every chunk mean close.
pub proof fn law_embedding_needs_majority(close: Seq<bool>, chunk_close: Seq<bool>, high_redundancy: bool)
    requires
        close.len() <= usize::MAX,
    ensures
        spec_verdict(close, chunk_close, high_redundancy).recoverable_fragments <= close.len(),
        spec_verdict(close, chunk_close, high_redundancy).is_embedded ==> {
            &&& close.len() >= 3
            &&& high_redundancy
            &&& spec_verdict(close, chunk_close, high_redundancy).recoverable_fragments > close.len() / 2
            &&& forall|k: int| 0 <= k < chunk_close.len() ==> #[trigger] chunk_close[k]
        },
{
    lemma_count_true_bounded(close);
}

/// The forgiveness window setting takes no part in any decision: two engines that differ
/// only in it plan the same passive forgiveness (the adjustments of `plan_action` read
/// only `enabled` and `forgiveness_threshold` of the configuration).
pub proof fn law_window_setting_inert<S: Copy>(
    e1: ForgivenessEngine<S>,
    e2: ForgivenessEngine<S>,
    below_max: Seq<bool>,
)
    requires
        e1.spec_relationships() == e2.spec_relationships(),
        e1.spec_current_round() == e2.spec_current_round(),
        e1.spec_rps_cycle_length() == e2.spec_rps_cycle_length(),
        e1.spec_config().enabled == e2.spec_config().enabled,
        e1.spec_config().forgiveness_threshold == e2.spec_config().forgiveness_threshold,
    ensures
        e1.spec_forgiveness_plan(below_max) == e2.spec_forgiveness_plan(below_max),
{
    assert(e1.spec_forgiveness_plan(below_max) =~= e2.spec_forgiveness_plan(below_max));
}

/// A defection is always penalized and nothing else is: whatever the streaks, the threshold
/// and whether forgiveness is enabled, the adjustment is the penalty exactly for a defection,
/// and a cooperation gets a bonus (enhanced or not).
pub proof fn law_defection_is_penalized(
    enabled: bool,
    threshold: usize,
    consecutive_cooperations: usize,
    action: Action,
)
    ensures
        spec_adjustment(enabled, threshold, consecutive_cooperations, Action::Defect)
            == TrustAdjustment::Penalty,
        (spec_adjustment(enabled, threshold, consecutive_cooperations, action)
            == TrustAdjustment::Penalty) == (action == Action::Defect),
        action == Action::Cooperate ==> (spec_adjustment(
            enabled,
            threshold,
            consecutive_cooperations,
            action,
        ) == TrustAdjustment::Bonus || spec_adjustment(
            enabled,
            threshold,
            consecutive_cooperations,
            action,
        ) == TrustAdjustment::EnhancedBonus),
        !enabled ==> spec_adjustment(enabled, threshold, consecutive_cooperations, Action::Cooperate)
            == TrustAdjustment::Bonus,
{
}

/// A relationship whose forgiveness window flag is set, or that has cooperated at least
/// twice in a row, is forgiven at the window's rate: doubled on a cycle boundary, full off
/// it, never the background half rate. Only a relationship with the flag cleared and a
/// streak below two gets half the rate.
pub proof fn law_window_flag_gets_window_rate<S: Copy>(
    e: ForgivenessEngine<S>,
    below_max: Seq<bool>,
    i: int,
)
    requires
        0 <= i < below_max.len(),
        e.spec_config().enabled,
        below_max[i],
    ensures
        e.spec_relationships()[i].in_forgiveness_window ==> e.spec_forgiveness_plan(below_max)[i]
            == Some(
            if e.spec_current_round() % e.spec_rps_cycle_length() == 0 {
                ForgivenessRate::Doubled
            } else {
                ForgivenessRate::Full
            },
        ),
        e.spec_relationships()[i].consecutive_cooperations >= 2 ==> e.spec_forgiveness_plan(
            below_max,
        )[i] != Some(ForgivenessRate::Half),
        e.spec_forgiveness_plan(below_max)[i] == Some(ForgivenessRate::Half) ==> (
        !e.spec_relationships()[i].in_forgiveness_window
            && e.spec_relationships()[i].consecutive_cooperations < 2),
{
}

/// A repaired relationship is in its forgiveness window: in any later round and with any
/// cycle length it gets the window's rate, never the background half rate.
pub proof fn law_repaired_gets_window_rate<S>(
    prev: Relationship<S>,
    next: Relationship<S>,
    round: usize,
    trust_after: S,
    later_round: usize,
    cycle: usize,
)
    requires
        next.followed_repair(prev, round, trust_after),
    ensures
        spec_forgiveness_rate(next, later_round, cycle) != ForgivenessRate::Half,
        spec_in_window(next),
{
}

/// With at least three scores, high redundancy, every chunk mean close and a strict
/// majority of the scores close to the mean, the scores embed an erasure code.
pub proof fn law_majority_suffices_for_embedding(
    close: Seq<bool>,
    chunk_close: Seq<bool>,
    high_redundancy: bool,
)
    requires
        close.len() <= usize::MAX,
        close.len() >= 3,
        high_redundancy,
        count_true(close) > close.len() / 2,
        forall|k: int| 0 <= k < chunk_close.len() ==> #[trigger] chunk_close[k],
    ensures
        spec_verdict(close, chunk_close, high_redundancy).is_embedded,
        spec_verdict(close, chunk_close, high_redundancy).recoverable_fragments == count_true(close),
{
    lemma_count_true_bounded(close);
}

/// A relationship counts as forgiving exactly when it is in a forgiveness window or on a
/// cooperation streak; a recorded past window does not count.
pub proof fn law_forgiving_means_window_or_streak<S>(r: Relationship<S>)
    ensures
        r.in_forgiveness_window ==> spec_is_forgiving_strategy(r),
        r.consecutive_cooperations > 0 ==> spec_is_forgiving_strategy(r),
        !r.in_forgiveness_window && r.consecutive_cooperations == 0 ==> !spec_is_forgiving_strategy(r),
{
}

/// Right after a defection a relationship is not forgiving, right after a cooperation or a
/// repair it is.
pub proof fn law_forgiving_after_operations<S>(
    prev: Relationship<S>,
    next: Relationship<S>,
    action: Action,
    round: usize,
    threshold: usize,
    trust_after: S,
)
    ensures
        next.followed_action(prev, action, round, threshold, trust_after) ==> (
        spec_is_forgiving_strategy(next) == (action == Action::Cooperate)),
        next.followed_repair(prev, round, trust_after) ==> spec_is_forgiving_strategy(next),
{
}

/// Adding a relationship adds one to the number of forgiving relationships exactly when
/// it is forgiving; relationships that are neither in a window nor on a cooperation
/// streak add nothing.
pub proof fn law_forgiving_count_push<S>(rels: Seq<Relationship<S>>, r: Relationship<S>)
    ensures
        count_forgiving(rels.push(r)) == count_forgiving(rels) + if r.in_forgiveness_window
            || r.consecutive_cooperations > 0 {
            1nat
        } else {
            0nat
        },
{
    assert(rels.push(r).drop_last() =~= rels);
}

/// No relationship is forgiving when none is in a window or on a cooperation streak.
pub proof fn law_forgiving_count_zero<S>(rels: Seq<Relationship<S>>)
    requires
        forall|i: int|
            0 <= i < rels.len() ==> !(#[trigger] rels[i]).in_forgiveness_window
                && rels[i].consecutive_cooperations == 0,
    ensures
        count_forgiving(rels) == 0,
    decreases rels.len(),
{
    if rels.len() > 0 {
        let front = rels.drop_last();
        assert forall|i: int| 0 <= i < front.len() implies !(#[trigger] front[i]).in_forgiveness_window
            && front[i].consecutive_cooperations == 0 by {
            assert(front[i] == rels[i]);
        }
        law_forgiving_count_zero(front);
        assert(rels.last() == rels[rels.len() - 1]);
    }
}

} // verus!
