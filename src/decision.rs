//! Latency compensation and the decision taken at the end of each cycle.
use vstd::prelude::*;

use crate::models::{AppConfig, ModelResponse};

verus! {

/// What the watch loop does once a cycle's response is in.
#[derive(Debug, Clone, Copy, PartialEq, Eq, Structural)]
pub enum CycleAction {
    /// Start the next cycle right away, without sleeping or notifying.
    Reanalyze,
    /// Notify now that the countdown ended before the answer came, then go on.
    NotifyOvertime,
    /// Sleep for this many milliseconds, notify, then go on.
    SleepThenNotify(u64),
}

/// The remaining time once the time spent waiting for the model is taken off.
pub open spec fn compensated(reported_ms: int, elapsed_ms: int) -> int {
    reported_ms - elapsed_ms
}

/// The action owed for a cycle, from the relevance flag, the compensated
/// estimate (if any), the threshold above which estimates are spurious and the
/// overtime flag.
pub open spec fn action_for(relevant: bool, estimate: Option<int>, threshold: int, overtime: bool) -> CycleAction {
    if !relevant {
        CycleAction::Reanalyze
    } else {
        match estimate {
            None => CycleAction::Reanalyze,
            Some(e) => if e > threshold {
                CycleAction::Reanalyze
            } else if e <= 0 {
                if overtime {
                    CycleAction::NotifyOvertime
                } else {
                    CycleAction::Reanalyze
                }
            } else {
                CycleAction::SleepThenNotify(e as u64)
            },
        }
    }
}

/// The estimate as a mathematical integer, if there is one.
pub open spec fn estimate_view(estimate: Option<i128>) -> Option<int> {
    match estimate {
        Some(e) => Some(e as int),
        None => None,
    }
}

/// Subtracts the measured latency from the reported remaining time, exactly:
/// no clamping, no rounding, and the result may be negative.
pub fn compensate_latency(reported_ms: Option<i64>, elapsed_ms: u64) -> (r: Option<i128>)
    ensures
        r.is_some() == reported_ms.is_some(),
        reported_ms matches Some(t) ==> r->0 == compensated(t as int, elapsed_ms as int),
{
    match reported_ms {
        Some(t) => Some(t as i128 - elapsed_ms as i128),
        None => None,
    }
}

/// Decides what the loop does with a cycle's response and its compensated estimate.
pub fn decide_cycle(response: &ModelResponse, estimate: Option<i128>, config: &AppConfig) -> (r: CycleAction)
    ensures
        r == action_for(
            response.images_are_relevant,
            estimate_view(estimate),
            config.ignore_if_time_remaining_higher_than_ms as int,
            config.send_notification_overtime,
        ),
{
    if !response.images_are_relevant {
        return CycleAction::Reanalyze;
    }
    match estimate {
        None => CycleAction::Reanalyze,
        Some(e) => {
            if e > config.ignore_if_time_remaining_higher_than_ms as i128 {
                CycleAction::Reanalyze
            } else if e <= 0 {
                if config.send_notification_overtime {
                    CycleAction::NotifyOvertime
                } else {
                    CycleAction::Reanalyze
                }
            } else {
                CycleAction::SleepThenNotify(e as u64)
            }
        },
    }
}

impl CycleAction {
    /// The text of the notification this action sends, if it sends one.
    pub fn notification_message(&self) -> (r: Option<&'static str>)
        ensures
            r.is_some() == !(*self is Reanalyze),
            *self is NotifyOvertime ==> r == Some(
                "The workout element has ended, which the model didn't process on time.",
            ),
            *self is SleepThenNotify ==> r == Some("The workout element has ended."),
    {
        match self {
            CycleAction::Reanalyze => None,
            CycleAction::NotifyOvertime => Some(
                "The workout element has ended, which the model didn't process on time.",
            ),
            CycleAction::SleepThenNotify(_) => Some("The workout element has ended."),
        }
    }
}

/// An estimate above the threshold is spurious: no sleep and no notification,
/// the next cycle starts at once.
pub proof fn lemma_above_threshold_reanalyzes(relevant: bool, estimate: int, threshold: i64, overtime: bool)
    requires
        estimate > threshold,
    ensures
        action_for(relevant, Some(estimate), threshold as int, overtime) == CycleAction::Reanalyze,
{
}

/// A relevant estimate at or below zero (and within the threshold) never
/// sleeps, and notifies exactly when the overtime flag is set.
pub proof fn lemma_overtime_notifies_iff_flag(estimate: int, threshold: i64, overtime: bool)
    requires
        estimate <= 0,
        estimate <= threshold,
    ensures
        action_for(true, Some(estimate), threshold as int, overtime) is NotifyOvertime <==> overtime,
        !(action_for(true, Some(estimate), threshold as int, overtime) is SleepThenNotify),
{
}

/// A relevant estimate strictly between zero and the threshold (inclusive)
/// sleeps for exactly that long and then notifies, whatever the overtime flag.
pub proof fn lemma_in_range_sleeps_then_notifies(estimate: int, threshold: i64, overtime: bool)
    requires
        0 < estimate <= threshold,
    ensures
        action_for(true, Some(estimate), threshold as int, overtime) == CycleAction::SleepThenNotify(
            estimate as u64,
        ),
        action_for(true, Some(estimate), threshold as int, overtime)->0 == estimate,
{
}

/// Frames judged irrelevant never lead to a sleep or a notification, whatever
/// remaining time came with them.
pub proof fn lemma_irrelevant_is_ignored(estimate: Option<int>, threshold: i64, overtime: bool)
    ensures
        action_for(false, estimate, threshold as int, overtime) == CycleAction::Reanalyze,
{
}

} // verus!
