//! Which ledger height must be anchored next, decided identically by every
//! validator from the current height and what the ledger already holds.
use vstd::prelude::*;
use crate::config::{latest_anchoring_height_of, AnchoringConfig};

verus! {

/// What a validator does about anchoring at the current block.
#[derive(Clone, Copy, Debug, PartialEq, Eq, Structural)]
pub enum ScheduleDecision {
    /// The latest anchoring point is already anchored.
    Idle,
    /// A proposal for this anchored height already exists: sign it, make no
    /// other.
    AwaitExisting { height: u64 },
    /// A new proposal for this anchored height is due.
    Propose { height: u64 },
}

/// The decision at `height` with anchoring interval `frequency`, when the
/// chain last anchored `last_anchored` and a proposal for `pending` exists.
pub open spec fn schedule_of(
    frequency: nat,
    height: nat,
    last_anchored: Option<u64>,
    pending: Option<u64>,
) -> ScheduleDecision {
    let target = latest_anchoring_height_of(height, frequency);
    if last_anchored matches Some(a) && a >= target {
        ScheduleDecision::Idle
    } else if pending matches Some(p) && p >= target {
        ScheduleDecision::AwaitExisting { height: pending->Some_0 }
    } else {
        ScheduleDecision::Propose { height: target as u64 }
    }
}

/// Decides what to do about anchoring at `height`, given the height the
/// chain last anchored (`None` for an empty chain) and the anchored height of
/// the proposal already in the ledger, if any.
pub fn schedule(
    config: &AnchoringConfig,
    height: u64,
    last_anchored: Option<u64>,
    pending: Option<u64>,
) -> (r: ScheduleDecision)
    requires
        config.frequency > 0,
    ensures
        r == schedule_of(config.frequency as nat, height as nat, last_anchored, pending),
        r matches ScheduleDecision::Propose { height: t } ==> t % config.frequency == 0 && t
            <= height,
{
    let target = config.latest_anchoring_height(height);
    match last_anchored {
        Some(a) => {
            if a >= target {
                return ScheduleDecision::Idle;
            }
        },
        None => {},
    }
    match pending {
        Some(p) => {
            if p >= target {
                return ScheduleDecision::AwaitExisting { height: p };
            }
        },
        None => {},
    }
    ScheduleDecision::Propose { height: target }
}

/// Once a proposal for the due height has been recorded, asking again at
/// the same height observes it instead of producing a second proposal.
pub proof fn lemma_schedule_idempotent(
    frequency: u64,
    height: u64,
    last_anchored: Option<u64>,
    pending: Option<u64>,
)
    requires
        frequency > 0,
        schedule_of(frequency as nat, height as nat, last_anchored, pending) is Propose,
    ensures
        ({
            let t = schedule_of(frequency as nat, height as nat, last_anchored, pending)->Propose_height;
            schedule_of(frequency as nat, height as nat, last_anchored, Some(t))
                == ScheduleDecision::AwaitExisting { height: t }
        }),
{
    let target = latest_anchoring_height_of(height as nat, frequency as nat);
    assert(target <= height) by {
        vstd::arithmetic::div_mod::lemma_mod_bound(height as int, frequency as int);
        vstd::arithmetic::div_mod::lemma_fundamental_div_mod(height as int, frequency as int);
        assert(0 <= height as int % frequency as int);
    }
}

} // verus!
