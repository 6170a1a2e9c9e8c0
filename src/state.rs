//! Whether the anchoring is stable on one address or moving its funds from
//! one multisig address to another, as a projection of the log of
//! configuration epochs and of the script that the chain's tip pays to.
use vstd::prelude::*;
use crate::config::AnchoringConfig;
use crate::script::{key_bytes, multisig_script, redeem_script_from_pubkeys};

verus! {

/// The anchoring state, as indices into the log of configuration epochs.
#[derive(Clone, Copy, Debug, PartialEq, Eq, Structural)]
pub enum AnchoringState {
    /// The configuration in force holds the funds; no transition is pending.
    Actual { configuration: usize },
    /// A newer configuration was committed, and the funds still sit at the
    /// address of an earlier one.
    Transition { actual_configuration: usize, following_configuration: usize },
}

/// The chain's tip cannot be related to the log of configurations.
#[derive(Clone, Copy, Debug, PartialEq, Eq, Structural)]
pub enum StateError {
    /// The tip pays a script that no configuration of the log derives.
    UnknownOutputScript,
}

impl AnchoringState {
    /// The configuration whose address currently holds the funds.
    pub fn actual_configuration(&self) -> (r: usize)
        ensures
            r == match *self {
                AnchoringState::Actual { configuration } => configuration,
                AnchoringState::Transition { actual_configuration, .. } => actual_configuration,
            },
    {
        match *self {
            AnchoringState::Actual { configuration } => configuration,
            AnchoringState::Transition { actual_configuration, .. } => actual_configuration,
        }
    }

    /// The configuration whose address the next anchoring transaction pays.
    pub fn output_configuration(&self) -> (r: usize)
        ensures
            r == match *self {
                AnchoringState::Actual { configuration } => configuration,
                AnchoringState::Transition { following_configuration, .. } =>
                    following_configuration,
            },
    {
        match *self {
            AnchoringState::Actual { configuration } => configuration,
            AnchoringState::Transition { following_configuration, .. } => following_configuration,
        }
    }
}

/// The redeem script of a configuration.
pub open spec fn script_of(c: AnchoringConfig) -> Seq<u8> {
    multisig_script(key_bytes(c.validators@), c.spec_majority())
}

/// Every epoch of the log can be accepted, and there is at least one.
pub open spec fn log_is_valid(epochs: Seq<AnchoringConfig>) -> bool {
    &&& 1 <= epochs.len() <= usize::MAX
    &&& forall|i: int| 0 <= i < epochs.len() ==> (#[trigger] epochs[i]).is_valid()
}

/// The latest epoch below `n` whose script is `paid`.
pub open spec fn holder_below(epochs: Seq<AnchoringConfig>, paid: Seq<u8>, n: int) -> Option<int>
    decreases n,
{
    if n <= 0 {
        None
    } else if script_of(epochs[n - 1]) == paid {
        Some(n - 1)
    } else {
        holder_below(epochs, paid, n - 1)
    }
}

/// The state: stable on the latest epoch while the chain is empty or its tip
/// pays the latest epoch's script, else moving from the latest earlier epoch
/// that the tip pays.
pub open spec fn state_of(epochs: Seq<AnchoringConfig>, paid: Option<Seq<u8>>) -> Result<
    AnchoringState,
    StateError,
> {
    let last = epochs.len() - 1;
    match paid {
        None => Ok(AnchoringState::Actual { configuration: last as usize }),
        Some(p) => if p == script_of(epochs[last]) {
            Ok(AnchoringState::Actual { configuration: last as usize })
        } else {
            match holder_below(epochs, p, last) {
                Some(i) => Ok(
                    AnchoringState::Transition {
                        actual_configuration: i as usize,
                        following_configuration: last as usize,
                    },
                ),
                None => Err(StateError::UnknownOutputScript),
            }
        },
    }
}

/// The script that an optional chain tip pays, as a sequence.
pub open spec fn paid_view(paid: Option<&Vec<u8>>) -> Option<Seq<u8>> {
    match paid {
        Some(p) => Some(p@),
        None => None,
    }
}

/// Whether two byte strings are equal.
pub fn bytes_equal(a: &Vec<u8>, b: &Vec<u8>) -> (r: bool)
    ensures
        r == (a@ == b@),
{
    if a.len() != b.len() {
        return false;
    }
    let mut i: usize = 0;
    while i < a.len()
        invariant
            a.len() == b.len(),
            i <= a.len(),
            forall|j: int| 0 <= j < i ==> a@[j] == b@[j],
        decreases a.len() - i,
    {
        if a[i] != b[i] {
            return false;
        }
        i = i + 1;
    }
    assert(a@ =~= b@);
    true
}

/// The redeem script of a configuration that can be accepted.
pub fn config_script(c: &AnchoringConfig) -> (r: Vec<u8>)
    requires
        c.is_valid(),
    ensures
        r@ == script_of(*c),
{
    let m = c.majority_count();
    match redeem_script_from_pubkeys(&c.validators, m as usize) {
        Ok(s) => s,
        Err(_) => {
            // A valid configuration has keys and a majority within their count.
            proof {
                assert(false);
            }
            Vec::new()
        },
    }
}

/// The anchoring state of the log `epochs` when the chain's tip pays
/// `paid_script` (`None` for an empty chain).
pub fn actual_state(epochs: &Vec<AnchoringConfig>, paid_script: Option<&Vec<u8>>) -> (r: Result<
    AnchoringState,
    StateError,
>)
    requires
        log_is_valid(epochs@),
    ensures
        r == state_of(epochs@, paid_view(paid_script)),
{
    let last = epochs.len() - 1;
    let paid = match paid_script {
        None => {
            return Ok(AnchoringState::Actual { configuration: last });
        },
        Some(p) => p,
    };
    let latest = config_script(&epochs[last]);
    if bytes_equal(paid, &latest) {
        return Ok(AnchoringState::Actual { configuration: last });
    }
    let mut n: usize = last;
    while n > 0
        invariant
            log_is_valid(epochs@),
            last == epochs.len() - 1,
            n <= last,
            paid_view(paid_script) == Some(paid@),
            paid@ != script_of(epochs@[last as int]),
            holder_below(epochs@, paid@, last as int) == holder_below(epochs@, paid@, n as int),
        decreases n,
    {
        let s = config_script(&epochs[n - 1]);
        if bytes_equal(paid, &s) {
            assert(holder_below(epochs@, paid@, n as int) == Some((n - 1) as int));
            return Ok(
                AnchoringState::Transition { actual_configuration: n - 1, following_configuration: last },
            );
        }
        assert(holder_below(epochs@, paid@, n as int) == holder_below(
            epochs@,
            paid@,
            n - 1,
        ));
        n = n - 1;
    }
    Err(StateError::UnknownOutputScript)
}

/// The epoch found by `holder_below` lies below the bound and derives the
/// script searched for.
pub proof fn lemma_holder_below_is_below(epochs: Seq<AnchoringConfig>, paid: Seq<u8>, n: int)
    ensures
        holder_below(epochs, paid, n) matches Some(i) ==> 0 <= i < n && script_of(epochs[i])
            == paid,
    decreases n,
{
    if n > 0 {
        lemma_holder_below_is_below(epochs, paid, n - 1);
    }
}

/// A transition ends exactly when the chain's tip pays the following
/// configuration's script, and then the state is stable on that
/// configuration; while the tip pays any other script, no stable state is
/// reached.
pub proof fn lemma_transition_resolves(
    epochs: Seq<AnchoringConfig>,
    paid: Seq<u8>,
    later_paid: Seq<u8>,
)
    requires
        log_is_valid(epochs),
        state_of(epochs, Some(paid)) is Ok,
        state_of(epochs, Some(paid))->Ok_0 is Transition,
    ensures
        ({
            let following = state_of(epochs, Some(paid))->Ok_0->following_configuration;
            &&& following == epochs.len() - 1
            &&& (state_of(epochs, Some(later_paid)) matches Ok(AnchoringState::Actual { .. })
                <==> later_paid == script_of(epochs[following as int]))
            &&& state_of(epochs, Some(script_of(epochs[following as int]))) == Ok::<
                AnchoringState,
                StateError,
            >(AnchoringState::Actual { configuration: following })
        }),
{
    lemma_holder_below_is_below(epochs, paid, epochs.len() - 1);
}

} // verus!
