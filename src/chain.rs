//! The builder of the next unsigned anchoring transaction: it spends the
//! chain's tip (or the funding transaction of an empty chain) into the
//! multisig address that the anchoring state names, less the fee, and
//! commits to the ledger state hash at the anchored height.
use vstd::prelude::*;
use crate::config::{latest_anchoring_height_of, AnchoringConfig};
use crate::state::{
    actual_state, bytes_equal, config_script, lemma_holder_below_is_below, log_is_valid,
    script_of, state_of, AnchoringState,
};

verus! {

/// Number of inputs of every anchoring transaction: it spends one output.
pub const PROPOSAL_INPUTS: usize = 1;

/// The sole multisig output of the last transaction of the chain.
#[derive(Clone, Debug)]
pub struct ChainOutput {
    /// Identifier of the transaction that holds the output.
    pub txid: [u8; 32],
    /// Index of the output in that transaction.
    pub output_index: u32,
    /// Amount of the output, in satoshis.
    pub value: u64,
    /// Redeem script of the address the output pays.
    pub script: Vec<u8>,
    /// Ledger height that the transaction anchors.
    pub anchored_height: u64,
}

/// An unsigned anchoring transaction awaiting validator signatures.
#[derive(Clone, Debug)]
pub struct Proposal {
    /// Identifier of the transaction whose output is spent.
    pub prev_txid: [u8; 32],
    /// Index of the spent output.
    pub prev_output_index: u32,
    /// Redeem script of the address the spent output pays; the inputs are
    /// signed against it.
    pub input_script: Vec<u8>,
    /// Redeem script of the address the new output pays.
    pub output_script: Vec<u8>,
    /// Amount of the spent output; the inputs are signed over it.
    pub input_value: u64,
    /// Amount of the new output: the spent amount less the fee.
    pub output_value: u64,
    /// Ledger height that the transaction anchors.
    pub anchored_height: u64,
    /// Ledger state hash at that height.
    pub state_hash: [u8; 32],
}

/// Why no proposal can be built yet.
#[derive(Clone, Copy, Debug, PartialEq, Eq, Structural)]
pub enum BuildError {
    /// The chain is empty and no funding transaction is configured.
    NoFundingTransaction,
    /// The output to spend has fewer confirmations than required.
    InsufficientConfirmations,
    /// The output to spend does not cover the fee.
    InsufficientFunds,
    /// The chain's tip pays a script that no configuration derives.
    UnknownOutputScript,
}

impl Proposal {
    /// Whether two proposals describe the same transaction.
    pub open spec fn same_as(&self, other: &Proposal) -> bool {
        &&& self.prev_txid@ == other.prev_txid@
        &&& self.prev_output_index == other.prev_output_index
        &&& self.input_script@ == other.input_script@
        &&& self.output_script@ == other.output_script@
        &&& self.input_value == other.input_value
        &&& self.output_value == other.output_value
        &&& self.anchored_height == other.anchored_height
        &&& self.state_hash@ == other.state_hash@
    }
}

pub(crate) fn copy_bytes(v: &Vec<u8>) -> (r: Vec<u8>)
    ensures
        r@ == v@,
{
    let mut r: Vec<u8> = Vec::new();
    let mut i: usize = 0;
    while i < v.len()
        invariant
            i <= v.len(),
            r@ == v@.take(i as int),
        decreases v.len() - i,
    {
        r.push(v[i]);
        i = i + 1;
        assert(r@ =~= v@.take(i as int));
    }
    assert(v@.take(v.len() as int) =~= v@);
    r
}

fn hashes_equal(a: &[u8; 32], b: &[u8; 32]) -> (r: bool)
    ensures
        r == (a@ == b@),
{
    let mut i: usize = 0;
    while i < 32
        invariant
            i <= 32,
            a@.len() == 32,
            b@.len() == 32,
            forall|j: int| 0 <= j < i ==> a@[j] == b@[j],
        decreases 32 - i,
    {
        if a[i] != b[i] {
            return false;
        }
        i = i + 1;
    }
    assert(a@ =~= b@);
    true
}

impl Proposal {
    /// A copy of this proposal.
    pub fn duplicate(&self) -> (r: Proposal)
        ensures
            r.same_as(self),
    {
        Proposal {
            prev_txid: self.prev_txid,
            prev_output_index: self.prev_output_index,
            input_script: copy_bytes(&self.input_script),
            output_script: copy_bytes(&self.output_script),
            input_value: self.input_value,
            output_value: self.output_value,
            anchored_height: self.anchored_height,
            state_hash: self.state_hash,
        }
    }

    /// Whether two proposals describe the same transaction.
    pub fn same_transaction(&self, other: &Proposal) -> (r: bool)
        ensures
            r == self.same_as(other),
    {
        hashes_equal(&self.prev_txid, &other.prev_txid) && self.prev_output_index
            == other.prev_output_index && bytes_equal(&self.input_script, &other.input_script)
            && bytes_equal(&self.output_script, &other.output_script) && self.input_value
            == other.input_value && self.output_value == other.output_value && self.anchored_height == other.anchored_height
            && hashes_equal(&self.state_hash, &other.state_hash)
    }
}

/// The script an optional chain tip pays, as a sequence.
pub open spec fn tip_script(tip: Option<&ChainOutput>) -> Option<Seq<u8>> {
    match tip {
        Some(t) => Some(t.script@),
        None => None,
    }
}

/// Whether the spendable output is missing: an empty chain without a
/// funding transaction in the latest configuration.
pub open spec fn lacks_funding(epochs: Seq<AnchoringConfig>, tip: Option<&ChainOutput>) -> bool {
    tip is None && epochs.last().funding_tx is None
}

/// The amount of the output to spend, where it exists.
pub open spec fn spendable_value(epochs: Seq<AnchoringConfig>, tip: Option<&ChainOutput>) -> u64 {
    match tip {
        Some(t) => t.value,
        None => epochs.last().funding_tx->Some_0.value,
    }
}

/// Whether a proposal is the one that every honest validator builds from
/// this ledger snapshot: it spends the tip (or the funding output), pays the
/// script of the configuration the state names, less the latest fee, and
/// anchors the latest anchoring height with the given state hash.
pub open spec fn is_next_proposal(
    p: Proposal,
    epochs: Seq<AnchoringConfig>,
    tip: Option<&ChainOutput>,
    state: AnchoringState,
    height: u64,
    state_hash: [u8; 32],
) -> bool {
    let latest = epochs.last();
    let output_index = match state {
        AnchoringState::Actual { configuration } => configuration,
        AnchoringState::Transition { following_configuration, .. } => following_configuration,
    };
    let input_index = match state {
        AnchoringState::Actual { configuration } => configuration,
        AnchoringState::Transition { actual_configuration, .. } => actual_configuration,
    };
    &&& p.output_script@ == script_of(epochs[output_index as int])
    &&& p.input_script@ == script_of(epochs[input_index as int])
    &&& p.input_value == spendable_value(epochs, tip)
    &&& p.output_value == spendable_value(epochs, tip) - latest.fee
    &&& p.anchored_height == latest_anchoring_height_of(height as nat, latest.frequency as nat)
    &&& p.state_hash@ == state_hash@
    &&& match tip {
        Some(t) => p.prev_txid@ == t.txid@ && p.prev_output_index == t.output_index,
        None => p.prev_txid@ == latest.funding_tx->Some_0.txid@ && p.prev_output_index
            == latest.funding_tx->Some_0.output_index,
    }
}

/// Builds the next unsigned anchoring transaction from the log of
/// configuration epochs, the chain's tip (`None` for an empty chain), the
/// confirmations of the output to spend, the current ledger height and the
/// ledger state hash at the height to anchor.
pub fn build_proposal(
    epochs: &Vec<AnchoringConfig>,
    tip: Option<&ChainOutput>,
    confirmations: u64,
    height: u64,
    state_hash: [u8; 32],
) -> (r: Result<Proposal, BuildError>)
    requires
        log_is_valid(epochs@),
    ensures
        state_of(epochs@, tip_script(tip)) is Err ==> r == Err::<Proposal, BuildError>(
            BuildError::UnknownOutputScript,
        ),
        state_of(epochs@, tip_script(tip)) is Ok && lacks_funding(epochs@, tip) ==> r == Err::<
            Proposal,
            BuildError,
        >(BuildError::NoFundingTransaction),
        state_of(epochs@, tip_script(tip)) is Ok && !lacks_funding(epochs@, tip) && confirmations
            < epochs@.last().utxo_confirmations ==> r == Err::<Proposal, BuildError>(
            BuildError::InsufficientConfirmations,
        ),
        state_of(epochs@, tip_script(tip)) is Ok && !lacks_funding(epochs@, tip) && confirmations
            >= epochs@.last().utxo_confirmations && spendable_value(epochs@, tip)
            < epochs@.last().fee ==> r == Err::<Proposal, BuildError>(
            BuildError::InsufficientFunds,
        ),
        r is Ok <==> (state_of(epochs@, tip_script(tip)) is Ok && !lacks_funding(epochs@, tip)
            && confirmations >= epochs@.last().utxo_confirmations && spendable_value(epochs@, tip)
            >= epochs@.last().fee),
        r matches Ok(p) ==> is_next_proposal(
            p,
            epochs@,
            tip,
            state_of(epochs@, tip_script(tip))->Ok_0,
            height,
            state_hash,
        ),
{
    let paid: Option<&Vec<u8>> = match tip {
        Some(t) => Some(&t.script),
        None => None,
    };
    let state = match actual_state(epochs, paid) {
        Ok(s) => s,
        Err(_) => {
            return Err(BuildError::UnknownOutputScript);
        },
    };
    let last = epochs.len() - 1;
    let latest = &epochs[last];
    let (prev_txid, prev_output_index, value) = match tip {
        Some(t) => (t.txid, t.output_index, t.value),
        None => match latest.funding_tx {
            Some(f) => (f.txid, f.output_index, f.value),
            None => {
                return Err(BuildError::NoFundingTransaction);
            },
        },
    };
    if confirmations < latest.utxo_confirmations {
        return Err(BuildError::InsufficientConfirmations);
    }
    if value < latest.fee {
        return Err(BuildError::InsufficientFunds);
    }
    proof {
        lemma_state_indices_in_log(epochs@, tip_script(tip));
    }
    let input_script = config_script(&epochs[state.actual_configuration()]);
    let output_script = config_script(&epochs[state.output_configuration()]);
    let anchored_height = latest.latest_anchoring_height(height);
    Ok(
        Proposal {
            prev_txid,
            prev_output_index,
            input_script,
            output_script,
            input_value: value,
            output_value: value - latest.fee,
            anchored_height,
            state_hash,
        },
    )
}

/// The configurations that a state names lie in the log.
proof fn lemma_state_indices_in_log(epochs: Seq<AnchoringConfig>, paid: Option<Seq<u8>>)
    requires
        log_is_valid(epochs),
    ensures
        state_of(epochs, paid) matches Ok(s) ==> match s {
            AnchoringState::Actual { configuration } => configuration < epochs.len(),
            AnchoringState::Transition { actual_configuration, following_configuration } =>
                actual_configuration < epochs.len() && following_configuration < epochs.len(),
        },
{
    if let Some(p) = paid {
        lemma_holder_below_is_below(epochs, p, epochs.len() - 1);
    }
}

} // verus!
