//! The anchoring configuration of one epoch: validator keys, funding
//! transaction, fee, anchoring interval, confirmations and network.
use vstd::prelude::*;
use crate::network::Network;
use crate::script::{
    address_of, all_compressed, derivation_result, derive_address, key_bytes,
    lemma_script_injective, DerivationError, PublicKey,
};

verus! {

/// Fee, in satoshis, of each transaction of the chain unless configured.
pub const DEFAULT_FEE: u64 = 1000;

/// Number of ledger heights between anchoring points unless configured.
pub const DEFAULT_FREQUENCY: u64 = 500;

/// Confirmations required on a spendable output unless configured.
pub const DEFAULT_UTXO_CONFIRMATIONS: u64 = 5;

/// Largest number of validators whose majority fits the one-byte count.
pub const MAX_VALIDATORS: usize = 255;

/// The output of an outside Bitcoin transaction that seeds the first
/// anchoring transaction of a fresh chain.
#[derive(Clone, Copy, Debug)]
pub struct FundingTx {
    /// Identifier of the funding transaction.
    pub txid: [u8; 32],
    /// Index of the output that pays to the anchoring address.
    pub output_index: u32,
    /// Amount of that output, in satoshis.
    pub value: u64,
}

/// A configuration that cannot be accepted, or an operation that needs data
/// the configuration does not have.
#[derive(Clone, Copy, Debug, PartialEq, Eq, Structural)]
pub enum ConfigError {
    /// No funding transaction is configured.
    MissingFundingTransaction,
    /// The validator set is empty.
    EmptyValidatorSet,
    /// More validators than a one-byte count holds.
    TooManyValidators,
    /// The anchoring interval is zero.
    ZeroFrequency,
}

/// Public part of the anchoring configuration, one per configuration epoch.
#[derive(Clone, Debug)]
pub struct AnchoringConfig {
    /// Validators' public keys, in the order the redeem script lists them.
    pub validators: Vec<PublicKey>,
    /// The transaction that funds the first anchoring transaction of a chain.
    pub funding_tx: Option<FundingTx>,
    /// Fee of each transaction in the chain.
    pub fee: u64,
    /// Number of ledger heights between anchoring points.
    pub frequency: u64,
    /// Confirmations needed on an output before it is spent or the address
    /// changes.
    pub utxo_confirmations: u64,
    /// The Bitcoin network.
    pub network: Network,
}

/// The BFT supermajority of `n` validators.
pub open spec fn majority_of(n: nat) -> nat {
    2 * n / 3 + 1
}

/// The largest multiple of `frequency` not above `height`.
pub open spec fn latest_anchoring_height_of(height: nat, frequency: nat) -> nat
    recommends
        frequency > 0,
{
    (height - height % frequency) as nat
}

impl AnchoringConfig {
    /// A configuration that may be accepted: validators present and within the
    /// one-byte count, and a positive anchoring interval.
    pub open spec fn is_valid(&self) -> bool {
        &&& 1 <= self.validators.len() <= MAX_VALIDATORS
        &&& self.frequency > 0
    }

    /// The threshold of this configuration.
    pub open spec fn spec_majority(&self) -> nat {
        majority_of(self.validators.len() as nat)
    }

    /// The redeem script of this configuration, if it can be derived.
    pub open spec fn spec_script(&self) -> Result<Seq<u8>, DerivationError> {
        derivation_result(self.validators@, self.spec_majority())
    }

    /// The default policy: no funding transaction, and the default fee,
    /// anchoring interval and confirmations.
    pub open spec fn is_default_policy(&self) -> bool {
        &&& self.funding_tx is None
        &&& self.fee == DEFAULT_FEE
        &&& self.frequency == DEFAULT_FREQUENCY
        &&& self.utxo_confirmations == DEFAULT_UTXO_CONFIRMATIONS
    }

    /// A bootstrap configuration with one validator and no funding
    /// transaction, for the key exchange before the network launches.
    pub fn new(network: Network, public_key: PublicKey) -> (r: AnchoringConfig)
        ensures
            r.validators@ == seq![public_key],
            r.network == network,
            r.is_default_policy(),
    {
        let mut validators: Vec<PublicKey> = Vec::new();
        validators.push(public_key);
        AnchoringConfig {
            validators,
            funding_tx: None,
            fee: DEFAULT_FEE,
            frequency: DEFAULT_FREQUENCY,
            utxo_confirmations: DEFAULT_UTXO_CONFIRMATIONS,
            network,
        }
    }

    /// A ready-to-anchor configuration over `validators`, funded by `tx`.
    pub fn new_with_funding_tx(network: Network, validators: Vec<PublicKey>, tx: FundingTx) -> (r:
        AnchoringConfig)
        ensures
            r.validators@ == validators@,
            r.network == network,
            r.funding_tx == Some(tx),
            r.fee == DEFAULT_FEE,
            r.frequency == DEFAULT_FREQUENCY,
            r.utxo_confirmations == DEFAULT_UTXO_CONFIRMATIONS,
    {
        AnchoringConfig {
            validators,
            funding_tx: Some(tx),
            fee: DEFAULT_FEE,
            frequency: DEFAULT_FREQUENCY,
            utxo_confirmations: DEFAULT_UTXO_CONFIRMATIONS,
            network,
        }
    }

    /// Checks the configuration before it is accepted.
    pub fn validate(&self) -> (r: Result<(), ConfigError>)
        ensures
            r is Ok <==> self.is_valid(),
            r == Err::<(), ConfigError>(ConfigError::EmptyValidatorSet) <==> self.validators.len()
                == 0,
            r == Err::<(), ConfigError>(ConfigError::TooManyValidators) <==> self.validators.len()
                > MAX_VALIDATORS,
            r == Err::<(), ConfigError>(ConfigError::ZeroFrequency) <==> (1
                <= self.validators.len() <= MAX_VALIDATORS && self.frequency == 0),
    {
        if self.validators.len() == 0 {
            Err(ConfigError::EmptyValidatorSet)
        } else if self.validators.len() > MAX_VALIDATORS {
            Err(ConfigError::TooManyValidators)
        } else if self.frequency == 0 {
            Err(ConfigError::ZeroFrequency)
        } else {
            Ok(())
        }
    }

    /// The number of signatures needed to spend from this configuration's
    /// address: `floor(2n/3) + 1` for `n` validators.
    pub fn majority_count(&self) -> (r: u8)
        requires
            self.validators.len() <= MAX_VALIDATORS,
        ensures
            r == self.spec_majority(),
            self.validators.len() >= 1 ==> 1 <= r <= self.validators.len(),
    {
        let n = self.validators.len();
        (2 * n / 3 + 1) as u8
    }

    /// The latest height not above `height` that is a multiple of the
    /// anchoring interval.
    pub fn latest_anchoring_height(&self, height: u64) -> (r: u64)
        requires
            self.frequency > 0,
        ensures
            r == latest_anchoring_height_of(height as nat, self.frequency as nat),
            r % self.frequency == 0,
            r <= height,
            height - r < self.frequency,
    {
        let rem = height % self.frequency;
        proof {
            let f = self.frequency as int;
            let h = height as int;
            vstd::arithmetic::div_mod::lemma_fundamental_div_mod(h, f);
            vstd::arithmetic::div_mod::lemma_mod_multiples_basic(h / f, f);
            assert(0 <= h / f) by (nonlinear_arith)
                requires
                    h >= 0,
                    f > 0,
            ;
            assert(0 <= f * (h / f)) by (nonlinear_arith)
                requires
                    h / f >= 0,
                    f > 0,
            ;
            assert((h / f) * f == f * (h / f)) by (nonlinear_arith);
        }
        let r = height - rem;
        r
    }

    /// The funding transaction; its absence is a deployment error.
    pub fn funding_tx(&self) -> (r: Result<&FundingTx, ConfigError>)
        ensures
            r matches Ok(t) ==> self.funding_tx == Some(*t),
            r is Err <==> self.funding_tx is None,
            r is Err ==> r == Err::<&FundingTx, ConfigError>(
                ConfigError::MissingFundingTransaction,
            ),
    {
        match &self.funding_tx {
            Some(tx) => Ok(tx),
            None => Err(ConfigError::MissingFundingTransaction),
        }
    }

    /// The redeem script over this configuration's validators and majority,
    /// bound to its address.
    pub fn redeem_script(&self) -> (r: Result<(Vec<u8>, String), DerivationError>)
        requires
            self.validators.len() <= MAX_VALIDATORS,
        ensures
            r matches Ok(p) ==> self.spec_script() == Ok::<Seq<u8>, DerivationError>(p.0@)
                && p.1@ == address_of(p.0@, self.network),
            r matches Err(e) ==> self.spec_script() == Err::<Seq<u8>, DerivationError>(e),
            self.is_valid() ==> r is Ok,
    {
        let m = self.majority_count();
        derive_address(&self.validators, m as usize, self.network)
    }
}

/// Derivation depends on the validators, their order and the network alone:
/// two configurations that agree on them derive the same redeem script and
/// address, and replacing validator keys, with the count kept, changes the
/// redeem script.
pub proof fn lemma_derivation_deterministic(c1: AnchoringConfig, c2: AnchoringConfig)
    requires
        c1.is_valid(),
        c2.is_valid(),
    ensures
        key_bytes(c1.validators@) == key_bytes(c2.validators@) && c1.network == c2.network
            ==> c1.spec_script() == c2.spec_script() && address_of(c1.spec_script()->Ok_0, c1.network)
            == address_of(c2.spec_script()->Ok_0, c2.network),
        c1.validators.len() == c2.validators.len() && key_bytes(c1.validators@) != key_bytes(
            c2.validators@,
        ) ==> c1.spec_script() != c2.spec_script(),
{
    let k1 = key_bytes(c1.validators@);
    let k2 = key_bytes(c2.validators@);
    assert(all_compressed(k1));
    assert(all_compressed(k2));
    if c1.validators.len() == c2.validators.len() && k1 != k2 {
        lemma_script_injective(k1, k2, c1.spec_majority());
    }
}

impl Default for AnchoringConfig {
    /// The default policy with no validators.
    fn default() -> (r: AnchoringConfig)
        ensures
            r.validators@.len() == 0,
            r.network == Network::Testnet,
            r.is_default_policy(),
    {
        AnchoringConfig {
            validators: Vec::new(),
            funding_tx: None,
            fee: DEFAULT_FEE,
            frequency: DEFAULT_FREQUENCY,
            utxo_confirmations: DEFAULT_UTXO_CONFIRMATIONS,
            network: Network::Testnet,
        }
    }
}

} // verus!
