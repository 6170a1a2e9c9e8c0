//! The anchoring service as the host ledger knows it: its identifier, its
//! name and the configuration it was started with.
use vstd::prelude::*;
use crate::config::AnchoringConfig;

verus! {

/// Anchoring service id.
pub const BTC_ANCHORING_SERVICE_ID: u16 = 3;

/// The anchoring service.
pub struct BtcAnchoringService {
    /// The configuration seeded into the ledger at genesis.
    pub global_config: AnchoringConfig,
}

impl BtcAnchoringService {
    /// A service that seeds `global_config` at genesis.
    pub fn new(global_config: AnchoringConfig) -> (r: BtcAnchoringService)
        ensures
            r.global_config == global_config,
    {
        BtcAnchoringService { global_config }
    }

    /// Identifier of the service in the host ledger.
    pub fn service_id(&self) -> (r: u16)
        ensures
            r == BTC_ANCHORING_SERVICE_ID,
    {
        BTC_ANCHORING_SERVICE_ID
    }

    /// Name of the service in the host ledger.
    pub fn service_name(&self) -> (r: &'static str)
        ensures
            r@ == "btc_anchoring"@,
    {
        "btc_anchoring"
    }
}

} // verus!
