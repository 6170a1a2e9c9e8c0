//! A validator's private keys, by the address they spend from, and the key
//! rotation that follows a change of the anchoring address.
use vstd::prelude::*;
use crate::config::AnchoringConfig;
use crate::network::str_equals;
use crate::script::address_of;
use crate::state::{script_of, AnchoringState};

verus! {

/// A secp256k1 private key.
#[derive(Clone, Copy, Debug)]
pub struct PrivateKey {
    pub bytes: [u8; 32],
}

/// One private key and the address it spends from.
#[derive(Clone, Debug)]
pub struct KeyEntry {
    pub address: String,
    pub key: PrivateKey,
}

/// The key held for `address`: that of the latest entry for it.
pub open spec fn lookup_in(entries: Seq<KeyEntry>, address: Seq<char>) -> Option<PrivateKey>
    decreases entries.len(),
{
    if entries.len() == 0 {
        None
    } else if entries.last().address@ == address {
        Some(entries.last().key)
    } else {
        lookup_in(entries.drop_last(), address)
    }
}

/// The private keys one validator holds, by address; a later entry for an
/// address replaces an earlier one.
pub struct KeyRing {
    pub entries: Vec<KeyEntry>,
}

impl KeyRing {
    /// A ring with no keys.
    pub fn new() -> (r: KeyRing)
        ensures
            r.entries@.len() == 0,
    {
        KeyRing { entries: Vec::new() }
    }

    /// The key held for `address`.
    pub fn lookup(&self, address: &str) -> (r: Option<PrivateKey>)
        ensures
            r == lookup_in(self.entries@, address@),
    {
        let mut n: usize = self.entries.len();
        assert(self.entries@.take(n as int) =~= self.entries@);
        while n > 0
            invariant
                n <= self.entries.len(),
                lookup_in(self.entries@, address@) == lookup_in(self.entries@.take(n as int), address@),
            decreases n,
        {
            let entry = &self.entries[n - 1];
            proof {
                let t = self.entries@.take(n as int);
                assert(t.last() == self.entries@[n - 1]);
                assert(t.drop_last() =~= self.entries@.take(n - 1));
            }
            if str_equals(entry.address.as_str(), address) {
                return Some(entry.key);
            }
            n = n - 1;
        }
        None
    }

    /// Holds `key` for `address`, replacing any key held for it before.
    pub fn insert(&mut self, address: String, key: PrivateKey)
        ensures
            final(self).entries@.len() == old(self).entries@.len() + 1,
            lookup_in(final(self).entries@, address@) == Some(key),
            forall|a: Seq<char>|
                a != address@ ==> lookup_in(final(self).entries@, a) == lookup_in(
                    old(self).entries@,
                    a,
                ),
    {
        let ghost before = self.entries@;
        self.entries.push(KeyEntry { address, key });
        proof {
            assert(self.entries@.drop_last() =~= before);
        }
    }
}

/// After a change of configuration, makes the key that spends from the
/// address of the funds also spend from the address they move to. Outside a
/// transition, or when the two addresses agree, the ring is left as it is.
/// Returns whether a key was added.
pub fn renew_address(ring: &mut KeyRing, epochs: &Vec<AnchoringConfig>, state: AnchoringState) -> (r:
    bool)
    requires
        crate::state::log_is_valid(epochs@),
        match state {
            AnchoringState::Actual { configuration } => configuration < epochs.len(),
            AnchoringState::Transition { actual_configuration, following_configuration } =>
                actual_configuration < epochs.len() && following_configuration < epochs.len(),
        },
    ensures
        !r ==> final(ring).entries@ == old(ring).entries@,
        r <==> (state matches AnchoringState::Transition { actual_configuration: a, following_configuration: f }
            && address_of(script_of(epochs@[a as int]), epochs@[a as int].network) != address_of(
            script_of(epochs@[f as int]),
            epochs@[f as int].network,
        ) && lookup_in(
            old(ring).entries@,
            address_of(script_of(epochs@[a as int]), epochs@[a as int].network),
        ) is Some),
        r ==> ({
            let a = state->actual_configuration;
            let f = state->following_configuration;
            let old_address = address_of(script_of(epochs@[a as int]), epochs@[a as int].network);
            let new_address = address_of(script_of(epochs@[f as int]), epochs@[f as int].network);
            &&& lookup_in(final(ring).entries@, new_address) == lookup_in(
                old(ring).entries@,
                old_address,
            )
            &&& forall|x: Seq<char>|
                x != new_address ==> lookup_in(final(ring).entries@, x) == lookup_in(
                    old(ring).entries@,
                    x,
                )
        }),
{
    match state {
        AnchoringState::Actual { .. } => false,
        AnchoringState::Transition { actual_configuration, following_configuration } => {
            let old_config = &epochs[actual_configuration];
            let new_config = &epochs[following_configuration];
            let old_address = match old_config.redeem_script() {
                Ok(p) => p.1,
                Err(_) => {
                    return false;
                },
            };
            let new_address = match new_config.redeem_script() {
                Ok(p) => p.1,
                Err(_) => {
                    return false;
                },
            };
            if str_equals(old_address.as_str(), new_address.as_str()) {
                return false;
            }
            match ring.lookup(old_address.as_str()) {
                Some(key) => {
                    ring.insert(new_address, key);
                    true
                },
                None => false,
            }
        },
    }
}

} // verus!
