//! A validator's signature on an input of a proposal: the segwit signature
//! hash of the input under the redeem script it spends, signed with the
//! validator's private key.
use vstd::prelude::*;
use crate::chain::Proposal;
use crate::keys::PrivateKey;
use crate::transaction::raw_transaction_of;

verus! {

/// Failure to sign an input.
#[derive(Clone, Copy, Debug, PartialEq, Eq, Structural)]
pub enum SigningError {
    /// The proposal has no such input, or the key is not a valid secret.
    SigningFailed,
}

/// The segwit (version 0) signature hash, for `SIGHASH_ALL`, of input
/// `input` of the transaction `raw_tx` that spends `value` satoshis locked by
/// the witness script `script`.
pub uninterp spec fn segwit_sighash_of(raw_tx: Seq<u8>, input: nat, script: Seq<u8>, value: u64) -> Seq<u8>;

/// The DER-encoded ECDSA signature of `digest` under `secret`, with the
/// `SIGHASH_ALL` byte appended.
pub uninterp spec fn ecdsa_signature_of(digest: Seq<u8>, secret: Seq<u8>) -> Seq<u8>;

/// The order of the secp256k1 group.
pub open spec fn secp256k1_order() -> nat {
    0xFFFFFFFFFFFFFFFFFFFFFFFFFFFFFFFEBAAEDCE6AF48A03BBFD25E8CD0364141nat
}

/// The big-endian value of a byte string.
pub open spec fn be_value(bytes: Seq<u8>) -> nat
    decreases bytes.len(),
{
    if bytes.len() == 0 {
        0
    } else {
        be_value(bytes.drop_last()) * 256 + bytes.last() as nat
    }
}

/// Whether 32 bytes are a valid secp256k1 secret key: a big-endian number
/// from 1 to below the group order.
pub open spec fn is_secret_key(bytes: Seq<u8>) -> bool {
    &&& bytes.len() == 32
    &&& 1 <= be_value(bytes) < secp256k1_order()
}

/// Relies on `bitcoin::sighash::SighashCache::p2wsh_signature_hash`, on the
/// transaction that `bitcoin::consensus::encode::deserialize` reads from
/// `raw_tx`: the signature hash of that input. `None` when the bytes are no
/// transaction or the input does not exist; the encoding of a proposal,
/// which has one input, always reads back.
#[verifier::external_body]
fn segwit_sighash(raw_tx: &Vec<u8>, input: usize, script: &Vec<u8>, value: u64) -> (r: Option<[u8; 32]>)
    ensures
        r matches Some(h) ==> h@ == segwit_sighash_of(raw_tx@, input as nat, script@, value),
        (exists|p: Proposal| raw_tx@ == #[trigger] raw_transaction_of(p)) && input == 0 ==> r is Some,
{
    let tx: bitcoin::Transaction = bitcoin::consensus::encode::deserialize(raw_tx).ok()?;
    let script = bitcoin::ScriptBuf::from_bytes(script.clone());
    let mut cache = bitcoin::sighash::SighashCache::new(&tx);
    let amount = bitcoin::Amount::from_sat(value);
    let all = bitcoin::EcdsaSighashType::All;
    let hash = cache.p2wsh_signature_hash(input, &script, amount, all).ok()?;
    Some(bitcoin::hashes::Hash::to_byte_array(hash))
}

/// Relies on `secp256k1::Secp256k1::sign_ecdsa`, whose nonce follows
/// RFC 6979 so that the signature depends on the digest and the key alone,
/// and on `bitcoin::ecdsa::Signature::to_vec` for the encoding. `None` when
/// `secret` is not a valid secret key; signing itself cannot fail.
#[verifier::external_body]
fn ecdsa_sign(digest: &[u8; 32], secret: &[u8; 32]) -> (r: Option<Vec<u8>>)
    ensures
        r matches Some(s) ==> s@ == ecdsa_signature_of(digest@, secret@),
        is_secret_key(secret@) ==> r is Some,
{
    let key = bitcoin::secp256k1::SecretKey::from_slice(secret).ok()?;
    let msg = bitcoin::secp256k1::Message::from_digest(*digest);
    let sig = bitcoin::secp256k1::Secp256k1::signing_only().sign_ecdsa(&msg, &key);
    Some(bitcoin::ecdsa::Signature::sighash_all(sig).to_vec())
}

/// The signature that `key` gives input `input` of proposal `p`.
pub open spec fn input_signature_of(p: Proposal, input: nat, key: PrivateKey) -> Seq<u8> {
    ecdsa_signature_of(
        segwit_sighash_of(raw_transaction_of(p), input, p.input_script@, p.input_value),
        key.bytes@,
    )
}

/// Signs input `input` of `proposal` with `key`, against the redeem script
/// the input spends. It succeeds on the sole input with a valid key.
pub fn sign_input(proposal: &Proposal, input: usize, key: &PrivateKey) -> (r: Result<
    Vec<u8>,
    SigningError,
>)
    ensures
        r matches Ok(s) ==> s@ == input_signature_of(*proposal, input as nat, *key),
        r is Err ==> r == Err::<Vec<u8>, SigningError>(SigningError::SigningFailed),
        input == 0 && is_secret_key(key.bytes@) ==> r is Ok,
{
    let raw = proposal.raw_transaction();
    assert(raw@ == raw_transaction_of(*proposal));
    let digest = match segwit_sighash(&raw, input, &proposal.input_script, proposal.input_value) {
        Some(d) => d,
        None => {
            return Err(SigningError::SigningFailed);
        },
    };
    match ecdsa_sign(&digest, &key.bytes) {
        Some(s) => Ok(s),
        None => Err(SigningError::SigningFailed),
    }
}

} // verus!
