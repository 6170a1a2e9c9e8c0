//! Key and address derivation: the m-of-n redeem script over the validators'
//! public keys, and the witness-script address that pays to it.
use vstd::prelude::*;
use crate::network::Network;

verus! {

/// A compressed secp256k1 public key, as the 33 bytes that the redeem script
/// pushes.
#[derive(Clone, Copy, Debug)]
pub struct PublicKey {
    pub bytes: [u8; 33],
}

/// Failure to derive a redeem script.
#[derive(Clone, Copy, Debug, PartialEq, Eq, Structural)]
pub enum DerivationError {
    /// No public key was supplied.
    EmptyKeySet,
    /// The threshold is zero or exceeds the number of keys.
    InvalidThreshold,
}

/// Opcode that checks an m-of-n multisignature.
pub const OP_CHECKMULTISIG: u8 = 0xae;

/// The byte sequence of each key.
pub open spec fn key_bytes(keys: Seq<PublicKey>) -> Seq<Seq<u8>> {
    keys.map_values(|k: PublicKey| k.bytes@)
}

/// The script push of a small positive number: `OP_1` .. `OP_16`, else the
/// minimal little-endian script number.
pub open spec fn push_num(n: nat) -> Seq<u8> {
    if 1 <= n <= 16 {
        seq![(0x50 + n) as u8]
    } else if n < 128 {
        seq![1u8, n as u8]
    } else {
        seq![2u8, n as u8, 0u8]
    }
}

/// The pushes of all keys, in order, each one a length byte and the key.
pub open spec fn keys_part(keys: Seq<Seq<u8>>) -> Seq<u8>
    decreases keys.len(),
{
    if keys.len() == 0 {
        Seq::empty()
    } else {
        keys_part(keys.drop_last()) + (seq![keys.last().len() as u8] + keys.last())
    }
}

/// The redeem script `<m> <key_1> .. <key_n> <n> OP_CHECKMULTISIG`.
pub open spec fn multisig_script(keys: Seq<Seq<u8>>, quorum: nat) -> Seq<u8> {
    push_num(quorum) + keys_part(keys) + push_num(keys.len()) + seq![OP_CHECKMULTISIG]
}

/// Every key is 33 bytes long.
pub open spec fn all_compressed(keys: Seq<Seq<u8>>) -> bool {
    forall|i: int| 0 <= i < keys.len() ==> (#[trigger] keys[i]).len() == 33
}

/// The derivation succeeds exactly on a non-empty key set and a threshold in
/// `1..=n`.
pub open spec fn derivation_result(keys: Seq<PublicKey>, quorum: nat) -> Result<
    Seq<u8>,
    DerivationError,
> {
    if keys.len() == 0 {
        Err(DerivationError::EmptyKeySet)
    } else if quorum == 0 || quorum > keys.len() {
        Err(DerivationError::InvalidThreshold)
    } else {
        Ok(multisig_script(key_bytes(keys), quorum))
    }
}

/// The bech32 text of the pay-to-witness-script-hash address of `script`,
/// on testnet or on the main network.
pub uninterp spec fn p2wsh_address_of(script: Seq<u8>, testnet: bool) -> Seq<char>;

/// Relies on `bitcoin::Address::p2wsh` and its `Display`: the text of the
/// witness-script address that pays to `script` on `network`.
#[verifier::external_body]
fn p2wsh_address(script: &Vec<u8>, network: Network) -> (r: String)
    ensures
        r@ == p2wsh_address_of(script@, network == Network::Testnet),
{
    let network = match network {
        Network::Bitcoin => bitcoin::Network::Bitcoin,
        Network::Testnet => bitcoin::Network::Testnet,
    };
    let script = bitcoin::ScriptBuf::from_bytes(script.clone());
    bitcoin::Address::p2wsh(&script, network).to_string()
}

/// The address that pays to the redeem script `script`.
pub open spec fn address_of(script: Seq<u8>, network: Network) -> Seq<char> {
    p2wsh_address_of(script, network == Network::Testnet)
}

fn push_num_exec(out: &mut Vec<u8>, n: usize)
    requires
        1 <= n <= 255,
    ensures
        final(out)@ == old(out)@ + push_num(n as nat),
{
    if n <= 16 {
        out.push((0x50 + n) as u8);
    } else if n < 128 {
        out.push(1u8);
        out.push(n as u8);
    } else {
        out.push(2u8);
        out.push(n as u8);
        out.push(0u8);
    }
    assert(final(out)@ =~= old(out)@ + push_num(n as nat));
}

/// Builds the m-of-n redeem script over `keys` in the given order.
pub fn redeem_script_from_pubkeys(keys: &Vec<PublicKey>, quorum: usize) -> (r: Result<
    Vec<u8>,
    DerivationError,
>)
    requires
        keys.len() <= 255,
    ensures
        r matches Ok(s) ==> derivation_result(keys@, quorum as nat) == Ok::<
            Seq<u8>,
            DerivationError,
        >(s@),
        r matches Err(e) ==> derivation_result(keys@, quorum as nat) == Err::<
            Seq<u8>,
            DerivationError,
        >(e),
{
    if keys.len() == 0 {
        return Err(DerivationError::EmptyKeySet);
    }
    if quorum == 0 || quorum > keys.len() {
        return Err(DerivationError::InvalidThreshold);
    }
    let ghost kb = key_bytes(keys@);
    let mut out: Vec<u8> = Vec::new();
    push_num_exec(&mut out, quorum);
    let ghost head = out@;
    let mut i: usize = 0;
    while i < keys.len()
        invariant
            kb == key_bytes(keys@),
            i <= keys.len(),
            out@ == head + keys_part(kb.take(i as int)),
        decreases keys.len() - i,
    {
        let key = &keys[i];
        out.push(33u8);
        let mut j: usize = 0;
        let ghost before = out@;
        while j < 33
            invariant
                j <= 33,
                out@ == before + key.bytes@.take(j as int),
            decreases 33 - j,
        {
            out.push(key.bytes[j]);
            j = j + 1;
            assert(out@ =~= before + key.bytes@.take(j as int));
        }
        proof {
            assert(key.bytes@.take(33) =~= key.bytes@);
            assert(kb.take(i + 1).drop_last() =~= kb.take(i as int));
            assert(kb[i as int] == key.bytes@);
        }
        i = i + 1;
    }
    proof {
        assert(kb.take(keys.len() as int) =~= kb);
    }
    push_num_exec(&mut out, keys.len());
    out.push(OP_CHECKMULTISIG);
    assert(out@ =~= multisig_script(kb, quorum as nat));
    Ok(out)
}

/// The redeem script over `keys` and its address, as one pair.
pub fn derive_address(keys: &Vec<PublicKey>, quorum: usize, network: Network) -> (r: Result<
    (Vec<u8>, String),
    DerivationError,
>)
    requires
        keys.len() <= 255,
    ensures
        r matches Ok(p) ==> derivation_result(keys@, quorum as nat) == Ok::<
            Seq<u8>,
            DerivationError,
        >(p.0@) && p.1@ == address_of(p.0@, network),
        r matches Err(e) ==> derivation_result(keys@, quorum as nat) == Err::<
            Seq<u8>,
            DerivationError,
        >(e),
{
    match redeem_script_from_pubkeys(keys, quorum) {
        Ok(script) => {
            let address = p2wsh_address(&script, network);
            Ok((script, address))
        },
        Err(e) => Err(e),
    }
}

proof fn lemma_keys_part_len(keys: Seq<Seq<u8>>)
    requires
        all_compressed(keys),
    ensures
        keys_part(keys).len() == 34 * keys.len(),
    decreases keys.len(),
{
    if keys.len() > 0 {
        assert(keys.last() == keys[keys.len() - 1]);
        lemma_keys_part_len(keys.drop_last());
    }
}

proof fn lemma_keys_part_index(keys: Seq<Seq<u8>>, i: int, j: int)
    requires
        all_compressed(keys),
        0 <= i < keys.len(),
        0 <= j < 33,
    ensures
        keys_part(keys).len() == 34 * keys.len(),
        keys_part(keys)[34 * i + 1 + j] == keys[i][j],
    decreases keys.len(),
{
    lemma_keys_part_len(keys);
    let init = keys.drop_last();
    assert(keys.last() == keys[keys.len() - 1]);
    lemma_keys_part_len(init);
    if i < keys.len() - 1 {
        assert(init[i] == keys[i]);
        lemma_keys_part_index(init, i, j);
    } else {
        let tail = seq![keys.last().len() as u8] + keys.last();
        assert(keys_part(keys) == keys_part(init) + tail);
        assert(keys_part(keys)[34 * i + 1 + j] == tail[1 + j]);
    }
}

/// Two key sequences of equal length that differ in some key give different
/// redeem scripts under the same threshold.
pub proof fn lemma_script_injective(keys1: Seq<Seq<u8>>, keys2: Seq<Seq<u8>>, quorum: nat)
    requires
        all_compressed(keys1),
        all_compressed(keys2),
        keys1.len() == keys2.len(),
        keys1 != keys2,
    ensures
        multisig_script(keys1, quorum) != multisig_script(keys2, quorum),
{
    assert(!(keys1 =~= keys2));
    let i = choose|i: int| 0 <= i < keys1.len() && keys1[i] != keys2[i];
    assert(!(keys1[i] =~= keys2[i]));
    let j = choose|j: int| 0 <= j < 33 && keys1[i][j] != keys2[i][j];
    lemma_keys_part_index(keys1, i, j);
    lemma_keys_part_index(keys2, i, j);
    let p = push_num(quorum);
    let k = p.len() + 34 * i + 1 + j;
    assert(multisig_script(keys1, quorum)[k] == keys_part(keys1)[34 * i + 1 + j]);
    assert(multisig_script(keys2, quorum)[k] == keys_part(keys2)[34 * i + 1 + j]);
}

} // verus!
