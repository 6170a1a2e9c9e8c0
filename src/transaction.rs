//! The raw Bitcoin encoding of an unsigned anchoring transaction: one input
//! that spends the previous output, one witness-script output that pays the
//! multisig address, and one data output that commits to the anchored height
//! and the ledger state hash.
use vstd::prelude::*;
use crate::chain::{ChainOutput, Proposal};

verus! {

/// Version of the encoded transactions.
pub const TX_VERSION: u32 = 2;

/// Sequence number of the sole input.
pub const INPUT_SEQUENCE: u32 = 0xffff_ffff;

/// `OP_RETURN`, which starts the data output.
pub const OP_RETURN: u8 = 0x6a;

/// Length of the committed data: the anchored height and the state hash.
pub const PAYLOAD_LEN: u8 = 40;

/// The SHA-256 digest of `data`.
pub uninterp spec fn sha256_of(data: Seq<u8>) -> Seq<u8>;

/// Relies on `bitcoin::hashes::sha256::Hash::hash`: the 32-byte SHA-256
/// digest of `data`, as the witness program of a script address uses it.
#[verifier::external_body]
fn sha256(data: &Vec<u8>) -> (r: [u8; 32])
    ensures
        r@ == sha256_of(data@),
{
    let digest = <bitcoin::hashes::sha256::Hash as bitcoin::hashes::Hash>::hash(data.as_slice());
    bitcoin::hashes::Hash::to_byte_array(digest)
}

/// Little-endian bytes of a 32-bit number.
pub open spec fn le32(x: u32) -> Seq<u8> {
    seq![
        (x % 256) as u8,
        (x / 256 % 256) as u8,
        (x / 65536 % 256) as u8,
        (x / 16777216 % 256) as u8,
    ]
}

/// Little-endian bytes of a 64-bit number.
pub open spec fn le64(x: u64) -> Seq<u8> {
    le32((x % 4294967296) as u32) + le32((x / 4294967296) as u32)
}

/// The output script that pays the witness-script address of `script`.
pub open spec fn p2wsh_script_pubkey(script: Seq<u8>) -> Seq<u8> {
    seq![0u8, 32u8] + sha256_of(script)
}

/// The data output's script: `OP_RETURN` and a push of the anchored height
/// and the ledger state hash.
pub open spec fn payload_script(height: u64, state_hash: Seq<u8>) -> Seq<u8> {
    seq![OP_RETURN, PAYLOAD_LEN] + le64(height) + state_hash
}

/// The inputs and outputs of a proposal's transaction.
pub open spec fn tx_body_of(p: Proposal) -> Seq<u8> {
    seq![1u8] + p.prev_txid@ + le32(p.prev_output_index) + seq![0u8] + le32(INPUT_SEQUENCE)
        + seq![2u8] + le64(p.output_value) + seq![34u8] + p2wsh_script_pubkey(p.output_script@)
        + le64(0) + seq![42u8] + payload_script(p.anchored_height, p.state_hash@)
}

/// The unsigned transaction of a proposal.
pub open spec fn raw_transaction_of(p: Proposal) -> Seq<u8> {
    le32(TX_VERSION) + tx_body_of(p) + le32(0)
}

/// Bitcoin's variable-length encoding of a count.
pub open spec fn varint(n: nat) -> Seq<u8> {
    if n < 0xfd {
        seq![n as u8]
    } else if n <= 0xffff {
        seq![0xfdu8, (n % 256) as u8, (n / 256 % 256) as u8]
    } else if n <= 0xffff_ffff {
        seq![0xfeu8] + le32(n as u32)
    } else {
        seq![0xffu8] + le64(n as u64)
    }
}

/// Witness items, each one its length and its bytes.
pub open spec fn witness_items(items: Seq<Seq<u8>>) -> Seq<u8>
    decreases items.len(),
{
    if items.len() == 0 {
        Seq::empty()
    } else {
        witness_items(items.drop_last()) + varint(items.last().len()) + items.last()
    }
}

/// The witness of the sole input: the empty item that `OP_CHECKMULTISIG`
/// consumes, the signatures in order, and the redeem script.
pub open spec fn witness_of(signatures: Seq<Seq<u8>>, script: Seq<u8>) -> Seq<u8> {
    varint(signatures.len() + 2) + seq![0u8] + witness_items(signatures) + varint(script.len())
        + script
}

/// The signed transaction of a proposal with the given input signatures.
pub open spec fn signed_transaction_of(p: Proposal, signatures: Seq<Seq<u8>>) -> Seq<u8> {
    le32(TX_VERSION) + seq![0u8, 1u8] + tx_body_of(p) + witness_of(signatures, p.input_script@)
        + le32(0)
}

/// The byte sequence of each signature.
pub open spec fn signature_bytes(signatures: Seq<Vec<u8>>) -> Seq<Seq<u8>> {
    signatures.map_values(|s: Vec<u8>| s@)
}

/// The double SHA-256 digest of `data`.
pub uninterp spec fn sha256d_of(data: Seq<u8>) -> Seq<u8>;

/// Relies on `bitcoin::hashes::sha256d::Hash::hash`: the double SHA-256 of
/// `data`, which identifies a transaction by its encoding without witness.
#[verifier::external_body]
fn sha256d(data: &Vec<u8>) -> (r: [u8; 32])
    ensures
        r@ == sha256d_of(data@),
{
    let digest = <bitcoin::hashes::sha256d::Hash as bitcoin::hashes::Hash>::hash(data.as_slice());
    bitcoin::hashes::Hash::to_byte_array(digest)
}

fn push_le32(out: &mut Vec<u8>, x: u32)
    ensures
        final(out)@ == old(out)@ + le32(x),
{
    out.push((x % 256) as u8);
    out.push((x / 256 % 256) as u8);
    out.push((x / 65536 % 256) as u8);
    out.push((x / 16777216 % 256) as u8);
    assert(final(out)@ =~= old(out)@ + le32(x));
}

fn push_le64(out: &mut Vec<u8>, x: u64)
    ensures
        final(out)@ == old(out)@ + le64(x),
{
    push_le32(out, (x % 4294967296) as u32);
    push_le32(out, (x / 4294967296) as u32);
    assert(final(out)@ =~= old(out)@ + le64(x));
}

fn push_hash(out: &mut Vec<u8>, h: &[u8; 32])
    ensures
        final(out)@ == old(out)@ + h@,
{
    let ghost start = out@;
    let mut i: usize = 0;
    while i < 32
        invariant
            i <= 32,
            h@.len() == 32,
            out@ == start + h@.take(i as int),
        decreases 32 - i,
    {
        out.push(h[i]);
        i = i + 1;
        assert(out@ =~= start + h@.take(i as int));
    }
    assert(h@.take(32) =~= h@);
}

fn push_varint(out: &mut Vec<u8>, n: usize)
    ensures
        final(out)@ == old(out)@ + varint(n as nat),
{
    if n < 0xfd {
        out.push(n as u8);
    } else if n <= 0xffff {
        out.push(0xfdu8);
        out.push((n % 256) as u8);
        out.push((n / 256 % 256) as u8);
    } else if n <= 0xffff_ffff {
        out.push(0xfeu8);
        push_le32(out, n as u32);
    } else {
        out.push(0xffu8);
        push_le64(out, n as u64);
    }
    assert(final(out)@ =~= old(out)@ + varint(n as nat));
}

fn push_bytes(out: &mut Vec<u8>, b: &Vec<u8>)
    ensures
        final(out)@ == old(out)@ + b@,
{
    let ghost start = out@;
    let mut i: usize = 0;
    while i < b.len()
        invariant
            i <= b.len(),
            out@ == start + b@.take(i as int),
        decreases b.len() - i,
    {
        out.push(b[i]);
        i = i + 1;
        assert(out@ =~= start + b@.take(i as int));
    }
    assert(b@.take(b.len() as int) =~= b@);
}

fn push_body(out: &mut Vec<u8>, p: &Proposal)
    ensures
        final(out)@ == old(out)@ + tx_body_of(*p),
{
    let ghost start = out@;
    out.push(1u8);
    push_hash(out, &p.prev_txid);
    push_le32(out, p.prev_output_index);
    out.push(0u8);
    push_le32(out, INPUT_SEQUENCE);
    out.push(2u8);
    push_le64(out, p.output_value);
    out.push(34u8);
    out.push(0u8);
    out.push(32u8);
    let digest = sha256(&p.output_script);
    push_hash(out, &digest);
    push_le64(out, 0);
    out.push(42u8);
    out.push(OP_RETURN);
    out.push(PAYLOAD_LEN);
    push_le64(out, p.anchored_height);
    push_hash(out, &p.state_hash);
    assert(out@ =~= start + tx_body_of(*p));
}

impl Proposal {
    /// The unsigned transaction of this proposal in Bitcoin's encoding.
    pub fn raw_transaction(&self) -> (r: Vec<u8>)
        ensures
            r@ == raw_transaction_of(*self),
    {
        let mut out: Vec<u8> = Vec::new();
        push_le32(&mut out, TX_VERSION);
        push_body(&mut out, self);
        push_le32(&mut out, 0);
        assert(out@ =~= raw_transaction_of(*self));
        out
    }

    /// The identifier of this proposal's transaction once it is signed: the
    /// double SHA-256 of its encoding without witness.
    pub fn txid(&self) -> (r: [u8; 32])
        ensures
            r@ == sha256d_of(raw_transaction_of(*self)),
    {
        let raw = self.raw_transaction();
        sha256d(&raw)
    }

    /// The new tip of the chain once this proposal's transaction is signed:
    /// its multisig output.
    pub fn chain_output(&self) -> (r: ChainOutput)
        ensures
            r.txid@ == sha256d_of(raw_transaction_of(*self)),
            r.output_index == 0,
            r.value == self.output_value,
            r.script@ == self.output_script@,
            r.anchored_height == self.anchored_height,
    {
        let mut script: Vec<u8> = Vec::new();
        push_bytes(&mut script, &self.output_script);
        assert(script@ =~= self.output_script@);
        ChainOutput {
            txid: self.txid(),
            output_index: 0,
            value: self.output_value,
            script,
            anchored_height: self.anchored_height,
        }
    }

    /// The transaction of this proposal with the witness of its sole input:
    /// the given signatures, in order, and the redeem script it spends.
    pub fn signed_transaction(&self, signatures: &Vec<Vec<u8>>) -> (r: Vec<u8>)
        requires
            signatures.len() + 2 <= usize::MAX,
        ensures
            r@ == signed_transaction_of(*self, signature_bytes(signatures@)),
    {
        let ghost sigs = signature_bytes(signatures@);
        let mut out: Vec<u8> = Vec::new();
        push_le32(&mut out, TX_VERSION);
        out.push(0u8);
        out.push(1u8);
        push_body(&mut out, self);
        push_varint(&mut out, signatures.len() + 2);
        out.push(0u8);
        let ghost head = out@;
        let mut k: usize = 0;
        while k < signatures.len()
            invariant
                k <= signatures.len(),
                sigs == signature_bytes(signatures@),
                out@ == head + witness_items(sigs.take(k as int)),
            decreases signatures.len() - k,
        {
            let sig = &signatures[k];
            push_varint(&mut out, sig.len());
            push_bytes(&mut out, sig);
            proof {
                assert(sigs.take(k + 1).drop_last() =~= sigs.take(k as int));
                assert(sigs[k as int] == sig@);
            }
            k = k + 1;
        }
        proof {
            assert(sigs.take(signatures.len() as int) =~= sigs);
        }
        push_varint(&mut out, self.input_script.len());
        push_bytes(&mut out, &self.input_script);
        push_le32(&mut out, 0);
        assert(out@ =~= signed_transaction_of(*self, sigs));
        out
    }
}

} // verus!
