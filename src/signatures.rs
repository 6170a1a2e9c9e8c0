//! Collection of the validators' signatures on a proposal, and each
//! validator's own record of what it signed, which keeps it from signing two
//! different proposals for one anchored height.
use vstd::prelude::*;
use crate::chain::{copy_bytes, Proposal, PROPOSAL_INPUTS};
use crate::config::{majority_of, MAX_VALIDATORS};
use crate::keys::PrivateKey;
use crate::signing::{input_signature_of, is_secret_key, sign_input};
use crate::transaction::signed_transaction_of;

verus! {

/// A signature that is not counted towards the threshold.
#[derive(Clone, Copy, Debug, PartialEq, Eq, Structural)]
pub enum SignatureError {
    /// The signer is not a validator of the configuration.
    UnknownValidator,
    /// The proposal has no input with this index.
    UnknownInput,
    /// The validator already signed this input.
    DuplicateSignature,
    /// The signature is for another proposal than the one collected.
    UnknownProposal,
}

/// A signature broadcast by one validator for one input of one proposal.
pub struct SignatureRecord {
    /// Index of the signer among the validators.
    pub validator: usize,
    /// The proposal signed.
    pub proposal: Proposal,
    /// Index of the signed input.
    pub input: usize,
    /// The signature bytes.
    pub signature: Vec<u8>,
}

/// Refusal to sign a proposal.
#[derive(Clone, Copy, Debug, PartialEq, Eq, Structural)]
pub enum SignError {
    /// Another proposal for the same anchored height was signed already.
    DuplicateProposalSignature,
    /// The input could not be signed with the key.
    SigningFailed,
}

/// Number of validators `v < k` whose slot at `base + v` holds a signature.
pub open spec fn count_signed(slots: Seq<Option<Vec<u8>>>, base: int, k: int) -> nat
    decreases k,
{
    if k <= 0 {
        0
    } else {
        count_signed(slots, base, k - 1) + if slots[base + k - 1] is Some {
            1nat
        } else {
            0nat
        }
    }
}

/// The signatures gathered for one proposal: one slot per input and
/// validator, input-major.
pub struct SignatureCollection {
    /// The proposal whose signatures are collected.
    pub proposal: Proposal,
    /// Number of validators of the spending configuration.
    pub n_validators: usize,
    /// Number of inputs of the proposal.
    pub n_inputs: usize,
    /// Signatures needed on each input.
    pub majority: usize,
    /// Signature of validator `v` on input `i` at `i * n_validators + v`.
    pub slots: Vec<Option<Vec<u8>>>,
}

impl SignatureCollection {
    /// The slots match the proposal's inputs and the validators, who are no
    /// more than a configuration admits, and the threshold is their
    /// supermajority.
    pub open spec fn wf(&self) -> bool {
        &&& self.slots.len() == self.n_validators * self.n_inputs
        &&& self.n_inputs == PROPOSAL_INPUTS
        &&& 1 <= self.n_validators <= MAX_VALIDATORS
        &&& self.majority == majority_of(self.n_validators as nat)
        &&& 1 <= self.majority <= self.n_validators
    }

    /// Whether validator `v` signed input `i`.
    pub open spec fn signed(&self, i: int, v: int) -> bool {
        self.slots@[i * self.n_validators + v] is Some
    }

    /// Number of distinct validators that signed input `i`.
    pub open spec fn signer_count_of(&self, i: int) -> nat {
        count_signed(self.slots@, i * self.n_validators, self.n_validators as int)
    }

    /// Every input carries at least a majority of signatures.
    pub open spec fn spec_finalizable(&self) -> bool {
        forall|i: int| 0 <= i < self.n_inputs ==> #[trigger] self.signer_count_of(i) >= self.majority
    }

    /// Whether `s` lists the `majority` signers of `input` with the lowest
    /// indices, in increasing order.
    pub open spec fn are_finalizing_signers(&self, input: int, s: Seq<usize>) -> bool {
        &&& s.len() == self.majority
        &&& forall|k: int|
            0 <= k < s.len() ==> s[k] < self.n_validators && self.signed(input, #[trigger] s[k] as int)
        &&& forall|k1: int, k2: int| 0 <= k1 < k2 < s.len() ==> s[k1] < s[k2]
        &&& forall|v: int| 0 <= v < s.last() && #[trigger] self.signed(input, v) ==> s.contains(v as usize)
    }

    /// The signatures of `signers` on `input`, in their order.
    pub open spec fn witness_signatures(&self, input: int, signers: Seq<usize>) -> Seq<Seq<u8>> {
        signers.map_values(|v: usize| self.slots@[input * self.n_validators + v]->Some_0@)
    }

    /// An empty collection for `proposal`, spent by `n_validators`
    /// validators with their supermajority as threshold.
    pub fn new(proposal: Proposal, n_validators: usize) -> (r: SignatureCollection)
        requires
            1 <= n_validators <= MAX_VALIDATORS,
        ensures
            r.wf(),
            r.proposal == proposal,
            r.n_validators == n_validators,
            forall|k: int| 0 <= k < r.slots.len() ==> r.slots@[k] is None,
    {
        let n_inputs = PROPOSAL_INPUTS;
        let majority = 2 * n_validators / 3 + 1;
        let total = n_validators * n_inputs;
        let mut slots: Vec<Option<Vec<u8>>> = Vec::new();
        let mut k: usize = 0;
        while k < total
            invariant
                k <= total,
                slots.len() == k,
                forall|j: int| 0 <= j < k ==> slots@[j] is None,
            decreases total - k,
        {
            slots.push(None);
            k = k + 1;
        }
        SignatureCollection { proposal, n_validators, n_inputs, majority, slots }
    }

    /// Records the signature of `validator` on `input`; a signature from an
    /// unknown signer, for an unknown input, or a second one for the same
    /// signer and input is rejected and not counted.
    pub fn add_signature(&mut self, validator: usize, input: usize, signature: Vec<u8>) -> (r:
        Result<(), SignatureError>)
        requires
            old(self).wf(),
        ensures
            final(self).wf(),
            final(self).proposal == old(self).proposal,
            final(self).n_validators == old(self).n_validators,
            final(self).n_inputs == old(self).n_inputs,
            final(self).majority == old(self).majority,
            validator >= old(self).n_validators ==> r == Err::<(), SignatureError>(
                SignatureError::UnknownValidator,
            ),
            validator < old(self).n_validators && input >= old(self).n_inputs ==> r == Err::<
                (),
                SignatureError,
            >(SignatureError::UnknownInput),
            validator < old(self).n_validators && input < old(self).n_inputs && old(self).signed(
                input as int,
                validator as int,
            ) ==> r == Err::<(), SignatureError>(SignatureError::DuplicateSignature),
            r is Err ==> final(self).slots@ == old(self).slots@,
            r is Ok <==> validator < old(self).n_validators && input < old(self).n_inputs
                && !old(self).signed(input as int, validator as int),
            r is Ok ==> final(self).slots@ == old(self).slots@.update(
                input * old(self).n_validators + validator,
                Some(signature),
            ),
    {
        if validator >= self.n_validators {
            return Err(SignatureError::UnknownValidator);
        }
        if input >= self.n_inputs {
            return Err(SignatureError::UnknownInput);
        }
        proof {
            let n = self.n_validators as int;
            let m = self.n_inputs as int;
            assert(input * n + validator < m * n) by (nonlinear_arith)
                requires
                    0 <= input < m,
                    0 <= validator < n,
            ;
            assert(m * n == n * m) by (nonlinear_arith);
        }
        let idx = input * self.n_validators + validator;
        if self.slots[idx].is_some() {
            return Err(SignatureError::DuplicateSignature);
        }
        self.slots.set(idx, Some(signature));
        Ok(())
    }

    /// Records a broadcast signature; one for another proposal is rejected
    /// and not counted, as are those that `add_signature` rejects.
    pub fn add_record(&mut self, record: SignatureRecord) -> (r: Result<(), SignatureError>)
        requires
            old(self).wf(),
        ensures
            final(self).wf(),
            final(self).proposal == old(self).proposal,
            final(self).n_validators == old(self).n_validators,
            final(self).n_inputs == old(self).n_inputs,
            final(self).majority == old(self).majority,
            !record.proposal.same_as(&old(self).proposal) ==> r == Err::<(), SignatureError>(
                SignatureError::UnknownProposal,
            ),
            record.proposal.same_as(&old(self).proposal) && record.validator >= old(
                self,
            ).n_validators ==> r == Err::<(), SignatureError>(SignatureError::UnknownValidator),
            record.proposal.same_as(&old(self).proposal) && record.validator < old(self).n_validators
                && record.input >= old(self).n_inputs ==> r == Err::<(), SignatureError>(
                SignatureError::UnknownInput,
            ),
            record.proposal.same_as(&old(self).proposal) && record.validator < old(self).n_validators
                && record.input < old(self).n_inputs && old(self).signed(
                record.input as int,
                record.validator as int,
            ) ==> r == Err::<(), SignatureError>(SignatureError::DuplicateSignature),
            r is Ok <==> record.proposal.same_as(&old(self).proposal) && record.validator < old(
                self,
            ).n_validators && record.input < old(self).n_inputs && !old(self).signed(
                record.input as int,
                record.validator as int,
            ),
            r is Err ==> final(self).slots@ == old(self).slots@,
            r is Ok ==> final(self).slots@ == old(self).slots@.update(
                record.input * old(self).n_validators + record.validator,
                Some(record.signature),
            ),
    {
        if !record.proposal.same_transaction(&self.proposal) {
            return Err(SignatureError::UnknownProposal);
        }
        self.add_signature(record.validator, record.input, record.signature)
    }

    /// The witness signatures on `input` of `signers`, in their order.
    pub fn assemble_witness(&self, input: usize, signers: &Vec<usize>) -> (r: Vec<Vec<u8>>)
        requires
            self.wf(),
            input < self.n_inputs,
            forall|k: int|
                0 <= k < signers.len() ==> #[trigger] signers@[k] < self.n_validators
                    && self.signed(input as int, signers@[k] as int),
        ensures
            r.len() == signers.len(),
            forall|k: int|
                0 <= k < r.len() ==> #[trigger] r@[k]@ == self.slots@[input * self.n_validators
                    + signers@[k]]->Some_0@,
    {
        let n = self.n_validators;
        proof {
            assert((input + 1) * n <= self.n_inputs * n) by (nonlinear_arith)
                requires
                    input < self.n_inputs,
                    n >= 0,
            ;
            assert((input + 1) * n == input * n + n) by (nonlinear_arith);
            assert(self.n_inputs * n == n * self.n_inputs) by (nonlinear_arith);
        }
        let base = input * n;
        let mut r: Vec<Vec<u8>> = Vec::new();
        let mut k: usize = 0;
        while k < signers.len()
            invariant
                self.wf(),
                n == self.n_validators,
                base == input * n,
                base + n <= self.slots.len(),
                k <= signers.len(),
                r.len() == k,
                forall|k: int|
                    0 <= k < signers.len() ==> #[trigger] signers@[k] < self.n_validators
                        && self.signed(input as int, signers@[k] as int),
                forall|j: int|
                    0 <= j < k ==> #[trigger] r@[j]@ == self.slots@[base + signers@[j]]->Some_0@,
            decreases signers.len() - k,
        {
            let v = signers[k];
            match &self.slots[base + v] {
                Some(sig) => {
                    r.push(copy_bytes(sig));
                },
                None => {
                    proof {
                        assert(self.signed(input as int, signers@[k as int] as int));
                    }
                },
            }
            k = k + 1;
        }
        r
    }

    /// The fully signed transaction of the proposal, once its sole input
    /// carries a majority of signatures: the witness holds those of the
    /// lowest-indexed signers. `None` while the threshold is not reached.
    pub fn finalize(&self) -> (r: Option<Vec<u8>>)
        requires
            self.wf(),
        ensures
            r is Some <==> self.spec_finalizable(),
            r matches Some(t) ==> exists|s: Seq<usize>|
                self.are_finalizing_signers(0, s) && t@ == signed_transaction_of(
                    self.proposal,
                    #[trigger] self.witness_signatures(0, s),
                ),
    {
        if !self.is_finalizable() {
            return None;
        }
        let signers = self.finalizing_signers(0);
        let witness = self.assemble_witness(0, &signers);
        let tx = self.proposal.signed_transaction(&witness);
        proof {
            assert(crate::transaction::signature_bytes(witness@) =~= self.witness_signatures(
                0,
                signers@,
            ));
        }
        Some(tx)
    }

    /// Number of distinct validators that signed `input`.
    pub fn signer_count(&self, input: usize) -> (r: usize)
        requires
            self.wf(),
            input < self.n_inputs,
        ensures
            r == self.signer_count_of(input as int),
            r <= self.n_validators,
    {
        let n = self.n_validators;
        proof {
            assert((input + 1) * n <= self.n_inputs * n) by (nonlinear_arith)
                requires
                    input < self.n_inputs,
                    n >= 0,
            ;
            assert((input + 1) * n == input * n + n) by (nonlinear_arith);
            assert(self.n_inputs * n == n * self.n_inputs) by (nonlinear_arith);
        }
        let base = input * n;
        let mut c: usize = 0;
        let mut v: usize = 0;
        while v < n
            invariant
                n == self.n_validators,
                base == input * n,
                base + n <= self.slots.len(),
                v <= n,
                c == count_signed(self.slots@, base as int, v as int),
                c <= v,
            decreases n - v,
        {
            if self.slots[base + v].is_some() {
                c = c + 1;
            }
            v = v + 1;
        }
        c
    }

    /// Whether the proposal can be assembled: every input carries at least
    /// a majority of distinct validators' signatures.
    pub fn is_finalizable(&self) -> (r: bool)
        requires
            self.wf(),
        ensures
            r == self.spec_finalizable(),
    {
        let mut i: usize = 0;
        while i < self.n_inputs
            invariant
                self.wf(),
                i <= self.n_inputs,
                forall|j: int| 0 <= j < i ==> #[trigger] self.signer_count_of(j) >= self.majority,
            decreases self.n_inputs - i,
        {
            if self.signer_count(i) < self.majority {
                return false;
            }
            i = i + 1;
        }
        true
    }

    /// The validators whose signatures on `input` go into the witness: the
    /// `majority` signers of lowest index, in increasing order.
    pub fn finalizing_signers(&self, input: usize) -> (r: Vec<usize>)
        requires
            self.wf(),
            input < self.n_inputs,
            self.signer_count_of(input as int) >= self.majority,
        ensures
            self.are_finalizing_signers(input as int, r@),
    {
        let n = self.n_validators;
        proof {
            assert((input + 1) * n <= self.n_inputs * n) by (nonlinear_arith)
                requires
                    input < self.n_inputs,
                    n >= 0,
            ;
            assert((input + 1) * n == input * n + n) by (nonlinear_arith);
            assert(self.n_inputs * n == n * self.n_inputs) by (nonlinear_arith);
        }
        let base = input * n;
        let mut r: Vec<usize> = Vec::new();
        let mut v: usize = 0;
        while v < n && r.len() < self.majority
            invariant
                self.wf(),
                n == self.n_validators,
                base == input * n,
                base + n <= self.slots.len(),
                v <= n,
                r.len() <= self.majority,
                r.len() == count_signed(self.slots@, base as int, v as int),
                self.signer_count_of(input as int) >= self.majority,
                forall|k: int|
                    0 <= k < r.len() ==> r@[k] < v && self.signed(input as int, #[trigger] r@[k] as int),
                forall|k1: int, k2: int| 0 <= k1 < k2 < r.len() ==> r@[k1] < r@[k2],
                forall|w: int|
                    0 <= w < v && #[trigger] self.signed(input as int, w) ==> r@.contains(w as usize),
            decreases n - v,
        {
            let ghost old_r = r@;
            if self.slots[base + v].is_some() {
                r.push(v);
                proof {
                    assert forall|w: int|
                        0 <= w < v + 1 && #[trigger] self.signed(input as int, w) implies r@.contains(
                        w as usize,
                    ) by {
                        if w < v {
                            let k = choose|k: int| 0 <= k < old_r.len() && old_r[k] == w as usize;
                            assert(r@[k] == w as usize);
                        } else {
                            assert(r@[r.len() - 1] == v);
                        }
                    }
                }
            }
            v = v + 1;
        }
        proof {
            if r.len() > 0 {
                assert(r@.last() < v);
            }
        }
        r
    }
}

/// A proposal can be finalized exactly when its input carries signatures of
/// at least `floor(2n/3) + 1` of the `n` validators; with four validators,
/// three signers suffice and two do not.
pub proof fn lemma_threshold_finalization(c: SignatureCollection)
    requires
        c.wf(),
    ensures
        c.spec_finalizable() <==> c.signer_count_of(0) >= majority_of(c.n_validators as nat),
        c.n_validators == 4 ==> (c.spec_finalizable() <==> c.signer_count_of(0) >= 3),
{
    if c.signer_count_of(0) >= c.majority {
        assert forall|i: int| 0 <= i < c.n_inputs implies #[trigger] c.signer_count_of(i)
            >= c.majority by {
            assert(i == 0);
        }
    }
}

/// Whether `log` holds a proposal for the anchored height of `p` that
/// differs from `p`.
pub open spec fn conflicts(log: Seq<Proposal>, p: Proposal) -> bool {
    exists|k: int|
        0 <= k < log.len() && (#[trigger] log[k]).anchored_height == p.anchored_height
            && !log[k].same_as(&p)
}

/// The proposals one validator has signed.
pub struct SignerLog {
    /// Signed proposals, in signing order.
    pub signed: Vec<Proposal>,
}

impl SignerLog {
    /// A log with nothing signed.
    pub fn new() -> (r: SignerLog)
        ensures
            r.signed@.len() == 0,
    {
        SignerLog { signed: Vec::new() }
    }

    /// Records that this validator signs `proposal`, or refuses when it has
    /// signed a different proposal for the same anchored height. Signing the
    /// same proposal again is allowed and records nothing new.
    pub fn record_signing(&mut self, proposal: &Proposal) -> (r: Result<(), SignError>)
        ensures
            conflicts(old(self).signed@, *proposal) ==> r == Err::<(), SignError>(
                SignError::DuplicateProposalSignature,
            ) && final(self).signed@ == old(self).signed@,
            !conflicts(old(self).signed@, *proposal) ==> r is Ok,
            r is Ok ==> exists|k: int|
                0 <= k < final(self).signed@.len() && (#[trigger] final(self).signed@[k]).same_as(
                    proposal,
                ),
            r is Ok ==> final(self).signed@ == old(self).signed@ || final(self).signed@
                == old(self).signed@.push(final(self).signed@.last()),
            r is Ok ==> forall|k: int|
                0 <= k < final(self).signed@.len() ==> #[trigger] final(self).signed@[k].anchored_height
                    != proposal.anchored_height || final(self).signed@[k].same_as(proposal),
    {
        let mut i: usize = 0;
        let mut found = false;
        while i < self.signed.len()
            invariant
                i <= self.signed.len(),
                self.signed@ == old(self).signed@,
                forall|k: int|
                    0 <= k < i ==> #[trigger] self.signed@[k].anchored_height
                        != proposal.anchored_height || self.signed@[k].same_as(proposal),
                found ==> exists|k: int|
                    0 <= k < i && (#[trigger] self.signed@[k]).same_as(proposal),
            decreases self.signed.len() - i,
        {
            let entry = &self.signed[i];
            if entry.anchored_height == proposal.anchored_height {
                if !entry.same_transaction(proposal) {
                    return Err(SignError::DuplicateProposalSignature);
                }
                found = true;
            }
            i = i + 1;
        }
        if !found {
            self.signed.push(proposal.duplicate());
            proof {
                let last = self.signed@.len() - 1;
                assert(self.signed@[last].same_as(proposal));
            }
        }
        Ok(())
    }
}

impl SignerLog {
    /// Signs input `input` of `proposal` with `key`, unless this validator
    /// has signed a different proposal for the same anchored height.
    pub fn sign(&mut self, proposal: &Proposal, input: usize, key: &PrivateKey) -> (r: Result<
        Vec<u8>,
        SignError,
    >)
        ensures
            conflicts(old(self).signed@, *proposal) ==> r == Err::<Vec<u8>, SignError>(
                SignError::DuplicateProposalSignature,
            ) && final(self).signed@ == old(self).signed@,
            !conflicts(old(self).signed@, *proposal) ==> exists|k: int|
                0 <= k < final(self).signed@.len() && (#[trigger] final(self).signed@[k]).same_as(
                    proposal,
                ),
            r matches Ok(s) ==> s@ == input_signature_of(*proposal, input as nat, *key),
            r is Err ==> r == Err::<Vec<u8>, SignError>(SignError::DuplicateProposalSignature)
                || r == Err::<Vec<u8>, SignError>(SignError::SigningFailed),
            !conflicts(old(self).signed@, *proposal) && input == 0 && is_secret_key(key.bytes@)
                ==> r is Ok,
    {
        match self.record_signing(proposal) {
            Ok(()) => {},
            Err(e) => {
                return Err(e);
            },
        }
        match sign_input(proposal, input, key) {
            Ok(s) => Ok(s),
            Err(_) => Err(SignError::SigningFailed),
        }
    }
}

/// Once a validator has signed proposal `a`, it refuses every proposal `b`
/// for the same anchored height that differs from `a`.
pub proof fn lemma_no_equivocation(log: Seq<Proposal>, a: Proposal, b: Proposal)
    requires
        exists|k: int| 0 <= k < log.len() && (#[trigger] log[k]).same_as(&a),
        b.anchored_height == a.anchored_height,
        !b.same_as(&a),
    ensures
        conflicts(log, b),
{
    let k = choose|k: int| 0 <= k < log.len() && (#[trigger] log[k]).same_as(&a);
    assert(log[k].anchored_height == b.anchored_height);
    assert(!log[k].same_as(&b)) by {
        if log[k].same_as(&b) {
            assert(b.same_as(&a));
        }
    }
}

} // verus!
