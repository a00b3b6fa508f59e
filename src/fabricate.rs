use vstd::prelude::*;

use crate::hashing::{
    code_hash, code_hash_of, commitments_hash, commitments_hash_of, head_hash, head_hash_of,
    pov_hash, pov_hash_of, validation_data_hash, validation_data_hash_of,
};
use crate::signing::{sign_with_fresh_key, sr25519_verifies, sr25519_verify};
use crate::types::{
    CandidateCommitments, CandidateDescriptor, CandidateReceipt, Digest, PersistedValidationData,
    PoV,
};

verus! {

/// The publicly known bogus block data that replaces a candidate's own.
pub const MALICIOUS_POV: [u8; 37] = [
    240, 159, 152, 136, 240, 159, 152, 136, 112, 111, 118, 95, 108, 111, 111, 107, 115, 95, 118,
    97, 108, 105, 100, 95, 116, 111, 95, 109, 101, 240, 159, 152, 136, 240, 159, 152, 136,
];

pub open spec fn poison_block_data() -> Seq<u8> {
    MALICIOUS_POV@
}

/// The proof of validity that carries the poison block data.
pub fn malicious_pov() -> (r: PoV)
    ensures
        r.block_data@ == poison_block_data(),
{
    let mut block_data: Vec<u8> = Vec::new();
    let mut i: usize = 0;
    while i < 37
        invariant
            i <= 37,
            block_data@ == MALICIOUS_POV@.subrange(0, i as int),
        decreases 37 - i,
    {
        block_data.push(MALICIOUS_POV[i]);
        i = i + 1;
    }
    assert(block_data@ =~= MALICIOUS_POV@);
    PoV { block_data }
}

/// The commitments that an honest node expects of a candidate built on `d`:
/// the parent head is kept, nothing is processed, the watermark is the
/// relay-parent number.
pub fn create_fake_candidate_commitments(d: &PersistedValidationData) -> (r: CandidateCommitments)
    ensures
        r.head_data@ == d.parent_head@,
        r.processed_downward_messages == 0,
        r.hrmp_watermark == d.relay_parent_number,
{
    CandidateCommitments {
        head_data: d.parent_head.clone(),
        processed_downward_messages: 0,
        hrmp_watermark: d.relay_parent_number,
    }
}

/// The little-endian bytes of `x`.
pub open spec fn le_bytes(x: u32) -> Seq<u8> {
    seq![
        (x % 256) as u8,
        ((x / 256) % 256) as u8,
        ((x / 65536) % 256) as u8,
        (x / 16777216) as u8,
    ]
}

/// The bytes a collator signs: relay parent, para id, validation-data hash,
/// PoV hash and validation-code hash, in this order.
pub open spec fn signature_payload_of(
    relay_parent: Seq<u8>,
    para_id: u32,
    validation_data_hash: Seq<u8>,
    pov_hash: Seq<u8>,
    validation_code_hash: Seq<u8>,
) -> Seq<u8> {
    relay_parent + le_bytes(para_id) + validation_data_hash + pov_hash + validation_code_hash
}

pub open spec fn descriptor_payload(d: CandidateDescriptor) -> Seq<u8> {
    signature_payload_of(
        d.relay_parent@,
        d.para_id,
        d.persisted_validation_data_hash@,
        d.pov_hash@,
        d.validation_code_hash@,
    )
}

/// Whether the descriptor's signature verifies against its collator key.
pub open spec fn descriptor_signature_valid(d: CandidateDescriptor) -> bool {
    sr25519_verifies(d.signature@, descriptor_payload(d), d.collator@)
}

fn append_digest(out: &mut Vec<u8>, h: &Digest)
    ensures
        final(out)@ == old(out)@ + h@,
{
    let ghost start = out@;
    let mut i: usize = 0;
    while i < 32
        invariant
            i <= 32,
            out@ == start + h@.subrange(0, i as int),
        decreases 32 - i,
    {
        out.push(h[i]);
        i = i + 1;
    }
    assert(h@.subrange(0, 32) =~= h@);
}

/// The canonical payload that a collator signs.
pub fn collator_signature_payload(
    relay_parent: &Digest,
    para_id: u32,
    validation_data_hash: &Digest,
    pov_hash: &Digest,
    validation_code_hash: &Digest,
) -> (r: Vec<u8>)
    ensures
        r@ == signature_payload_of(relay_parent@, para_id, validation_data_hash@, pov_hash@, validation_code_hash@),
{
    let mut payload: Vec<u8> = Vec::new();
    append_digest(&mut payload, relay_parent);
    payload.push((para_id % 256) as u8);
    payload.push(((para_id / 256) % 256) as u8);
    payload.push(((para_id / 65536) % 256) as u8);
    payload.push((para_id / 16777216) as u8);
    append_digest(&mut payload, validation_data_hash);
    append_digest(&mut payload, pov_hash);
    append_digest(&mut payload, validation_code_hash);
    assert(payload@ =~= signature_payload_of(relay_parent@, para_id, validation_data_hash@, pov_hash@, validation_code_hash@));
    payload
}

/// Checks the descriptor's signature against its collator key.
pub fn check_collator_signature(d: &CandidateDescriptor) -> (r: bool)
    ensures
        r == descriptor_signature_valid(*d),
{
    let payload = collator_signature_payload(
        &d.relay_parent,
        d.para_id,
        &d.persisted_validation_data_hash,
        &d.pov_hash,
        &d.validation_code_hash,
    );
    sr25519_verify(&d.signature, &payload, &d.collator)
}

/// The answer of the chain-state service to a validation-code lookup.
#[derive(Clone, Debug, PartialEq, Eq)]
pub enum CodeLookup {
    Found(Vec<u8>),
    NotFound,
    Failed,
}

/// Why fabrication was abandoned.
#[derive(Clone, Copy, Debug, PartialEq, Eq)]
pub enum FetchError {
    /// The query of the validator set failed.
    ValidatorsQueryFailed,
    /// The lookup of the validation code failed.
    CodeQueryFailed,
    /// No validation code is stored under the candidate's code hash.
    CodeNotFound,
    /// The validator set is empty.
    NoValidators,
}

/// What fabrication needs from the chain state.
#[derive(Clone, Debug, PartialEq, Eq)]
pub struct ChainState {
    pub n_validators: usize,
    pub validation_code: Vec<u8>,
}

/// The outcome of a chain-state fetch from its two answers: the validator
/// count (`None` when that query failed) and the code lookup. A failed query
/// comes first, then a missing code, then an empty validator set.
pub open spec fn fetch_result(validators: Option<usize>, code: CodeLookup) -> Result<ChainState, FetchError> {
    if validators is None {
        Err(FetchError::ValidatorsQueryFailed)
    } else if code is Failed {
        Err(FetchError::CodeQueryFailed)
    } else if code is NotFound {
        Err(FetchError::CodeNotFound)
    } else if validators.unwrap() == 0 {
        Err(FetchError::NoValidators)
    } else {
        Ok(ChainState { n_validators: validators.unwrap(), validation_code: code->Found_0 })
    }
}

/// Combines the two answers of the chain-state service: the validator count
/// (`None` when that query failed) and the code lookup.
pub fn check_fetch(validators: Option<usize>, code: CodeLookup) -> (r: Result<ChainState, FetchError>)
    ensures
        r == fetch_result(validators, code),
{
    match validators {
        None => Err(FetchError::ValidatorsQueryFailed),
        Some(n_validators) => match code {
            CodeLookup::Failed => Err(FetchError::CodeQueryFailed),
            CodeLookup::NotFound => Err(FetchError::CodeNotFound),
            CodeLookup::Found(c) => {
                if n_validators == 0 {
                    Err(FetchError::NoValidators)
                } else {
                    Ok(ChainState { n_validators, validation_code: c })
                }
            },
        },
    }
}

/// `r` and `pov` are the forgery of a candidate of para `para_id` seconded at
/// `relay_parent` with validation data `vd`, for validation code `code` and
/// erasure root `erasure_root`: every field is recomputed honestly over the
/// poison block data, and the signature verifies.
pub open spec fn forged_from(
    r: CandidateReceipt,
    pov: PoV,
    relay_parent: Digest,
    para_id: u32,
    vd: PersistedValidationData,
    code: Seq<u8>,
    erasure_root: Digest,
) -> bool {
    &&& pov.block_data@ == poison_block_data()
    &&& r.descriptor.para_id == para_id
    &&& r.descriptor.relay_parent == relay_parent
    &&& r.descriptor.persisted_validation_data_hash@ == validation_data_hash_of(
        vd.parent_head@,
        vd.relay_parent_number,
        vd.relay_parent_storage_root@,
        vd.max_pov_size,
    )
    &&& r.descriptor.pov_hash@ == pov_hash_of(poison_block_data())
    &&& r.descriptor.erasure_root == erasure_root
    &&& r.descriptor.para_head@ == head_hash_of(vd.parent_head@)
    &&& r.descriptor.validation_code_hash@ == code_hash_of(code)
    &&& r.commitments_hash@ == commitments_hash_of(vd.parent_head@, 0, vd.relay_parent_number)
    &&& descriptor_signature_valid(r.descriptor)
}

/// Forges a candidate for para `para_id` at `relay_parent`: the poison block
/// data replaces the real one, the hashes and the commitments are recomputed,
/// and a fresh collator key signs the descriptor. `erasure_root` is the erasure
/// root of the poison data for the chain state's validator count.
pub fn fabricate(
    relay_parent: &Digest,
    para_id: u32,
    validation_data: &PersistedValidationData,
    chain: &ChainState,
    erasure_root: &Digest,
) -> (r: (CandidateReceipt, PoV))
    ensures
        forged_from(r.0, r.1, *relay_parent, para_id, *validation_data, chain.validation_code@, *erasure_root),
{
    let pov = malicious_pov();
    let validation_data_hash = validation_data_hash(validation_data);
    let validation_code_hash = code_hash(&chain.validation_code);
    let pov_hash = pov_hash(&pov.block_data);
    let payload = collator_signature_payload(
        relay_parent,
        para_id,
        &validation_data_hash,
        &pov_hash,
        &validation_code_hash,
    );
    let (collator, signature) = sign_with_fresh_key(&payload);
    let commitments = create_fake_candidate_commitments(validation_data);
    let descriptor = CandidateDescriptor {
        para_id,
        relay_parent: *relay_parent,
        collator,
        persisted_validation_data_hash: validation_data_hash,
        pov_hash,
        erasure_root: *erasure_root,
        signature,
        para_head: head_hash(&commitments.head_data),
        validation_code_hash,
    };
    let receipt = CandidateReceipt { descriptor, commitments_hash: commitments_hash(&commitments) };
    (receipt, pov)
}

/// Found validation code and a non-empty validator set always yield the chain
/// state that fabrication needs, with that count and that code.
pub proof fn lemma_successful_fetch_proceeds(n_validators: usize, code: Vec<u8>)
    requires
        n_validators > 0,
    ensures
        fetch_result(Some(n_validators), CodeLookup::Found(code)) == Ok::<_, FetchError>(
            ChainState { n_validators, validation_code: code },
        ),
{
}

/// A failed validators query, a failed or empty code lookup, or an empty
/// validator set never yields chain state: fabrication is then abandoned.
pub proof fn lemma_failed_fetch_abandons(validators: Option<usize>, code: CodeLookup)
    requires
        validators is None || validators == Some(0usize) || code is NotFound || code is Failed,
    ensures
        fetch_result(validators, code) is Err,
{
}

/// Every forged receipt carries a signature that verifies against its own
/// collator key, and the erasure root computed for the poison data.
pub proof fn lemma_forgery_passes_structural_checks(
    r: CandidateReceipt,
    pov: PoV,
    relay_parent: Digest,
    para_id: u32,
    vd: PersistedValidationData,
    code: Seq<u8>,
    erasure_root: Digest,
)
    requires
        forged_from(r, pov, relay_parent, para_id, vd, code, erasure_root),
    ensures
        descriptor_signature_valid(r.descriptor),
        r.descriptor.erasure_root == erasure_root,
        pov.block_data@ == poison_block_data(),
{
}

/// Two forgeries of the same inputs agree in everything but the collator key
/// and the signature, and both signatures verify.
pub proof fn lemma_fabrication_deterministic(
    a: CandidateReceipt,
    pov_a: PoV,
    b: CandidateReceipt,
    pov_b: PoV,
    relay_parent: Digest,
    para_id: u32,
    vd: PersistedValidationData,
    code: Seq<u8>,
    erasure_root: Digest,
)
    requires
        forged_from(a, pov_a, relay_parent, para_id, vd, code, erasure_root),
        forged_from(b, pov_b, relay_parent, para_id, vd, code, erasure_root),
    ensures
        pov_a.block_data@ == pov_b.block_data@,
        a.descriptor.para_id == b.descriptor.para_id,
        a.descriptor.relay_parent == b.descriptor.relay_parent,
        a.descriptor.persisted_validation_data_hash@ == b.descriptor.persisted_validation_data_hash@,
        a.descriptor.pov_hash@ == b.descriptor.pov_hash@,
        a.descriptor.erasure_root == b.descriptor.erasure_root,
        a.descriptor.para_head@ == b.descriptor.para_head@,
        a.descriptor.validation_code_hash@ == b.descriptor.validation_code_hash@,
        a.commitments_hash@ == b.commitments_hash@,
        descriptor_signature_valid(a.descriptor),
        descriptor_signature_valid(b.descriptor),
{
}

} // verus!
