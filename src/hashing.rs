use vstd::prelude::*;

use crate::types::{CandidateCommitments, Digest, PersistedValidationData};
use polkadot_primitives::{HeadData, ValidationCode};
use polkadot_node_primitives::{BlockData, PoV};

verus! {

/// The blake2-256 hash of SCALE-encoded persisted validation data.
pub uninterp spec fn validation_data_hash_of(
    parent_head: Seq<u8>,
    relay_parent_number: u32,
    relay_parent_storage_root: Seq<u8>,
    max_pov_size: u32,
) -> Seq<u8>;

/// The blake2-256 hash of a SCALE-encoded proof of validity.
pub uninterp spec fn pov_hash_of(block_data: Seq<u8>) -> Seq<u8>;

/// The blake2-256 hash of validation code.
pub uninterp spec fn code_hash_of(code: Seq<u8>) -> Seq<u8>;

/// The blake2-256 hash of head data.
pub uninterp spec fn head_hash_of(head: Seq<u8>) -> Seq<u8>;

/// The blake2-256 hash of SCALE-encoded commitments without messages or new code.
pub uninterp spec fn commitments_hash_of(head: Seq<u8>, processed_downward_messages: u32, hrmp_watermark: u32) -> Seq<u8>;

/// Relies on polkadot-primitives' `PersistedValidationData::hash`, a
/// function of the record's fields alone.
#[verifier::external_body]
pub(crate) fn validation_data_hash(d: &PersistedValidationData) -> (r: Digest)
    ensures
        r@ == validation_data_hash_of(d.parent_head@, d.relay_parent_number, d.relay_parent_storage_root@, d.max_pov_size),
{
    polkadot_primitives::PersistedValidationData {
        parent_head: HeadData(d.parent_head.clone()),
        relay_parent_number: d.relay_parent_number,
        relay_parent_storage_root: polkadot_primitives::Hash::from(d.relay_parent_storage_root),
        max_pov_size: d.max_pov_size,
    }.hash().0
}

/// Relies on polkadot-node-primitives' `PoV::hash`, a function of the block
/// data alone.
#[verifier::external_body]
pub(crate) fn pov_hash(block_data: &Vec<u8>) -> (r: Digest)
    ensures
        r@ == pov_hash_of(block_data@),
{
    PoV { block_data: BlockData(block_data.clone()) }.hash().0
}

/// Relies on polkadot-primitives' `ValidationCode::hash`, a function of the
/// code alone.
#[verifier::external_body]
pub(crate) fn code_hash(code: &Vec<u8>) -> (r: Digest)
    ensures
        r@ == code_hash_of(code@),
{
    let h = ValidationCode(code.clone()).hash();
    let mut out = [0u8; 32];
    out.copy_from_slice(h.as_ref());
    out
}

/// Relies on polkadot-primitives' `HeadData::hash`, a function of the head
/// data alone.
#[verifier::external_body]
pub(crate) fn head_hash(head: &Vec<u8>) -> (r: Digest)
    ensures
        r@ == head_hash_of(head@),
{
    HeadData(head.clone()).hash().0
}

/// Relies on polkadot-primitives' `CandidateCommitments::hash`, a function of
/// the commitments alone; they carry no messages and no new code.
#[verifier::external_body]
pub(crate) fn commitments_hash(c: &CandidateCommitments) -> (r: Digest)
    ensures
        r@ == commitments_hash_of(c.head_data@, c.processed_downward_messages, c.hrmp_watermark),
{
    polkadot_primitives::CandidateCommitments {
        upward_messages: Default::default(),
        horizontal_messages: Default::default(),
        new_validation_code: None,
        head_data: HeadData(c.head_data.clone()),
        processed_downward_messages: c.processed_downward_messages,
        hrmp_watermark: c.hrmp_watermark,
    }.hash().0
}

} // verus!
