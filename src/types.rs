use vstd::prelude::*;

verus! {

/// A 32-byte blake2-256 digest, as used for every hash in a candidate.
pub type Digest = [u8; 32];

/// The environment a candidate is validated in: the parent head and the
/// relay-chain context it was built against.
#[derive(Clone, Debug, PartialEq, Eq)]
pub struct PersistedValidationData {
    pub parent_head: Vec<u8>,
    pub relay_parent_number: u32,
    pub relay_parent_storage_root: Digest,
    pub max_pov_size: u32,
}

/// The proof of validity of a candidate: its raw block data.
#[derive(Clone, Debug, PartialEq, Eq)]
pub struct PoV {
    pub block_data: Vec<u8>,
}

/// The outcome a candidate declares for its execution. Upward and horizontal
/// messages are always empty and no new validation code is carried.
#[derive(Clone, Debug, PartialEq, Eq)]
pub struct CandidateCommitments {
    pub head_data: Vec<u8>,
    pub processed_downward_messages: u32,
    pub hrmp_watermark: u32,
}

/// The identifying record of a proposed candidate.
#[derive(Clone, Debug, PartialEq, Eq)]
pub struct CandidateDescriptor {
    pub para_id: u32,
    pub relay_parent: Digest,
    /// The sr25519 public key of the collator that produced the candidate.
    pub collator: [u8; 32],
    pub persisted_validation_data_hash: Digest,
    pub pov_hash: Digest,
    pub erasure_root: Digest,
    /// The collator's sr25519 signature over the descriptor's signature payload.
    pub signature: [u8; 64],
    pub para_head: Digest,
    pub validation_code_hash: Digest,
}

/// A candidate descriptor together with the hash of its commitments.
#[derive(Clone, Debug, PartialEq, Eq)]
pub struct CandidateReceipt {
    pub descriptor: CandidateDescriptor,
    pub commitments_hash: Digest,
}

/// A message addressed to the candidate-backing subsystem.
#[derive(Clone, Debug, PartialEq, Eq)]
pub enum CandidateBackingMessage {
    /// A request to second a candidate: relay parent, candidate, its
    /// validation data and its proof of validity.
    Second(Digest, CandidateReceipt, PersistedValidationData, PoV),
    /// Any other backing message, carried in its encoded form.
    Other(Vec<u8>),
}

/// A lifecycle signal sent by the overseer to every subsystem.
#[derive(Clone, Debug, PartialEq, Eq)]
pub enum OverseerSignal {
    ActiveLeaves(Digest),
    BlockFinalized(Digest, u32),
    Conclude,
}

/// What the overseer hands to a subsystem: a message or a signal.
#[derive(Clone, Debug, PartialEq, Eq)]
pub enum FromOrchestra {
    Communication { msg: CandidateBackingMessage },
    Signal(OverseerSignal),
}

} // verus!
