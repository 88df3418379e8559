//! Core of a proof-generation service: the job status state machine, the
//! bounded-queue pipeline that drives each job through file preparation,
//! witness generation and proof generation, and the cryptographic boundary
//! (authenticated decryption, hardware randomness, attestation documents).

mod attestation;
mod cache;
mod circuits;
mod crypto;
mod errors;
mod pipeline;
mod queue;
mod random;
mod status;
mod store;
mod workspace;

pub use attestation::{
    attestation_from_reply, base64_of, cbor_text_map_of, cose_sign1_of, entries_view,
    fallback_document_of, fallback_payload_entries, get_attestation, opt_base64_of, opt_bytes_view,
    NsmAttestationReply,
};
pub use cache::{contains_key, LruStore};
pub use circuits::CircuitMap;
pub use crypto::{aead_seal_of, decrypt};
pub use errors::{DeviceErrorCode, Error};
pub use pipeline::{Pipeline, PrepUnit, ProofUnit, WitnessUnit};
pub use queue::BoundedQueue;
pub use random::{copy_random_bytes, nsm_get_random, random_from_reply, NsmRandomReply};
pub use status::Status;
pub use store::{
    lemma_history_cases, lemma_history_shape, lemma_mark_failed_first_reason_wins, mark_failed_spec,
    mark_proof_spec, mark_witness_spec, pending_view, step_ok, wf_history, JobStore, JobView,
};
pub use workspace::get_tmp_folder_path;
