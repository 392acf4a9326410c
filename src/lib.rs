//! Initialization handshake and key disclosure for a hardware-backed
//! validator signing device.
//!
//! The library builds the synthetic proposal that seeds the device's
//! height/round/step counter, encodes it into chain-bound sign bytes, and
//! drives a signing capability through the handshake or an identity query.

mod chain_id;
mod codec;
mod error;
mod ledger;
mod registry;

pub use chain_id::{is_chain_id_char, valid_chain_id, ChainId, MAX_CHAIN_ID_LEN};
pub use codec::{
    canonical_proposal_bytes, chain_id_field, encodable, encode, ends_with, fixed64_field,
    le_bytes, lemma_chain_binding, lemma_encoding_deterministic, lemma_encoding_injective,
    no_pol_round_field, proposal_fields, proposal_head, sign_bytes, SignedMsgType, VoteMessage,
    MAX_ROUND,
};
pub use error::{InitError, SigningError};
pub use registry::{ChainContext, Registry, SigningCapability};
pub use ledger::{
    chain_not_found, finish_handshake, handshake_message, handshake_report, identity_report,
    init_call_report, lemma_handshake_chain_bound, lemma_handshake_deterministic,
    neither_encodes_nor_signs, no_validator_report, override_or_zero, passes_on,
    show_call_report, show_identity, signed_bytes, InitCommand, LedgerCommand, Operation,
    Report, ShowCommand,
};
