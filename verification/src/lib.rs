//! Ingestion boundary for genesis-era blocks: wire decoding of the genesis
//! block schema, classification of block and consensus versions, and the
//! hierarchical address paths used by the wallet layer.
//!
//! - [`wire`]: the byte cursor of `cbor_event` and what its reads do.
//! - [`stream`]: the streaming decoder, one item at a time.
//! - [`value`] and [`parse`]: the generic value tree and its decoder.
//! - [`types`]: digests, network magic, chain difficulty, attributes.
//! - [`genesis`]: body proof, body, consensus record, header, block.
//! - [`laws`]: what holds of the codec as a whole.
//! - [`error`]: decode failures with the path to the fault.
//! - [`version`]: block versions, consensus versions, compatibility.
//! - [`bip44`] and [`hdpayload`]: addressing records and derivation paths.

pub mod bip44;
pub mod error;
pub mod genesis;
pub mod hdpayload;
pub mod laws;
pub mod parse;
pub mod stream;
pub mod types;
pub mod value;
pub mod version;
pub mod wire;
