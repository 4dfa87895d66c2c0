//! Client-side model of the tfchain ledger state: storage keys, the layouts
//! of stored values and their decoding, the two historical wire schemas of
//! each on-chain entity and their conversion into one domain model,
//! transaction call payloads, submission status handling and block event
//! classification.

pub mod types;
pub mod wire;
pub mod legacy;
pub mod text;
pub mod mapping;
pub mod laws;
pub mod scale;
pub mod layout;
pub mod stored;
pub mod call;
pub mod storage;
pub mod query;
pub mod shape;
pub mod events;
pub mod submit;
pub mod extrinsic;
