//! Indexing of NFT marketplace events on an Everscale-like chain: the event
//! names in scope, the decoding of events into database records, the
//! batching of those records, and the helpers that the indexer uses on
//! numbers, addresses and metadata.
pub mod natural;
pub mod decimal;
pub mod text;
pub mod scope;
pub mod settings;
pub mod address;
pub mod chain_types;
pub mod events;
pub mod records;
pub mod context;
pub mod decode;
pub mod batch;
pub mod tokens;
pub mod contract_events;
pub mod json;
pub mod tables;
pub mod dependent_tables;
pub mod consumer;
pub mod meta;
pub mod collections_queue;
pub mod abi;
pub mod placeholders;
