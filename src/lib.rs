//! Session-side protocol handling for a terminal multiplexer: a per-tab
//! differential render tracker and the dispatch of decoded requests.
pub mod rows;
pub mod tab;
pub mod render;
pub mod pdu;
pub mod handler;
pub mod registry;
