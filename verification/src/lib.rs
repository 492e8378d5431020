//! Core logic of a layer-2 block submitter: a status store keyed by block
//! identifier, the submission senders' state transitions in both operating
//! modes (a verifying sender that awaits confirmation depth, and a relay
//! sender that declares success on broadcast acceptance), and the hex text
//! the transitions rely on. The embedding runtime performs the actual chain
//! and database traffic and feeds the observed outcomes back in.

pub mod hex_text;
pub mod relay;
pub mod store;
pub mod types;
pub mod verifying;
