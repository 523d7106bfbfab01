//! Bookkeeping of AI-generated and source-dependent local masks: which
//! components need the canonical image, the batch "update all" scheduler,
//! and how a finished inference is routed.

pub mod completion;
pub mod source;
pub mod targets;
pub mod update;
pub mod resolve;
pub mod requests;
