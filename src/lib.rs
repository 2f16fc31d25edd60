//! Verified core of a late-interaction (ColBERT-style) retrieval encoder:
//! configuration, tokenization policy, batch planning and post-processing
//! plans. The floating-point tensor work is driven by these plans.

pub mod error;
pub mod settings;
pub mod dispatch;
pub mod postprocess;
pub mod tokenize;
pub mod json;
