//! Decoding of runtime metadata handed over in one of several envelopes, the
//! digest and proofs made from it, and the text transformations that fold a
//! compiled package into one module.
pub mod scale;
pub mod metadata;
pub mod digest;
pub mod inline;
pub mod manifest;
