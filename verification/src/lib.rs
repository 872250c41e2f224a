//! Protocol layer for a dispatch-based audio plugin interface.
//!
//! A host drives a plugin instance through a single generic entry point: an
//! integer operation tag plus four untyped argument slots.  This crate models
//! that protocol: the append-only table of operation ordinals, the static
//! descriptor a plugin publishes about itself, the per-operation argument
//! marshaling rules (including bounded, null-terminated text buffers), and
//! the lifecycle state machine that says which operations are legal when.
//!
//! Sample processing itself, editor window rendering and vendor business
//! logic are outside this layer; it only decodes requests, checks them
//! against the current lifecycle state, applies their protocol-level effect
//! and encodes the single integer result.

pub mod category;
pub mod dispatch;
pub mod info;
pub mod lifecycle;
pub mod opcode;
pub mod text;
