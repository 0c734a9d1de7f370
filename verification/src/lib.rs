//! A scoped dynamic-binding bridge between a statically typed immediate-mode
//! GUI host and a dynamically typed embedded scripting environment.
//!
//! The crate models and verifies the bridge machinery itself: value
//! conversion across the static/dynamic boundary, scope-bracketed visibility
//! of borrowed host objects, relaying of callback results past scope
//! teardown, a declarative method-wrapper generator, and the
//! builder/show protocol for containers. The concrete script engine and the
//! GUI library are external collaborators: an embedding drives this crate
//! through plain values.

use vstd::prelude::*;

pub mod bridge;
pub mod builder;
pub mod codec;
pub mod descriptor;
pub mod error;
pub mod host;
pub mod protocol;
pub mod registry;
pub mod relay;
pub mod value;
pub mod widget;
pub mod wrapper;

verus! {

/// The arena index and generation pair that makes a script-visible handle.
///
/// A handle is only a token; whether it can still be used is decided by the
/// registry that minted it.
#[derive(Clone, Copy, PartialEq, Eq, Structural, Debug)]
pub struct Handle {
    pub index: usize,
    pub generation: u64,
}

} // verus!
