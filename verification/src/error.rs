//! The bridge's error taxonomy.
//!
//! A boundary failure is never silently coerced or defaulted: every decode
//! failure names both sides of the failed mapping, and every protocol
//! violation has its own variant.

use vstd::prelude::*;

verus! {

/// The dynamically typed kinds a script value can have, as named in errors.
#[derive(Clone, Copy, PartialEq, Eq, Structural, Debug)]
pub enum ValueKind {
    Nil,
    Bool,
    Int,
    Num,
    Str,
    Vector2,
    Table,
    Callable,
    Handle,
}

/// A script value matched no accepted decode variant for the target type.
///
/// Carries the source value's kind and the destination type, so the failed
/// mapping is named on both sides.
#[derive(Clone, Copy, PartialEq, Eq, Structural, Debug)]
pub struct ConversionError {
    pub from: ValueKind,
    pub to: crate::codec::ScriptType,
}

/// An error surfaced to the script caller by the bridge.
#[derive(Clone, Copy, PartialEq, Eq, Structural, Debug)]
pub enum BridgeError {
    /// A value failed to decode; names the offending argument position.
    Conversion { err: ConversionError, position: usize },
    /// A handle was used after the scope that minted it was torn down.
    ScopeViolation,
    /// A mutating operation was invoked through a handle that does not
    /// declare mutability.
    ImmutableHandle,
    /// A terminal operation was invoked twice, or a mutator was called after
    /// the terminal operation.
    BuilderReuse,
    /// A relay entry was fetched with a key that has no stored value.
    RelayLeak,
    /// A wrapper was invoked with the wrong number of arguments.
    Arity { expected: usize, got: usize },
    /// An operation referred to a descriptor index outside the table.
    UnknownDescriptor,
    /// A callback operand referred to a value that does not exist.
    BadOperand,
    /// An unknown builder index was named by a callback operation.
    UnknownBuilder,
    /// The script raised an error of its own.
    Raised,
}

} // verus!
