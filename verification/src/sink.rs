//! The formatting sink of `core::fmt`, as far as a contract needs it.
//!
//! A renderer hands a sink to a formatting routine; the routine writes text
//! into it and reports whether the write went through. This crate never
//! writes itself. It only passes the sink on, so a sink is known here by its
//! state alone: two states are equal or they are not.
use core::fmt;
use vstd::prelude::*;

verus! {

/// `core::fmt::Formatter`, the sink that a formatting routine writes into.
///
/// Declared without its fields: a state of the sink is an opaque value, and
/// nothing is claimed about what it holds.
#[verifier::external_type_specification]
#[verifier::external_body]
pub struct ExFormatter<'a>(core::fmt::Formatter<'a>);

/// `core::fmt::Error`, the failure that a write into a sink reports.
///
/// Declared without its fields: a failure is an opaque value, and nothing is
/// claimed about it.
#[verifier::external_type_specification]
#[verifier::external_body]
pub struct ExError(core::fmt::Error);

/// `f` may be called on every sink, whatever state the sink is in.
///
/// A renderer chooses the sink and asks nobody, so only such a routine can
/// stand behind a rendering.
pub open spec fn accepts_every_sink<F>(f: F) -> bool where
    F: Fn(&mut fmt::Formatter<'_>) -> fmt::Result,
{
    forall|sink: &mut fmt::Formatter<'_>| #[trigger] call_requires(f, (sink,))
}

} // verus!
