//! Error values surfaced by the derivation pipeline and by the finalizer of
//! the derived builder.  Derivation-time errors abort the whole derivation
//! and are returned as data; finalizer-time errors are ordinary recoverable
//! results handed to the builder's caller.

use vstd::prelude::*;
use vstd::string::StringExecFns;

verus! {

/// An error that aborts one derivation.  Nothing is ever retried: every
/// failure is a deterministic function of the input description.
#[derive(Debug)]
pub enum DeriveError {
    /// The input is not a record with exclusively named fields (it is a
    /// tuple-style struct, a unit struct, an enum or a union).
    UnsupportedShape,
    /// An annotation was recognized as an accumulator directive but does not
    /// have the required `builder(each = "...")` form, or uses the inner
    /// (`#![...]`) annotation style.  `field` names the owning field.
    MalformedDirective { field: String },
    /// A well-formed accumulator directive is attached to a field whose
    /// shape is not repeated; the directive is only meaningful for repeated
    /// fields.  `field` names the owning field.
    DirectiveShapeMismatch { field: String },
}

/// A finalizer-time error: the builder was asked to produce a record before
/// every required scalar field had been set.  The caller may set the field
/// and try again.
#[derive(Debug)]
pub enum BuildError {
    /// `field` names the first required field that is still unset.
    MissingField { field: String },
}

impl DeriveError {
    /// The human-readable diagnostic for this error, suitable for the host
    /// compilation pipeline to attach to the offending source location.
    pub fn message(&self) -> (m: &str)
        ensures
            (match self {
                DeriveError::UnsupportedShape => m@
                    == "`derive(Builder)` only accepts struct with named field"@,
                DeriveError::MalformedDirective { .. } => m@
                    == "expected `builder(each = \"...\")`"@,
                DeriveError::DirectiveShapeMismatch { .. } => m@
                    == "`builder(each = \"...\")` can only be used for `Vec<T>`"@,
            }),
    {
        match self {
            DeriveError::UnsupportedShape => "`derive(Builder)` only accepts struct with named field",
            DeriveError::MalformedDirective { .. } => "expected `builder(each = \"...\")`",
            DeriveError::DirectiveShapeMismatch { .. } => "`builder(each = \"...\")` can only be used for `Vec<T>`",
        }
    }
}

impl BuildError {
    /// The human-readable diagnostic: names the missing field.
    pub fn message(&self) -> (m: String)
        ensures
            (match self {
                BuildError::MissingField { field } => m@ == "field "@ + field@ + " is not set"@,
            }),
    {
        match self {
            BuildError::MissingField { field } => String::from_str("field ").concat(
                field.as_str(),
            ).concat(" is not set"),
        }
    }
}

} // verus!
