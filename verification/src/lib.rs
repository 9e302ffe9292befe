//! A structural code generator for record types: given the description of a
//! struct with named, typed fields, it derives the plan for a companion
//! *builder* type that accumulates field values one call at a time and checks
//! completeness before producing an instance of the record.
//!
//! The pipeline classifies each field's declared type into one of three
//! shapes (optional, repeated, required scalar), reads the per-field
//! `builder(each = "...")` directive that requests a per-element accumulator
//! method, and emits the builder's storage layout and method set.  A separate
//! module gives the emitted builder's runtime behaviour an executable,
//! verified semantics.

pub mod error;
pub mod field;
pub mod state;
pub mod synth;

use vstd::prelude::*;

use crate::error::DeriveError;
use crate::field::descriptor_matches;
use crate::field::field_accepted;
use crate::field::field_error_matches;
use crate::field::Field;
use crate::field::FieldSyntax;
use crate::synth::acc_chain;
use crate::synth::merge_methods;
use crate::synth::setter_chain;
use crate::synth::storage_matches;
use crate::synth::synthesize;
use crate::synth::BuilderModel;
use crate::synth::GeneratedCode;

verus! {

/// The body of the input type declaration, as the host parser reports it.
/// Only a record with exclusively named fields can be derived for.
pub enum RecordData {
    /// A struct with named fields, in declaration order.
    Named(Vec<FieldSyntax>),
    /// A struct with tuple-style (positional) fields.
    Tuple,
    /// A unit struct.
    Unit,
    /// An enum.
    Enum,
    /// A union.
    Union,
}

/// The parsed type declaration handed over by the host compilation
/// pipeline: the target type's name and its body.
pub struct RecordInput {
    pub ident: String,
    pub data: RecordData,
}

/// `j` is the position of the first field the per-field pipeline rejects;
/// derivation short-circuits there.
pub open spec fn is_first_rejected(fields: Seq<FieldSyntax>, j: int) -> bool {
    &&& 0 <= j < fields.len()
    &&& !field_accepted(fields[j])
    &&& (forall|k: int| 0 <= k < j ==> field_accepted(#[trigger] fields[k]))
}

/// `code` is the synthesis the driver owes for the record `target` with
/// the given fields: `ds` are the per-field descriptors (each matching its
/// field and well formed), the builder type is named after the target with
/// the fixed suffix, storage follows the descriptors in order, and the
/// method set is the merged chain of setters and accumulators.
pub open spec fn derivation_matches(
    target: String,
    fields: Seq<FieldSyntax>,
    ds: Seq<Field>,
    code: GeneratedCode,
) -> bool {
    &&& ds.len() == fields.len()
    &&& (forall|i: int| 0 <= i < fields.len() ==> descriptor_matches(fields[i], #[trigger] ds[i]))
    &&& (forall|i: int| 0 <= i < ds.len() ==> (#[trigger] ds[i]).wf())
    &&& code.target_name == target
    &&& code.builder_name@ == target@ + "Builder"@
    &&& code.storage@.len() == ds.len()
    &&& (forall|i: int| 0 <= i < ds.len() ==> storage_matches(ds[i], #[trigger] code.storage@[i]))
    &&& code.methods@ == merge_methods(setter_chain(ds) + acc_chain(ds))
}

/// Some sequence of descriptors witnesses that `code` is the synthesis
/// owed for `target` and `fields`.
pub open spec fn derive_ok_matches(
    target: String,
    fields: Seq<FieldSyntax>,
    code: GeneratedCode,
) -> bool {
    exists|ds: Seq<Field>| #[trigger] derivation_matches(target, fields, ds, code)
}

/// The entry point of one derivation.  Requires the input to be a record
/// with exclusively named fields; builds the descriptor of every field in
/// declaration order, short-circuiting on the first error; synthesizes the
/// builder description from the resulting model.  Every failure is
/// returned as data — nothing panics, nothing is retried.
#[verifier::loop_isolation(false)]
pub fn derive(input: RecordInput) -> (r: Result<GeneratedCode, DeriveError>)
    ensures
        (input.data matches RecordData::Named(fields) ==> ((forall|k: int|
            0 <= k < fields@.len() ==> field_accepted(#[trigger] fields@[k])) <==> (r matches Ok(
            _,
        )))),
        (input.data matches RecordData::Named(fields) ==> (r matches Ok(code)
            ==> derive_ok_matches(input.ident, fields@, code))),
        (input.data matches RecordData::Named(fields) ==> (r matches Err(e) ==> exists|j: int|
            #[trigger] is_first_rejected(fields@, j) && field_error_matches(fields@[j], e))),
        (!(input.data matches RecordData::Named(_)) ==> (r matches Err(
            DeriveError::UnsupportedShape,
        ))),
{
    let RecordInput { ident, data } = input;
    let ghost data0 = data;
    let mut fields = match data {
        RecordData::Named(fields) => fields,
        _ => {
            return Result::Err(DeriveError::UnsupportedShape);
        },
    };
    let ghost fields0 = fields@;
    let mut ds: Vec<Field> = Vec::new();
    while fields.len() > 0
        invariant
            ds@.len() <= fields0.len(),
            fields@ == fields0.skip(ds@.len() as int),
            forall|k: int|
                0 <= k < ds@.len() ==> field_accepted(#[trigger] fields0[k]),
            forall|k: int|
                0 <= k < ds@.len() ==> descriptor_matches(fields0[k], #[trigger] ds@[k]),
            forall|k: int| 0 <= k < ds@.len() ==> (#[trigger] ds@[k]).wf(),
        decreases fields@.len(),
    {
        let ghost done = ds@.len() as int;
        proof {
            assert(fields0.skip(done)[0] == fields0[done]);
            assert(fields0.skip(done).drop_first() =~= fields0.skip(done + 1));
        }
        let f = fields.remove(0);
        match Field::parse_field(f) {
            Result::Ok(d) => {
                proof {
                    assert(d.wf());
                }
                ds.push(d);
            },
            Result::Err(e) => {
                proof {
                    assert(is_first_rejected(fields0, done));
                }
                return Result::Err(e);
            },
        }
    }
    proof {
        assert(fields0.skip(ds@.len() as int).len() == 0);
    }
    let model = BuilderModel::new(ident, ds);
    let code = synthesize(&model);
    proof {
        assert(forall|k: int| 0 <= k < fields0.len() ==> field_accepted(#[trigger] fields0[k]));
        match data0 {
            RecordData::Named(fs) => {
                assert(fs@ == fields0);
                assert(derivation_matches(input.ident, fs@, model.fields@, code));
                assert(derive_ok_matches(input.ident, fs@, code));
            },
            _ => {},
        }
    }
    Result::Ok(code)
}

} // verus!
