//! From a field list to the parameters of the constructor that fills it.

use crate::model::{FieldSpec, FieldView, Parameter, ParameterView};
use crate::naming::{positional, positional_name};
use vstd::prelude::*;

verus! {

/// The parameter for the field at `index`: it has the field's own name, or the
/// positional name of `index` where the field has none, and the field's type.
pub open spec fn parameter_of(index: int, field: FieldView) -> ParameterView {
    ParameterView {
        name: match field.name {
            Some(name) => name,
            None => positional_name(index as nat),
        },
        ty: field.ty,
    }
}

/// One parameter for each field, in the order of the fields.
pub open spec fn parameters_of(fields: Seq<FieldView>) -> Seq<ParameterView> {
    Seq::new(fields.len(), |i: int| parameter_of(i, fields[i]))
}

/// Derives the parameter for the field at `index`.
pub fn parameter(index: usize, field: &FieldSpec) -> (r: Parameter)
    ensures
        r.deep_view() == parameter_of(index as int, field.deep_view()),
{
    let name = match &field.name {
        Some(name) => name.clone(),
        None => positional(index),
    };
    Parameter { name, ty: field.ty.clone() }
}

/// Derives the parameters for a field list.
pub fn parameters(fields: &Vec<FieldSpec>) -> (r: Vec<Parameter>)
    ensures
        r.deep_view() == parameters_of(fields.deep_view()),
{
    let mut out: Vec<Parameter> = Vec::new();
    let mut index: usize = 0;
    while index < fields.len()
        invariant
            index <= fields.len(),
            out.len() == index,
            forall|i: int|
                0 <= i < index ==> (#[trigger] out[i]).deep_view() == parameter_of(
                    i,
                    fields[i].deep_view(),
                ),
        decreases fields.len() - index,
    {
        out.push(parameter(index, &fields[index]));
        index = index + 1;
    }
    assert(out.deep_view() =~= parameters_of(fields.deep_view()));
    out
}

} // verus!
