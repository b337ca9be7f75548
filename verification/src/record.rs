//! The transformer for data records.

use crate::constructor::{parameters, parameters_of};
use crate::model::{Constructor, ConstructorView, ParameterView, Record, RecordView};
use crate::naming::{
    lemma_positional_names_differ, positional_name, record_constructor, record_constructor_name,
};
use vstd::prelude::*;

verus! {

/// The constructor synthesized for a record: named `new_unsafe`, with one
/// parameter for each field, building the record in the style of its fields.
pub open spec fn record_constructor_of(record: RecordView) -> ConstructorView {
    ConstructorView {
        name: record_constructor_name(),
        parameters: parameters_of(record.fields),
        style: record.style,
        variant: None,
    }
}

/// Leaves the record as it is and synthesizes its constructor.
pub fn wrap_struct(record: Record) -> (r: (Record, Constructor))
    ensures
        r.0 == record,
        r.1.deep_view() == record_constructor_of(record.deep_view()),
{
    let constructor = Constructor {
        name: record_constructor(),
        parameters: parameters(&record.fields),
        style: record.style,
        variant: None,
    };
    (record, constructor)
}

/// The constructor of a record has as many parameters as the record has
/// fields, and the parameter for a named field has that field's name and type.
pub proof fn law_named_fields(record: RecordView)
    requires
        forall|i: int| 0 <= i < record.fields.len() ==> (#[trigger] record.fields[i]).name is Some,
    ensures
        record_constructor_of(record).parameters.len() == record.fields.len(),
        forall|i: int|
            0 <= i < record.fields.len() ==> #[trigger] record_constructor_of(record).parameters[i]
                == (ParameterView { name: record.fields[i].name->0, ty: record.fields[i].ty }),
{
}

/// The constructor of a record with positional fields names its parameters
/// `field_0`, `field_1` and so on, in the order of the fields and with their
/// types, and no two of these names are equal.
pub proof fn law_positional_fields(record: RecordView)
    requires
        forall|i: int| 0 <= i < record.fields.len() ==> (#[trigger] record.fields[i]).name is None,
    ensures
        record_constructor_of(record).parameters.len() == record.fields.len(),
        forall|i: int|
            0 <= i < record.fields.len() ==> #[trigger] record_constructor_of(record).parameters[i]
                == (ParameterView { name: positional_name(i as nat), ty: record.fields[i].ty }),
        forall|i: int, j: int|
            0 <= i < j < record.fields.len() ==> (#[trigger] record_constructor_of(
                record,
            ).parameters[i]).name != (#[trigger] record_constructor_of(record).parameters[j]).name,
{
    assert forall|i: int, j: int| 0 <= i < j < record.fields.len() implies (
    #[trigger] record_constructor_of(record).parameters[i]).name != (
    #[trigger] record_constructor_of(record).parameters[j]).name by {
        lemma_positional_names_differ(i as nat, j as nat);
    }
}

/// A record without fields gets a constructor without parameters.
pub proof fn law_no_fields(record: RecordView)
    requires
        record.fields.len() == 0,
    ensures
        record_constructor_of(record).parameters.len() == 0,
        record_constructor_of(record).name == record_constructor_name(),
{
}

} // verus!
