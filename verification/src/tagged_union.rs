//! The transformer for tagged unions.

use crate::constructor::{parameters, parameters_of};
use crate::model::{Constructor, ConstructorView, TaggedUnion, TaggedUnionView, VariantSpec, VariantView};
use crate::naming::{positional_name, variant_constructor, variant_constructor_name};
use vstd::prelude::*;

verus! {

/// The constructor synthesized for one variant: named after the variant in
/// lowercase, with one parameter for each of its fields, building that variant
/// in the style of its fields.
pub open spec fn variant_constructor_of(variant: VariantView) -> ConstructorView {
    ConstructorView {
        name: variant_constructor_name(variant.name),
        parameters: parameters_of(variant.fields),
        style: variant.style,
        variant: Some(variant.name),
    }
}

/// One constructor for each variant, in the order of the variants.
pub open spec fn constructors_of(variants: Seq<VariantView>) -> Seq<ConstructorView> {
    Seq::new(variants.len(), |i: int| variant_constructor_of(variants[i]))
}

/// Synthesizes the constructor of one variant.
pub fn constructor_for(variant: &VariantSpec) -> (r: Constructor)
    ensures
        r.deep_view() == variant_constructor_of(variant.deep_view()),
{
    Constructor {
        name: variant_constructor(variant.name.as_str()),
        parameters: parameters(&variant.fields),
        style: variant.style,
        variant: Some(variant.name.clone()),
    }
}

/// Leaves the tagged union as it is and synthesizes one constructor for each
/// of its variants.
pub fn wrap_enum(union: TaggedUnion) -> (r: (TaggedUnion, Vec<Constructor>))
    ensures
        r.0 == union,
        r.1.deep_view() == constructors_of(union.deep_view().variants),
{
    let mut out: Vec<Constructor> = Vec::new();
    let mut index: usize = 0;
    while index < union.variants.len()
        invariant
            index <= union.variants.len(),
            out.len() == index,
            forall|i: int|
                0 <= i < index ==> (#[trigger] out[i]).deep_view() == variant_constructor_of(
                    union.variants[i].deep_view(),
                ),
        decreases union.variants.len() - index,
    {
        out.push(constructor_for(&union.variants[index]));
        index = index + 1;
    }
    assert(out.deep_view() =~= constructors_of(union.deep_view().variants));
    (union, out)
}

/// A tagged union gets exactly one constructor for each variant, in the order
/// of the variants. The constructor for a variant is named `new_`, the
/// variant's name in lowercase, `_unsafe`; it builds that variant, in the
/// style of the variant's fields, from one parameter for each field: the
/// field's own name where it has one, else the name of its position, with the
/// field's type.
pub proof fn law_one_constructor_per_variant(union: TaggedUnionView)
    ensures
        constructors_of(union.variants).len() == union.variants.len(),
        forall|k: int|
            #![trigger constructors_of(union.variants)[k]]
            0 <= k < union.variants.len() ==> {
                let made = constructors_of(union.variants)[k];
                let variant = union.variants[k];
                &&& made.name == variant_constructor_name(variant.name)
                &&& made.variant == Some(variant.name)
                &&& made.style == variant.style
                &&& made.parameters.len() == variant.fields.len()
                &&& forall|i: int|
                    #![trigger made.parameters[i]]
                    0 <= i < variant.fields.len() ==> {
                        &&& made.parameters[i].ty == variant.fields[i].ty
                        &&& variant.fields[i].name is Some ==> made.parameters[i].name
                            == variant.fields[i].name->0
                        &&& variant.fields[i].name is None ==> made.parameters[i].name
                            == positional_name(i as nat)
                    }
            },
{
}

} // verus!
