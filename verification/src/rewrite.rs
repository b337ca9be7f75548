//! The pipeline behind the classifier: a declaration is handed to the
//! transformer for its shape, and what that gives is written out.

use crate::contract::{wrap_trait, wrapped_contract};
use crate::emit::{
    block_text, data_text, emit_contract, emit_data, emit_implementation, emit_routine,
    routine_text,
};
use crate::implementation::{wrap_impl, wrapped_implementation};
use crate::model::{Constructor, ConstructorView, DeclarationNode, DeclarationView, RoutineView};
use crate::record::{record_constructor_of, wrap_struct};
use crate::routine::{wrap_function, wrap_closing, wrap_opening, wrapped_routine};
use crate::tagged_union::{constructors_of, wrap_enum};
use crate::token::run_text;
use vstd::prelude::*;

verus! {

/// What a transformer gives: the declaration after the rewriting, and the
/// operations synthesized beside it.
pub struct Rewritten {
    pub declaration: DeclarationNode,
    /// The constructors synthesized for a data type, in the order of its
    /// fields or variants; empty for every other shape.
    pub companions: Vec<Constructor>,
}

pub struct RewrittenView {
    pub declaration: DeclarationView,
    pub companions: Seq<ConstructorView>,
}

impl DeepView for Rewritten {
    type V = RewrittenView;

    open spec fn deep_view(&self) -> RewrittenView {
        RewrittenView {
            declaration: self.declaration.deep_view(),
            companions: self.companions.deep_view(),
        }
    }
}

/// The result of the transformer that belongs to the declaration's shape. A
/// declaration of any other shape is kept as it is.
pub open spec fn rewritten_of(declaration: DeclarationView) -> RewrittenView {
    match declaration {
        DeclarationView::Routine(routine) => RewrittenView {
            declaration: DeclarationView::Routine(wrapped_routine(routine)),
            companions: Seq::empty(),
        },
        DeclarationView::DataRecord(record) => RewrittenView {
            declaration: declaration,
            companions: seq![record_constructor_of(record)],
        },
        DeclarationView::TaggedUnion(union) => RewrittenView {
            declaration: declaration,
            companions: constructors_of(union.variants),
        },
        DeclarationView::CapabilityContract(contract) => RewrittenView {
            declaration: DeclarationView::CapabilityContract(wrapped_contract(contract)),
            companions: Seq::empty(),
        },
        DeclarationView::ContractImplementation(block) => RewrittenView {
            declaration: DeclarationView::ContractImplementation(wrapped_implementation(block)),
            companions: Seq::empty(),
        },
        DeclarationView::Other(_) => RewrittenView {
            declaration: declaration,
            companions: Seq::empty(),
        },
    }
}

/// The text of a rewritten declaration. A data type is followed by the block
/// of its constructors; a declaration of any other shape is its text as given.
pub open spec fn emitted_text(rewritten: RewrittenView) -> Seq<char> {
    match rewritten.declaration {
        DeclarationView::Routine(routine) => routine_text(routine),
        DeclarationView::DataRecord(record) => data_text(
            record.source,
            record.scope,
            rewritten.companions,
        ),
        DeclarationView::TaggedUnion(union) => data_text(
            union.source,
            union.scope,
            rewritten.companions,
        ),
        DeclarationView::CapabilityContract(contract) => block_text(
            contract.heading,
            contract.preamble,
            contract.members,
        ),
        DeclarationView::ContractImplementation(block) => block_text(
            block.heading,
            block.preamble,
            block.members,
        ),
        DeclarationView::Other(text) => text,
    }
}

/// Hands the declaration to the transformer for its shape.
pub fn transform(declaration: DeclarationNode) -> (r: Rewritten)
    ensures
        r.deep_view() == rewritten_of(declaration.deep_view()),
{
    match declaration {
        DeclarationNode::Routine(routine) => {
            let companions: Vec<Constructor> = Vec::new();
            assert(companions.deep_view() =~= Seq::<ConstructorView>::empty());
            Rewritten { declaration: DeclarationNode::Routine(wrap_function(routine)), companions }
        },
        DeclarationNode::DataRecord(record) => {
            let (record, constructor) = wrap_struct(record);
            let mut companions: Vec<Constructor> = Vec::new();
            companions.push(constructor);
            assert(companions.deep_view() =~= seq![record_constructor_of(record.deep_view())]);
            Rewritten { declaration: DeclarationNode::DataRecord(record), companions }
        },
        DeclarationNode::TaggedUnion(union) => {
            let (union, companions) = wrap_enum(union);
            Rewritten { declaration: DeclarationNode::TaggedUnion(union), companions }
        },
        DeclarationNode::CapabilityContract(contract) => {
            let companions: Vec<Constructor> = Vec::new();
            assert(companions.deep_view() =~= Seq::<ConstructorView>::empty());
            Rewritten {
                declaration: DeclarationNode::CapabilityContract(wrap_trait(contract)),
                companions,
            }
        },
        DeclarationNode::ContractImplementation(block) => {
            let companions: Vec<Constructor> = Vec::new();
            assert(companions.deep_view() =~= Seq::<ConstructorView>::empty());
            Rewritten {
                declaration: DeclarationNode::ContractImplementation(wrap_impl(block)),
                companions,
            }
        },
        DeclarationNode::Other(text) => {
            let companions: Vec<Constructor> = Vec::new();
            assert(companions.deep_view() =~= Seq::<ConstructorView>::empty());
            Rewritten { declaration: DeclarationNode::Other(text), companions }
        },
    }
}

/// Writes a rewritten declaration as one text.
pub fn emit(rewritten: &Rewritten) -> (r: String)
    ensures
        r@ == emitted_text(rewritten.deep_view()),
{
    match &rewritten.declaration {
        DeclarationNode::Routine(routine) => emit_routine(routine),
        DeclarationNode::DataRecord(record) => emit_data(
            record.source.as_str(),
            &record.scope,
            &rewritten.companions,
        ),
        DeclarationNode::TaggedUnion(union) => emit_data(
            union.source.as_str(),
            &union.scope,
            &rewritten.companions,
        ),
        DeclarationNode::CapabilityContract(contract) => emit_contract(contract),
        DeclarationNode::ContractImplementation(block) => emit_implementation(block),
        DeclarationNode::Other(text) => text.clone(),
    }
}

/// A declaration of a shape that no transformer handles comes out character
/// for character as it was given.
pub proof fn law_passthrough(text: Seq<char>)
    ensures
        emitted_text(rewritten_of(DeclarationView::Other(text))) == text,
{
}

/// A data type is handed on as it was given, and its text comes out first,
/// character for character, ahead of the block of its constructors.
pub proof fn law_data_kept(declaration: DeclarationView)
    requires
        declaration is DataRecord || declaration is TaggedUnion,
    ensures
        rewritten_of(declaration).declaration == declaration,
        declaration matches DeclarationView::DataRecord(record) ==> {
            &&& rewritten_of(declaration).companions.len() == 1
            &&& emitted_text(rewritten_of(declaration)).len() >= record.source.len()
            &&& emitted_text(rewritten_of(declaration)).subrange(0, record.source.len() as int)
                == record.source
        },
        declaration matches DeclarationView::TaggedUnion(union) ==> {
            &&& rewritten_of(declaration).companions.len() == union.variants.len()
            &&& emitted_text(rewritten_of(declaration)).len() >= union.source.len()
            &&& emitted_text(rewritten_of(declaration)).subrange(0, union.source.len() as int)
                == union.source
        },
{
    match declaration {
        DeclarationView::DataRecord(record) => {
            assert(emitted_text(rewritten_of(declaration)).subrange(0, record.source.len() as int)
                =~= record.source);
        },
        DeclarationView::TaggedUnion(union) => {
            assert(emitted_text(rewritten_of(declaration)).subrange(0, union.source.len() as int)
                =~= union.source);
        },
        _ => {},
    }
}

/// A routine comes out as its signature, unchanged, followed by a single
/// block that holds the body it had under the elevated-trust marker.
pub proof fn law_routine_text(routine: RoutineView)
    ensures
        emitted_text(rewritten_of(DeclarationView::Routine(routine))) == run_text(
            routine.signature,
        ) + " "@ + (wrap_opening() + routine.body + wrap_closing()),
{
}

} // verus!
