//! The transformer for implementation blocks.

use crate::member::{wrap_member, wrapped_member, wrapped_optional};
use crate::model::{Implementation, ImplementationView, Member, MemberView};
use crate::token::{elevate, elevated, lemma_elevate_is_elevated, mark, marker_text, TokenView};
use vstd::prelude::*;

verus! {

/// The slot of an implementation's heading lies before `impl`.
pub open spec fn elevated_implementation_heading(heading: Seq<TokenView>) -> Seq<TokenView> {
    elevate(heading, "impl"@, "impl"@)
}

/// Whether the marker stands in the slot of an implementation's heading.
pub open spec fn implementation_is_elevated(heading: Seq<TokenView>) -> bool {
    elevated(heading, "impl"@, "impl"@)
}

/// Each member of an implementation transformed, in the order of the members.
pub open spec fn wrapped_members(members: Seq<MemberView>) -> Seq<MemberView> {
    Seq::new(members.len(), |i: int| wrapped_member(members[i]))
}

/// The implementation after the transformation: the heading carries the
/// marker if and only if the block is bound to a contract or carried it before.
pub open spec fn wrapped_implementation(block: ImplementationView) -> ImplementationView {
    ImplementationView {
        bound: block.bound,
        heading: if block.bound {
            elevated_implementation_heading(block.heading)
        } else {
            block.heading
        },
        preamble: block.preamble,
        members: wrapped_members(block.members),
    }
}

/// Wraps the body of each operation, and marks the block itself where it is
/// bound to a contract.
pub fn wrap_impl(block: Implementation) -> (r: Implementation)
    ensures
        r.deep_view() == wrapped_implementation(block.deep_view()),
{
    let Implementation { bound, heading, preamble, members } = block;
    let ghost given = members.deep_view();
    let mut out: Vec<Member> = Vec::new();
    for member in it: members
        invariant
            it.seq().len() == given.len(),
            forall|i: int| 0 <= i < given.len() ==> (#[trigger] it.seq()[i]).deep_view() == given[i],
            out.len() == it.index(),
            forall|i: int|
                0 <= i < out.len() ==> (#[trigger] out[i]).deep_view() == wrapped_member(given[i]),
    {
        out.push(wrap_member(member));
    }
    assert(out.deep_view() =~= wrapped_members(given));
    let heading = if bound {
        mark(heading, "impl", "impl")
    } else {
        heading
    };
    Implementation { bound, heading, preamble, members: out }
}

/// After the transformation a block that is bound to a contract carries the
/// marker, a block that is not has the heading it had, and either way the
/// members keep their number and order, each operation has its signature as
/// it was and its body wrapped, and every other member is unchanged.
pub proof fn law_implementation(block: ImplementationView)
    ensures
        block.bound ==> implementation_is_elevated(wrapped_implementation(block).heading),
        !block.bound ==> wrapped_implementation(block).heading == block.heading,
        wrapped_implementation(block).members.len() == block.members.len(),
        forall|i: int|
            #![trigger wrapped_implementation(block).members[i]]
            0 <= i < block.members.len() ==> match block.members[i] {
                MemberView::Operation(operation) => {
                    &&& wrapped_implementation(block).members[i] is Operation
                    &&& wrapped_implementation(block).members[i]->Operation_0.signature
                        == operation.signature
                    &&& wrapped_implementation(block).members[i]->Operation_0.body
                        == wrapped_optional(operation.body)
                },
                MemberView::Verbatim(tokens) => wrapped_implementation(block).members[i]
                    == block.members[i],
            },
{
    if block.bound {
        reveal_strlit("impl");
        reveal_strlit("unsafe");
        assert("impl"@ != marker_text()) by {
            assert("impl"@.len() != "unsafe"@.len());
        }
        lemma_elevate_is_elevated(block.heading, "impl"@, "impl"@);
    }
}

} // verus!
