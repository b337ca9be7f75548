//! The transformer for capability contracts.

use crate::member::{
    elevate_member, elevated_member, elevated_signature, lemma_signature_is_elevated,
    signature_is_elevated, wrapped_optional,
};
use crate::model::{Contract, ContractView, Member, MemberView};
use crate::token::{elevate, elevated, lemma_elevate_is_elevated, mark, marker_text, TokenView};
use vstd::prelude::*;

verus! {

/// The slot of a contract's heading lies before `auto`, or before `trait`
/// where the contract is not an automatic one.
pub open spec fn elevated_contract_heading(heading: Seq<TokenView>) -> Seq<TokenView> {
    elevate(heading, "auto"@, "trait"@)
}

/// Each member of a contract transformed, in the order of the members.
pub open spec fn elevated_members(members: Seq<MemberView>) -> Seq<MemberView> {
    Seq::new(members.len(), |i: int| elevated_member(members[i]))
}

/// The contract after the transformation.
pub open spec fn wrapped_contract(contract: ContractView) -> ContractView {
    ContractView {
        heading: elevated_contract_heading(contract.heading),
        preamble: contract.preamble,
        members: elevated_members(contract.members),
    }
}

/// Marks the contract and the signature of each of its operations as
/// requiring an elevated-trust context, and wraps each default body.
pub fn wrap_trait(contract: Contract) -> (r: Contract)
    ensures
        r.deep_view() == wrapped_contract(contract.deep_view()),
{
    let Contract { heading, preamble, members } = contract;
    let ghost given = members.deep_view();
    let mut out: Vec<Member> = Vec::new();
    for member in it: members
        invariant
            it.seq().len() == given.len(),
            forall|i: int| 0 <= i < given.len() ==> (#[trigger] it.seq()[i]).deep_view() == given[i],
            out.len() == it.index(),
            forall|i: int|
                0 <= i < out.len() ==> (#[trigger] out[i]).deep_view() == elevated_member(given[i]),
    {
        out.push(elevate_member(member));
    }
    assert(out.deep_view() =~= elevated_members(given));
    Contract { heading: mark(heading, "auto", "trait"), preamble, members: out }
}

/// Whether the marker stands in the slot of a contract's heading.
pub open spec fn contract_is_elevated(heading: Seq<TokenView>) -> bool {
    elevated(heading, "auto"@, "trait"@)
}

/// After the transformation the contract carries the marker, the members keep
/// their number and order, the signature of every operation carries the
/// marker, an operation that had a default body has that body wrapped, an
/// operation that had none still has none, and every other member is unchanged.
pub proof fn law_contract(contract: ContractView)
    ensures
        contract_is_elevated(wrapped_contract(contract).heading),
        wrapped_contract(contract).members.len() == contract.members.len(),
        forall|i: int|
            #![trigger wrapped_contract(contract).members[i]]
            0 <= i < contract.members.len() ==> match contract.members[i] {
                MemberView::Operation(operation) => {
                    &&& wrapped_contract(contract).members[i] is Operation
                    &&& signature_is_elevated(
                        wrapped_contract(contract).members[i]->Operation_0.signature,
                    )
                    &&& wrapped_contract(contract).members[i]->Operation_0.signature
                        == elevated_signature(operation.signature)
                    &&& wrapped_contract(contract).members[i]->Operation_0.body
                        == wrapped_optional(operation.body)
                    &&& operation.body is None ==> wrapped_contract(
                        contract,
                    ).members[i]->Operation_0.body is None
                },
                MemberView::Verbatim(tokens) => wrapped_contract(contract).members[i]
                    == contract.members[i],
            },
{
    reveal_strlit("auto");
    reveal_strlit("trait");
    reveal_strlit("unsafe");
    assert("auto"@ != marker_text()) by {
        assert("auto"@.len() != "unsafe"@.len());
    }
    assert("trait"@ != marker_text()) by {
        assert("trait"@.len() != "unsafe"@.len());
    }
    lemma_elevate_is_elevated(contract.heading, "auto"@, "trait"@);
    assert forall|i: int|
        #![trigger wrapped_contract(contract).members[i]]
        0 <= i < contract.members.len() && contract.members[i] is Operation implies signature_is_elevated(
        wrapped_contract(contract).members[i]->Operation_0.signature,
    ) by {
        lemma_signature_is_elevated(contract.members[i]->Operation_0.signature);
    }
}

} // verus!
