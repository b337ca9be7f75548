//! What the transformers for contracts and for implementations do to a member.

use crate::model::{Member, MemberOperation, MemberOperationView, MemberView};
use crate::routine::{wrap_body, wrapped_body};
use crate::token::{elevate, elevated, lemma_elevate_is_elevated, mark, marker_text, TokenView};
use vstd::prelude::*;

verus! {

/// The body wrapped where there is one.
pub open spec fn wrapped_optional(body: Option<Seq<char>>) -> Option<Seq<char>> {
    match body {
        Some(text) => Some(wrapped_body(text)),
        None => None,
    }
}

/// The operation with its body wrapped, if it has one, and its signature kept.
pub open spec fn wrapped_operation(operation: MemberOperationView) -> MemberOperationView {
    MemberOperationView { signature: operation.signature, body: wrapped_optional(operation.body) }
}

/// The slot of a signature lies before `extern`, or before `fn` where the
/// signature names no calling convention.
pub open spec fn elevated_signature(signature: Seq<TokenView>) -> Seq<TokenView> {
    elevate(signature, "extern"@, "fn"@)
}

/// Whether the marker stands in the slot of a signature.
pub open spec fn signature_is_elevated(signature: Seq<TokenView>) -> bool {
    elevated(signature, "extern"@, "fn"@)
}

/// A signature that was given the marker carries it.
pub proof fn lemma_signature_is_elevated(signature: Seq<TokenView>)
    ensures
        signature_is_elevated(elevated_signature(signature)),
        elevated_signature(elevated_signature(signature)) == elevated_signature(signature),
{
    reveal_strlit("extern");
    reveal_strlit("fn");
    reveal_strlit("unsafe");
    assert("extern"@ != marker_text()) by {
        assert("extern"@[0] != "unsafe"@[0]);
    }
    assert("fn"@ != marker_text()) by {
        assert("fn"@.len() != "unsafe"@.len());
    }
    lemma_elevate_is_elevated(signature, "extern"@, "fn"@);
}

/// The operation with the marker in its signature and its body wrapped, if it
/// has one.
pub open spec fn elevated_operation(operation: MemberOperationView) -> MemberOperationView {
    MemberOperationView {
        signature: elevated_signature(operation.signature),
        body: wrapped_optional(operation.body),
    }
}

/// A member of an implementation after the transformation: an operation has
/// its body wrapped, any other member is kept.
pub open spec fn wrapped_member(member: MemberView) -> MemberView {
    match member {
        MemberView::Operation(operation) => MemberView::Operation(wrapped_operation(operation)),
        MemberView::Verbatim(tokens) => MemberView::Verbatim(tokens),
    }
}

/// A member of a contract after the transformation: an operation has the
/// marker in its signature and its body wrapped, any other member is kept.
pub open spec fn elevated_member(member: MemberView) -> MemberView {
    match member {
        MemberView::Operation(operation) => MemberView::Operation(elevated_operation(operation)),
        MemberView::Verbatim(tokens) => MemberView::Verbatim(tokens),
    }
}

fn wrap_optional(body: Option<String>) -> (r: Option<String>)
    ensures
        r.deep_view() == wrapped_optional(body.deep_view()),
{
    match body {
        Some(text) => Some(wrap_body(text.as_str())),
        None => None,
    }
}

/// Transforms a member of an implementation.
pub fn wrap_member(member: Member) -> (r: Member)
    ensures
        r.deep_view() == wrapped_member(member.deep_view()),
{
    match member {
        Member::Operation(operation) => Member::Operation(
            MemberOperation {
                signature: operation.signature,
                body: wrap_optional(operation.body),
            },
        ),
        Member::Verbatim(tokens) => Member::Verbatim(tokens),
    }
}

/// Transforms a member of a contract.
pub fn elevate_member(member: Member) -> (r: Member)
    ensures
        r.deep_view() == elevated_member(member.deep_view()),
{
    match member {
        Member::Operation(operation) => Member::Operation(
            MemberOperation {
                signature: mark(operation.signature, "extern", "fn"),
                body: wrap_optional(operation.body),
            },
        ),
        Member::Verbatim(tokens) => Member::Verbatim(tokens),
    }
}

} // verus!
