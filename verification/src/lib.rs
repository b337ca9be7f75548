//! Rewrites a single declaration so that its bodies run in an elevated-trust
//! context, and synthesizes unchecked constructors for data types.
//!
//! One call handles one declaration, given as text, and gives one text back.
//! A routine has its body wrapped. A data record and a tagged union are kept
//! and followed by a block of constructors. A capability contract is marked,
//! together with the signatures of its operations, and its default bodies are
//! wrapped. An implementation has its bodies wrapped and is marked where it
//! is bound to a contract. Any other declaration comes back unchanged.

use vstd::prelude::*;

pub mod classify;
pub mod constructor;
pub mod contract;
pub mod emit;
pub mod implementation;
pub mod member;
pub mod model;
pub mod naming;
pub mod record;
pub mod rewrite;
pub mod routine;
pub mod syntax;
pub mod tagged_union;
pub mod token;

use crate::classify::{classify, declaration_of};
use crate::rewrite::{emit, emitted_text, rewritten_of, transform};
use crate::model::{MalformedDeclaration, MalformedView};
use crate::syntax::{parsed, Syntax};

verus! {

/// Rewrites the declaration written in `input`. The arguments of the
/// annotation are not looked at.
///
/// The call fails exactly when `input` is no declaration. Otherwise it gives
/// the text of what the transformer for the declaration's shape produces; for
/// a declaration of a shape that has no transformer that is `input` itself.
pub fn noble(_args: &str, input: &str) -> (r: Result<String, MalformedDeclaration>)
    ensures
        match parsed(input@) {
            Ok(syntax) => r is Ok && r->Ok_0@ == emitted_text(
                rewritten_of(declaration_of(syntax, input@)),
            ),
            Err(error) => r is Err && r->Err_0.deep_view() == error,
        },
        parsed(input@) == Ok::<Syntax, MalformedView>(Syntax::Other) ==> r is Ok
            && r->Ok_0@ == input@,
{
    match classify(input) {
        Ok(declaration) => {
            let rewritten = transform(declaration);
            Ok(emit(&rewritten))
        },
        Err(error) => Err(error),
    }
}

} // verus!
