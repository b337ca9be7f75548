//! The transformer for routines, and the wrapping of a body that the
//! transformers for contracts and implementations share with it.

use crate::model::{Routine, RoutineView};
use vstd::prelude::*;

verus! {

/// What is written before a body to wrap it.
pub open spec fn wrap_opening() -> Seq<char> {
    "{ unsafe "@
}

/// What is written after a body to wrap it.
pub open spec fn wrap_closing() -> Seq<char> {
    " }"@
}

/// A single block that holds nothing but `body` under the elevated-trust marker.
pub open spec fn wrapped_body(body: Seq<char>) -> Seq<char> {
    wrap_opening() + body + wrap_closing()
}

/// The routine with its body wrapped and everything else as it was.
pub open spec fn wrapped_routine(routine: RoutineView) -> RoutineView {
    RoutineView { signature: routine.signature, body: wrapped_body(routine.body) }
}

/// Wraps a body. Every text is accepted, the empty one too.
pub fn wrap_body(body: &str) -> (r: String)
    ensures
        r@ == wrapped_body(body@),
{
    let mut out = String::from_str("{ unsafe ");
    out.append(body);
    out.append(" }");
    out
}

/// Replaces the body of the routine by a single block that wraps it. The
/// tokens before the body are handed back as they came.
pub fn wrap_function(routine: Routine) -> (r: Routine)
    ensures
        r.signature == routine.signature,
        r.deep_view() == wrapped_routine(routine.deep_view()),
{
    let body = wrap_body(routine.body.as_str());
    Routine { signature: routine.signature, body }
}

/// A wrapped body is the opening, then the body that was given, character for
/// character, then the closing, and nothing else.
pub proof fn law_body_kept(body: Seq<char>)
    ensures
        wrapped_body(body).len() == wrap_opening().len() + body.len() + wrap_closing().len(),
        wrapped_body(body).subrange(0, wrap_opening().len() as int) == wrap_opening(),
        wrapped_body(body).subrange(
            wrap_opening().len() as int,
            (wrap_opening().len() + body.len()) as int,
        ) == body,
        wrapped_body(body).subrange(
            (wrap_opening().len() + body.len()) as int,
            wrapped_body(body).len() as int,
        ) == wrap_closing(),
{
    let whole = wrapped_body(body);
    let start = wrap_opening().len() as int;
    assert(whole.subrange(0, start) =~= wrap_opening());
    assert(whole.subrange(start, start + body.len()) =~= body);
    assert(whole.subrange(start + body.len(), whole.len() as int) =~= wrap_closing());
}

/// Transforming a routine keeps its signature and wraps exactly its body.
pub proof fn law_routine(routine: RoutineView)
    ensures
        wrapped_routine(routine).signature == routine.signature,
        wrapped_routine(routine).body == wrap_opening() + routine.body + wrap_closing(),
{
}

} // verus!
