//! The emitter: from a rewritten declaration to its text.

use crate::model::{
    Constructor, ConstructorView, Contract, FieldStyle, Implementation, Member,
    MemberOperationView, MemberView, Parameter, ParameterView, Routine, RoutineView, Scope,
    ScopeView,
};
use crate::token::{join, run_text, Token, TokenView};
use vstd::prelude::*;

verus! {

/// `part` after a space, or nothing where `part` is empty.
pub open spec fn lead(part: Seq<char>) -> Seq<char> {
    if part.len() == 0 {
        Seq::empty()
    } else {
        " "@ + part
    }
}

/// The parts in order, a comma and a space between two neighbours.
pub open spec fn listed(parts: Seq<Seq<char>>) -> Seq<char>
    decreases parts.len(),
{
    if parts.len() == 0 {
        Seq::empty()
    } else if parts.len() == 1 {
        parts[0]
    } else {
        listed(parts.drop_last()) + ", "@ + parts.last()
    }
}

/// The parts in order, a space before each.
pub open spec fn spaced(parts: Seq<Seq<char>>) -> Seq<char>
    decreases parts.len(),
{
    if parts.len() == 0 {
        Seq::empty()
    } else {
        spaced(parts.drop_last()) + " "@ + parts.last()
    }
}

/// A routine: its signature, a space, its body.
pub open spec fn routine_text(routine: RoutineView) -> Seq<char> {
    run_text(routine.signature) + " "@ + routine.body
}

/// An operation: its signature and, after a space, its body if it has one.
pub open spec fn operation_text(operation: MemberOperationView) -> Seq<char> {
    match operation.body {
        Some(body) => run_text(operation.signature) + " "@ + body,
        None => run_text(operation.signature),
    }
}

/// A member as it is written inside the braces of its block.
pub open spec fn member_text(member: MemberView) -> Seq<char> {
    match member {
        MemberView::Operation(operation) => operation_text(operation),
        MemberView::Verbatim(tokens) => run_text(tokens),
    }
}

/// The text of each member, in the order of the members.
pub open spec fn member_texts(members: Seq<MemberView>) -> Seq<Seq<char>> {
    Seq::new(members.len(), |i: int| member_text(members[i]))
}

/// A contract or an implementation: the heading, then between braces the
/// preamble and the members, in their order.
pub open spec fn block_text(
    heading: Seq<TokenView>,
    preamble: Seq<Seq<char>>,
    members: Seq<MemberView>,
) -> Seq<char> {
    run_text(heading) + " {"@ + spaced(preamble) + spaced(member_texts(members)) + " }"@
}

/// A parameter: its name, a colon, its type.
pub open spec fn parameter_text(parameter: ParameterView) -> Seq<char> {
    parameter.name + ": "@ + parameter.ty
}

/// The text of each parameter, in order.
pub open spec fn parameter_texts(parameters: Seq<ParameterView>) -> Seq<Seq<char>> {
    Seq::new(parameters.len(), |i: int| parameter_text(parameters[i]))
}

/// The name of each parameter, in order.
pub open spec fn parameter_names(parameters: Seq<ParameterView>) -> Seq<Seq<char>> {
    Seq::new(parameters.len(), |i: int| parameters[i].name)
}

/// The field list of the value that a constructor builds: each field filled
/// from the parameter that stands for it.
pub open spec fn arguments_text(style: FieldStyle, parameters: Seq<ParameterView>) -> Seq<char> {
    match style {
        FieldStyle::Named => " { "@ + listed(parameter_names(parameters)) + " }"@,
        FieldStyle::Positional => "("@ + listed(parameter_names(parameters)) + ")"@,
        FieldStyle::Unit => Seq::empty(),
    }
}

/// The expression that builds the value: what is built, followed by its field list.
pub open spec fn built_value(constructor: ConstructorView) -> Seq<char> {
    built_target(constructor.variant) + arguments_text(constructor.style, constructor.parameters)
}

/// What is built: `Self` for a record, `Self::` and the variant's name for a variant.
pub open spec fn built_target(variant: Option<Seq<char>>) -> Seq<char> {
    match variant {
        None => "Self"@,
        Some(name) => "Self::"@ + name,
    }
}

/// What a constructor returns: for a record the value under the
/// elevated-trust marker, for a variant the value itself.
pub open spec fn constructor_body(constructor: ConstructorView) -> Seq<char> {
    match constructor.variant {
        None => "unsafe { "@ + built_value(constructor) + " }"@,
        Some(_) => built_value(constructor),
    }
}

/// What precedes the constructor: for a record a line of documentation.
pub open spec fn constructor_metadata(constructor: ConstructorView) -> Seq<char> {
    match constructor.variant {
        None => "#[doc = \" Unsafe constructor\"] "@,
        Some(_) => Seq::empty(),
    }
}

/// A constructor: public, callable only from an elevated-trust context,
/// returning `Self`.
pub open spec fn constructor_text(constructor: ConstructorView) -> Seq<char> {
    constructor_metadata(constructor) + "pub unsafe fn "@ + constructor.name + "("@ + listed(
        parameter_texts(constructor.parameters),
    ) + ") -> Self { "@ + constructor_body(constructor) + " }"@
}

/// The text of each constructor, in order.
pub open spec fn constructor_texts(constructors: Seq<ConstructorView>) -> Seq<Seq<char>> {
    Seq::new(constructors.len(), |i: int| constructor_text(constructors[i]))
}

/// The block that attaches constructors to their type.
pub open spec fn attachment_text(scope: ScopeView, constructors: Seq<ConstructorView>) -> Seq<
    char,
> {
    "impl"@ + lead(scope.impl_generics) + " "@ + scope.name + lead(scope.type_generics) + lead(
        scope.where_clause,
    ) + " {"@ + spaced(constructor_texts(constructors)) + " }"@
}

/// A data type with its constructors: the declaration as it was given, then
/// on a line of its own, so that a comment which ends the declaration does
/// not reach it, the block of constructors.
pub open spec fn data_text(
    source: Seq<char>,
    scope: ScopeView,
    constructors: Seq<ConstructorView>,
) -> Seq<char> {
    source + "\n"@ + attachment_text(scope, constructors)
}

/// Writes the parts with a comma and a space between neighbours.
pub fn list(parts: &Vec<String>) -> (r: String)
    ensures
        r@ == listed(parts.deep_view()),
{
    let mut out = String::new();
    let mut done: usize = 0;
    while done < parts.len()
        invariant
            done <= parts.len(),
            out@ == listed(parts.deep_view().take(done as int)),
        decreases parts.len() - done,
    {
        let ghost after = parts.deep_view().take(done + 1);
        assert(after.drop_last() =~= parts.deep_view().take(done as int));
        assert(after.last() == parts[done as int]@);
        if done > 0 {
            out.append(", ");
        }
        out.append(parts[done].as_str());
        assert(out@ =~= listed(after));
        done = done + 1;
    }
    assert(parts.deep_view().take(done as int) =~= parts.deep_view());
    out
}

/// Writes the parts with a space before each.
pub fn space(parts: &Vec<String>) -> (r: String)
    ensures
        r@ == spaced(parts.deep_view()),
{
    let mut out = String::new();
    let mut done: usize = 0;
    while done < parts.len()
        invariant
            done <= parts.len(),
            out@ == spaced(parts.deep_view().take(done as int)),
        decreases parts.len() - done,
    {
        let ghost after = parts.deep_view().take(done + 1);
        assert(after.drop_last() =~= parts.deep_view().take(done as int));
        assert(after.last() == parts[done as int]@);
        out.append(" ");
        out.append(parts[done].as_str());
        done = done + 1;
    }
    assert(parts.deep_view().take(done as int) =~= parts.deep_view());
    out
}

fn append_lead(out: &mut String, part: &str)
    ensures
        final(out)@ == old(out)@ + lead(part@),
{
    if !part.is_empty() {
        out.append(" ");
        out.append(part);
        assert(out@ =~= old(out)@ + lead(part@));
    } else {
        assert(out@ =~= old(out)@ + lead(part@));
    }
}

/// Writes a routine.
pub fn emit_routine(routine: &Routine) -> (r: String)
    ensures
        r@ == routine_text(routine.deep_view()),
{
    let mut out = join(&routine.signature);
    out.append(" ");
    out.append(routine.body.as_str());
    out
}

/// Writes a member of a contract or of an implementation.
pub fn emit_member(member: &Member) -> (r: String)
    ensures
        r@ == member_text(member.deep_view()),
{
    match member {
        Member::Operation(operation) => {
            let mut out = join(&operation.signature);
            match &operation.body {
                Some(body) => {
                    out.append(" ");
                    out.append(body.as_str());
                    assert(out@ =~= operation_text(operation.deep_view()));
                },
                None => {
                    assert(out@ =~= operation_text(operation.deep_view()));
                },
            }
            out
        },
        Member::Verbatim(tokens) => join(tokens),
    }
}

fn emit_block(heading: &Vec<Token>, preamble: &Vec<String>, members: &Vec<Member>) -> (r: String)
    ensures
        r@ == block_text(heading.deep_view(), preamble.deep_view(), members.deep_view()),
{
    let mut texts: Vec<String> = Vec::new();
    let mut done: usize = 0;
    while done < members.len()
        invariant
            done <= members.len(),
            texts.len() == done,
            forall|i: int|
                0 <= i < done ==> (#[trigger] texts[i])@ == member_text(members[i].deep_view()),
        decreases members.len() - done,
    {
        texts.push(emit_member(&members[done]));
        done = done + 1;
    }
    assert(texts.deep_view() =~= member_texts(members.deep_view()));
    let mut out = join(heading);
    out.append(" {");
    let before = space(preamble);
    out.append(before.as_str());
    let inside = space(&texts);
    out.append(inside.as_str());
    out.append(" }");
    out
}

/// Writes a capability contract.
pub fn emit_contract(contract: &Contract) -> (r: String)
    ensures
        r@ == block_text(
            contract.deep_view().heading,
            contract.deep_view().preamble,
            contract.deep_view().members,
        ),
{
    emit_block(&contract.heading, &contract.preamble, &contract.members)
}

/// Writes an implementation block.
pub fn emit_implementation(block: &Implementation) -> (r: String)
    ensures
        r@ == block_text(
            block.deep_view().heading,
            block.deep_view().preamble,
            block.deep_view().members,
        ),
{
    emit_block(&block.heading, &block.preamble, &block.members)
}

fn emit_arguments(style: FieldStyle, parameters: &Vec<Parameter>) -> (r: String)
    ensures
        r@ == arguments_text(style, parameters.deep_view()),
{
    let mut names: Vec<String> = Vec::new();
    let mut done: usize = 0;
    while done < parameters.len()
        invariant
            done <= parameters.len(),
            names.len() == done,
            forall|i: int| 0 <= i < done ==> (#[trigger] names[i])@ == parameters[i].name@,
        decreases parameters.len() - done,
    {
        names.push(parameters[done].name.clone());
        done = done + 1;
    }
    assert(names.deep_view() =~= parameter_names(parameters.deep_view()));
    let inside = list(&names);
    match style {
        FieldStyle::Named => {
            let mut out = String::from_str(" { ");
            out.append(inside.as_str());
            out.append(" }");
            out
        },
        FieldStyle::Positional => {
            let mut out = String::from_str("(");
            out.append(inside.as_str());
            out.append(")");
            out
        },
        FieldStyle::Unit => String::new(),
    }
}

/// Writes a synthesized constructor.
pub fn emit_constructor(constructor: &Constructor) -> (r: String)
    ensures
        r@ == constructor_text(constructor.deep_view()),
{
    let mut texts: Vec<String> = Vec::new();
    let mut done: usize = 0;
    while done < constructor.parameters.len()
        invariant
            done <= constructor.parameters.len(),
            texts.len() == done,
            forall|i: int|
                0 <= i < done ==> (#[trigger] texts[i])@ == parameter_text(
                    constructor.parameters[i].deep_view(),
                ),
        decreases constructor.parameters.len() - done,
    {
        let mut text = constructor.parameters[done].name.clone();
        text.append(": ");
        text.append(constructor.parameters[done].ty.as_str());
        texts.push(text);
        done = done + 1;
    }
    assert(texts.deep_view() =~= parameter_texts(constructor.deep_view().parameters));
    let arguments = emit_arguments(constructor.style, &constructor.parameters);
    let mut out = String::new();
    match &constructor.variant {
        None => {
            out.append("#[doc = \" Unsafe constructor\"] ");
        },
        Some(_) => {},
    }
    out.append("pub unsafe fn ");
    out.append(constructor.name.as_str());
    out.append("(");
    let between = list(&texts);
    out.append(between.as_str());
    out.append(") -> Self { ");
    match &constructor.variant {
        None => {
            out.append("unsafe { ");
            out.append("Self");
            out.append(arguments.as_str());
            out.append(" }");
        },
        Some(variant) => {
            out.append("Self::");
            out.append(variant.as_str());
            out.append(arguments.as_str());
        },
    }
    out.append(" }");
    assert(out@ =~= constructor_text(constructor.deep_view()));
    out
}

/// Writes a data type, as it was given, followed by its constructors.
pub fn emit_data(source: &str, scope: &Scope, constructors: &Vec<Constructor>) -> (r: String)
    ensures
        r@ == data_text(source@, scope.deep_view(), constructors.deep_view()),
{
    let mut texts: Vec<String> = Vec::new();
    let mut done: usize = 0;
    while done < constructors.len()
        invariant
            done <= constructors.len(),
            texts.len() == done,
            forall|i: int|
                0 <= i < done ==> (#[trigger] texts[i])@ == constructor_text(
                    constructors[i].deep_view(),
                ),
        decreases constructors.len() - done,
    {
        texts.push(emit_constructor(&constructors[done]));
        done = done + 1;
    }
    assert(texts.deep_view() =~= constructor_texts(constructors.deep_view()));
    let mut out = String::from_str(source);
    out.append("\n");
    out.append("impl");
    append_lead(&mut out, scope.impl_generics.as_str());
    out.append(" ");
    out.append(scope.name.as_str());
    append_lead(&mut out, scope.type_generics.as_str());
    append_lead(&mut out, scope.where_clause.as_str());
    out.append(" {");
    let inside = space(&texts);
    out.append(inside.as_str());
    out.append(" }");
    assert(out@ =~= data_text(source@, scope.deep_view(), constructors.deep_view()));
    out
}

} // verus!
