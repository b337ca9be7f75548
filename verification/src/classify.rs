//! The classifier: from the text of a declaration to the declaration as a
//! plain value, tagged with its shape.

use crate::model::{
    Contract, ContractView, DeclarationNode, DeclarationView, Implementation, ImplementationView,
    MalformedDeclaration, Member, MemberOperation, MemberOperationView, MemberView, Record, RecordView, Routine,
    RoutineView, TaggedUnion, TaggedUnionView, VariantSpec, VariantView,
};
use crate::syntax::{
    contract_attributes, contract_member_list, contract_members, contract_metadata,
    contract_stream, contract_tokens, field_list_specs, field_list_style, field_specs,
    field_style, implementation_attributes, implementation_bound, implementation_is_bound,
    implementation_member_list, implementation_members, implementation_metadata,
    implementation_stream, implementation_tokens, parse_declaration, parsed, record_field_list,
    record_fields, record_scope, record_scope_of, routine_stream, routine_tokens, stream_tokens,
    token_list, union_scope, union_scope_of, union_variant_list, union_variants,
    MemberSyntax, Metadata, MetadataView, Syntax,
    VariantSyntax, VariantSyntaxView,
};
use crate::token::{Token, TokenView};
use vstd::prelude::*;

verus! {

/// Whether a token is a block between braces.
pub open spec fn opens_block(text: Seq<char>) -> bool {
    text.len() > 0 && text[0] == '{'
}

/// A routine from its tokens: the last token is the body, the tokens before
/// it are the signature.
pub open spec fn routine_of(tokens: Seq<TokenView>) -> RoutineView {
    if tokens.len() == 0 {
        RoutineView { signature: Seq::empty(), body: Seq::empty() }
    } else {
        RoutineView { signature: tokens.drop_last(), body: tokens.last().text }
    }
}

/// A member from its tokens. An operation whose last token is a block has
/// that block for its body; an operation that ends otherwise has no body.
pub open spec fn member_of(operation: bool, tokens: Seq<TokenView>) -> MemberView {
    if !operation {
        MemberView::Verbatim(tokens)
    } else if tokens.len() > 0 && opens_block(tokens.last().text) {
        MemberView::Operation(
            MemberOperationView { signature: tokens.drop_last(), body: Some(tokens.last().text) },
        )
    } else {
        MemberView::Operation(MemberOperationView { signature: tokens, body: None })
    }
}

/// The heading of a contract or of an implementation: all of its tokens but
/// the last, which holds the braces and the members.
pub open spec fn heading_of(tokens: Seq<TokenView>) -> Seq<TokenView> {
    if tokens.len() == 0 {
        tokens
    } else {
        tokens.drop_last()
    }
}

/// The texts of the metadata that is written inside the braces, in order.
pub open spec fn inner_texts(metadata: Seq<MetadataView>) -> Seq<Seq<char>>
    decreases metadata.len(),
{
    if metadata.len() == 0 {
        Seq::empty()
    } else if metadata.last().inner {
        inner_texts(metadata.drop_last()).push(metadata.last().text)
    } else {
        inner_texts(metadata.drop_last())
    }
}

/// The members of a contract or of an implementation, in order.
pub open spec fn members_of(list: Seq<MemberSyntax>) -> Seq<MemberView> {
    Seq::new(list.len(), |i: int| member_of(list[i].operation, stream_tokens(list[i].stream)))
}

/// A variant with its fields.
pub open spec fn variant_of(variant: VariantSyntaxView) -> VariantView {
    VariantView {
        name: variant.name,
        style: field_list_style(variant.fields),
        fields: field_list_specs(variant.fields),
    }
}

/// The variants of a tagged union, in order.
pub open spec fn variants_of(list: Seq<VariantSyntaxView>) -> Seq<VariantView> {
    Seq::new(list.len(), |i: int| variant_of(list[i]))
}

/// The declaration that a parsed item stands for. `source` is the text
/// that was parsed; a data type and a declaration of any other shape keep it.
pub open spec fn declaration_of(syntax: Syntax, source: Seq<char>) -> DeclarationView {
    match syntax {
        Syntax::Routine(item) => DeclarationView::Routine(
            routine_of(stream_tokens(routine_tokens(item))),
        ),
        Syntax::Record(item) => DeclarationView::DataRecord(
            RecordView {
                source,
                scope: record_scope_of(item),
                style: field_list_style(record_field_list(item)),
                fields: field_list_specs(record_field_list(item)),
            },
        ),
        Syntax::Union(item) => DeclarationView::TaggedUnion(
            TaggedUnionView {
                source,
                scope: union_scope_of(item),
                variants: variants_of(union_variant_list(item)),
            },
        ),
        Syntax::Contract(item) => DeclarationView::CapabilityContract(
            ContractView {
                heading: heading_of(stream_tokens(contract_tokens(item))),
                preamble: inner_texts(contract_metadata(item)),
                members: members_of(contract_member_list(item)),
            },
        ),
        Syntax::Implementation(item) => DeclarationView::ContractImplementation(
            ImplementationView {
                bound: implementation_bound(item),
                heading: heading_of(stream_tokens(implementation_tokens(item))),
                preamble: inner_texts(implementation_metadata(item)),
                members: members_of(implementation_member_list(item)),
            },
        ),
        Syntax::Other => DeclarationView::Other(source),
    }
}

/// Splits the tokens of a routine into signature and body.
pub fn routine_from(tokens: Vec<Token>) -> (r: Routine)
    ensures
        r.deep_view() == routine_of(tokens.deep_view()),
{
    let mut signature = tokens;
    match signature.pop() {
        Some(last) => {
            assert(signature.deep_view() =~= tokens.deep_view().drop_last());
            Routine { signature, body: last.text }
        },
        None => {
            assert(signature.deep_view() =~= Seq::<TokenView>::empty());
            Routine { signature, body: String::new() }
        },
    }
}

/// Tells whether a token is a block between braces.
pub fn is_block(token: &Token) -> (r: bool)
    ensures
        r == opens_block(token.text@),
{
    !token.text.as_str().is_empty() && token.text.as_str().get_char(0) == '{'
}

/// Builds a member from its tokens.
pub fn member_from(operation: bool, tokens: Vec<Token>) -> (r: Member)
    ensures
        r.deep_view() == member_of(operation, tokens.deep_view()),
{
    if !operation {
        Member::Verbatim(tokens)
    } else if tokens.len() > 0 && is_block(&tokens[tokens.len() - 1]) {
        let mut signature = tokens;
        let last = signature.pop();
        assert(signature.deep_view() =~= tokens.deep_view().drop_last());
        match last {
            Some(block) => Member::Operation(MemberOperation { signature, body: Some(block.text) }),
            None => Member::Operation(MemberOperation { signature, body: None }),
        }
    } else {
        Member::Operation(MemberOperation { signature: tokens, body: None })
    }
}

/// Drops the last token, which holds the braces, from the tokens of a
/// contract or of an implementation.
pub fn heading_from(tokens: Vec<Token>) -> (r: Vec<Token>)
    ensures
        r.deep_view() == heading_of(tokens.deep_view()),
{
    let mut heading = tokens;
    heading.pop();
    assert(heading.deep_view() =~= heading_of(tokens.deep_view()));
    heading
}

/// Keeps the metadata that is written inside the braces.
pub fn preamble_from(metadata: &Vec<Metadata>) -> (r: Vec<String>)
    ensures
        r.deep_view() == inner_texts(metadata.deep_view()),
{
    let mut out: Vec<String> = Vec::new();
    let mut done: usize = 0;
    while done < metadata.len()
        invariant
            done <= metadata.len(),
            out.deep_view() == inner_texts(metadata.deep_view().take(done as int)),
        decreases metadata.len() - done,
    {
        let ghost before = out.deep_view();
        let ghost after = metadata.deep_view().take(done + 1);
        assert(after.drop_last() =~= metadata.deep_view().take(done as int));
        assert(after.last() == metadata[done as int].deep_view());
        if metadata[done].inner {
            out.push(metadata[done].text.clone());
            assert(out.deep_view() =~= before.push(metadata[done as int].text@));
        }
        done = done + 1;
    }
    assert(metadata.deep_view().take(done as int) =~= metadata.deep_view());
    out
}

fn members_from(list: Vec<MemberSyntax>) -> (r: Vec<Member>)
    ensures
        r.deep_view() == members_of(list@),
{
    let ghost given = list@;
    let mut out: Vec<Member> = Vec::new();
    for member in it: list
        invariant
            it.seq() == given,
            out.len() == it.index(),
            forall|i: int|
                0 <= i < out.len() ==> (#[trigger] out[i]).deep_view() == member_of(
                    given[i].operation,
                    stream_tokens(given[i].stream),
                ),
    {
        let MemberSyntax { operation, stream } = member;
        out.push(member_from(operation, token_list(stream)));
    }
    assert(out.deep_view() =~= members_of(given));
    out
}

fn variants_from(list: &Vec<VariantSyntax>) -> (r: Vec<VariantSpec>)
    ensures
        r.deep_view() == variants_of(list.deep_view()),
{
    let mut out: Vec<VariantSpec> = Vec::new();
    let mut done: usize = 0;
    while done < list.len()
        invariant
            done <= list.len(),
            out.len() == done,
            forall|i: int|
                0 <= i < done ==> (#[trigger] out[i]).deep_view() == variant_of(
                    list[i].deep_view(),
                ),
        decreases list.len() - done,
    {
        let variant = &list[done];
        out.push(
            VariantSpec {
                name: variant.name.clone(),
                style: field_style(&variant.fields),
                fields: field_specs(&variant.fields),
            },
        );
        done = done + 1;
    }
    assert(out.deep_view() =~= variants_of(list.deep_view()));
    out
}

/// Reads a parsed item into the declaration that it stands for.
pub fn declaration_from(syntax: &Syntax, source: &str) -> (r: DeclarationNode)
    ensures
        r.deep_view() == declaration_of(*syntax, source@),
{
    match syntax {
        Syntax::Routine(item) => DeclarationNode::Routine(
            routine_from(token_list(routine_stream(item))),
        ),
        Syntax::Record(item) => {
            let fields = record_fields(item);
            DeclarationNode::DataRecord(
                Record {
                    source: String::from_str(source),
                    scope: record_scope(item),
                    style: field_style(fields),
                    fields: field_specs(fields),
                },
            )
        },
        Syntax::Union(item) => {
            let variants = union_variants(item);
            DeclarationNode::TaggedUnion(
                TaggedUnion {
                    source: String::from_str(source),
                    scope: union_scope(item),
                    variants: variants_from(&variants),
                },
            )
        },
        Syntax::Contract(item) => {
            let metadata = contract_attributes(item);
            DeclarationNode::CapabilityContract(
                Contract {
                    heading: heading_from(token_list(contract_stream(item))),
                    preamble: preamble_from(&metadata),
                    members: members_from(contract_members(item)),
                },
            )
        },
        Syntax::Implementation(item) => {
            let metadata = implementation_attributes(item);
            DeclarationNode::ContractImplementation(
                Implementation {
                    bound: implementation_is_bound(item),
                    heading: heading_from(token_list(implementation_stream(item))),
                    preamble: preamble_from(&metadata),
                    members: members_from(implementation_members(item)),
                },
            )
        },
        Syntax::Other => DeclarationNode::Other(String::from_str(source)),
    }
}

/// Parses `text` as a single declaration. A text that is no declaration at
/// all is refused; every declaration is accepted, whatever its shape.
pub fn classify(text: &str) -> (r: Result<DeclarationNode, MalformedDeclaration>)
    ensures
        match parsed(text@) {
            Ok(syntax) => r is Ok && r->Ok_0.deep_view() == declaration_of(syntax, text@),
            Err(error) => r is Err && r->Err_0.deep_view() == error,
        },
{
    match parse_declaration(text) {
        Ok(syntax) => Ok(declaration_from(&syntax, text)),
        Err(error) => Err(error),
    }
}

} // verus!
