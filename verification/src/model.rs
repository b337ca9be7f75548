//! The declarations that the rewriting works on, as plain values.
//!
//! Each type comes with its mathematical value (`deep_view`), over which every
//! contract of the crate is stated.

use crate::naming::{decimal, decimal_text};
use crate::token::{Token, TokenView};
use vstd::prelude::*;

verus! {

/// The shapes of declaration that are told apart.
#[derive(Clone, Copy, Debug, PartialEq, Eq, Structural)]
pub enum Shape {
    Routine,
    DataRecord,
    TaggedUnion,
    CapabilityContract,
    ContractImplementation,
    Other,
}

/// How the fields of a record or of a variant are written.
#[derive(Clone, Copy, Debug, PartialEq, Eq, Structural)]
pub enum FieldStyle {
    /// Between braces, each with its name.
    Named,
    /// Between parentheses, told apart by position.
    Positional,
    /// No field list at all.
    Unit,
}

/// One field: its name, absent for a positional field, and its type as written.
#[derive(Clone, Debug)]
pub struct FieldSpec {
    pub name: Option<String>,
    pub ty: String,
}

pub struct FieldView {
    pub name: Option<Seq<char>>,
    pub ty: Seq<char>,
}

impl DeepView for FieldSpec {
    type V = FieldView;

    open spec fn deep_view(&self) -> FieldView {
        FieldView { name: self.name.deep_view(), ty: self.ty@ }
    }
}

/// What an implementation block for a data type is opened with: the type's
/// name, and its generic parameters in the three forms such a block needs.
#[derive(Clone, Debug)]
pub struct Scope {
    /// The identifier of the type.
    pub name: String,
    /// The parameters as declared after `impl`, bounds kept and defaults left off.
    pub impl_generics: String,
    /// The parameters as applied to the type's name.
    pub type_generics: String,
    /// The `where` clause, empty when there is none.
    pub where_clause: String,
}

pub struct ScopeView {
    pub name: Seq<char>,
    pub impl_generics: Seq<char>,
    pub type_generics: Seq<char>,
    pub where_clause: Seq<char>,
}

impl DeepView for Scope {
    type V = ScopeView;

    open spec fn deep_view(&self) -> ScopeView {
        ScopeView {
            name: self.name@,
            impl_generics: self.impl_generics@,
            type_generics: self.type_generics@,
            where_clause: self.where_clause@,
        }
    }
}

/// A routine: the tokens before its body, and the body with its braces.
#[derive(Clone, Debug)]
pub struct Routine {
    /// Metadata, visibility and signature.
    pub signature: Vec<Token>,
    /// The block that the routine runs.
    pub body: String,
}

pub struct RoutineView {
    pub signature: Seq<TokenView>,
    pub body: Seq<char>,
}

impl DeepView for Routine {
    type V = RoutineView;

    open spec fn deep_view(&self) -> RoutineView {
        RoutineView { signature: self.signature.deep_view(), body: self.body@ }
    }
}

/// A data record.
#[derive(Clone, Debug)]
pub struct Record {
    /// The declaration as it was given.
    pub source: String,
    pub scope: Scope,
    pub style: FieldStyle,
    /// The fields in the order of the declaration.
    pub fields: Vec<FieldSpec>,
}

pub struct RecordView {
    pub source: Seq<char>,
    pub scope: ScopeView,
    pub style: FieldStyle,
    pub fields: Seq<FieldView>,
}

impl DeepView for Record {
    type V = RecordView;

    open spec fn deep_view(&self) -> RecordView {
        RecordView {
            source: self.source@,
            scope: self.scope.deep_view(),
            style: self.style,
            fields: self.fields.deep_view(),
        }
    }
}

/// One variant of a tagged union.
#[derive(Clone, Debug)]
pub struct VariantSpec {
    pub name: String,
    pub style: FieldStyle,
    /// The fields in the order of the declaration.
    pub fields: Vec<FieldSpec>,
}

pub struct VariantView {
    pub name: Seq<char>,
    pub style: FieldStyle,
    pub fields: Seq<FieldView>,
}

impl DeepView for VariantSpec {
    type V = VariantView;

    open spec fn deep_view(&self) -> VariantView {
        VariantView { name: self.name@, style: self.style, fields: self.fields.deep_view() }
    }
}

/// A tagged union.
#[derive(Clone, Debug)]
pub struct TaggedUnion {
    /// The declaration as it was given.
    pub source: String,
    pub scope: Scope,
    /// The variants in the order of the declaration.
    pub variants: Vec<VariantSpec>,
}

pub struct TaggedUnionView {
    pub source: Seq<char>,
    pub scope: ScopeView,
    pub variants: Seq<VariantView>,
}

impl DeepView for TaggedUnion {
    type V = TaggedUnionView;

    open spec fn deep_view(&self) -> TaggedUnionView {
        TaggedUnionView {
            source: self.source@,
            scope: self.scope.deep_view(),
            variants: self.variants.deep_view(),
        }
    }
}

/// An operation declared in a capability contract or in an implementation.
#[derive(Clone, Debug)]
pub struct MemberOperation {
    /// Metadata, qualifiers and signature. For an operation without a body the
    /// closing `;` is the last of these tokens.
    pub signature: Vec<Token>,
    /// The body with its braces, absent for an operation that is only declared.
    pub body: Option<String>,
}

pub struct MemberOperationView {
    pub signature: Seq<TokenView>,
    pub body: Option<Seq<char>>,
}

impl DeepView for MemberOperation {
    type V = MemberOperationView;

    open spec fn deep_view(&self) -> MemberOperationView {
        MemberOperationView { signature: self.signature.deep_view(), body: self.body.deep_view() }
    }
}

/// A member of a capability contract or of an implementation.
#[derive(Clone, Debug)]
pub enum Member {
    Operation(MemberOperation),
    /// Any other member, such as an associated type or constant: its tokens.
    Verbatim(Vec<Token>),
}

pub enum MemberView {
    Operation(MemberOperationView),
    Verbatim(Seq<TokenView>),
}

impl DeepView for Member {
    type V = MemberView;

    open spec fn deep_view(&self) -> MemberView {
        match self {
            Member::Operation(operation) => MemberView::Operation(operation.deep_view()),
            Member::Verbatim(tokens) => MemberView::Verbatim(tokens.deep_view()),
        }
    }
}

/// A capability contract.
#[derive(Clone, Debug)]
pub struct Contract {
    /// The tokens before the braces: metadata, visibility, name, parameters, bounds.
    pub heading: Vec<Token>,
    /// Metadata written inside the braces, ahead of the members.
    pub preamble: Vec<String>,
    /// The members in the order of the declaration.
    pub members: Vec<Member>,
}

pub struct ContractView {
    pub heading: Seq<TokenView>,
    pub preamble: Seq<Seq<char>>,
    pub members: Seq<MemberView>,
}

impl DeepView for Contract {
    type V = ContractView;

    open spec fn deep_view(&self) -> ContractView {
        ContractView {
            heading: self.heading.deep_view(),
            preamble: self.preamble.deep_view(),
            members: self.members.deep_view(),
        }
    }
}

/// An implementation block, of a capability contract or of the type alone.
#[derive(Clone, Debug)]
pub struct Implementation {
    /// Whether the block implements a capability contract.
    pub bound: bool,
    /// The tokens before the braces.
    pub heading: Vec<Token>,
    /// Metadata written inside the braces, ahead of the members.
    pub preamble: Vec<String>,
    /// The members in the order of the declaration.
    pub members: Vec<Member>,
}

pub struct ImplementationView {
    pub bound: bool,
    pub heading: Seq<TokenView>,
    pub preamble: Seq<Seq<char>>,
    pub members: Seq<MemberView>,
}

impl DeepView for Implementation {
    type V = ImplementationView;

    open spec fn deep_view(&self) -> ImplementationView {
        ImplementationView {
            bound: self.bound,
            heading: self.heading.deep_view(),
            preamble: self.preamble.deep_view(),
            members: self.members.deep_view(),
        }
    }
}

/// One declaration, told apart by shape.
#[derive(Clone, Debug)]
pub enum DeclarationNode {
    Routine(Routine),
    DataRecord(Record),
    TaggedUnion(TaggedUnion),
    CapabilityContract(Contract),
    ContractImplementation(Implementation),
    /// A declaration of any other shape: its text as it was given.
    Other(String),
}

pub enum DeclarationView {
    Routine(RoutineView),
    DataRecord(RecordView),
    TaggedUnion(TaggedUnionView),
    CapabilityContract(ContractView),
    ContractImplementation(ImplementationView),
    Other(Seq<char>),
}

impl DeepView for DeclarationNode {
    type V = DeclarationView;

    open spec fn deep_view(&self) -> DeclarationView {
        match self {
            DeclarationNode::Routine(routine) => DeclarationView::Routine(routine.deep_view()),
            DeclarationNode::DataRecord(record) => DeclarationView::DataRecord(record.deep_view()),
            DeclarationNode::TaggedUnion(union) => DeclarationView::TaggedUnion(union.deep_view()),
            DeclarationNode::CapabilityContract(contract) => DeclarationView::CapabilityContract(
                contract.deep_view(),
            ),
            DeclarationNode::ContractImplementation(block) => {
                DeclarationView::ContractImplementation(block.deep_view())
            },
            DeclarationNode::Other(text) => DeclarationView::Other(text@),
        }
    }
}

/// The shape of a declaration's value.
pub open spec fn shape_of(declaration: DeclarationView) -> Shape {
    match declaration {
        DeclarationView::Routine(_) => Shape::Routine,
        DeclarationView::DataRecord(_) => Shape::DataRecord,
        DeclarationView::TaggedUnion(_) => Shape::TaggedUnion,
        DeclarationView::CapabilityContract(_) => Shape::CapabilityContract,
        DeclarationView::ContractImplementation(_) => Shape::ContractImplementation,
        DeclarationView::Other(_) => Shape::Other,
    }
}

impl DeclarationNode {
    /// Tells which shape the declaration has.
    pub fn shape(&self) -> (r: Shape)
        ensures
            r == shape_of(self.deep_view()),
    {
        match self {
            DeclarationNode::Routine(_) => Shape::Routine,
            DeclarationNode::DataRecord(_) => Shape::DataRecord,
            DeclarationNode::TaggedUnion(_) => Shape::TaggedUnion,
            DeclarationNode::CapabilityContract(_) => Shape::CapabilityContract,
            DeclarationNode::ContractImplementation(_) => Shape::ContractImplementation,
            DeclarationNode::Other(_) => Shape::Other,
        }
    }
}

/// Why a text is no declaration, and where in the text the parser stopped.
#[derive(Clone, Debug)]
pub struct MalformedDeclaration {
    /// The parser's message.
    pub message: String,
    /// The line of the offending token, counted from 1.
    pub line: usize,
    /// The column of the offending token, counted from 0 in characters.
    pub column: usize,
}

pub struct MalformedView {
    pub message: Seq<char>,
    pub line: nat,
    pub column: nat,
}

impl DeepView for MalformedDeclaration {
    type V = MalformedView;

    open spec fn deep_view(&self) -> MalformedView {
        MalformedView { message: self.message@, line: self.line as nat, column: self.column as nat }
    }
}

/// The refusal in one line: the message, then the line and the column.
pub open spec fn described(error: MalformedView) -> Seq<char> {
    error.message + " (line "@ + decimal(error.line) + ", column "@ + decimal(error.column) + ")"@
}

impl MalformedDeclaration {
    /// Writes the refusal in one line.
    pub fn describe(&self) -> (r: String)
        ensures
            r@ == described(self.deep_view()),
    {
        let mut out = self.message.clone();
        out.append(" (line ");
        let line = decimal_text(self.line);
        out.append(line.as_str());
        out.append(", column ");
        let column = decimal_text(self.column);
        out.append(column.as_str());
        out.append(")");
        out
    }
}

/// A parameter of a synthesized constructor.
#[derive(Clone, Debug)]
pub struct Parameter {
    pub name: String,
    pub ty: String,
}

pub struct ParameterView {
    pub name: Seq<char>,
    pub ty: Seq<char>,
}

impl DeepView for Parameter {
    type V = ParameterView;

    open spec fn deep_view(&self) -> ParameterView {
        ParameterView { name: self.name@, ty: self.ty@ }
    }
}

/// A synthesized constructor: an operation that may only be called from an
/// elevated-trust context and that builds its value from its parameters as
/// they are, without any validation.
#[derive(Clone, Debug)]
pub struct Constructor {
    pub name: String,
    /// One parameter for each field, in the order of the fields.
    pub parameters: Vec<Parameter>,
    /// How the value built lists its fields.
    pub style: FieldStyle,
    /// The variant that is built, absent for the constructor of a data record.
    pub variant: Option<String>,
}

pub struct ConstructorView {
    pub name: Seq<char>,
    pub parameters: Seq<ParameterView>,
    pub style: FieldStyle,
    pub variant: Option<Seq<char>>,
}

impl DeepView for Constructor {
    type V = ConstructorView;

    open spec fn deep_view(&self) -> ConstructorView {
        ConstructorView {
            name: self.name@,
            parameters: self.parameters.deep_view(),
            style: self.style,
            variant: self.variant.deep_view(),
        }
    }
}

} // verus!
