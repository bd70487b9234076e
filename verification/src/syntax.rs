//! The declarations that a conversion reads: what the syntax tree holds of an
//! enum block and of an interface block, as plain values.

use vstd::prelude::*;

verus! {

/// One extended attribute of a declaration, as in `[NonExhaustive]` or
/// `[Throws=Oops]`.
#[derive(Debug, Clone, PartialEq, Eq)]
pub struct Attribute {
    /// The identifier that the attribute starts with.
    pub name: String,
    /// Whether the attribute is that identifier alone: no value, no
    /// identifier list and no arguments follow it.
    pub bare: bool,
}

/// Model of an [`Attribute`].
pub struct AttributeView {
    pub name: Seq<char>,
    pub bare: bool,
}

impl View for Attribute {
    type V = AttributeView;

    open spec fn view(&self) -> AttributeView {
        AttributeView { name: self.name@, bare: self.bare }
    }
}

impl DeepView for Attribute {
    type V = AttributeView;

    open spec fn deep_view(&self) -> AttributeView {
        self@
    }
}

/// One literal of an enum block, with the doc comment attached to it.
#[derive(Debug, Clone, PartialEq, Eq)]
pub struct EnumValue {
    pub docstring: Option<String>,
    pub value: String,
}

/// Model of an [`EnumValue`].
pub struct EnumValueView {
    pub docstring: Option<Seq<char>>,
    pub value: Seq<char>,
}

impl View for EnumValue {
    type V = EnumValueView;

    open spec fn view(&self) -> EnumValueView {
        EnumValueView { docstring: self.docstring.deep_view(), value: self.value@ }
    }
}

impl DeepView for EnumValue {
    type V = EnumValueView;

    open spec fn deep_view(&self) -> EnumValueView {
        self@
    }
}

/// An enum block: `[attributes]? enum identifier { values };`.
#[derive(Debug, Clone, PartialEq, Eq)]
pub struct EnumDefinition {
    pub docstring: Option<String>,
    pub attributes: Vec<Attribute>,
    pub identifier: String,
    pub values: Vec<EnumValue>,
}

/// Model of an [`EnumDefinition`].
pub struct EnumDefinitionView {
    pub docstring: Option<Seq<char>>,
    pub attributes: Seq<AttributeView>,
    pub identifier: Seq<char>,
    pub values: Seq<EnumValueView>,
}

impl View for EnumDefinition {
    type V = EnumDefinitionView;

    open spec fn view(&self) -> EnumDefinitionView {
        EnumDefinitionView {
            docstring: self.docstring.deep_view(),
            attributes: self.attributes.deep_view(),
            identifier: self.identifier@,
            values: self.values.deep_view(),
        }
    }
}

/// The kinds of interface member other than an operation.
#[derive(Debug, Clone, Copy, PartialEq, Eq, Structural)]
pub enum MemberKind {
    Const,
    Attribute,
    Constructor,
    Iterable,
    AsyncIterable,
    Maplike,
    Setlike,
    Stringifier,
}

/// One member of an interface body. An operation is held as the caller has
/// it: this library hands it on and never looks inside. Of any other member
/// the library holds its kind and the text by which the parser prints the
/// member, which a diagnostic quotes.
#[derive(Debug, Clone, PartialEq, Eq)]
pub enum InterfaceMember<Op> {
    Operation(Op),
    Other(MemberKind, String),
}

/// An interface block:
/// `[attributes]? interface identifier ( : inheritance )? { members };`.
#[derive(Debug, Clone, PartialEq, Eq)]
pub struct InterfaceDefinition<Op> {
    pub docstring: Option<String>,
    pub attributes: Vec<Attribute>,
    pub identifier: String,
    /// The interface named after the colon, where there is one.
    pub inheritance: Option<String>,
    pub members: Vec<InterfaceMember<Op>>,
}

/// Model of an [`InterfaceDefinition`]. The members stand for themselves.
pub struct InterfaceDefinitionView<Op> {
    pub docstring: Option<Seq<char>>,
    pub attributes: Seq<AttributeView>,
    pub identifier: Seq<char>,
    pub inheritance: Option<Seq<char>>,
    pub members: Seq<InterfaceMember<Op>>,
}

impl<Op> View for InterfaceDefinition<Op> {
    type V = InterfaceDefinitionView<Op>;

    open spec fn view(&self) -> InterfaceDefinitionView<Op> {
        InterfaceDefinitionView {
            docstring: self.docstring.deep_view(),
            attributes: self.attributes.deep_view(),
            identifier: self.identifier@,
            inheritance: self.inheritance.deep_view(),
            members: self.members@,
        }
    }
}

/// A declaration of either shape.
#[derive(Debug, Clone, PartialEq, Eq)]
pub enum Declaration<Op> {
    Enum(EnumDefinition),
    Interface(InterfaceDefinition<Op>),
}

/// Model of a [`Declaration`].
pub enum DeclarationView<Op> {
    Enum(EnumDefinitionView),
    Interface(InterfaceDefinitionView<Op>),
}

impl<Op> View for Declaration<Op> {
    type V = DeclarationView<Op>;

    open spec fn view(&self) -> DeclarationView<Op> {
        match self {
            Declaration::Enum(definition) => DeclarationView::Enum(definition@),
            Declaration::Interface(definition) => DeclarationView::Interface(definition@),
        }
    }
}

} // verus!
