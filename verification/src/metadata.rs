//! The records that a conversion produces, and their mathematical models.

use vstd::prelude::*;

verus! {

/// A named piece of data that a variant carries.
#[derive(Debug, Clone, PartialEq, Eq)]
pub struct Field {
    pub name: String,
    pub ty: String,
    pub docstring: Option<String>,
}

/// Model of a [`Field`].
pub struct FieldView {
    pub name: Seq<char>,
    pub ty: Seq<char>,
    pub docstring: Option<Seq<char>>,
}

impl View for Field {
    type V = FieldView;

    open spec fn view(&self) -> FieldView {
        FieldView {
            name: self.name@,
            ty: self.ty@,
            docstring: self.docstring.deep_view(),
        }
    }
}

impl DeepView for Field {
    type V = FieldView;

    open spec fn deep_view(&self) -> FieldView {
        self@
    }
}

/// The integer that a variant is given as its discriminant, in the form in
/// which it was written: without a sign or with one.
#[derive(Debug, Clone, Copy, PartialEq, Eq, Structural)]
pub enum Discriminant {
    Unsigned(u64),
    Signed(i64),
}

/// One alternative of an enumeration.
#[derive(Debug, Clone, PartialEq, Eq)]
pub struct Variant {
    pub name: String,
    pub discr: Option<Discriminant>,
    pub fields: Vec<Field>,
    pub docstring: Option<String>,
}

/// Model of a [`Variant`].
pub struct VariantView {
    pub name: Seq<char>,
    pub discr: Option<Discriminant>,
    pub fields: Seq<FieldView>,
    pub docstring: Option<Seq<char>>,
}

impl View for Variant {
    type V = VariantView;

    open spec fn view(&self) -> VariantView {
        VariantView {
            name: self.name@,
            discr: self.discr,
            fields: self.fields.deep_view(),
            docstring: self.docstring.deep_view(),
        }
    }
}

impl DeepView for Variant {
    type V = VariantView;

    open spec fn deep_view(&self) -> VariantView {
        self@
    }
}

impl Variant {
    /// A variant that carries no data and has no discriminant of its own.
    pub fn without_data(name: String, docstring: Option<String>) -> (variant: Variant)
        ensures
            variant@ == (VariantView {
                name: name@,
                discr: None,
                fields: Seq::empty(),
                docstring: docstring.deep_view(),
            }),
    {
        let variant = Variant { name, discr: None, fields: Vec::new(), docstring };
        assert(variant.fields.deep_view() =~= Seq::empty());
        variant
    }
}

/// An enumeration: the module path of the compilation unit that declares it
/// (`module`), its name, and its variants in the order of their declaration.
#[derive(Debug, Clone, PartialEq, Eq)]
pub struct EnumMetadata {
    pub module: String,
    pub name: String,
    pub variants: Vec<Variant>,
    pub non_exhaustive: bool,
    pub docstring: Option<String>,
}

/// Model of an [`EnumMetadata`].
pub struct EnumMetadataView {
    pub module: Seq<char>,
    pub name: Seq<char>,
    pub variants: Seq<VariantView>,
    pub non_exhaustive: bool,
    pub docstring: Option<Seq<char>>,
}

impl View for EnumMetadata {
    type V = EnumMetadataView;

    open spec fn view(&self) -> EnumMetadataView {
        EnumMetadataView {
            module: self.module@,
            name: self.name@,
            variants: self.variants.deep_view(),
            non_exhaustive: self.non_exhaustive,
            docstring: self.docstring.deep_view(),
        }
    }
}

impl DeepView for EnumMetadata {
    type V = EnumMetadataView;

    open spec fn deep_view(&self) -> EnumMetadataView {
        self@
    }
}

/// A type that stands for error conditions. It wraps an enumeration; `is_flat`
/// says that its variants carry no data.
#[derive(Debug, Clone, PartialEq, Eq)]
pub enum ErrorMetadata {
    Enum { enum_: EnumMetadata, is_flat: bool },
}

/// Model of an [`ErrorMetadata`].
pub enum ErrorMetadataView {
    Enum { enum_: EnumMetadataView, is_flat: bool },
}

impl View for ErrorMetadata {
    type V = ErrorMetadataView;

    open spec fn view(&self) -> ErrorMetadataView {
        match self {
            ErrorMetadata::Enum { enum_, is_flat } => ErrorMetadataView::Enum {
                enum_: enum_@,
                is_flat: *is_flat,
            },
        }
    }
}

impl DeepView for ErrorMetadata {
    type V = ErrorMetadataView;

    open spec fn deep_view(&self) -> ErrorMetadataView {
        self@
    }
}

/// Any record that a declaration can be converted into.
#[derive(Debug, Clone, PartialEq, Eq)]
pub enum Metadata {
    Enum(EnumMetadata),
    Error(ErrorMetadata),
}

/// Model of a [`Metadata`].
pub enum MetadataView {
    Enum(EnumMetadataView),
    Error(ErrorMetadataView),
}

impl View for Metadata {
    type V = MetadataView;

    open spec fn view(&self) -> MetadataView {
        match self {
            Metadata::Enum(e) => MetadataView::Enum(e@),
            Metadata::Error(e) => MetadataView::Error(e@),
        }
    }
}

impl DeepView for Metadata {
    type V = MetadataView;

    open spec fn deep_view(&self) -> MetadataView {
        self@
    }
}

} // verus!
