//! The conversions: from a declaration, in one of its four forms, to the
//! record of an enumeration or of an error.

use vstd::prelude::*;
use crate::attributes::{interpret, interpreted};
use crate::context::{ConversionContext, ConversionContextView};
use crate::docstring::{convert_docstring, normalized};
use crate::error::{outcome, ConversionError, ConversionErrorView};
use crate::metadata::{
    EnumMetadata,
    EnumMetadataView,
    ErrorMetadata,
    ErrorMetadataView,
    Metadata,
    MetadataView,
    Variant,
};
use crate::syntax::{
    Declaration,
    DeclarationView,
    EnumDefinition,
    EnumDefinitionView,
    InterfaceDefinition,
    InterfaceDefinitionView,
};
use crate::variants::{
    collect_literals,
    collect_members,
    literal_variants,
    members_collected,
    operations_accepted,
};

verus! {

/// The record of an enum block that lives at `module`, or the reason why it
/// has none: its attributes are malformed.
pub open spec fn enum_record(definition: EnumDefinitionView, module: Seq<char>) -> Result<
    EnumMetadataView,
    ConversionErrorView,
> {
    match interpreted(definition.attributes) {
        Ok(flags) => Ok(
            EnumMetadataView {
                module,
                name: definition.identifier,
                variants: literal_variants(definition.values),
                non_exhaustive: flags.non_exhaustive,
                docstring: normalized(definition.docstring),
            },
        ),
        Err(malformed) => Err(malformed),
    }
}

/// The error record of an enum block: its enumeration, marked flat, since a
/// literal carries no data.
pub open spec fn flat_error_record(definition: EnumDefinitionView, module: Seq<char>) -> Result<
    ErrorMetadataView,
    ConversionErrorView,
> {
    match enum_record(definition, module) {
        Ok(record) => Ok(ErrorMetadataView::Enum { enum_: record, is_flat: true }),
        Err(malformed) => Err(malformed),
    }
}

/// What converting an enum interface that lives at `module` may return.
///
/// An interface that inherits is refused before anything else is looked at,
/// and a malformed attribute list before any member. After that the members
/// decide: the error of the first one that has no variant, or the record with
/// all their variants in order.
pub open spec fn interface_converted<Op, F: Fn(&Op) -> Result<Variant, ConversionError>>(
    definition: InterfaceDefinitionView<Op>,
    module: Seq<char>,
    convert_operation: F,
    result: Result<EnumMetadata, ConversionError>,
) -> bool {
    if definition.inheritance is Some {
        result == Err::<EnumMetadata, ConversionError>(ConversionError::InheritanceNotSupported)
    } else {
        match interpreted(definition.attributes) {
            Err(malformed) => result is Err && result->Err_0@ == malformed,
            Ok(flags) => match result {
                Ok(record) => {
                    &&& record.module@ == module
                    &&& record.name@ == definition.identifier
                    &&& record.non_exhaustive == flags.non_exhaustive
                    &&& record.docstring.deep_view() == normalized(definition.docstring)
                    &&& members_collected(
                        definition.members,
                        convert_operation,
                        Ok(record.variants),
                    )
                },
                Err(error) => members_collected(definition.members, convert_operation, Err(error)),
            },
        }
    }
}

/// What converting an enum interface into an error record may return: as for
/// the enumeration, which the record then wraps and never marks flat, since
/// the members of an interface may carry data.
pub open spec fn interface_error_converted<Op, F: Fn(&Op) -> Result<Variant, ConversionError>>(
    definition: InterfaceDefinitionView<Op>,
    module: Seq<char>,
    convert_operation: F,
    result: Result<ErrorMetadata, ConversionError>,
) -> bool {
    match result {
        Ok(ErrorMetadata::Enum { enum_, is_flat }) => !is_flat && interface_converted(
            definition,
            module,
            convert_operation,
            Ok(enum_),
        ),
        Err(error) => interface_converted(definition, module, convert_operation, Err(error)),
    }
}

/// `convert_operation` accepts every operation that converting the interface
/// can hand to it. An interface that inherits, or whose attributes are
/// malformed, is refused before any member is looked at.
pub open spec fn interface_accepted<Op, F: Fn(&Op) -> Result<Variant, ConversionError>>(
    definition: InterfaceDefinitionView<Op>,
    convert_operation: F,
) -> bool {
    definition.inheritance is None && interpreted(definition.attributes) is Ok
        ==> operations_accepted(definition.members, convert_operation)
}

impl EnumDefinition {
    /// Converts a plain enum block into the record of its enumeration.
    pub fn convert_enum(&self, context: &ConversionContext) -> (result: Result<
        EnumMetadata,
        ConversionError,
    >)
        ensures
            outcome(result) == enum_record(self@, context@.module),
    {
        let flags = match interpret(&self.attributes) {
            Ok(flags) => flags,
            Err(malformed) => {
                return Err(malformed);
            },
        };
        Ok(
            EnumMetadata {
                module: context.current_module_path(),
                name: self.identifier.clone(),
                variants: collect_literals(&self.values),
                non_exhaustive: flags.non_exhaustive,
                docstring: convert_docstring(&self.docstring),
            },
        )
    }

    /// Converts an enum block that declares an error into its error record.
    pub fn convert_error(&self, context: &ConversionContext) -> (result: Result<
        ErrorMetadata,
        ConversionError,
    >)
        ensures
            outcome(result) == flat_error_record(self@, context@.module),
    {
        match self.convert_enum(context) {
            Ok(record) => Ok(ErrorMetadata::Enum { enum_: record, is_flat: true }),
            Err(malformed) => Err(malformed),
        }
    }
}

impl<Op> InterfaceDefinition<Op> {
    /// Converts an enum interface into the record of its enumeration. Each
    /// operation among the members is handed to `convert_operation`.
    pub fn convert_enum<F: Fn(&Op) -> Result<Variant, ConversionError>>(
        &self,
        context: &ConversionContext,
        convert_operation: &F,
    ) -> (result: Result<EnumMetadata, ConversionError>)
        requires
            interface_accepted(self@, *convert_operation),
        ensures
            interface_converted(self@, context@.module, *convert_operation, result),
    {
        if self.inheritance.is_some() {
            return Err(ConversionError::InheritanceNotSupported);
        }
        let flags = match interpret(&self.attributes) {
            Ok(flags) => flags,
            Err(malformed) => {
                return Err(malformed);
            },
        };
        let module = context.current_module_path();
        let variants = match collect_members(&self.members, convert_operation) {
            Ok(variants) => variants,
            Err(error) => {
                return Err(error);
            },
        };
        Ok(
            EnumMetadata {
                module,
                name: self.identifier.clone(),
                variants,
                non_exhaustive: flags.non_exhaustive,
                docstring: convert_docstring(&self.docstring),
            },
        )
    }

    /// Converts an enum interface that declares an error into its error
    /// record.
    pub fn convert_error<F: Fn(&Op) -> Result<Variant, ConversionError>>(
        &self,
        context: &ConversionContext,
        convert_operation: &F,
    ) -> (result: Result<ErrorMetadata, ConversionError>)
        requires
            interface_accepted(self@, *convert_operation),
        ensures
            interface_error_converted(self@, context@.module, *convert_operation, result),
    {
        match self.convert_enum(context, convert_operation) {
            Ok(record) => Ok(ErrorMetadata::Enum { enum_: record, is_flat: false }),
            Err(error) => Err(error),
        }
    }
}

/// The record of an enum block as a record of either kind: the error record
/// where the block declares an error, the enumeration otherwise.
pub open spec fn enum_declaration_record(
    definition: EnumDefinitionView,
    as_error: bool,
    module: Seq<char>,
) -> Result<MetadataView, ConversionErrorView> {
    if as_error {
        match flat_error_record(definition, module) {
            Ok(record) => Ok(MetadataView::Error(record)),
            Err(malformed) => Err(malformed),
        }
    } else {
        match enum_record(definition, module) {
            Ok(record) => Ok(MetadataView::Enum(record)),
            Err(malformed) => Err(malformed),
        }
    }
}

/// What converting a declaration may return. The shape of the declaration and
/// `as_error` choose one of the four conversions, and the record is of the
/// kind that this one makes.
pub open spec fn declaration_converted<Op, F: Fn(&Op) -> Result<Variant, ConversionError>>(
    declaration: DeclarationView<Op>,
    as_error: bool,
    module: Seq<char>,
    convert_operation: F,
    result: Result<Metadata, ConversionError>,
) -> bool {
    match declaration {
        DeclarationView::Enum(definition) => outcome(result) == enum_declaration_record(
            definition,
            as_error,
            module,
        ),
        DeclarationView::Interface(definition) => match result {
            Ok(Metadata::Enum(record)) => !as_error && interface_converted(
                definition,
                module,
                convert_operation,
                Ok(record),
            ),
            Ok(Metadata::Error(record)) => as_error && interface_error_converted(
                definition,
                module,
                convert_operation,
                Ok(record),
            ),
            Err(error) => interface_converted(
                definition,
                module,
                convert_operation,
                Err(error),
            ),
        },
    }
}

/// `convert_operation` accepts every operation that converting the
/// declaration can hand to it. An enum block has none.
pub open spec fn declaration_accepted<Op, F: Fn(&Op) -> Result<Variant, ConversionError>>(
    declaration: DeclarationView<Op>,
    convert_operation: F,
) -> bool {
    match declaration {
        DeclarationView::Enum(_) => true,
        DeclarationView::Interface(definition) => interface_accepted(
            definition,
            convert_operation,
        ),
    }
}

/// Converts a declaration of either shape. `as_error` says that it declares
/// an error, which its caller has read off before.
pub fn convert_declaration<Op, F: Fn(&Op) -> Result<Variant, ConversionError>>(
    declaration: &Declaration<Op>,
    as_error: bool,
    context: &ConversionContext,
    convert_operation: &F,
) -> (result: Result<Metadata, ConversionError>)
    requires
        declaration_accepted(declaration@, *convert_operation),
    ensures
        declaration_converted(declaration@, as_error, context@.module, *convert_operation, result),
{
    match declaration {
        Declaration::Enum(definition) => {
            if as_error {
                match definition.convert_error(context) {
                    Ok(record) => Ok(Metadata::Error(record)),
                    Err(malformed) => Err(malformed),
                }
            } else {
                match definition.convert_enum(context) {
                    Ok(record) => Ok(Metadata::Enum(record)),
                    Err(malformed) => Err(malformed),
                }
            }
        },
        Declaration::Interface(definition) => {
            if as_error {
                match definition.convert_error(context, convert_operation) {
                    Ok(record) => Ok(Metadata::Error(record)),
                    Err(error) => Err(error),
                }
            } else {
                match definition.convert_enum(context, convert_operation) {
                    Ok(record) => Ok(Metadata::Enum(record)),
                    Err(error) => Err(error),
                }
            }
        },
    }
}

/// What converting a declaration and registering its record may do to a
/// context and return. Where the conversion gives a record, the context gains
/// it behind the others; where it fails, the context stays as it was.
pub open spec fn registered<Op, F: Fn(&Op) -> Result<Variant, ConversionError>>(
    declaration: DeclarationView<Op>,
    as_error: bool,
    before: ConversionContextView,
    after: ConversionContextView,
    convert_operation: F,
    result: Result<(), ConversionError>,
) -> bool {
    match result {
        Ok(_) => exists|record: Metadata|
            {
                &&& #[trigger] declaration_converted(
                    declaration,
                    as_error,
                    before.module,
                    convert_operation,
                    Ok(record),
                )
                &&& after == ConversionContextView { items: before.items.push(record@), ..before }
            },
        Err(error) => {
            &&& declaration_converted(
                declaration,
                as_error,
                before.module,
                convert_operation,
                Err(error),
            )
            &&& after == before
        },
    }
}

/// Converts a declaration and registers its record. Nothing is registered
/// for a declaration that has no record.
pub fn convert_and_register<Op, F: Fn(&Op) -> Result<Variant, ConversionError>>(
    declaration: &Declaration<Op>,
    as_error: bool,
    context: &mut ConversionContext,
    convert_operation: &F,
) -> (result: Result<(), ConversionError>)
    requires
        declaration_accepted(declaration@, *convert_operation),
    ensures
        registered(
            declaration@,
            as_error,
            old(context)@,
            final(context)@,
            *convert_operation,
            result,
        ),
{
    match convert_declaration(declaration, as_error, context, convert_operation) {
        Ok(record) => {
            let ghost made = record;
            context.register(record);
            assert(declaration_converted(
                declaration@,
                as_error,
                old(context)@.module,
                *convert_operation,
                Ok(made),
            ));
            Ok(())
        },
        Err(error) => Err(error),
    }
}

} // verus!
