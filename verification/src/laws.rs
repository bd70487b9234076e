//! What holds of every conversion, stated over the models and proved.

use vstd::prelude::*;
use crate::attributes::{has_non_exhaustive, interpreted, is_non_exhaustive, is_supported};
use crate::convert::{
    enum_record,
    flat_error_record,
    interface_converted,
    interface_error_converted,
};
use crate::error::{message_text, outcome, ConversionError, ConversionErrorView};
use crate::metadata::{EnumMetadata, EnumMetadataView, ErrorMetadata, ErrorMetadataView, Variant};
use crate::syntax::{
    AttributeView,
    EnumDefinitionView,
    EnumValueView,
    InterfaceDefinitionView,
    InterfaceMember,
};
use crate::variants::{
    all_operations,
    literal_variants,
    member_failed_at,
    member_outcome,
    members_converted,
};

verus! {

/// Two outcomes of converting an enumeration differ in nothing but the
/// module path of the record: both are records, equal once the module path of
/// one is put into the other, or both are the same error.
pub open spec fn alike_but_module(
    first: Result<EnumMetadataView, ConversionErrorView>,
    second: Result<EnumMetadataView, ConversionErrorView>,
) -> bool {
    match (first, second) {
        (Ok(a), Ok(b)) => a == (EnumMetadataView { module: a.module, ..b }),
        (Err(a), Err(b)) => a == b,
        _ => false,
    }
}

/// The same for two outcomes of converting an error.
pub open spec fn errors_alike_but_module(
    first: Result<ErrorMetadataView, ConversionErrorView>,
    second: Result<ErrorMetadataView, ConversionErrorView>,
) -> bool {
    match (first, second) {
        (
            Ok(ErrorMetadataView::Enum { enum_: a, is_flat: flat_a }),
            Ok(ErrorMetadataView::Enum { enum_: b, is_flat: flat_b }),
        ) => flat_a == flat_b && alike_but_module(Ok(a), Ok(b)),
        (Err(a), Err(b)) => a == b,
        _ => false,
    }
}

/// The outcome for the enumeration that the outcome for an error wraps.
pub open spec fn wrapped_enumeration(result: Result<ErrorMetadata, ConversionError>) -> Result<
    EnumMetadata,
    ConversionError,
> {
    match result {
        Ok(ErrorMetadata::Enum { enum_, is_flat }) => Ok(enum_),
        Err(error) => Err(error),
    }
}

/// The converter of operations answers alike whenever it is asked about the
/// same operation of `members`. Only the operations that collecting the
/// members can hand to it count: those that no member of another kind
/// precedes.
pub open spec fn answers_alike<Op, F: Fn(&Op) -> Result<Variant, ConversionError>>(
    members: Seq<InterfaceMember<Op>>,
    convert_operation: F,
) -> bool {
    forall|i: int, first: Result<Variant, ConversionError>, second: Result<Variant, ConversionError>|
        0 <= i < members.len() && all_operations(members.take(i)) && #[trigger] member_outcome(
            members[i],
            convert_operation,
            first,
        ) && #[trigger] member_outcome(members[i], convert_operation, second) ==> outcome(first)
            == outcome(second)
}

/// The same of an interface, of which no operation counts where it inherits
/// or its attributes are malformed: no member of it is looked at then.
pub open spec fn interface_answers_alike<Op, F: Fn(&Op) -> Result<Variant, ConversionError>>(
    definition: InterfaceDefinitionView<Op>,
    convert_operation: F,
) -> bool {
    definition.inheritance is None && interpreted(definition.attributes) is Ok ==> answers_alike(
        definition.members,
        convert_operation,
    )
}

/// A converter of operations that never refuses `operation`.
pub open spec fn never_refuses<Op, F: Fn(&Op) -> Result<Variant, ConversionError>>(
    convert_operation: F,
    operation: Op,
) -> bool {
    forall|result: Result<Variant, ConversionError>| #[trigger]
        call_ensures(convert_operation, (&operation,), result) ==> result is Ok
}

/// The flags of an attribute list do not depend on the order of its
/// attributes, nor on how often one occurs: a list without unsupported
/// attributes means what any list of the same attributes means.
pub proof fn law_flags_ignore_order(first: Seq<AttributeView>, second: Seq<AttributeView>)
    requires
        interpreted(first) is Ok,
        forall|attribute: AttributeView| first.contains(attribute) <==> second.contains(attribute),
    ensures
        interpreted(second) == interpreted(first),
{
    assert forall|i: int| 0 <= i < second.len() implies is_supported(#[trigger] second[i]) by {
        assert(second.contains(second[i]));
        let j = choose|j: int| 0 <= j < first.len() && first[j] == second[i];
        assert(is_supported(first[j]));
    }
    if has_non_exhaustive(first) {
        let i = choose|i: int| 0 <= i < first.len() && is_non_exhaustive(first[i]);
        assert(first.contains(first[i]));
        let j = choose|j: int| 0 <= j < second.len() && second[j] == first[i];
        assert(is_non_exhaustive(second[j]));
    }
    if has_non_exhaustive(second) {
        let i = choose|i: int| 0 <= i < second.len() && is_non_exhaustive(second[i]);
        assert(second.contains(second[i]));
        let j = choose|j: int| 0 <= j < first.len() && first[j] == second[i];
        assert(is_non_exhaustive(first[j]));
    }
}

/// Literals are kept as they are listed: an enum block has as many variants as
/// literals, each named by the literal at its place, also where two literals
/// have the same text. None has a discriminant or carries data.
pub proof fn law_literals_kept(values: Seq<EnumValueView>)
    ensures
        literal_variants(values).len() == values.len(),
        forall|i: int|
            0 <= i < values.len() ==> (#[trigger] literal_variants(values)[i]).name
                == values[i].value,
        forall|i: int|
            0 <= i < values.len() ==> (#[trigger] literal_variants(values)[i]).discr is None,
        forall|i: int|
            0 <= i < values.len() ==> (#[trigger] literal_variants(values)[i]).fields.len() == 0,
{
}

/// The record of an enum block holds the module path that the conversion was
/// given, the name of the block, and one variant for each literal of the
/// block.
pub proof fn law_enum_record_follows_block(
    definition: EnumDefinitionView,
    module: Seq<char>,
    record: EnumMetadataView,
)
    requires
        enum_record(definition, module) == Ok::<EnumMetadataView, ConversionErrorView>(record),
    ensures
        record.module == module,
        record.name == definition.identifier,
        record.variants.len() == definition.values.len(),
        flat_error_record(definition, module) == Ok::<ErrorMetadataView, ConversionErrorView>(
            (ErrorMetadataView::Enum { enum_: record, is_flat: true }),
        ),
{
}

/// The record of an enum interface holds the module path that the conversion
/// was given.
pub proof fn law_interface_record_holds_module<
    Op,
    F: Fn(&Op) -> Result<Variant, ConversionError>,
>(
    definition: InterfaceDefinitionView<Op>,
    module: Seq<char>,
    convert_operation: F,
    record: EnumMetadata,
)
    requires
        interface_converted(definition, module, convert_operation, Ok(record)),
    ensures
        record.module@ == module,
        record.variants.len() == definition.members.len(),
{
}

/// An enum interface that inherits is refused for that, whatever else it
/// holds, as an enumeration and as an error.
pub proof fn law_inheritance_rejected<Op, F: Fn(&Op) -> Result<Variant, ConversionError>>(
    definition: InterfaceDefinitionView<Op>,
    module: Seq<char>,
    convert_operation: F,
    as_enum: Result<EnumMetadata, ConversionError>,
    as_error: Result<ErrorMetadata, ConversionError>,
)
    requires
        definition.inheritance is Some,
        interface_converted(definition, module, convert_operation, as_enum),
        interface_error_converted(definition, module, convert_operation, as_error),
    ensures
        as_enum == Err::<EnumMetadata, ConversionError>(ConversionError::InheritanceNotSupported),
        as_error == Err::<ErrorMetadata, ConversionError>(
            ConversionError::InheritanceNotSupported,
        ),
{
}

/// An enum interface that holds a member other than an operation has no
/// record, neither of an enumeration nor of an error.
pub proof fn law_non_operation_fails<Op, F: Fn(&Op) -> Result<Variant, ConversionError>>(
    definition: InterfaceDefinitionView<Op>,
    module: Seq<char>,
    convert_operation: F,
    as_enum: Result<EnumMetadata, ConversionError>,
    as_error: Result<ErrorMetadata, ConversionError>,
    k: int,
)
    requires
        0 <= k < definition.members.len(),
        definition.members[k] is Other,
        interface_converted(definition, module, convert_operation, as_enum),
        interface_error_converted(definition, module, convert_operation, as_error),
    ensures
        as_enum is Err,
        as_error is Err,
{
    if as_enum is Ok {
        let variants = as_enum->Ok_0.variants@;
        assert(member_outcome(definition.members[k], convert_operation, Ok(variants[k])));
    }
    if as_error is Ok {
        let variants = wrapped_enumeration(as_error)->Ok_0.variants@;
        assert(member_outcome(definition.members[k], convert_operation, Ok(variants[k])));
    }
}

/// Where an enum interface does not inherit, its attributes are in order and
/// no operation before its first other member is refused, both conversions
/// fail with the error that holds the kind of that member and the member as
/// the parser prints it, and the message quotes the member so.
pub proof fn law_member_kind_rejected<Op, F: Fn(&Op) -> Result<Variant, ConversionError>>(
    definition: InterfaceDefinitionView<Op>,
    module: Seq<char>,
    convert_operation: F,
    as_enum: Result<EnumMetadata, ConversionError>,
    as_error: Result<ErrorMetadata, ConversionError>,
    k: int,
)
    requires
        definition.inheritance is None,
        interpreted(definition.attributes) is Ok,
        0 <= k < definition.members.len(),
        definition.members[k] is Other,
        forall|j: int|
            0 <= j < k ==> (#[trigger] definition.members[j] matches InterfaceMember::Operation(
                operation,
            ) && never_refuses(convert_operation, operation)),
        interface_converted(definition, module, convert_operation, as_enum),
        interface_error_converted(definition, module, convert_operation, as_error),
    ensures
        as_enum == Err::<EnumMetadata, ConversionError>(
            ConversionError::UnsupportedMember(
                definition.members[k]->Other_0,
                definition.members[k]->Other_1,
            ),
        ),
        as_error == Err::<ErrorMetadata, ConversionError>(
            ConversionError::UnsupportedMember(
                definition.members[k]->Other_0,
                definition.members[k]->Other_1,
            ),
        ),
        message_text(as_enum->Err_0@) == "interface member type "@
            + definition.members[k]->Other_1@ + " not supported in enum interface"@,
{
    law_non_operation_fails(definition, module, convert_operation, as_enum, as_error, k);
    lemma_first_other_decides(definition.members, convert_operation, as_enum->Err_0, k);
    lemma_first_other_decides(definition.members, convert_operation, as_error->Err_0, k);
}

/// Where collecting fails and no operation before the first other member is
/// refused, the error is that of this member.
proof fn lemma_first_other_decides<Op, F: Fn(&Op) -> Result<Variant, ConversionError>>(
    members: Seq<InterfaceMember<Op>>,
    convert_operation: F,
    error: ConversionError,
    k: int,
)
    requires
        0 <= k < members.len(),
        members[k] is Other,
        forall|j: int|
            0 <= j < k ==> (#[trigger] members[j] matches InterfaceMember::Operation(operation)
                && never_refuses(convert_operation, operation)),
        exists|at: int| #[trigger] member_failed_at(members, convert_operation, at, error),
    ensures
        error == ConversionError::UnsupportedMember(members[k]->Other_0, members[k]->Other_1),
{
    let at = choose|at: int| member_failed_at(members, convert_operation, at, error);
    assert(member_failed_at(members, convert_operation, at, error));
    if at < k {
        assert(members[at] is Operation);
    }
    if k < at {
        let before = choose|before: Seq<Variant>|
            members_converted(members.take(at), convert_operation, before);
        assert(member_outcome(members.take(at)[k], convert_operation, Ok(before[k])));
    }
}

/// No variant of the enumeration carries data.
pub open spec fn carries_no_data(record: EnumMetadataView) -> bool {
    forall|i: int| 0 <= i < record.variants.len() ==> (#[trigger] record.variants[i]).fields.len() == 0
}

/// An error made of an enum block is flat, for every block, and rightly so:
/// none of its variants carries data.
pub proof fn law_literal_errors_flat(
    definition: EnumDefinitionView,
    module: Seq<char>,
    record: ErrorMetadataView,
)
    requires
        flat_error_record(definition, module) == Ok::<ErrorMetadataView, ConversionErrorView>(
            record,
        ),
    ensures
        record->is_flat,
        carries_no_data(record->enum_),
{
}

/// An error made of an enum interface is not flat, for every interface.
pub proof fn law_interface_errors_not_flat<Op, F: Fn(&Op) -> Result<Variant, ConversionError>>(
    definition: InterfaceDefinitionView<Op>,
    module: Seq<char>,
    convert_operation: F,
    record: ErrorMetadata,
)
    requires
        interface_error_converted(definition, module, convert_operation, Ok(record)),
    ensures
        !record->is_flat,
{
}

/// A record has a docstring exactly where its declaration has a doc comment,
/// and so has each variant of an enum block: a missing comment gives a missing
/// docstring, never an empty one.
pub proof fn law_docstring_absence(
    definition: EnumDefinitionView,
    module: Seq<char>,
    record: EnumMetadataView,
)
    requires
        enum_record(definition, module) == Ok::<EnumMetadataView, ConversionErrorView>(record),
    ensures
        record.docstring is None <==> definition.docstring is None,
        forall|i: int|
            0 <= i < definition.values.len() ==> ((#[trigger] record.variants[i]).docstring
                is None <==> definition.values[i].docstring is None),
{
}

/// The same for the record of an enum interface.
pub proof fn law_interface_docstring_absence<
    Op,
    F: Fn(&Op) -> Result<Variant, ConversionError>,
>(
    definition: InterfaceDefinitionView<Op>,
    module: Seq<char>,
    convert_operation: F,
    record: EnumMetadata,
)
    requires
        interface_converted(definition, module, convert_operation, Ok(record)),
    ensures
        record.docstring is None <==> definition.docstring is None,
{
}

/// Converting an enum block twice, at two module paths, gives outcomes that
/// differ in the module path alone; at one module path, the same outcome.
pub proof fn law_enum_conversion_repeatable(
    definition: EnumDefinitionView,
    first_module: Seq<char>,
    second_module: Seq<char>,
)
    ensures
        alike_but_module(
            enum_record(definition, first_module),
            enum_record(definition, second_module),
        ),
        errors_alike_but_module(
            flat_error_record(definition, first_module),
            flat_error_record(definition, second_module),
        ),
        first_module == second_module ==> enum_record(definition, first_module) == enum_record(
            definition,
            second_module,
        ),
{
}

/// Converting an enum interface twice, at two module paths, gives outcomes
/// that differ in the module path alone, and at one module path the same
/// outcome, where the converter of operations answers alike both times. Of a
/// converter that answers now this and now that about one operation, nothing
/// of the kind holds.
pub proof fn law_interface_conversion_repeatable<
    Op,
    F: Fn(&Op) -> Result<Variant, ConversionError>,
>(
    definition: InterfaceDefinitionView<Op>,
    first_module: Seq<char>,
    second_module: Seq<char>,
    convert_operation: F,
    first: Result<EnumMetadata, ConversionError>,
    second: Result<EnumMetadata, ConversionError>,
)
    requires
        interface_answers_alike(definition, convert_operation),
        interface_converted(definition, first_module, convert_operation, first),
        interface_converted(definition, second_module, convert_operation, second),
    ensures
        alike_but_module(outcome(first), outcome(second)),
        first_module == second_module ==> outcome(first) == outcome(second),
        first is Err ==> second is Err && message_text(first->Err_0@) == message_text(
            second->Err_0@,
        ),
{
    let members = definition.members;
    if definition.inheritance is Some {
    } else if interpreted(definition.attributes) is Err {
    } else {
        match (first, second) {
            (Ok(a), Ok(b)) => {
                assert(members.take(members.len() as int) =~= members);
                assert forall|i: int| 0 <= i < members.len() implies (#[trigger] a.variants@[i])@
                    == b.variants@[i]@ by {
                    lemma_prefix_all_operations(
                        members,
                        convert_operation,
                        members.len() as int,
                        a.variants@,
                        i,
                    );
                    lemma_same_member_same_outcome(
                        members,
                        convert_operation,
                        i,
                        Ok(a.variants@[i]),
                        Ok(b.variants@[i]),
                    );
                }
                assert(a.variants.deep_view() =~= b.variants.deep_view());
            },
            (Err(a), Err(b)) => {
                let at_a = choose|k: int| member_failed_at(members, convert_operation, k, a);
                let at_b = choose|k: int| member_failed_at(members, convert_operation, k, b);
                assert(member_failed_at(members, convert_operation, at_a, a));
                assert(member_failed_at(members, convert_operation, at_b, b));
                lemma_failure_excludes_variant(members, convert_operation, at_a, a, at_b);
                lemma_failure_excludes_variant(members, convert_operation, at_b, b, at_a);
                let before = choose|before: Seq<Variant>|
                    members_converted(members.take(at_a), convert_operation, before);
                lemma_prefix_all_operations(members, convert_operation, at_a, before, at_a);
                lemma_same_member_same_outcome(members, convert_operation, at_a, Err(a), Err(b));
            },
            (Ok(a), Err(b)) => {
                let at = choose|k: int| member_failed_at(members, convert_operation, k, b);
                assert(member_failed_at(members, convert_operation, at, b));
                let before = choose|before: Seq<Variant>|
                    members_converted(members.take(at), convert_operation, before);
                lemma_prefix_all_operations(members, convert_operation, at, before, at);
                lemma_same_member_same_outcome(
                    members,
                    convert_operation,
                    at,
                    Ok(a.variants@[at]),
                    Err(b),
                );
            },
            (Err(a), Ok(b)) => {
                let at = choose|k: int| member_failed_at(members, convert_operation, k, a);
                assert(member_failed_at(members, convert_operation, at, a));
                let before = choose|before: Seq<Variant>|
                    members_converted(members.take(at), convert_operation, before);
                lemma_prefix_all_operations(members, convert_operation, at, before, at);
                lemma_same_member_same_outcome(
                    members,
                    convert_operation,
                    at,
                    Err(a),
                    Ok(b.variants@[at]),
                );
            },
        }
    }
}

/// The same for the two outcomes of converting an enum interface into an
/// error record: they differ in the module path alone, and never in flatness.
pub proof fn law_interface_error_conversion_repeatable<
    Op,
    F: Fn(&Op) -> Result<Variant, ConversionError>,
>(
    definition: InterfaceDefinitionView<Op>,
    first_module: Seq<char>,
    second_module: Seq<char>,
    convert_operation: F,
    first: Result<ErrorMetadata, ConversionError>,
    second: Result<ErrorMetadata, ConversionError>,
)
    requires
        interface_answers_alike(definition, convert_operation),
        interface_error_converted(definition, first_module, convert_operation, first),
        interface_error_converted(definition, second_module, convert_operation, second),
    ensures
        errors_alike_but_module(outcome(first), outcome(second)),
        first_module == second_module ==> outcome(first) == outcome(second),
        first is Err ==> second is Err && message_text(first->Err_0@) == message_text(
            second->Err_0@,
        ),
{
    law_interface_conversion_repeatable(
        definition,
        first_module,
        second_module,
        convert_operation,
        wrapped_enumeration(first),
        wrapped_enumeration(second),
    );
}

/// Where members up to a place all have variants, the members up to any
/// earlier place are all operations.
proof fn lemma_prefix_all_operations<Op, F: Fn(&Op) -> Result<Variant, ConversionError>>(
    members: Seq<InterfaceMember<Op>>,
    convert_operation: F,
    upto: int,
    variants: Seq<Variant>,
    earlier: int,
)
    requires
        0 <= earlier <= upto <= members.len(),
        members_converted(members.take(upto), convert_operation, variants),
    ensures
        all_operations(members.take(earlier)),
{
    let short = members.take(earlier);
    assert forall|j: int| 0 <= j < short.len() implies #[trigger] short[j] is Operation by {
        assert(member_outcome(members.take(upto)[j], convert_operation, Ok(variants[j])));
    }
}

/// Two outcomes of one member that collecting can reach, under a converter
/// that answers alike, are the same.
proof fn lemma_same_member_same_outcome<Op, F: Fn(&Op) -> Result<Variant, ConversionError>>(
    members: Seq<InterfaceMember<Op>>,
    convert_operation: F,
    at: int,
    first: Result<Variant, ConversionError>,
    second: Result<Variant, ConversionError>,
)
    requires
        answers_alike(members, convert_operation),
        0 <= at < members.len(),
        all_operations(members.take(at)),
        member_outcome(members[at], convert_operation, first),
        member_outcome(members[at], convert_operation, second),
    ensures
        outcome(first) == outcome(second),
{
}

/// Under a converter that answers alike, a member that failed behind
/// operations alone does not lie before a place up to which all members have
/// variants.
proof fn lemma_failure_excludes_variant<Op, F: Fn(&Op) -> Result<Variant, ConversionError>>(
    members: Seq<InterfaceMember<Op>>,
    convert_operation: F,
    failed: int,
    error: ConversionError,
    later: int,
)
    requires
        answers_alike(members, convert_operation),
        0 <= failed < members.len(),
        0 <= later <= members.len(),
        member_outcome(members[failed], convert_operation, Err(error)),
        exists|before: Seq<Variant>| #[trigger]
            members_converted(members.take(later), convert_operation, before),
    ensures
        later <= failed,
{
    if failed < later {
        let before = choose|before: Seq<Variant>|
            members_converted(members.take(later), convert_operation, before);
        assert(member_outcome(
            members.take(later)[failed],
            convert_operation,
            Ok(before[failed]),
        ));
        lemma_prefix_all_operations(members, convert_operation, later, before, failed);
        lemma_same_member_same_outcome(
            members,
            convert_operation,
            failed,
            Err(error),
            Ok(before[failed]),
        );
    }
}

} // verus!
