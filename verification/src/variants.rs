//! The variants of a declaration, collected in the order in which its body
//! lists them.

use vstd::prelude::*;
use crate::docstring::{convert_docstring, normalized};
use crate::error::ConversionError;
use crate::metadata::{Variant, VariantView};
use crate::syntax::{EnumValue, EnumValueView, InterfaceMember};

verus! {

/// The variant that a literal of an enum block stands for: named by the
/// literal's text, without discriminant and without fields.
pub open spec fn literal_variant(value: EnumValueView) -> VariantView {
    VariantView {
        name: value.value,
        discr: None,
        fields: Seq::empty(),
        docstring: normalized(value.docstring),
    }
}

/// The variants of an enum block: one for each literal, in the same order. A
/// literal that occurs twice gives two variants.
pub open spec fn literal_variants(values: Seq<EnumValueView>) -> Seq<VariantView> {
    Seq::new(values.len(), |i: int| literal_variant(values[i]))
}

/// Converts one literal of an enum block.
pub fn convert_literal(value: &EnumValue) -> (variant: Variant)
    ensures
        variant@ == literal_variant(value@),
{
    Variant::without_data(value.value.clone(), convert_docstring(&value.docstring))
}

/// Collects the variants of an enum block.
pub fn collect_literals(values: &Vec<EnumValue>) -> (variants: Vec<Variant>)
    ensures
        variants.deep_view() == literal_variants(values.deep_view()),
{
    let mut variants: Vec<Variant> = Vec::new();
    let mut i: usize = 0;
    while i < values.len()
        invariant
            0 <= i <= values.len(),
            variants.len() == i,
            forall|j: int| 0 <= j < i ==> (#[trigger] variants[j])@ == literal_variant(values[j]@),
        decreases values.len() - i,
    {
        variants.push(convert_literal(&values[i]));
        i += 1;
    }
    assert(variants.deep_view() =~= literal_variants(values.deep_view()));
    variants
}

/// What one member of an enum interface may come to: an operation, whatever
/// `convert_operation` can return for it; any other member, the error that
/// holds its kind and the text by which the parser prints it.
pub open spec fn member_outcome<Op, F: Fn(&Op) -> Result<Variant, ConversionError>>(
    member: InterfaceMember<Op>,
    convert_operation: F,
    result: Result<Variant, ConversionError>,
) -> bool {
    match member {
        InterfaceMember::Operation(operation) => call_ensures(
            convert_operation,
            (&operation,),
            result,
        ),
        InterfaceMember::Other(kind, shown) => result == Err::<Variant, ConversionError>(
            ConversionError::UnsupportedMember(kind, shown),
        ),
    }
}

/// `variants` are what the members came to, one by one.
pub open spec fn members_converted<Op, F: Fn(&Op) -> Result<Variant, ConversionError>>(
    members: Seq<InterfaceMember<Op>>,
    convert_operation: F,
    variants: Seq<Variant>,
) -> bool {
    &&& variants.len() == members.len()
    &&& forall|i: int|
        0 <= i < members.len() ==> member_outcome(
            #[trigger] members[i],
            convert_operation,
            Ok(variants[i]),
        )
}

/// The member at `k` came to `error`, and every member before it to a variant.
pub open spec fn member_failed_at<Op, F: Fn(&Op) -> Result<Variant, ConversionError>>(
    members: Seq<InterfaceMember<Op>>,
    convert_operation: F,
    k: int,
    error: ConversionError,
) -> bool {
    &&& 0 <= k < members.len()
    &&& member_outcome(members[k], convert_operation, Err(error))
    &&& exists|before: Seq<Variant>| #[trigger]
        members_converted(members.take(k), convert_operation, before)
}

/// What collecting the members of an enum interface may return: all their
/// variants in order, or the error of the first member that has none.
pub open spec fn members_collected<Op, F: Fn(&Op) -> Result<Variant, ConversionError>>(
    members: Seq<InterfaceMember<Op>>,
    convert_operation: F,
    result: Result<Vec<Variant>, ConversionError>,
) -> bool {
    match result {
        Ok(variants) => members_converted(members, convert_operation, variants@),
        Err(error) => exists|k: int| #[trigger]
            member_failed_at(members, convert_operation, k, error),
    }
}

/// The member is one that `convert_operation` can be asked about: an
/// operation that it accepts, or no operation at all.
pub open spec fn member_accepted<Op, F: Fn(&Op) -> Result<Variant, ConversionError>>(
    member: InterfaceMember<Op>,
    convert_operation: F,
) -> bool {
    match member {
        InterfaceMember::Operation(operation) => call_requires(convert_operation, (&operation,)),
        InterfaceMember::Other(_, _) => true,
    }
}

/// Every member is an operation.
pub open spec fn all_operations<Op>(members: Seq<InterfaceMember<Op>>) -> bool {
    forall|j: int| 0 <= j < members.len() ==> #[trigger] members[j] is Operation
}

/// `convert_operation` accepts every operation that collecting the members
/// can hand to it: those that no member of another kind precedes.
pub open spec fn operations_accepted<Op, F: Fn(&Op) -> Result<Variant, ConversionError>>(
    members: Seq<InterfaceMember<Op>>,
    convert_operation: F,
) -> bool {
    forall|i: int|
        0 <= i < members.len() && all_operations(members.take(i)) ==> member_accepted(
            #[trigger] members[i],
            convert_operation,
        )
}

/// Converts one member of an enum interface: an operation through
/// `convert_operation`, whose answer is handed on as it is.
pub fn convert_member<Op, F: Fn(&Op) -> Result<Variant, ConversionError>>(
    member: &InterfaceMember<Op>,
    convert_operation: &F,
) -> (result: Result<Variant, ConversionError>)
    requires
        member_accepted(*member, *convert_operation),
    ensures
        member_outcome(*member, *convert_operation, result),
{
    match member {
        InterfaceMember::Operation(operation) => convert_operation(operation),
        InterfaceMember::Other(kind, shown) => Err(
            ConversionError::UnsupportedMember(*kind, shown.clone()),
        ),
    }
}

/// Collects the variants of an enum interface. It stops at the first member
/// that has none and returns that member's error.
pub fn collect_members<Op, F: Fn(&Op) -> Result<Variant, ConversionError>>(
    members: &Vec<InterfaceMember<Op>>,
    convert_operation: &F,
) -> (result: Result<Vec<Variant>, ConversionError>)
    requires
        operations_accepted(members@, *convert_operation),
    ensures
        members_collected(members@, *convert_operation, result),
{
    let mut variants: Vec<Variant> = Vec::new();
    let mut i: usize = 0;
    while i < members.len()
        invariant
            0 <= i <= members.len(),
            operations_accepted(members@, *convert_operation),
            members_converted(members@.take(i as int), *convert_operation, variants@),
        decreases members.len() - i,
    {
        proof {
            let done = members@.take(i as int);
            assert forall|j: int| 0 <= j < done.len() implies #[trigger] done[j] is Operation by {
                assert(member_outcome(done[j], *convert_operation, Ok(variants@[j])));
            }
        }
        match convert_member(&members[i], convert_operation) {
            Ok(variant) => {
                let ghost before = variants@;
                variants.push(variant);
                proof {
                    let now = members@.take(i + 1);
                    assert forall|j: int| 0 <= j < now.len() implies member_outcome(
                        #[trigger] now[j],
                        *convert_operation,
                        Ok(variants@[j]),
                    ) by {
                        if j < i {
                            assert(members@.take(i as int)[j] == now[j]);
                            assert(variants@[j] == before[j]);
                        }
                    }
                }
            },
            Err(error) => {
                assert(member_failed_at(members@, *convert_operation, i as int, error));
                return Err(error);
            },
        }
        i += 1;
    }
    assert(members@.take(i as int) =~= members@);
    Ok(variants)
}

} // verus!
