//! Conversions of declarations written out as values.

use std::cell::Cell;

use udl_enums::attributes::{interpret, AttributeFlags};
use udl_enums::context::ConversionContext;
use udl_enums::convert::{convert_and_register, convert_declaration};
use udl_enums::docstring::convert_docstring;
use udl_enums::error::ConversionError;
use udl_enums::metadata::{
    Discriminant, EnumMetadata, ErrorMetadata, Field, Metadata, Variant,
};
use udl_enums::syntax::{
    Attribute, Declaration, EnumDefinition, EnumValue, InterfaceDefinition, InterfaceMember,
    MemberKind,
};
use udl_enums::variants::{collect_literals, collect_members, convert_literal, convert_member};

fn bare(name: &str) -> Attribute {
    Attribute { name: name.to_string(), bare: true }
}

fn literal(value: &str) -> EnumValue {
    EnumValue { docstring: None, value: value.to_string() }
}

fn block(attributes: Vec<Attribute>, values: &[&str]) -> EnumDefinition {
    EnumDefinition {
        docstring: None,
        attributes,
        identifier: "Testing".to_string(),
        values: values.iter().map(|v| literal(v)).collect(),
    }
}

fn interface(members: Vec<InterfaceMember<String>>) -> InterfaceDefinition<String> {
    InterfaceDefinition {
        docstring: None,
        attributes: vec![bare("Enum")],
        identifier: "Shape".to_string(),
        inheritance: None,
        members,
    }
}

fn operation(name: &str) -> InterfaceMember<String> {
    InterfaceMember::Operation(name.to_string())
}

fn other(kind: MemberKind) -> InterfaceMember<String> {
    InterfaceMember::Other(kind, format!("{kind:?}(..)"))
}

fn unsupported(kind: MemberKind) -> ConversionError {
    ConversionError::UnsupportedMember(kind, format!("{kind:?}(..)"))
}

fn plain(name: &str) -> Variant {
    Variant { name: name.to_string(), discr: None, fields: vec![], docstring: None }
}

/// Gives each operation the variant of its name, with one field; refuses the
/// operations whose name starts with `!`.
fn by_name(operation: &String) -> Result<Variant, ConversionError> {
    if operation.starts_with('!') {
        return Err(ConversionError::Member(format!("no variant for {operation}")));
    }
    Ok(Variant {
        name: operation.clone(),
        discr: None,
        fields: vec![Field { name: "value".to_string(), ty: "u32".to_string(), docstring: None }],
        docstring: None,
    })
}

fn with_field(name: &str) -> Variant {
    by_name(&name.to_string()).unwrap()
}

#[test]
fn duplicate_literals_are_all_kept_in_order() {
    let context = ConversionContext::new("test", "crate_name");
    let record = block(vec![], &["one", "two", "one"]).convert_enum(&context).unwrap();
    assert_eq!(
        record,
        EnumMetadata {
            module: "crate_name".to_string(),
            name: "Testing".to_string(),
            variants: vec![plain("one"), plain("two"), plain("one")],
            non_exhaustive: false,
            docstring: None,
        }
    );
}

#[test]
fn module_path_is_the_crate_name_whatever_the_namespace() {
    let first = ConversionContext::new("test", "crate_name");
    let second = ConversionContext::new("something_else", "crate_name");
    assert_eq!(first.namespace(), "test");
    assert_eq!(second.namespace(), "something_else");
    assert_eq!(first.current_module_path(), "crate_name");
    assert_eq!(second.current_module_path(), "crate_name");
    let definition = block(vec![], &["a"]);
    let a = definition.convert_enum(&first).unwrap();
    let b = definition.convert_enum(&second).unwrap();
    assert_eq!(a.module, "crate_name");
    assert_eq!(a, b);
    let shape = interface(vec![operation("Circle")]);
    assert_eq!(shape.convert_enum(&first, &by_name).unwrap().module, "crate_name");
    match shape.convert_error(&second, &by_name).unwrap() {
        ErrorMetadata::Enum { enum_, .. } => assert_eq!(enum_.module, "crate_name"),
    }
    match definition.convert_error(&second).unwrap() {
        ErrorMetadata::Enum { enum_, .. } => assert_eq!(enum_.module, "crate_name"),
    }
}

#[test]
fn interface_with_parent_is_rejected_by_both_conversions() {
    let context = ConversionContext::new("test", "crate_name");
    let mut shape = interface(vec![operation("Circle")]);
    shape.inheritance = Some("Base".to_string());
    assert_eq!(
        shape.convert_enum(&context, &by_name),
        Err(ConversionError::InheritanceNotSupported)
    );
    assert_eq!(
        shape.convert_error(&context, &by_name),
        Err(ConversionError::InheritanceNotSupported)
    );
}

#[test]
fn inheritance_is_checked_before_attributes_and_members() {
    let context = ConversionContext::new("test", "crate_name");
    let mut shape = interface(vec![other(MemberKind::Const), operation("!x")]);
    shape.inheritance = Some("Base".to_string());
    shape.attributes = vec![bare("Trait")];
    assert_eq!(
        shape.convert_enum(&context, &by_name),
        Err(ConversionError::InheritanceNotSupported)
    );
}

#[test]
fn attributes_are_checked_before_members() {
    let context = ConversionContext::new("test", "crate_name");
    let mut shape = interface(vec![other(MemberKind::Const)]);
    shape.attributes = vec![bare("Enum"), bare("Trait")];
    assert_eq!(
        shape.convert_enum(&context, &by_name),
        Err(ConversionError::MalformedAttributes("Trait".to_string()))
    );
}

#[test]
fn member_that_is_no_operation_is_rejected_by_kind() {
    let context = ConversionContext::new("test", "crate_name");
    let kinds = [
        (MemberKind::Const, "Const(ConstMember { identifier: Identifier(\"SIDES\") })"),
        (MemberKind::Attribute, "Attribute(AttributeInterfaceMember { readonly: None })"),
        (MemberKind::Constructor, "Constructor(ConstructorInterfaceMember)"),
        (MemberKind::Iterable, "Iterable(Single(SingleTypedIterable))"),
        (MemberKind::AsyncIterable, "AsyncIterable(Single(SingleTypedAsyncIterable))"),
        (MemberKind::Maplike, "Maplike(MaplikeInterfaceMember)"),
        (MemberKind::Setlike, "Setlike(SetlikeInterfaceMember)"),
        (MemberKind::Stringifier, "Stringifier(StringifierMember)"),
    ];
    for (kind, shown) in kinds {
        let member = InterfaceMember::Other(kind, shown.to_string());
        let shape = interface(vec![operation("Circle"), member, operation("Square")]);
        let error = shape.convert_enum(&context, &by_name).unwrap_err();
        assert_eq!(error, ConversionError::UnsupportedMember(kind, shown.to_string()));
        assert_eq!(
            error.message(),
            format!("interface member type {shown} not supported in enum interface")
        );
        assert_eq!(
            shape.convert_error(&context, &by_name),
            Err(ConversionError::UnsupportedMember(kind, shown.to_string()))
        );
    }
}

#[test]
fn first_member_without_a_variant_decides_the_error() {
    let refused = ConversionError::Member("no variant for !a".to_string());
    let members = vec![
        operation("Circle"),
        operation("!a"),
        other(MemberKind::Const),
        operation("!b"),
    ];
    assert_eq!(collect_members(&members, &by_name), Err(refused));
    let members = vec![
        other(MemberKind::Setlike),
        other(MemberKind::Const),
        operation("!a"),
    ];
    assert_eq!(
        collect_members(&members, &by_name),
        Err(unsupported(MemberKind::Setlike))
    );
}

#[test]
fn collecting_stops_at_the_first_failure() {
    let calls = Cell::new(0u32);
    let counting = |operation: &String| {
        calls.set(calls.get() + 1);
        by_name(operation)
    };
    let members = vec![operation("A"), operation("!b"), operation("C"), operation("D")];
    assert!(collect_members(&members, &counting).is_err());
    assert_eq!(calls.get(), 2);
    calls.set(0);
    let members = vec![
        operation("A"),
        other(MemberKind::Maplike),
        operation("C"),
    ];
    assert!(collect_members(&members, &counting).is_err());
    assert_eq!(calls.get(), 1);
}

#[test]
fn members_keep_their_order_and_their_fields() {
    let members = vec![operation("B"), operation("A"), operation("B")];
    assert_eq!(
        collect_members(&members, &by_name),
        Ok(vec![with_field("B"), with_field("A"), with_field("B")])
    );
    assert_eq!(collect_members(&Vec::<InterfaceMember<String>>::new(), &by_name), Ok(vec![]));
    assert_eq!(convert_member(&operation("A"), &by_name), Ok(with_field("A")));
    assert_eq!(
        convert_member(&other(MemberKind::Iterable), &by_name),
        Err(unsupported(MemberKind::Iterable))
    );
}

#[test]
fn variants_of_operations_keep_their_discriminants() {
    let numbered = |operation: &String| -> Result<Variant, ConversionError> {
        let discr = match operation.as_str() {
            "Low" => Some(Discriminant::Signed(-1)),
            "High" => Some(Discriminant::Unsigned(u64::MAX)),
            _ => None,
        };
        Ok(Variant { name: operation.clone(), discr, fields: vec![], docstring: None })
    };
    let members = vec![operation("Low"), operation("High"), operation("None")];
    let variants = collect_members(&members, &numbered).unwrap();
    assert_eq!(variants[0].discr, Some(Discriminant::Signed(-1)));
    assert_eq!(variants[1].discr, Some(Discriminant::Unsigned(u64::MAX)));
    assert_eq!(variants[2].discr, None);
}

#[test]
fn operations_behind_another_member_need_not_be_convertible() {
    let calls = Cell::new(0u32);
    let only_circle = |operation: &String| -> Result<Variant, ConversionError> {
        calls.set(calls.get() + 1);
        assert_eq!(operation, "Circle");
        by_name(operation)
    };
    let context = ConversionContext::new("test", "crate_name");
    let shape = interface(vec![operation("Circle"), other(MemberKind::Const), operation("Square")]);
    assert_eq!(shape.convert_enum(&context, &only_circle), Err(unsupported(MemberKind::Const)));
    assert_eq!(calls.get(), 1);
    let mut inheriting = interface(vec![operation("Square")]);
    inheriting.inheritance = Some("Base".to_string());
    assert_eq!(
        inheriting.convert_enum(&context, &only_circle),
        Err(ConversionError::InheritanceNotSupported)
    );
    let mut malformed = interface(vec![operation("Square")]);
    malformed.attributes = vec![bare("Trait")];
    assert_eq!(
        malformed.convert_error(&context, &only_circle),
        Err(ConversionError::MalformedAttributes("Trait".to_string()))
    );
    assert_eq!(calls.get(), 1);
}

#[test]
fn enum_interface_record_is_assembled_from_all_parts() {
    let context = ConversionContext::new("test", "crate_name");
    let mut shape = interface(vec![operation("Circle"), operation("Square")]);
    shape.attributes = vec![bare("NonExhaustive"), bare("Enum")];
    shape.docstring = Some("  Shapes.\n  All of them.".to_string());
    assert_eq!(
        shape.convert_enum(&context, &by_name),
        Ok(EnumMetadata {
            module: "crate_name".to_string(),
            name: "Shape".to_string(),
            variants: vec![with_field("Circle"), with_field("Square")],
            non_exhaustive: true,
            docstring: Some("Shapes.\nAll of them.".to_string()),
        })
    );
}

#[test]
fn errors_of_enum_blocks_are_flat_and_of_interfaces_are_not() {
    let context = ConversionContext::new("test", "crate_name");
    for values in [&["a"][..], &["a", "b", "a"][..], &[][..]] {
        match block(vec![bare("Error")], values).convert_error(&context).unwrap() {
            ErrorMetadata::Enum { enum_, is_flat } => {
                assert!(is_flat);
                assert_eq!(enum_.variants.len(), values.len());
            }
        }
    }
    for members in [vec![], vec![operation("A")], vec![operation("A"), operation("B")]] {
        let count = members.len();
        match interface(members).convert_error(&context, &by_name).unwrap() {
            ErrorMetadata::Enum { enum_, is_flat } => {
                assert!(!is_flat);
                assert_eq!(enum_.variants.len(), count);
            }
        }
    }
}

#[test]
fn error_record_wraps_the_record_of_the_enumeration() {
    let context = ConversionContext::new("test", "crate_name");
    let definition = block(vec![bare("Error"), bare("NonExhaustive")], &["x", "y"]);
    let plain_record = definition.convert_enum(&context).unwrap();
    assert_eq!(
        definition.convert_error(&context),
        Ok(ErrorMetadata::Enum { enum_: plain_record, is_flat: true })
    );
    let shape = interface(vec![operation("A")]);
    let plain_record = shape.convert_enum(&context, &by_name).unwrap();
    assert_eq!(
        shape.convert_error(&context, &by_name),
        Ok(ErrorMetadata::Enum { enum_: plain_record, is_flat: false })
    );
}

#[test]
fn missing_doc_comment_gives_no_docstring() {
    let context = ConversionContext::new("test", "crate_name");
    let mut definition = block(vec![], &["a", "b"]);
    definition.values[1].docstring = Some("second".to_string());
    let record = definition.convert_enum(&context).unwrap();
    assert_eq!(record.docstring, None);
    assert_eq!(record.variants[0].docstring, None);
    assert_eq!(record.variants[1].docstring, Some("second".to_string()));
    assert_eq!(convert_docstring(&None), None);
    let shape = interface(vec![]);
    assert_eq!(shape.convert_enum(&context, &by_name).unwrap().docstring, None);
}

#[test]
fn empty_doc_comment_stays_an_empty_docstring() {
    assert_eq!(convert_docstring(&Some(String::new())), Some(String::new()));
    let context = ConversionContext::new("test", "crate_name");
    let mut definition = block(vec![], &["a"]);
    definition.docstring = Some(String::new());
    assert_eq!(definition.convert_enum(&context).unwrap().docstring, Some(String::new()));
}

#[test]
fn doc_comment_loses_the_common_indentation() {
    assert_eq!(
        convert_docstring(&Some("    first\n      second\n    third\n".to_string())),
        Some("first\n  second\nthird\n".to_string())
    );
    assert_eq!(
        convert_docstring(&Some(" one line".to_string())),
        Some("one line".to_string())
    );
    assert_eq!(
        convert_docstring(&Some("flush\n  indented".to_string())),
        Some("flush\n  indented".to_string())
    );
    let value = EnumValue { docstring: Some("\t\tTabbed.".to_string()), value: "v".to_string() };
    assert_eq!(
        convert_literal(&value),
        Variant {
            name: "v".to_string(),
            discr: None,
            fields: vec![],
            docstring: Some("Tabbed.".to_string()),
        }
    );
}

#[test]
fn converting_twice_gives_equal_records() {
    let mut definition = block(vec![bare("NonExhaustive")], &["one", "two", "one"]);
    definition.docstring = Some("  Doc.".to_string());
    let first = definition.convert_enum(&ConversionContext::new("test", "crate_name"));
    let second = definition.convert_enum(&ConversionContext::new("test", "crate_name"));
    assert_eq!(first, second);
    let elsewhere = definition
        .convert_enum(&ConversionContext::new("test", "other_crate"))
        .unwrap();
    let mut moved = first.clone().unwrap();
    assert_ne!(moved, elsewhere);
    moved.module = "other_crate".to_string();
    assert_eq!(moved, elsewhere);
    assert_eq!(
        definition.convert_error(&ConversionContext::new("a", "crate_name")),
        definition.convert_error(&ConversionContext::new("b", "crate_name"))
    );

    let shape = interface(vec![operation("A"), operation("B")]);
    assert_eq!(
        shape.convert_enum(&ConversionContext::new("test", "crate_name"), &by_name),
        shape.convert_enum(&ConversionContext::new("test", "crate_name"), &by_name)
    );
    let failing = interface(vec![operation("A"), operation("!b")]);
    assert_eq!(
        failing.convert_error(&ConversionContext::new("test", "crate_name"), &by_name),
        failing.convert_error(&ConversionContext::new("test", "other_crate"), &by_name)
    );
}

#[test]
fn attribute_lists_are_read_for_their_flags() {
    assert_eq!(interpret(&vec![]), Ok(AttributeFlags { non_exhaustive: false }));
    assert_eq!(
        interpret(&vec![bare("Enum"), bare("Error")]),
        Ok(AttributeFlags { non_exhaustive: false })
    );
    assert_eq!(
        interpret(&vec![bare("NonExhaustive")]),
        Ok(AttributeFlags { non_exhaustive: true })
    );
    assert_eq!(
        interpret(&vec![bare("Error"), bare("NonExhaustive"), bare("Enum")]),
        Ok(AttributeFlags { non_exhaustive: true })
    );
    assert_eq!(
        interpret(&vec![bare("NonExhaustive"), bare("NonExhaustive")]),
        Ok(AttributeFlags { non_exhaustive: true })
    );
}

#[test]
fn first_unsupported_attribute_is_named() {
    assert_eq!(
        interpret(&vec![bare("Enum"), bare("Trait"), bare("ByRef")]),
        Err(ConversionError::MalformedAttributes("Trait".to_string()))
    );
    assert_eq!(
        interpret(&vec![Attribute { name: "Error".to_string(), bare: false }]),
        Err(ConversionError::MalformedAttributes("Error".to_string()))
    );
    assert_eq!(
        interpret(&vec![bare("nonexhaustive")]),
        Err(ConversionError::MalformedAttributes("nonexhaustive".to_string()))
    );
    assert_eq!(
        interpret(&vec![bare("")]),
        Err(ConversionError::MalformedAttributes(String::new()))
    );
    let context = ConversionContext::new("test", "crate_name");
    assert_eq!(
        block(vec![bare("Throws")], &["a"]).convert_enum(&context),
        Err(ConversionError::MalformedAttributes("Throws".to_string()))
    );
    assert_eq!(
        block(vec![bare("Throws")], &["a"]).convert_error(&context),
        Err(ConversionError::MalformedAttributes("Throws".to_string()))
    );
}

#[test]
fn every_error_has_its_message() {
    assert_eq!(
        ConversionError::InheritanceNotSupported.message(),
        "interface inheritance is not supported for enum interfaces"
    );
    assert_eq!(
        ConversionError::UnsupportedMember(
            MemberKind::Attribute,
            "Attribute(AttributeInterfaceMember { readonly: Some(ReadOnly) })".to_string()
        )
        .message(),
        "interface member type Attribute(AttributeInterfaceMember { readonly: Some(ReadOnly) }) \
         not supported in enum interface"
    );
    assert_eq!(
        ConversionError::UnsupportedMember(MemberKind::Const, String::new()).message(),
        "interface member type  not supported in enum interface"
    );
    assert_eq!(
        ConversionError::MalformedAttributes("Throws".to_string()).message(),
        "attribute Throws not supported for enums"
    );
    assert_eq!(
        ConversionError::Member("special operations not supported".to_string()).message(),
        "special operations not supported"
    );
}

#[test]
fn variant_without_data_has_a_name_and_a_docstring_only() {
    assert_eq!(Variant::without_data("a".to_string(), None), plain("a"));
    assert_eq!(
        Variant::without_data("b".to_string(), Some("  kept as given".to_string())),
        Variant {
            name: "b".to_string(),
            discr: None,
            fields: vec![],
            docstring: Some("  kept as given".to_string()),
        }
    );
}

#[test]
fn literals_become_variants_without_data() {
    assert_eq!(collect_literals(&vec![]), Vec::<Variant>::new());
    assert_eq!(
        collect_literals(&vec![literal("b"), literal("a"), literal("b"), literal("")]),
        vec![plain("b"), plain("a"), plain("b"), plain("")]
    );
}

#[test]
fn declarations_are_converted_by_shape_and_error_flag() {
    let context = ConversionContext::new("test", "crate_name");
    let definition = block(vec![], &["a"]);
    let shape = interface(vec![operation("A")]);
    let as_block: Declaration<String> = Declaration::Enum(definition.clone());
    let as_interface = Declaration::Interface(shape.clone());
    assert_eq!(
        convert_declaration(&as_block, false, &context, &by_name),
        Ok(Metadata::Enum(definition.convert_enum(&context).unwrap()))
    );
    assert_eq!(
        convert_declaration(&as_block, true, &context, &by_name),
        Ok(Metadata::Error(definition.convert_error(&context).unwrap()))
    );
    assert_eq!(
        convert_declaration(&as_interface, false, &context, &by_name),
        Ok(Metadata::Enum(shape.convert_enum(&context, &by_name).unwrap()))
    );
    assert_eq!(
        convert_declaration(&as_interface, true, &context, &by_name),
        Ok(Metadata::Error(shape.convert_error(&context, &by_name).unwrap()))
    );
}

#[test]
fn records_are_registered_in_order_and_never_merged() {
    let mut context = ConversionContext::new("test", "crate_name");
    assert_eq!(context.len(), 0);
    assert!(context.items().is_empty());
    let record = Metadata::Enum(block(vec![], &["a"]).convert_enum(&context).unwrap());
    let other = Metadata::Error(block(vec![], &["b"]).convert_error(&context).unwrap());
    context.register(record.clone());
    context.register(other.clone());
    context.register(record.clone());
    assert_eq!(context.len(), 3);
    assert_eq!(context.items(), &vec![record.clone(), other, record]);
    assert_eq!(context.current_module_path(), "crate_name");
    assert_eq!(context.namespace(), "test");
}

#[test]
fn failed_conversion_registers_nothing() {
    let mut context = ConversionContext::new("test", "crate_name");
    let good: Declaration<String> = Declaration::Enum(block(vec![], &["a"]));
    let bad: Declaration<String> = Declaration::Enum(block(vec![bare("Trait")], &["a"]));
    let worse = Declaration::Interface(interface(vec![operation("A"), operation("!b")]));
    assert_eq!(convert_and_register(&good, false, &mut context, &by_name), Ok(()));
    assert_eq!(
        convert_and_register(&bad, false, &mut context, &by_name),
        Err(ConversionError::MalformedAttributes("Trait".to_string()))
    );
    assert_eq!(
        convert_and_register(&worse, true, &mut context, &by_name),
        Err(ConversionError::Member("no variant for !b".to_string()))
    );
    assert_eq!(context.len(), 1);
    assert_eq!(convert_and_register(&good, true, &mut context, &by_name), Ok(()));
    assert_eq!(context.len(), 2);
    assert!(matches!(context.items()[0], Metadata::Enum(_)));
    assert!(matches!(context.items()[1], Metadata::Error(_)));
}
