use pipeline::attributes::PipelineAttributes;
use pipeline::pipeline::{
    pipeline_derive, DataDesc, DeriveError, FieldDesc, GenericArgDesc, InputDesc, PathArgsDesc,
    SpanAnchor, TypeDesc,
};

fn option_of(inner: &str) -> TypeDesc {
    TypeDesc::Path {
        segments: vec![String::from("Option")],
        args: PathArgsDesc::AngleBracketed {
            args: vec![GenericArgDesc::TypeArg { text: String::from(inner) }],
        },
    }
}

fn named_struct(name: &str, fields: Vec<FieldDesc>) -> InputDesc {
    InputDesc { name: String::from(name), data: DataDesc::NamedStruct { fields } }
}

fn default_attrs() -> PipelineAttributes {
    PipelineAttributes { skip: false, timeout: None, others: Vec::new() }
}

#[test]
fn accepts_single_option_field() {
    let input = named_struct(
        "SingleFieldPipeline",
        vec![FieldDesc { name: String::from("value"), ty: option_of("i32") }],
    );
    let plan = pipeline_derive(input, &default_attrs()).unwrap();
    assert_eq!(plan.struct_name, "SingleFieldPipeline");
    assert_eq!(plan.field_name, "value");
    assert_eq!(plan.inner_type, "i32");
    assert_eq!(plan.skip, false);
    assert_eq!(plan.timeout, None);
}

#[test]
fn accepts_qualified_option_path() {
    let input = named_struct(
        "Holder",
        vec![FieldDesc {
            name: String::from("inner"),
            ty: TypeDesc::Path {
                segments: vec![
                    String::from("std"),
                    String::from("option"),
                    String::from("Option"),
                ],
                args: PathArgsDesc::AngleBracketed {
                    args: vec![GenericArgDesc::TypeArg { text: String::from("String") }],
                },
            },
        }],
    );
    let plan = pipeline_derive(input, &default_attrs()).unwrap();
    assert_eq!(plan.inner_type, "String");
}

#[test]
fn attributes_carry_into_plan() {
    let input = named_struct(
        "P",
        vec![FieldDesc { name: String::from("value"), ty: option_of("u8") }],
    );
    let attrs = PipelineAttributes { skip: true, timeout: Some(500), others: Vec::new() };
    let plan = pipeline_derive(input, &attrs).unwrap();
    assert_eq!(plan.skip, true);
    assert_eq!(plan.timeout, Some(500));
}

#[test]
fn non_option_single_field_rejected() {
    let input = named_struct(
        "Plain",
        vec![FieldDesc {
            name: String::from("value"),
            ty: TypeDesc::Path {
                segments: vec![String::from("i32")],
                args: PathArgsDesc::NoArgs,
            },
        }],
    );
    let err = pipeline_derive(input, &default_attrs()).unwrap_err();
    assert_eq!(err, DeriveError::ExpectedOptionField);
    assert_eq!(err.message(), "Expected field of type Option<T>");
    assert_eq!(err.anchor(), SpanAnchor::LastSegment);
}

#[test]
fn two_fields_rejected() {
    let input = named_struct(
        "MultiFieldPipeline",
        vec![
            FieldDesc { name: String::from("data"), ty: option_of("i32") },
            FieldDesc { name: String::from("info"), ty: option_of("i32") },
        ],
    );
    let err = pipeline_derive(input, &default_attrs()).unwrap_err();
    assert_eq!(err, DeriveError::ExpectedSingleField);
    assert_eq!(err.message(), "Expected a struct with exactly one named field");
    assert_eq!(err.anchor(), SpanAnchor::StructName);
}

#[test]
fn zero_fields_rejected() {
    let input = named_struct("Empty", Vec::new());
    let err = pipeline_derive(input, &default_attrs()).unwrap_err();
    assert_eq!(err, DeriveError::ExpectedSingleField);
}

#[test]
fn non_struct_input_rejected() {
    let input = InputDesc { name: String::from("Choice"), data: DataDesc::Other };
    let err = pipeline_derive(input, &default_attrs()).unwrap_err();
    assert_eq!(err, DeriveError::ExpectedNamedFields);
    assert_eq!(err.message(), "Expected a struct with named fields");
    assert_eq!(err.anchor(), SpanAnchor::StructName);
}

#[test]
fn non_path_field_type_rejected() {
    let input = named_struct(
        "Tupled",
        vec![FieldDesc { name: String::from("value"), ty: TypeDesc::NotPath }],
    );
    let err = pipeline_derive(input, &default_attrs()).unwrap_err();
    assert_eq!(err, DeriveError::FieldNotTypePath);
    assert_eq!(err.message(), "Expected field of type Option<T>");
    assert_eq!(err.anchor(), SpanAnchor::FieldType);
}

#[test]
fn empty_type_path_rejected() {
    let input = named_struct(
        "Odd",
        vec![FieldDesc {
            name: String::from("value"),
            ty: TypeDesc::Path { segments: Vec::new(), args: PathArgsDesc::NoArgs },
        }],
    );
    let err = pipeline_derive(input, &default_attrs()).unwrap_err();
    assert_eq!(err, DeriveError::MalformedTypePath);
    assert_eq!(err.message(), "Malformed type path in field type");
}

#[test]
fn option_without_angle_arguments_rejected() {
    let input = named_struct(
        "Bare",
        vec![FieldDesc {
            name: String::from("value"),
            ty: TypeDesc::Path {
                segments: vec![String::from("Option")],
                args: PathArgsDesc::NoArgs,
            },
        }],
    );
    let err = pipeline_derive(input, &default_attrs()).unwrap_err();
    assert_eq!(err, DeriveError::ExpectedAngleArguments);
    assert_eq!(err.message(), "Expected angle-bracketed generic arguments");
    assert_eq!(err.anchor(), SpanAnchor::LastSegment);
}

#[test]
fn option_with_non_type_argument_rejected() {
    let input = named_struct(
        "Lifetimed",
        vec![FieldDesc {
            name: String::from("value"),
            ty: TypeDesc::Path {
                segments: vec![String::from("Option")],
                args: PathArgsDesc::AngleBracketed { args: vec![GenericArgDesc::NotType] },
            },
        }],
    );
    let err = pipeline_derive(input, &default_attrs()).unwrap_err();
    assert_eq!(err, DeriveError::ExpectedConcreteType);
    assert_eq!(err.message(), "Expected Option<T> with concrete type");
    assert_eq!(err.anchor(), SpanAnchor::GenericArgs);
}

#[test]
fn option_with_empty_angle_arguments_rejected() {
    let input = named_struct(
        "Hollow",
        vec![FieldDesc {
            name: String::from("value"),
            ty: TypeDesc::Path {
                segments: vec![String::from("Option")],
                args: PathArgsDesc::AngleBracketed { args: Vec::new() },
            },
        }],
    );
    let err = pipeline_derive(input, &default_attrs()).unwrap_err();
    assert_eq!(err, DeriveError::ExpectedConcreteType);
}

#[test]
fn parenthesized_arguments_rejected() {
    let input = named_struct(
        "FnLike",
        vec![FieldDesc {
            name: String::from("value"),
            ty: TypeDesc::Path {
                segments: vec![String::from("Option")],
                args: PathArgsDesc::Parenthesized,
            },
        }],
    );
    let err = pipeline_derive(input, &default_attrs()).unwrap_err();
    assert_eq!(err, DeriveError::ExpectedAngleArguments);
}
