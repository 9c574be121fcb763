use pipeline::attributes::{AttrPair, AttrValue};
use pipeline::codegen::{pipeline_derive, pipeline_derive_macro, MacroError, PipelineError};
use pipeline::digits::u64_to_decimal;
use pipeline::generated::GeneratedPipeline;
use pipeline::pipeline::{
    DataDesc, DeriveError, FieldDesc, GenericArgDesc, InputDesc, PathArgsDesc, TypeDesc,
};
use pipeline::tokens::AttrToken;

fn single_option_struct(name: &str, inner: &str) -> InputDesc {
    InputDesc {
        name: String::from(name),
        data: DataDesc::NamedStruct {
            fields: vec![FieldDesc {
                name: String::from("value"),
                ty: TypeDesc::Path {
                    segments: vec![String::from("Option")],
                    args: PathArgsDesc::AngleBracketed {
                        args: vec![GenericArgDesc::TypeArg { text: String::from(inner) }],
                    },
                },
            }],
        },
    }
}

#[test]
fn derive_without_attribute_uses_defaults() {
    let input = single_option_struct("SingleFieldPipeline", "i32");
    let plan = pipeline_derive(input, &None).unwrap();
    assert_eq!(plan.skip, false);
    assert_eq!(plan.timeout, None);
}

#[test]
fn derive_with_malformed_pairs_reports_attribute_error() {
    let input = single_option_struct("S", "i32");
    let args = Some(vec![AttrPair {
        key: String::from("timeout"),
        value: Some(AttrValue::BoolLit(true)),
    }]);
    let err = pipeline_derive(input, &args).unwrap_err();
    assert!(matches!(err, PipelineError::Attr(_)));
}

#[test]
fn derive_with_bad_shape_reports_shape_error() {
    let input = InputDesc { name: String::from("E"), data: DataDesc::Other };
    let err = pipeline_derive(input, &None).unwrap_err();
    assert_eq!(err, PipelineError::Shape(DeriveError::ExpectedNamedFields));
}

#[test]
fn macro_entry_runs_all_stages() {
    let input = single_option_struct("SingleFieldPipeline", "i32");
    let toks = Some(vec![
        AttrToken::Ident(String::from("timeout")),
        AttrToken::Eq,
        AttrToken::IntLit(500),
        AttrToken::Comma,
        AttrToken::Ident(String::from("foo")),
        AttrToken::Eq,
        AttrToken::IntLit(1),
    ]);
    let plan = pipeline_derive_macro(input, &toks).unwrap();
    assert_eq!(plan.struct_name, "SingleFieldPipeline");
    assert_eq!(plan.field_name, "value");
    assert_eq!(plan.inner_type, "i32");
    assert_eq!(plan.skip, false);
    assert_eq!(plan.timeout, Some(500));
}

#[test]
fn macro_entry_reports_syntax_error() {
    let input = single_option_struct("S", "i32");
    let toks = Some(vec![AttrToken::Ident(String::from("skip")), AttrToken::Eq]);
    let err = pipeline_derive_macro(input, &toks).unwrap_err();
    assert!(matches!(err, MacroError::Syntax(_)));
}

#[test]
fn generated_methods_behave_as_the_example() {
    let input = single_option_struct("SingleFieldPipeline", "i32");
    let plan = pipeline_derive_macro(input, &None).unwrap();

    let instance = GeneratedPipeline {
        value: Some(7),
        skip: plan.skip,
        timeout: plan.timeout,
    };
    let out = instance.process3(
        |input: i32| Some(input + 3),
        |processed: i32| {
            if processed > 10 {
                Some(processed * 2)
            } else {
                None
            }
        },
    );
    assert_eq!(out.result, None);
    assert_eq!(out.announcement, None);
}

#[test]
fn decimal_rendering_is_exact() {
    assert_eq!(u64_to_decimal(0), "0");
    assert_eq!(u64_to_decimal(7), "7");
    assert_eq!(u64_to_decimal(10), "10");
    assert_eq!(u64_to_decimal(500), "500");
    assert_eq!(u64_to_decimal(1000), "1000");
    assert_eq!(u64_to_decimal(u64::MAX), "18446744073709551615");
}
