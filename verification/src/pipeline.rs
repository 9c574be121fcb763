//! Shape validation and the generation plan.
//!
//! The generator accepts a struct with exactly one named field whose type
//! is the optional-value wrapper `Option<T>` with one concrete generic
//! argument.  Any other shape is rejected with a distinct diagnostic
//! anchored to the construct that violated the requirement.

use vstd::prelude::*;
use vstd::string::StringExecFns;
use crate::attributes::PipelineAttributes;

verus! {

/// One generic argument of a path segment: a concrete type (carried as its
/// rendered text) or something else (a lifetime, a const expression).
#[derive(Debug, Clone)]
pub enum GenericArgDesc {
    TypeArg { text: String },
    NotType,
}

/// Mathematical model of a [`GenericArgDesc`].
#[verifier::ext_equal]
pub enum GenericArgModel {
    TypeArg { text: Seq<char> },
    NotType,
}

impl DeepView for GenericArgDesc {
    type V = GenericArgModel;

    open spec fn deep_view(&self) -> GenericArgModel {
        match self {
            GenericArgDesc::TypeArg { text } => GenericArgModel::TypeArg { text: text@ },
            GenericArgDesc::NotType => GenericArgModel::NotType,
        }
    }
}

/// The arguments attached to the last segment of a type path.
#[derive(Debug, Clone)]
pub enum PathArgsDesc {
    NoArgs,
    AngleBracketed { args: Vec<GenericArgDesc> },
    Parenthesized,
}

/// Mathematical model of a [`PathArgsDesc`].
#[verifier::ext_equal]
pub enum PathArgsModel {
    NoArgs,
    AngleBracketed { args: Seq<GenericArgModel> },
    Parenthesized,
}

impl DeepView for PathArgsDesc {
    type V = PathArgsModel;

    open spec fn deep_view(&self) -> PathArgsModel {
        match self {
            PathArgsDesc::NoArgs => PathArgsModel::NoArgs,
            PathArgsDesc::AngleBracketed { args } => PathArgsModel::AngleBracketed {
                args: args.deep_view(),
            },
            PathArgsDesc::Parenthesized => PathArgsModel::Parenthesized,
        }
    }
}

/// A field's type: a path (its segment names, and the arguments of the
/// last segment) or some other type form.
#[derive(Debug, Clone)]
pub enum TypeDesc {
    Path { segments: Vec<String>, args: PathArgsDesc },
    NotPath,
}

/// Mathematical model of a [`TypeDesc`].
#[verifier::ext_equal]
pub enum TypeModel {
    Path { segments: Seq<Seq<char>>, args: PathArgsModel },
    NotPath,
}

impl DeepView for TypeDesc {
    type V = TypeModel;

    open spec fn deep_view(&self) -> TypeModel {
        match self {
            TypeDesc::Path { segments, args } => TypeModel::Path {
                segments: segments.deep_view(),
                args: args.deep_view(),
            },
            TypeDesc::NotPath => TypeModel::NotPath,
        }
    }
}

/// One named field of the annotated struct.
#[derive(Debug, Clone)]
pub struct FieldDesc {
    pub name: String,
    pub ty: TypeDesc,
}

/// Mathematical model of a [`FieldDesc`].
#[verifier::ext_equal]
pub struct FieldModel {
    pub name: Seq<char>,
    pub ty: TypeModel,
}

impl DeepView for FieldDesc {
    type V = FieldModel;

    open spec fn deep_view(&self) -> FieldModel {
        FieldModel { name: self.name@, ty: self.ty.deep_view() }
    }
}

/// What kind of item the annotation sits on: a struct with named fields,
/// or anything else (a tuple or unit struct, an enum, a union).
#[derive(Debug, Clone)]
pub enum DataDesc {
    NamedStruct { fields: Vec<FieldDesc> },
    Other,
}

/// Mathematical model of a [`DataDesc`].
#[verifier::ext_equal]
pub enum DataModel {
    NamedStruct { fields: Seq<FieldModel> },
    Other,
}

impl DeepView for DataDesc {
    type V = DataModel;

    open spec fn deep_view(&self) -> DataModel {
        match self {
            DataDesc::NamedStruct { fields } => DataModel::NamedStruct {
                fields: fields.deep_view(),
            },
            DataDesc::Other => DataModel::Other,
        }
    }
}

/// The annotated type, as far as generation looks at it.
#[derive(Debug, Clone)]
pub struct InputDesc {
    pub name: String,
    pub data: DataDesc,
}

/// Mathematical model of an [`InputDesc`].
#[verifier::ext_equal]
pub struct InputModel {
    pub name: Seq<char>,
    pub data: DataModel,
}

impl DeepView for InputDesc {
    type V = InputModel;

    open spec fn deep_view(&self) -> InputModel {
        InputModel { name: self.name@, data: self.data.deep_view() }
    }
}

/// Where a shape diagnostic is anchored in the source.
#[derive(Clone, Copy, Debug, PartialEq, Eq, Structural)]
pub enum SpanAnchor {
    /// The name of the annotated struct.
    StructName,
    /// The type of the single field.
    FieldType,
    /// The last segment of the field's type path.
    LastSegment,
    /// The generic arguments of that segment.
    GenericArgs,
}

/// Why generation rejected the annotated type's shape.
#[derive(Clone, Copy, Debug, PartialEq, Eq, Structural)]
pub enum DeriveError {
    /// The input is not a struct with named fields.
    ExpectedNamedFields,
    /// The struct does not have exactly one named field.
    ExpectedSingleField,
    /// The field's type is not a type path at all.
    FieldNotTypePath,
    /// The field's type path has no segments.
    MalformedTypePath,
    /// The last segment of the field's type path is not `Option`.
    ExpectedOptionField,
    /// The `Option` segment carries no angle-bracketed arguments.
    ExpectedAngleArguments,
    /// The angle-bracketed list does not start with a concrete type.
    ExpectedConcreteType,
}

impl DeriveError {
    /// The diagnostic text for this error.
    pub fn message(&self) -> (r: &'static str)
        ensures
            *self == DeriveError::ExpectedNamedFields ==> r@ == "Expected a struct with named fields"@,
            *self == DeriveError::ExpectedSingleField ==> r@ == "Expected a struct with exactly one named field"@,
            *self == DeriveError::FieldNotTypePath ==> r@ == "Expected field of type Option<T>"@,
            *self == DeriveError::MalformedTypePath ==> r@ == "Malformed type path in field type"@,
            *self == DeriveError::ExpectedOptionField ==> r@ == "Expected field of type Option<T>"@,
            *self == DeriveError::ExpectedAngleArguments ==> r@ == "Expected angle-bracketed generic arguments"@,
            *self == DeriveError::ExpectedConcreteType ==> r@ == "Expected Option<T> with concrete type"@,
    {
        match self {
            DeriveError::ExpectedNamedFields => "Expected a struct with named fields",
            DeriveError::ExpectedSingleField => "Expected a struct with exactly one named field",
            DeriveError::FieldNotTypePath => "Expected field of type Option<T>",
            DeriveError::MalformedTypePath => "Malformed type path in field type",
            DeriveError::ExpectedOptionField => "Expected field of type Option<T>",
            DeriveError::ExpectedAngleArguments => "Expected angle-bracketed generic arguments",
            DeriveError::ExpectedConcreteType => "Expected Option<T> with concrete type",
        }
    }

    /// The construct the diagnostic is anchored to.
    pub fn anchor(&self) -> (r: SpanAnchor)
        ensures
            *self == DeriveError::ExpectedNamedFields ==> r == SpanAnchor::StructName,
            *self == DeriveError::ExpectedSingleField ==> r == SpanAnchor::StructName,
            *self == DeriveError::FieldNotTypePath ==> r == SpanAnchor::FieldType,
            *self == DeriveError::MalformedTypePath ==> r == SpanAnchor::FieldType,
            *self == DeriveError::ExpectedOptionField ==> r == SpanAnchor::LastSegment,
            *self == DeriveError::ExpectedAngleArguments ==> r == SpanAnchor::LastSegment,
            *self == DeriveError::ExpectedConcreteType ==> r == SpanAnchor::GenericArgs,
    {
        match self {
            DeriveError::ExpectedNamedFields => SpanAnchor::StructName,
            DeriveError::ExpectedSingleField => SpanAnchor::StructName,
            DeriveError::FieldNotTypePath => SpanAnchor::FieldType,
            DeriveError::MalformedTypePath => SpanAnchor::FieldType,
            DeriveError::ExpectedOptionField => SpanAnchor::LastSegment,
            DeriveError::ExpectedAngleArguments => SpanAnchor::LastSegment,
            DeriveError::ExpectedConcreteType => SpanAnchor::GenericArgs,
        }
    }
}

/// Everything a renderer needs to emit the methods for one annotated
/// struct: the names involved, the inner type's text, and the attribute
/// values that modulate the emitted bodies.
#[derive(Debug, Clone)]
pub struct GenPlan {
    pub struct_name: String,
    pub field_name: String,
    pub inner_type: String,
    pub skip: bool,
    pub timeout: Option<u64>,
}

/// Mathematical model of a [`GenPlan`].
#[verifier::ext_equal]
pub struct GenPlanModel {
    pub struct_name: Seq<char>,
    pub field_name: Seq<char>,
    pub inner_type: Seq<char>,
    pub skip: bool,
    pub timeout: Option<u64>,
}

impl DeepView for GenPlan {
    type V = GenPlanModel;

    open spec fn deep_view(&self) -> GenPlanModel {
        GenPlanModel {
            struct_name: self.struct_name@,
            field_name: self.field_name@,
            inner_type: self.inner_type@,
            skip: self.skip,
            timeout: self.timeout,
        }
    }
}

/// Whether a field type is the accepted optional-value wrapper: a type
/// path whose last segment is `Option` carrying angle-bracketed arguments
/// that start with a concrete type.
pub open spec fn option_shaped(ty: TypeModel) -> bool {
    &&& ty matches TypeModel::Path { segments, args }
    &&& segments.len() > 0
    &&& segments.last() == "Option"@
    &&& args matches PathArgsModel::AngleBracketed { args: gargs }
    &&& gargs.len() > 0
    &&& gargs[0] matches GenericArgModel::TypeArg { .. }
}

/// Whether the annotated type meets the whole structural contract.
pub open spec fn shape_ok(input: InputModel) -> bool {
    &&& input.data matches DataModel::NamedStruct { fields }
    &&& fields.len() == 1
    &&& option_shaped(fields[0].ty)
}

/// What generation yields for a given input shape and attribute values:
/// the plan, or the first shape diagnostic in validation order.
pub open spec fn derive_spec(input: InputModel, skip: bool, timeout: Option<u64>) -> Result<
    GenPlanModel,
    DeriveError,
> {
    match input.data {
        DataModel::Other => Err(DeriveError::ExpectedNamedFields),
        DataModel::NamedStruct { fields } => {
            if fields.len() != 1 {
                Err(DeriveError::ExpectedSingleField)
            } else {
                match fields[0].ty {
                    TypeModel::NotPath => Err(DeriveError::FieldNotTypePath),
                    TypeModel::Path { segments, args } => {
                        if segments.len() == 0 {
                            Err(DeriveError::MalformedTypePath)
                        } else if segments.last() != "Option"@ {
                            Err(DeriveError::ExpectedOptionField)
                        } else {
                            match args {
                                PathArgsModel::AngleBracketed { args: gargs } => {
                                    if gargs.len() == 0 {
                                        Err(DeriveError::ExpectedConcreteType)
                                    } else {
                                        match gargs[0] {
                                            GenericArgModel::TypeArg { text } => Ok(GenPlanModel {
                                                struct_name: input.name,
                                                field_name: fields[0].name,
                                                inner_type: text,
                                                skip: skip,
                                                timeout: timeout,
                                            }),
                                            GenericArgModel::NotType => Err(
                                                DeriveError::ExpectedConcreteType,
                                            ),
                                        }
                                    }
                                },
                                _ => Err(DeriveError::ExpectedAngleArguments),
                            }
                        }
                    },
                }
            }
        },
    }
}

/// Validates the annotated type's shape in order and builds the plan for
/// the methods to emit, honoring `skip` and `timeout` from the parsed
/// attribute set.
pub fn pipeline_derive(input: InputDesc, attrs: &PipelineAttributes) -> (r: Result<
    GenPlan,
    DeriveError,
>)
    ensures
        match r {
            Ok(p) => derive_spec(input.deep_view(), attrs.skip, attrs.timeout) == Ok::<
                GenPlanModel,
                DeriveError,
            >(p.deep_view()),
            Err(e) => derive_spec(input.deep_view(), attrs.skip, attrs.timeout) == Err::<
                GenPlanModel,
                DeriveError,
            >(e),
        },
        r is Ok <==> shape_ok(input.deep_view()),
{
    let InputDesc { name, data } = input;
    let mut fields = match data {
        DataDesc::NamedStruct { fields } => fields,
        DataDesc::Other => {
            return Err(DeriveError::ExpectedNamedFields);
        },
    };
    if fields.len() != 1 {
        return Err(DeriveError::ExpectedSingleField);
    }
    let ghost gfields = fields.deep_view();
    let field = fields.pop().unwrap();
    assert(field.deep_view() == gfields[0]);
    let FieldDesc { name: field_name, ty } = field;
    match ty {
        TypeDesc::NotPath => Err(DeriveError::FieldNotTypePath),
        TypeDesc::Path { segments, args } => {
            if segments.len() == 0 {
                return Err(DeriveError::MalformedTypePath);
            }
            let mut segments = segments;
            let last = segments.pop().unwrap();
            let option_key: String = String::from_str("Option");
            if !(last == option_key) {
                return Err(DeriveError::ExpectedOptionField);
            }
            match args {
                PathArgsDesc::AngleBracketed { args: gargs } => {
                    if gargs.len() == 0 {
                        return Err(DeriveError::ExpectedConcreteType);
                    }
                    let mut gargs = gargs;
                    let first = gargs.remove(0);
                    match first {
                        GenericArgDesc::TypeArg { text } => Ok(GenPlan {
                            struct_name: name,
                            field_name,
                            inner_type: text,
                            skip: attrs.skip,
                            timeout: attrs.timeout,
                        }),
                        GenericArgDesc::NotType => Err(DeriveError::ExpectedConcreteType),
                    }
                },
                PathArgsDesc::NoArgs => Err(DeriveError::ExpectedAngleArguments),
                PathArgsDesc::Parenthesized => Err(DeriveError::ExpectedAngleArguments),
            }
        },
    }
}

/// A struct whose single field is not of the optional-value wrapper shape
/// is rejected with a shape diagnostic.
pub proof fn lemma_non_option_field_rejected(
    input: InputModel,
    skip: bool,
    timeout: Option<u64>,
)
    requires
        input.data matches DataModel::NamedStruct { fields } && fields.len() == 1
            && !option_shaped(fields[0].ty),
    ensures
        derive_spec(input, skip, timeout) is Err,
{
}

/// A struct with two or more named fields is rejected with the
/// exactly-one-field diagnostic.
pub proof fn lemma_multiple_fields_rejected(input: InputModel, skip: bool, timeout: Option<u64>)
    requires
        input.data matches DataModel::NamedStruct { fields } && fields.len() >= 2,
    ensures
        derive_spec(input, skip, timeout) == Err::<GenPlanModel, DeriveError>(
            DeriveError::ExpectedSingleField,
        ),
{
}

/// Generation succeeds exactly when the annotated type meets the
/// structural contract, whatever the attribute values are.
pub proof fn lemma_generation_succeeds_iff_shape_ok(
    input: InputModel,
    skip: bool,
    timeout: Option<u64>,
)
    ensures
        derive_spec(input, skip, timeout) is Ok <==> shape_ok(input),
{
}

} // verus!
