//! Entry point for pipeline code generation: parse the attribute list,
//! then validate the shape and build the plan.

use vstd::prelude::*;
use crate::attributes::{
    attributes_spec, empty_attributes, parse_attributes, parse_pairs_spec, recognized_key,
    AttrError, AttrPair, AttrPairModel, AttributesModel, PipelineAttributes,
};
use crate::pipeline::{derive_spec, DeriveError, GenPlan, GenPlanModel, InputDesc, InputModel};
use crate::tokens::{tokenize_pairs, tokenize_pairs_spec, AttrToken, AttrTokenModel, TokenError};

verus! {

/// Why generation failed: the attribute list was malformed, or the
/// annotated type's shape was rejected.
#[derive(Clone, Copy, Debug, PartialEq, Eq, Structural)]
pub enum PipelineError {
    Attr(AttrError),
    Shape(DeriveError),
}

/// What the whole generation pass yields for an annotated type: the plan,
/// or the first diagnostic that parsing or validation produced.
pub open spec fn process_spec(input: InputModel, args: Option<Seq<AttrPairModel>>) -> Result<
    GenPlanModel,
    PipelineError,
> {
    match attributes_spec(args) {
        Err(e) => Err(PipelineError::Attr(e)),
        Ok(a) => match derive_spec(input, a.skip, a.timeout) {
            Ok(p) => Ok(p),
            Err(e) => Err(PipelineError::Shape(e)),
        },
    }
}

/// Runs the whole generation pass: parses the `#[pipeline(...)]` pairs
/// (defaults when the attribute is absent), then validates the shape and
/// builds the plan.
pub fn pipeline_derive(input: InputDesc, args: &Option<Vec<AttrPair>>) -> (r: Result<
    GenPlan,
    PipelineError,
>)
    ensures
        match r {
            Ok(p) => process_spec(input.deep_view(), args.deep_view()) == Ok::<
                GenPlanModel,
                PipelineError,
            >(p.deep_view()),
            Err(e) => process_spec(input.deep_view(), args.deep_view()) == Err::<
                GenPlanModel,
                PipelineError,
            >(e),
        },
{
    let attrs = match parse_attributes(args) {
        Ok(a) => a,
        Err(e) => {
            return Err(PipelineError::Attr(e));
        },
    };
    match crate::pipeline::pipeline_derive(input, &attrs) {
        Ok(p) => Ok(p),
        Err(e) => Err(PipelineError::Shape(e)),
    }
}

/// Why the whole macro invocation failed: the attribute tokens do not fit
/// the grammar, a recognized key has the wrong kind of value, or the
/// annotated type's shape was rejected.
#[derive(Clone, Copy, Debug, PartialEq, Eq, Structural)]
pub enum MacroError {
    Syntax(TokenError),
    Attr(AttrError),
    Shape(DeriveError),
}

/// What one whole macro invocation yields, starting from the annotated
/// type's shape and the raw tokens inside `#[pipeline(...)]` (absent when
/// the type carries no such attribute).
pub open spec fn macro_spec(input: InputModel, attr_tokens: Option<Seq<AttrTokenModel>>) -> Result<
    GenPlanModel,
    MacroError,
> {
    let attrs = match attr_tokens {
        None => Ok(empty_attributes()),
        Some(ts) => match tokenize_pairs_spec(ts) {
            Err(e) => Err(MacroError::Syntax(e)),
            Ok(ps) => match parse_pairs_spec(ps) {
                Err(e) => Err(MacroError::Attr(e)),
                Ok(a) => Ok(a),
            },
        },
    };
    match attrs {
        Err(e) => Err(e),
        Ok(a) => match derive_spec(input, a.skip, a.timeout) {
            Ok(p) => Ok(p),
            Err(e) => Err(MacroError::Shape(e)),
        },
    }
}

/// One whole macro invocation: parses the attribute tokens into pairs,
/// builds the attribute set, validates the annotated type's shape, and
/// yields the plan for the methods to emit, or the first diagnostic.
pub fn pipeline_derive_macro(input: InputDesc, attr_tokens: &Option<Vec<AttrToken>>) -> (r: Result<
    GenPlan,
    MacroError,
>)
    ensures
        match r {
            Ok(p) => macro_spec(input.deep_view(), attr_tokens.deep_view()) == Ok::<
                GenPlanModel,
                MacroError,
            >(p.deep_view()),
            Err(e) => macro_spec(input.deep_view(), attr_tokens.deep_view()) == Err::<
                GenPlanModel,
                MacroError,
            >(e),
        },
{
    let attrs = match attr_tokens {
        None => PipelineAttributes::default(),
        Some(toks) => {
            let pairs = match tokenize_pairs(toks) {
                Ok(ps) => ps,
                Err(e) => {
                    return Err(MacroError::Syntax(e));
                },
            };
            match PipelineAttributes::from_pairs(&pairs) {
                Ok(a) => a,
                Err(e) => {
                    return Err(MacroError::Attr(e));
                },
            }
        },
    };
    match crate::pipeline::pipeline_derive(input, &attrs) {
        Ok(p) => Ok(p),
        Err(e) => Err(MacroError::Shape(e)),
    }
}

/// An unknown attribute pair alongside the recognized ones does not block
/// generation and does not alter the generated plan: appending it to the
/// attribute list yields the same plan, or the same diagnostic.
pub proof fn lemma_unknown_pair_does_not_block(
    input: InputModel,
    ps: Seq<AttrPairModel>,
    u: AttrPairModel,
)
    requires
        !recognized_key(u.key),
    ensures
        match process_spec(input, Some(ps)) {
            Ok(p) => process_spec(input, Some(ps.push(u))) == Ok::<GenPlanModel, PipelineError>(p),
            Err(e) => process_spec(input, Some(ps.push(u))) == Err::<GenPlanModel, PipelineError>(
                e,
            ),
        },
{
    crate::attributes::lemma_unknown_pair_inert(ps, u);
}

} // verus!
