//! The `#[pipeline(...)]` attribute mini-language.
//!
//! The attribute holds zero or more comma-separated pairs, each an
//! identifier optionally followed by `= <expression>`.  The keys `skip`
//! (boolean) and `timeout` (integer) are recognized specially; every other
//! pair is retained verbatim and does not affect generation.

use vstd::prelude::*;
use vstd::string::StringExecFns;

verus! {

/// What a pair's value expression is, as far as the parser looks at it:
/// a boolean literal, a base-10 integer literal, or anything else.
#[derive(Clone, Copy, Debug, PartialEq, Eq, Structural)]
pub enum AttrValue {
    BoolLit(bool),
    IntLit(u64),
    Other,
}

/// One `key` or `key = value` pair from the attribute list.
#[derive(Debug, Clone)]
pub struct AttrPair {
    pub key: String,
    pub value: Option<AttrValue>,
}

/// Mathematical model of an [`AttrPair`].
#[verifier::ext_equal]
pub struct AttrPairModel {
    pub key: Seq<char>,
    pub value: Option<AttrValue>,
}

impl DeepView for AttrPair {
    type V = AttrPairModel;

    open spec fn deep_view(&self) -> AttrPairModel {
        AttrPairModel { key: self.key@, value: self.value }
    }
}

/// The parsed attribute set: `skip` (default false), `timeout` (default
/// absent), and the unrecognized pairs in source order.
#[derive(Debug, Clone)]
pub struct PipelineAttributes {
    pub skip: bool,
    pub timeout: Option<u64>,
    pub others: Vec<AttrPair>,
}

/// Mathematical model of a [`PipelineAttributes`].
#[verifier::ext_equal]
pub struct AttributesModel {
    pub skip: bool,
    pub timeout: Option<u64>,
    pub others: Seq<AttrPairModel>,
}

impl DeepView for PipelineAttributes {
    type V = AttributesModel;

    open spec fn deep_view(&self) -> AttributesModel {
        AttributesModel {
            skip: self.skip,
            timeout: self.timeout,
            others: self.others.deep_view(),
        }
    }
}

/// Why parsing the attribute list failed; `index` is the position of the
/// offending pair, so a caller can anchor the diagnostic to its tokens.
#[derive(Clone, Copy, Debug, PartialEq, Eq, Structural)]
pub enum AttrError {
    SkipExpectsBool { index: usize },
    TimeoutExpectsInt { index: usize },
    TimeoutRequiresValue { index: usize },
}

impl AttrError {
    /// The diagnostic text for this error.
    pub fn message(&self) -> (r: &'static str)
        ensures
            *self matches AttrError::SkipExpectsBool { .. } ==> r@ == "Expected boolean literal for 'skip'"@,
            *self matches AttrError::TimeoutExpectsInt { .. } ==> r@ == "Expected integer literal for 'timeout'"@,
            *self matches AttrError::TimeoutRequiresValue { .. } ==> r@ == "'timeout' attribute requires an integer value, e.g. timeout = 1000"@,
    {
        match self {
            AttrError::SkipExpectsBool { .. } => "Expected boolean literal for 'skip'",
            AttrError::TimeoutExpectsInt { .. } => "Expected integer literal for 'timeout'",
            AttrError::TimeoutRequiresValue { .. } => "'timeout' attribute requires an integer value, e.g. timeout = 1000",
        }
    }

    /// The position of the pair the diagnostic is anchored to.
    pub fn index(&self) -> (r: usize)
        ensures
            *self matches AttrError::SkipExpectsBool { index } ==> r == index,
            *self matches AttrError::TimeoutExpectsInt { index } ==> r == index,
            *self matches AttrError::TimeoutRequiresValue { index } ==> r == index,
    {
        match self {
            AttrError::SkipExpectsBool { index } => *index,
            AttrError::TimeoutExpectsInt { index } => *index,
            AttrError::TimeoutRequiresValue { index } => *index,
        }
    }
}

/// The attribute set before any pair is read: all defaults.
pub open spec fn empty_attributes() -> AttributesModel {
    AttributesModel { skip: false, timeout: None, others: Seq::empty() }
}

/// Whether `key` is one of the specially recognized attribute keys.
pub open spec fn recognized_key(key: Seq<char>) -> bool {
    key == "skip"@ || key == "timeout"@
}

/// How one pair at position `i` updates the attribute set built so far.
pub open spec fn parse_step(acc: AttributesModel, p: AttrPairModel, i: int) -> Result<
    AttributesModel,
    AttrError,
> {
    if p.key == "skip"@ {
        match p.value {
            None => Ok(AttributesModel { skip: true, timeout: acc.timeout, others: acc.others }),
            Some(AttrValue::BoolLit(b)) => Ok(
                AttributesModel { skip: b, timeout: acc.timeout, others: acc.others },
            ),
            Some(_) => Err(AttrError::SkipExpectsBool { index: i as usize }),
        }
    } else if p.key == "timeout"@ {
        match p.value {
            Some(AttrValue::IntLit(n)) => Ok(
                AttributesModel { skip: acc.skip, timeout: Some(n), others: acc.others },
            ),
            Some(_) => Err(AttrError::TimeoutExpectsInt { index: i as usize }),
            None => Err(AttrError::TimeoutRequiresValue { index: i as usize }),
        }
    } else {
        Ok(AttributesModel { skip: acc.skip, timeout: acc.timeout, others: acc.others.push(p) })
    }
}

/// Folds the pairs from position `i` on over the set built so far,
/// stopping at the first erroneous pair.
pub open spec fn parse_from(ps: Seq<AttrPairModel>, i: int, acc: AttributesModel) -> Result<
    AttributesModel,
    AttrError,
>
    decreases ps.len() - i,
{
    if i < 0 || i >= ps.len() {
        Ok(acc)
    } else {
        match parse_step(acc, ps[i], i) {
            Ok(a) => parse_from(ps, i + 1, a),
            Err(e) => Err(e),
        }
    }
}

/// What parsing a whole pair list yields.
pub open spec fn parse_pairs_spec(ps: Seq<AttrPairModel>) -> Result<AttributesModel, AttrError> {
    parse_from(ps, 0, empty_attributes())
}

impl PipelineAttributes {
    /// Builds the attribute set from the parsed pairs: bare `skip` means
    /// `skip = true`, `timeout` demands an integer literal, and every
    /// unrecognized pair is retained in order without being evaluated.
    pub fn from_pairs(pairs: &Vec<AttrPair>) -> (r: Result<PipelineAttributes, AttrError>)
        ensures
            match r {
                Ok(a) => parse_pairs_spec(pairs.deep_view()) == Ok::<AttributesModel, AttrError>(
                    a.deep_view(),
                ),
                Err(e) => parse_pairs_spec(pairs.deep_view()) == Err::<AttributesModel, AttrError>(
                    e,
                ),
            },
    {
        let ghost gps = pairs.deep_view();
        let skip_key: String = String::from_str("skip");
        let timeout_key: String = String::from_str("timeout");
        let mut acc = PipelineAttributes { skip: false, timeout: None, others: Vec::new() };
        assert(acc.deep_view() =~= empty_attributes());
        let mut i: usize = 0;
        while i < pairs.len()
            invariant
                i <= pairs.len(),
                gps == pairs.deep_view(),
                skip_key@ == "skip"@,
                timeout_key@ == "timeout"@,
                parse_pairs_spec(gps) == parse_from(gps, i as int, acc.deep_view()),
            decreases pairs.len() - i,
        {
            let p = &pairs[i];
            assert(p.deep_view() == gps[i as int]);
            let ghost acc0 = acc.deep_view();
            if p.key == skip_key {
                match p.value {
                    None => {
                        acc.skip = true;
                    },
                    Some(AttrValue::BoolLit(b)) => {
                        acc.skip = b;
                    },
                    Some(_) => {
                        return Err(AttrError::SkipExpectsBool { index: i });
                    },
                }
            } else if p.key == timeout_key {
                match p.value {
                    Some(AttrValue::IntLit(n)) => {
                        acc.timeout = Some(n);
                    },
                    Some(_) => {
                        return Err(AttrError::TimeoutExpectsInt { index: i });
                    },
                    None => {
                        return Err(AttrError::TimeoutRequiresValue { index: i });
                    },
                }
            } else {
                acc.others.push(AttrPair { key: p.key.clone(), value: p.value });
                assert(acc.deep_view().others =~= acc0.others.push(gps[i as int]));
            }
            assert(parse_step(acc0, gps[i as int], i as int) == Ok::<AttributesModel, AttrError>(
                acc.deep_view(),
            ));
            i = i + 1;
        }
        Ok(acc)
    }
}

/// Helper for [`lemma_unknown_pair_inert`], generalized over the fold
/// position and the set built so far.
proof fn lemma_parse_from_push_unknown(
    ps: Seq<AttrPairModel>,
    u: AttrPairModel,
    i: int,
    acc: AttributesModel,
)
    requires
        !recognized_key(u.key),
        0 <= i <= ps.len(),
    ensures
        match parse_from(ps, i, acc) {
            Ok(a) => parse_from(ps.push(u), i, acc) == Ok::<AttributesModel, AttrError>(
                AttributesModel { skip: a.skip, timeout: a.timeout, others: a.others.push(u) },
            ),
            Err(e) => parse_from(ps.push(u), i, acc) == Err::<AttributesModel, AttrError>(e),
        },
    decreases ps.len() - i,
{
    if i == ps.len() {
        assert(ps.push(u)[i] == u);
        assert(parse_from(ps.push(u), i + 1, AttributesModel {
            skip: acc.skip,
            timeout: acc.timeout,
            others: acc.others.push(u),
        }) == Ok::<AttributesModel, AttrError>(AttributesModel {
            skip: acc.skip,
            timeout: acc.timeout,
            others: acc.others.push(u),
        }));
    } else {
        assert(ps.push(u)[i] == ps[i]);
        match parse_step(acc, ps[i], i) {
            Ok(a2) => {
                lemma_parse_from_push_unknown(ps, u, i + 1, a2);
            },
            Err(_) => {
            },
        }
    }
}

/// A pair whose key is neither `skip` nor `timeout` never blocks parsing
/// and never alters the recognized values: appending it to any pair list
/// leaves success, `skip` and `timeout` unchanged, and only extends the
/// retained pairs.
pub proof fn lemma_unknown_pair_inert(ps: Seq<AttrPairModel>, u: AttrPairModel)
    requires
        !recognized_key(u.key),
    ensures
        match parse_pairs_spec(ps) {
            Ok(a) => parse_pairs_spec(ps.push(u)) == Ok::<AttributesModel, AttrError>(
                AttributesModel { skip: a.skip, timeout: a.timeout, others: a.others.push(u) },
            ),
            Err(e) => parse_pairs_spec(ps.push(u)) == Err::<AttributesModel, AttrError>(e),
        },
{
    lemma_parse_from_push_unknown(ps, u, 0, empty_attributes());
}

impl Default for PipelineAttributes {
    /// The attribute set used when no `#[pipeline(...)]` attribute is
    /// present: all defaults.
    fn default() -> (r: Self)
        ensures
            r.deep_view() == empty_attributes(),
    {
        let r = PipelineAttributes { skip: false, timeout: None, others: Vec::new() };
        assert(r.deep_view() =~= empty_attributes());
        r
    }
}

/// What the attribute set is for an annotated type: parsed from the pairs
/// inside `#[pipeline(...)]` when the attribute is present, all defaults
/// when it is absent.
pub open spec fn attributes_spec(args: Option<Seq<AttrPairModel>>) -> Result<
    AttributesModel,
    AttrError,
> {
    match args {
        None => Ok(empty_attributes()),
        Some(ps) => parse_pairs_spec(ps),
    }
}

/// Parses the `#[pipeline(...)]` attribute list of a type, or yields the
/// defaults when the type carries no such attribute.
pub fn parse_attributes(args: &Option<Vec<AttrPair>>) -> (r: Result<PipelineAttributes, AttrError>)
    ensures
        match r {
            Ok(a) => attributes_spec(args.deep_view()) == Ok::<AttributesModel, AttrError>(
                a.deep_view(),
            ),
            Err(e) => attributes_spec(args.deep_view()) == Err::<AttributesModel, AttrError>(e),
        },
{
    match args {
        None => Ok(PipelineAttributes::default()),
        Some(pairs) => PipelineAttributes::from_pairs(pairs),
    }
}

} // verus!
