//! The token-level grammar of the attribute list.
//!
//! Inside `#[pipeline(...)]` the grammar is a comma-separated, possibly
//! trailing-comma-terminated list of pairs, each an identifier optionally
//! followed by `=` and a value expression.  A value expression is the
//! nonempty run of tokens up to the next top-level comma; the parser
//! classifies it as a boolean literal, an integer literal, or an opaque
//! expression.  This module parses a token sequence into pairs by
//! recursive descent.

use vstd::prelude::*;
use crate::attributes::{AttrPair, AttrPairModel, AttrValue};
use vstd::string::StringExecFns;

verus! {

/// One token of the attribute list, as far as the grammar looks at it:
/// an identifier, the two punctuation marks the grammar knows, an integer
/// literal, or any other token.
#[derive(Debug, Clone)]
pub enum AttrToken {
    Ident(String),
    Eq,
    Comma,
    IntLit(u64),
    OtherTok,
}

/// Mathematical model of an [`AttrToken`].
#[verifier::ext_equal]
pub enum AttrTokenModel {
    Ident(Seq<char>),
    Eq,
    Comma,
    IntLit(u64),
    OtherTok,
}

impl DeepView for AttrToken {
    type V = AttrTokenModel;

    open spec fn deep_view(&self) -> AttrTokenModel {
        match self {
            AttrToken::Ident(s) => AttrTokenModel::Ident(s@),
            AttrToken::Eq => AttrTokenModel::Eq,
            AttrToken::Comma => AttrTokenModel::Comma,
            AttrToken::IntLit(n) => AttrTokenModel::IntLit(*n),
            AttrToken::OtherTok => AttrTokenModel::OtherTok,
        }
    }
}

/// Why the attribute list's tokens do not fit the grammar; `index` is the
/// position of the offending token (one past the end for a missing one).
#[derive(Clone, Copy, Debug, PartialEq, Eq, Structural)]
pub enum TokenError {
    /// A pair must start with an identifier.
    ExpectedIdentifier { index: usize },
    /// `=` must be followed by a value expression.
    ExpectedExpression { index: usize },
    /// Pairs must be separated by commas.
    ExpectedComma { index: usize },
}

impl TokenError {
    /// The diagnostic text for this error.
    pub fn message(&self) -> (r: &'static str)
        ensures
            *self matches TokenError::ExpectedIdentifier { .. } ==> r@ == "expected identifier"@,
            *self matches TokenError::ExpectedExpression { .. } ==> r@ == "expected expression"@,
            *self matches TokenError::ExpectedComma { .. } ==> r@ == "expected comma"@,
    {
        match self {
            TokenError::ExpectedIdentifier { .. } => "expected identifier",
            TokenError::ExpectedExpression { .. } => "expected expression",
            TokenError::ExpectedComma { .. } => "expected comma",
        }
    }
}

/// The position where the value expression starting at `i` ends: the
/// first comma at or after `i`, or the end of the tokens.
pub open spec fn expr_end(ts: Seq<AttrTokenModel>, i: int) -> int
    decreases ts.len() - i,
{
    if i < 0 || i >= ts.len() {
        ts.len() as int
    } else if ts[i] is Comma {
        i
    } else {
        expr_end(ts, i + 1)
    }
}

/// What a value expression is classified as: a boolean literal when it is
/// the single identifier `true` or `false`, an integer literal when it is
/// a single integer token, opaque otherwise.
pub open spec fn classify_expr(run: Seq<AttrTokenModel>) -> AttrValue {
    if run.len() == 1 {
        match run[0] {
            AttrTokenModel::Ident(k) => if k == "true"@ {
                AttrValue::BoolLit(true)
            } else if k == "false"@ {
                AttrValue::BoolLit(false)
            } else {
                AttrValue::Other
            },
            AttrTokenModel::IntLit(n) => AttrValue::IntLit(n),
            _ => AttrValue::Other,
        }
    } else {
        AttrValue::Other
    }
}

/// `expr_end` never moves backwards and stays within the tokens.
proof fn lemma_expr_end_bounds(ts: Seq<AttrTokenModel>, i: int)
    requires
        0 <= i <= ts.len(),
    ensures
        i <= expr_end(ts, i) <= ts.len(),
    decreases ts.len() - i,
{
    if i < ts.len() && !(ts[i] is Comma) {
        lemma_expr_end_bounds(ts, i + 1);
    }
}

/// The pairs parsed from position `i` on: an identifier, an optional
/// `= <expression>`, then either a comma and the remaining pairs or the
/// end of the tokens.
pub open spec fn pairs_from(ts: Seq<AttrTokenModel>, i: int) -> Result<
    Seq<AttrPairModel>,
    TokenError,
>
    decreases ts.len() - i,
    via pairs_from_via
{
    if i < 0 || i >= ts.len() {
        Ok(Seq::empty())
    } else {
        match ts[i] {
            AttrTokenModel::Ident(k) => {
                if i + 1 >= ts.len() {
                    Ok(seq![AttrPairModel { key: k, value: None }])
                } else {
                    match ts[i + 1] {
                        AttrTokenModel::Comma => match pairs_from(ts, i + 2) {
                            Ok(rest) => Ok(
                                seq![AttrPairModel { key: k, value: None }] + rest,
                            ),
                            Err(e) => Err(e),
                        },
                        AttrTokenModel::Eq => {
                            let j = expr_end(ts, i + 2);
                            if j == i + 2 {
                                Err(TokenError::ExpectedExpression { index: (i + 2) as usize })
                            } else {
                                let p = AttrPairModel {
                                    key: k,
                                    value: Some(classify_expr(ts.subrange(i + 2, j))),
                                };
                                let next = if j + 1 <= ts.len() {
                                    j + 1
                                } else {
                                    ts.len() as int
                                };
                                match pairs_from(ts, next) {
                                    Ok(rest) => Ok(seq![p] + rest),
                                    Err(e) => Err(e),
                                }
                            }
                        },
                        _ => Err(TokenError::ExpectedComma { index: (i + 1) as usize }),
                    }
                }
            },
            _ => Err(TokenError::ExpectedIdentifier { index: i as usize }),
        }
    }
}

/// What parsing a whole token list yields.
pub open spec fn tokenize_pairs_spec(ts: Seq<AttrTokenModel>) -> Result<
    Seq<AttrPairModel>,
    TokenError,
> {
    pairs_from(ts, 0)
}

#[via_fn]
proof fn pairs_from_via(ts: Seq<AttrTokenModel>, i: int) {
    if 0 <= i && i + 2 <= ts.len() {
        lemma_expr_end_bounds(ts, i + 2);
    }
}

/// Parses the attribute list's tokens into its pairs by recursive
/// descent, rejecting the first token that does not fit the grammar.
pub fn tokenize_pairs(tokens: &Vec<AttrToken>) -> (r: Result<Vec<AttrPair>, TokenError>)
    ensures
        match r {
            Ok(ps) => tokenize_pairs_spec(tokens.deep_view()) == Ok::<Seq<AttrPairModel>, TokenError>(
                ps.deep_view(),
            ),
            Err(e) => tokenize_pairs_spec(tokens.deep_view()) == Err::<Seq<AttrPairModel>, TokenError>(
                e,
            ),
        },
{
    let ghost ts = tokens.deep_view();
    let mut acc: Vec<AttrPair> = Vec::new();
    let mut i: usize = 0;
    while i < tokens.len()
        invariant
            i <= tokens.len(),
            ts == tokens.deep_view(),
            match pairs_from(ts, i as int) {
                Ok(rest) => tokenize_pairs_spec(ts) == Ok::<Seq<AttrPairModel>, TokenError>(
                    acc.deep_view() + rest,
                ),
                Err(e) => tokenize_pairs_spec(ts) == Err::<Seq<AttrPairModel>, TokenError>(e),
            },
        decreases tokens.len() - i,
    {
        let ghost acc0 = acc.deep_view();
        let key = match &tokens[i] {
            AttrToken::Ident(s) => s.clone(),
            _ => {
                return Err(TokenError::ExpectedIdentifier { index: i });
            },
        };
        let ghost gkey = key@;
        if i + 1 >= tokens.len() {
            acc.push(AttrPair { key, value: None });
            assert(acc.deep_view() =~= acc0 + seq![AttrPairModel { key: gkey, value: None }]);
            i = i + 1;
        } else {
            match &tokens[i + 1] {
                AttrToken::Comma => {
                    acc.push(AttrPair { key, value: None });
                    proof {
                        let rest0 = pairs_from(ts, i as int)->Ok_0;
                        if pairs_from(ts, i as int) is Ok {
                            assert(acc.deep_view() + pairs_from(ts, i + 2)->Ok_0 =~= acc0 + rest0);
                        }
                    }
                    i = i + 2;
                },
                AttrToken::Eq => {
                    let start = i + 2;
                    let mut j = start;
                    proof {
                        lemma_expr_end_bounds(ts, start as int);
                    }
                    while j < tokens.len() && !(matches!(&tokens[j], AttrToken::Comma))
                        invariant
                            start <= j <= tokens.len(),
                            ts == tokens.deep_view(),
                            expr_end(ts, start as int) == expr_end(ts, j as int),
                        decreases tokens.len() - j,
                    {
                        j = j + 1;
                    }
                    assert(expr_end(ts, start as int) == j as int);
                    if j == start {
                        return Err(TokenError::ExpectedExpression { index: start });
                    }
                    let value = if j == start + 1 {
                        match &tokens[start] {
                            AttrToken::Ident(s) => {
                                let true_lit: String = String::from_str("true");
                                let false_lit: String = String::from_str("false");
                                if *s == true_lit {
                                    AttrValue::BoolLit(true)
                                } else if *s == false_lit {
                                    AttrValue::BoolLit(false)
                                } else {
                                    AttrValue::Other
                                }
                            },
                            AttrToken::IntLit(n) => AttrValue::IntLit(*n),
                            _ => AttrValue::Other,
                        }
                    } else {
                        AttrValue::Other
                    };
                    proof {
                        let run = ts.subrange(start as int, j as int);
                        assert(ts[start as int] == tokens@[start as int].deep_view());
                        if j == start + 1 {
                            assert(run.len() == 1);
                            assert(run[0] == ts[start as int]);
                        }
                        assert(value == classify_expr(run));
                    }
                    acc.push(AttrPair { key, value: Some(value) });
                    proof {
                        let p = AttrPairModel {
                            key: gkey,
                            value: Some(classify_expr(ts.subrange(start as int, j as int))),
                        };
                        let next = if j + 1 <= ts.len() {
                            j as int + 1
                        } else {
                            ts.len() as int
                        };
                        let rest0 = pairs_from(ts, i as int)->Ok_0;
                        if pairs_from(ts, i as int) is Ok {
                            assert(acc.deep_view() =~= acc0.push(p));
                            assert(acc.deep_view() + pairs_from(ts, next)->Ok_0 =~= acc0 + rest0);
                        }
                    }
                    if j == tokens.len() {
                        i = j;
                    } else {
                        i = j + 1;
                    }
                },
                _ => {
                    return Err(TokenError::ExpectedComma { index: i + 1 });
                },
            }
        }
    }
    assert(acc.deep_view() =~= acc.deep_view() + Seq::<AttrPairModel>::empty());
    Ok(acc)
}

} // verus!
