//! Topic expressions, validated before any session use.
use vstd::prelude::*;

verus! {

/// Whether a string is a well-formed key expression in zenoh's grammar.
pub uninterp spec fn is_key_expr(s: Seq<char>) -> bool;

/// A topic expression that has passed validation.
///
/// The only way to obtain one is `validate`, so `expr` always satisfies the
/// key-expression grammar.
#[derive(Clone, Debug)]
pub struct TopicExpression {
    expr: String,
}

/// A malformed topic expression: the offending input and the reason given
/// by the grammar check.
#[derive(Clone, Debug, PartialEq, Eq)]
pub struct ValidationError {
    pub input: String,
    pub reason: String,
}

impl TopicExpression {
    pub closed spec fn view(&self) -> Seq<char> {
        self.expr@
    }

    pub closed spec fn wf(&self) -> bool {
        is_key_expr(self.expr@)
    }

    /// The validated expression as text.
    pub fn as_str(&self) -> (r: &str)
        ensures
            r@ == self.view(),
    {
        self.expr.as_str()
    }
}

/// Relies on zenoh's `KeyExpr::try_from(String)`: it accepts exactly the
/// well-formed key expressions, refusing among others the empty string and
/// any string that ends with `/`. On refusal the error's message is returned.
#[verifier::external_body]
fn key_expr_error(raw: &str) -> (r: Option<String>)
    ensures
        r is None <==> is_key_expr(raw@),
        raw@.len() == 0 ==> r is Some,
        (raw@.len() > 0 && raw@.last() == '/') ==> r is Some,
{
    match zenoh::key_expr::KeyExpr::try_from(raw.to_string()) {
        Ok(_) => None,
        Err(e) => Some(e.to_string()),
    }
}

/// Validates `raw` as a topic expression.
///
/// Succeeds exactly when `raw` is a well-formed key expression, with a topic
/// that holds `raw` unchanged; otherwise the error carries `raw`. The empty
/// string and a string that ends with a separator are always refused.
pub fn validate(raw: &str) -> (r: Result<TopicExpression, ValidationError>)
    ensures
        r is Ok <==> is_key_expr(raw@),
        r matches Ok(t) ==> t.wf() && t.view() == raw@,
        r matches Err(e) ==> e.input@ == raw@,
        raw@.len() == 0 ==> r is Err,
        (raw@.len() > 0 && raw@.last() == '/') ==> r is Err,
{
    match key_expr_error(raw) {
        None => Ok(TopicExpression { expr: raw.to_string() }),
        Some(reason) => Err(ValidationError { input: raw.to_string(), reason }),
    }
}

} // verus!
