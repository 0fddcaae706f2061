//! The evaluation request handed to the external evaluator.

use vstd::prelude::*;
use vstd::string::StringExecFns;

verus! {

/// A reusable evaluation request: the materialized upgrade expression and
/// the argument bound to its `src` parameter.  Each attribute query against
/// the evaluator is an independent round trip, so a fresh request is built
/// for each query.
pub struct EvaluationRequest {
    /// The stable path of the upgrade expression in the store.
    pub expr_path: String,
    /// The resolved upgrade source identifier.
    pub src: String,
}

/// The mathematical value of a request: its two texts.
#[verifier::ext_equal]
pub struct RequestModel {
    pub expr_path: Seq<char>,
    pub src: Seq<char>,
}

impl View for EvaluationRequest {
    type V = RequestModel;

    open spec fn view(&self) -> RequestModel {
        RequestModel { expr_path: self.expr_path@, src: self.src@ }
    }
}

/// The progress line announcing the upgrade target before an evaluation
/// round trip.
pub open spec fn progress_line(target: Seq<char>) -> Seq<char> {
    "Upgrading from source: "@ + target
}

/// Build the request that queries the expression at `expr_path` with the
/// given target, together with the progress line announcing the round trip.
pub fn build_request(expr_path: &String, target: &String) -> (r: (EvaluationRequest, String))
    ensures
        r.0@ == (RequestModel { expr_path: expr_path@, src: target@ }),
        r.1@ == progress_line(target@),
{
    let req = EvaluationRequest { expr_path: expr_path.clone(), src: target.clone() };
    let mut line = String::from_str("Upgrading from source: ");
    line.append(target.as_str());
    (req, line)
}

} // verus!
