//! Verdict engine: compares a computed value against an expected value
//! and yields the outcome for one result node.
//!
//! The engine never fails: every combination of present and absent
//! expected and computed values maps to a defined outcome. Type tags take
//! part in the comparison, so a textually equal value with a different
//! declared type is a mismatch: the engine is strict by design.

use crate::model::ResultNode;
use crate::model::ValueType;
use crate::model::ValueTypeV;
use crate::parser::opt_view;
use vstd::prelude::*;

verus! {

/// Outcome of comparing the computed value of one result node against
/// its expected value.
#[derive(Debug)]
pub enum Verdict {
    /// The test case expects the evaluation to fail, independently of
    /// the two values.
    ExpectedErrorObserved,
    /// Both values are present and structurally equal.
    Match,
    /// Both values are present and not equal; carries the expected and
    /// the computed value, in that order, for diagnostic reporting.
    Mismatch(ValueType, ValueType),
    /// No expected value was defined for the result node.
    MissingExpected,
    /// The evaluation collaborator returned no value for the result node.
    MissingComputed,
}

/// Mathematical model of a [`Verdict`].
pub enum VerdictV {
    ExpectedErrorObserved,
    Match,
    Mismatch(ValueTypeV, ValueTypeV),
    MissingExpected,
    MissingComputed,
}

impl View for Verdict {
    type V = VerdictV;

    open spec fn view(&self) -> VerdictV {
        match self {
            Verdict::ExpectedErrorObserved => VerdictV::ExpectedErrorObserved,
            Verdict::Match => VerdictV::Match,
            Verdict::Mismatch(e, c) => VerdictV::Mismatch(e@, c@),
            Verdict::MissingExpected => VerdictV::MissingExpected,
            Verdict::MissingComputed => VerdictV::MissingComputed,
        }
    }
}

/// The verdict for one result node: an expected error wins outright;
/// otherwise a missing expected value, then a missing computed value, is
/// reported; otherwise the two values are compared structurally.
pub open spec fn spec_verdict(
    error_result: bool,
    expected: Option<ValueTypeV>,
    computed: Option<ValueTypeV>,
) -> VerdictV {
    if error_result {
        VerdictV::ExpectedErrorObserved
    } else {
        match expected {
            None => VerdictV::MissingExpected,
            Some(e) => match computed {
                None => VerdictV::MissingComputed,
                Some(c) => if e == c {
                    VerdictV::Match
                } else {
                    VerdictV::Mismatch(e, c)
                },
            },
        }
    }
}

/// Compares an optional computed value against an optional expected
/// value, under the error-result flag of the owning result node, and
/// yields the verdict. This function never fails: every combination of
/// inputs maps to a defined outcome.
pub fn evaluate_verdict(
    error_result: bool,
    expected: &Option<ValueType>,
    computed: &Option<ValueType>,
) -> (r: Verdict)
    ensures
        r@ == spec_verdict(error_result, opt_view(*expected), opt_view(*computed)),
{
    if error_result {
        return Verdict::ExpectedErrorObserved;
    }
    match expected {
        None => Verdict::MissingExpected,
        Some(e) => match computed {
            None => Verdict::MissingComputed,
            Some(c) => if e.structural_eq(c) {
                Verdict::Match
            } else {
                Verdict::Mismatch(e.deep_clone(), c.deep_clone())
            },
        },
    }
}

impl ResultNode {
    /// The verdict for this result node, from its error-result flag, its
    /// expected value and its computed value.
    pub fn verdict(&self) -> (r: Verdict)
        ensures
            r@ == spec_verdict(self.error_result, self@.expected, self@.computed),
    {
        evaluate_verdict(self.error_result, &self.expected, &self.computed)
    }
}

} // verus!
