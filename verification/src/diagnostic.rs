//! What the rule reports.

use vstd::prelude::*;
use crate::span::Span;

verus! {

/// How serious a report is.
#[derive(Clone, Copy, Debug, PartialEq, Eq, Structural)]
pub enum Severity {
    Advice,
    Warning,
    Error,
}

/// The text of every report of the rule.
pub const MESSAGE: &'static str =
    "eslint-plugin-react-perf(no-jsx-as-prop): JSX attribute values should not contain other JSX.";

/// The advice given with every report of the rule.
pub const HELP: &'static str =
    "simplify props or memoize props in the parent component (https://react.dev/reference/react/memo#my-component-rerenders-when-a-prop-is-an-object-or-array).";

/// A report that an attribute value can evaluate to a markup literal. It
/// points at that literal, not at the attribute.
#[derive(Clone, Copy, Debug, PartialEq, Eq, Structural)]
pub struct NoJsxAsPropDiagnostic(pub Span);

impl NoJsxAsPropDiagnostic {
    /// The location of the markup literal.
    pub fn span(&self) -> (span: Span)
        ensures
            span == self.0,
    {
        self.0
    }

    /// Every report of the rule is a warning.
    pub fn severity(&self) -> (severity: Severity)
        ensures
            severity == Severity::Warning,
    {
        Severity::Warning
    }

    pub fn message(&self) -> (text: &'static str)
        ensures
            text@ == MESSAGE@,
    {
        MESSAGE
    }

    pub fn help(&self) -> (text: &'static str)
        ensures
            text@ == HELP@,
    {
        HELP
    }
}

} // verus!
