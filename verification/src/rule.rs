//! The rule: an attribute value should not be a markup literal, nor an
//! expression that can evaluate to one through `||`, `&&`, `??` or `? :`.

use vstd::prelude::*;
use crate::ast::{AttributeItem, AttributeValue, Element, Expression, NodeKind};
use crate::diagnostic::NoJsxAsPropDiagnostic;
use crate::span::Span;
use crate::utils::{get_prop_value, prop_value};

verus! {

impl Expression {
    /// The locations of the markup literals that the expression can
    /// evaluate to, in the order in which they are written. Parentheses do
    /// not count, the test of a ternary is not a result of it, and nothing
    /// is looked for inside an expression of any other shape.
    pub open spec fn reachable_markup(self) -> Seq<Span>
        decreases self,
    {
        match self {
            Expression::MarkupLiteral(span) => seq![span],
            Expression::Logical { left, right } => left.reachable_markup()
                + right.reachable_markup(),
            Expression::Conditional { consequent, alternate, .. } => consequent.reachable_markup()
                + alternate.reachable_markup(),
            Expression::Parenthesized(inner) => inner.reachable_markup(),
            Expression::Other => Seq::empty(),
        }
    }

    /// The first markup literal that the expression can evaluate to, if
    /// there is any.
    pub open spec fn first_markup(self) -> Option<Span> {
        if self.reachable_markup().len() > 0 {
            Some(self.reachable_markup().first())
        } else {
            None
        }
    }
}

/// What is reported for an attribute with the given value: the first markup
/// literal of an expression in braces, and nothing for any other value.
pub open spec fn value_report(value: AttributeValue) -> Seq<NoJsxAsPropDiagnostic> {
    match value {
        AttributeValue::ExpressionContainer(expression) => match expression.first_markup() {
            Some(span) => seq![NoJsxAsPropDiagnostic(span)],
            None => Seq::empty(),
        },
        _ => Seq::empty(),
    }
}

/// What is reported for a list of attributes. The attributes are taken in
/// order, and the first entry that carries no value ends the scan: nothing
/// is reported for it, nor for any entry behind it.
pub open spec fn scan(attributes: Seq<AttributeItem>) -> Seq<NoJsxAsPropDiagnostic>
    decreases attributes.len(),
{
    if attributes.len() == 0 {
        Seq::empty()
    } else {
        match prop_value(attributes.first()) {
            Some(value) => value_report(value) + scan(attributes.drop_first()),
            None => Seq::empty(),
        }
    }
}

/// Parentheses around an expression change nothing of the markup literals
/// that it can evaluate to, and what is inside them is a part of it.
proof fn lemma_unparenthesized(expression: Expression)
    ensures
        expression.unparenthesized().reachable_markup() == expression.reachable_markup(),
        expression.unparenthesized() == expression || decreases_to!(
            expression => expression.unparenthesized()
        ),
    decreases expression,
{
    match expression {
        Expression::Parenthesized(inner) => lemma_unparenthesized(*inner),
        _ => {},
    }
}

/// Looks for the first markup literal that the expression can evaluate to.
pub fn check_expression(expr: &Expression) -> (found: Option<Span>)
    ensures
        found == expr.first_markup(),
    decreases expr,
{
    proof {
        lemma_unparenthesized(*expr);
    }
    match expr.without_parenthesized() {
        Expression::MarkupLiteral(span) => Some(*span),
        Expression::Logical { left, right } => match check_expression(left) {
            Some(span) => Some(span),
            None => check_expression(right),
        },
        Expression::Conditional { consequent, alternate, .. } => match check_expression(
            consequent,
        ) {
            Some(span) => Some(span),
            None => check_expression(alternate),
        },
        _ => None,
    }
}

/// Scans the attributes of an element and reports each value that can
/// evaluate to a markup literal.
pub fn check_jsx_element(jsx_elem: &Element) -> (reported: Vec<NoJsxAsPropDiagnostic>)
    ensures
        reported@ == scan(jsx_elem@),
{
    let mut reported: Vec<NoJsxAsPropDiagnostic> = Vec::new();
    let mut index: usize = 0;
    assert(jsx_elem@.skip(0) == jsx_elem@);
    while index < jsx_elem.attributes.len()
        invariant
            index <= jsx_elem@.len(),
            reported@ + scan(jsx_elem@.skip(index as int)) == scan(jsx_elem@),
        decreases jsx_elem@.len() - index,
    {
        assert(jsx_elem@.skip(index as int).drop_first() == jsx_elem@.skip(index + 1));
        match get_prop_value(&jsx_elem.attributes[index]) {
            None => return reported,
            Some(AttributeValue::ExpressionContainer(expr)) => {
                if let Some(span) = check_expression(expr) {
                    reported.push(NoJsxAsPropDiagnostic(span));
                }
            },
            _ => {},
        }
        index += 1;
    }
    reported
}

/// The rule itself.
#[derive(Debug, Default, Clone, Copy)]
pub struct NoJsxAsProp;

impl NoJsxAsProp {
    /// Runs the rule on one node of the syntax tree. Only a markup element
    /// is looked at.
    pub fn run(&self, node: &NodeKind) -> (reported: Vec<NoJsxAsPropDiagnostic>)
        ensures
            reported@ == match *node {
                NodeKind::Element(element) => scan(element@),
                NodeKind::Other => Seq::empty(),
            },
    {
        match node {
            NodeKind::Element(jsx_elem) => check_jsx_element(jsx_elem),
            NodeKind::Other => Vec::new(),
        }
    }
}

} // verus!
