//! What holds of the rule on every input.

use vstd::prelude::*;
use crate::ast::{AttributeItem, AttributeValue, Expression};
use crate::diagnostic::NoJsxAsPropDiagnostic;
use crate::rule::scan;
use crate::span::Span;
use crate::utils::prop_value;

verus! {

/// The first of two results: the earlier one where there is one, else the
/// later one.
pub open spec fn or_else(earlier: Option<Span>, later: Option<Span>) -> Option<Span> {
    match earlier {
        Some(span) => Some(span),
        None => later,
    }
}

impl Expression {
    /// The expression without any of its parentheses, those inside it
    /// included.
    pub open spec fn stripped(self) -> Expression
        decreases self,
    {
        match self {
            Expression::MarkupLiteral(span) => Expression::MarkupLiteral(span),
            Expression::Logical { left, right } => Expression::Logical {
                left: Box::new(left.stripped()),
                right: Box::new(right.stripped()),
            },
            Expression::Conditional { test, consequent, alternate } => Expression::Conditional {
                test: Box::new(test.stripped()),
                consequent: Box::new(consequent.stripped()),
                alternate: Box::new(alternate.stripped()),
            },
            Expression::Parenthesized(inner) => inner.stripped(),
            Expression::Other => Expression::Other,
        }
    }

    /// Whether a markup literal stands anywhere in the expression, the
    /// tests of its ternaries included.
    pub open spec fn mentions_markup(self) -> bool
        decreases self,
    {
        match self {
            Expression::MarkupLiteral(_) => true,
            Expression::Logical { left, right } => left.mentions_markup()
                || right.mentions_markup(),
            Expression::Conditional { test, consequent, alternate } => test.mentions_markup()
                || consequent.mentions_markup() || alternate.mentions_markup(),
            Expression::Parenthesized(inner) => inner.mentions_markup(),
            Expression::Other => false,
        }
    }
}

/// An expression that is a markup literal once the parentheses around it are
/// taken away is found, at the place of that literal.
pub proof fn lemma_markup_literal_is_found(expression: Expression, span: Span)
    requires
        expression.unparenthesized() == Expression::MarkupLiteral(span),
    ensures
        expression.first_markup() == Some(span),
    decreases expression,
{
    match expression {
        Expression::Parenthesized(inner) => lemma_markup_literal_is_found(*inner, span),
        _ => {},
    }
}

/// In `left || right` the left operand goes first: what is found in it is
/// the result, and the right operand decides only where nothing is found in
/// the left one.
pub proof fn lemma_logical_left_first(left: Expression, right: Expression)
    ensures
        (Expression::Logical { left: Box::new(left), right: Box::new(right) }).first_markup()
            == or_else(left.first_markup(), right.first_markup()),
{
}

/// In `test ? consequent : alternate` the consequent goes first: what is
/// found in it is the result, and the alternate decides only where nothing
/// is found in the consequent. The test decides nothing.
pub proof fn lemma_conditional_consequent_first(
    test: Expression,
    consequent: Expression,
    alternate: Expression,
)
    ensures
        (Expression::Conditional {
            test: Box::new(test),
            consequent: Box::new(consequent),
            alternate: Box::new(alternate),
        }).first_markup() == or_else(consequent.first_markup(), alternate.first_markup()),
{
}

/// Nothing is found in an expression of a shape that the rule does not
/// know, in parentheses or not.
pub proof fn lemma_other_is_not_found(expression: Expression)
    requires
        expression.unparenthesized() == Expression::Other,
    ensures
        expression.first_markup() is None,
    decreases expression,
{
    match expression {
        Expression::Parenthesized(inner) => lemma_other_is_not_found(*inner),
        _ => {},
    }
}

/// Nothing is found in an expression in which no markup literal stands.
pub proof fn lemma_no_markup_no_finding(expression: Expression)
    requires
        !expression.mentions_markup(),
    ensures
        expression.first_markup() is None,
    decreases expression,
{
    match expression {
        Expression::Logical { left, right } => {
            lemma_no_markup_no_finding(*left);
            lemma_no_markup_no_finding(*right);
        },
        Expression::Conditional { test, consequent, alternate } => {
            lemma_no_markup_no_finding(*consequent);
            lemma_no_markup_no_finding(*alternate);
        },
        Expression::Parenthesized(inner) => lemma_no_markup_no_finding(*inner),
        _ => {},
    }
}

/// Parentheses decide nothing, wherever they stand: an expression and the
/// same expression without any of its parentheses give the same result.
pub proof fn lemma_parentheses_are_invisible(expression: Expression)
    ensures
        expression.stripped().reachable_markup() == expression.reachable_markup(),
        expression.stripped().first_markup() == expression.first_markup(),
    decreases expression,
{
    match expression {
        Expression::Logical { left, right } => {
            lemma_parentheses_are_invisible(*left);
            lemma_parentheses_are_invisible(*right);
        },
        Expression::Conditional { test, consequent, alternate } => {
            lemma_parentheses_are_invisible(*consequent);
            lemma_parentheses_are_invisible(*alternate);
        },
        Expression::Parenthesized(inner) => lemma_parentheses_are_invisible(*inner),
        _ => {},
    }
}

/// Two expressions that differ in their parentheses only give the same
/// result.
pub proof fn lemma_same_up_to_parentheses(one: Expression, other: Expression)
    requires
        one.stripped() == other.stripped(),
    ensures
        one.first_markup() == other.first_markup(),
{
    lemma_parentheses_are_invisible(one);
    lemma_parentheses_are_invisible(other);
}

/// Whether the scan of the attributes comes as far as the entry at `index`
/// and looks at its value: that entry and every entry before it carries a
/// value.
pub open spec fn reached(attributes: Seq<AttributeItem>, index: int) -> bool {
    &&& 0 <= index < attributes.len()
    &&& forall|earlier: int|
        0 <= earlier <= index ==> prop_value(#[trigger] attributes[earlier]) is Some
}

/// The markup literal for which an entry of an attribute list is reported,
/// once the scan has reached it: the first one of an expression in braces.
pub open spec fn finding(item: AttributeItem) -> Option<Span> {
    match prop_value(item) {
        Some(AttributeValue::ExpressionContainer(expression)) => expression.first_markup(),
        _ => None,
    }
}

/// An entry without a value ends the scan: what is reported is what would
/// be reported if the list ended before that entry.
pub proof fn lemma_scan_ends_at_missing_value(attributes: Seq<AttributeItem>, index: int)
    requires
        0 <= index < attributes.len(),
        prop_value(attributes[index]) is None,
    ensures
        scan(attributes) == scan(attributes.take(index)),
    decreases index,
{
    if index == 0 {
        assert(attributes.take(0).len() == 0);
    } else if prop_value(attributes[0]) is Some {
        let rest = attributes.drop_first();
        lemma_scan_ends_at_missing_value(rest, index - 1);
        assert(attributes.take(index).drop_first() == rest.take(index - 1));
        assert(attributes.take(index).first() == attributes.first());
    } else {
        assert(attributes.take(index).first() == attributes.first());
    }
}

/// Every entry that the scan reaches and in which a markup literal is found
/// is reported, at the place of that literal.
pub proof fn lemma_finding_is_reported(attributes: Seq<AttributeItem>, index: int, span: Span)
    requires
        reached(attributes, index),
        finding(attributes[index]) == Some(span),
    ensures
        scan(attributes).contains(NoJsxAsPropDiagnostic(span)),
    decreases index,
{
    let rest = attributes.drop_first();
    if index == 0 {
        assert(scan(attributes)[0] == NoJsxAsPropDiagnostic(span));
    } else {
        assert(prop_value(attributes[0]) is Some);
        assert forall|earlier: int| 0 <= earlier <= index - 1 implies prop_value(
            #[trigger] rest[earlier],
        ) is Some by {
            assert(rest[earlier] == attributes[earlier + 1]);
        }
        lemma_finding_is_reported(rest, index - 1, span);
        let at = choose|at: int|
            0 <= at < scan(rest).len() && scan(rest)[at] == NoJsxAsPropDiagnostic(span);
        let before = scan(attributes).len() - scan(rest).len();
        assert(scan(attributes)[before + at] == NoJsxAsPropDiagnostic(span));
    }
}

/// An attribute whose value is, once the parentheses around it are taken
/// away, a markup literal is reported at the place of that literal,
/// provided that the scan reaches it.
pub proof fn lemma_markup_literal_is_reported(
    attributes: Seq<AttributeItem>,
    index: int,
    expression: Expression,
    span: Span,
)
    requires
        reached(attributes, index),
        prop_value(attributes[index]) == Some(AttributeValue::ExpressionContainer(expression)),
        expression.unparenthesized() == Expression::MarkupLiteral(span),
    ensures
        scan(attributes).contains(NoJsxAsPropDiagnostic(span)),
{
    lemma_markup_literal_is_found(expression, span);
    lemma_finding_is_reported(attributes, index, span);
}

/// Whatever is reported was found in an entry that the scan reached.
pub proof fn lemma_report_has_a_source(
    attributes: Seq<AttributeItem>,
    report: NoJsxAsPropDiagnostic,
) -> (index: int)
    requires
        scan(attributes).contains(report),
    ensures
        reached(attributes, index),
        finding(attributes[index]) == Some(report.0),
    decreases attributes.len(),
{
    let rest = attributes.drop_first();
    if finding(attributes[0]) == Some(report.0) {
        0
    } else {
        let at = choose|at: int|
            0 <= at < scan(attributes).len() && scan(attributes)[at] == report;
        let before = scan(attributes).len() - scan(rest).len();
        assert(scan(rest)[at - before] == report);
        let index = lemma_report_has_a_source(rest, report);
        assert forall|earlier: int| 0 <= earlier <= index + 1 implies prop_value(
            #[trigger] attributes[earlier],
        ) is Some by {
            if earlier > 0 {
                assert(attributes[earlier] == rest[earlier - 1]);
            }
        }
        index + 1
    }
}

/// Where no markup literal is found in any attribute, nothing is reported.
pub proof fn lemma_no_finding_no_report(attributes: Seq<AttributeItem>)
    requires
        forall|index: int|
            0 <= index < attributes.len() ==> finding(#[trigger] attributes[index]) is None,
    ensures
        scan(attributes) == Seq::<NoJsxAsPropDiagnostic>::empty(),
    decreases attributes.len(),
{
    if attributes.len() > 0 {
        let rest = attributes.drop_first();
        assert(finding(attributes[0]) is None);
        assert forall|index: int| 0 <= index < rest.len() implies finding(
            #[trigger] rest[index],
        ) is None by {
            assert(rest[index] == attributes[index + 1]);
        }
        lemma_no_finding_no_report(rest);
    }
}

/// Whether a markup literal stands anywhere in the expression that an entry
/// of an attribute list carries in braces.
pub open spec fn item_mentions_markup(item: AttributeItem) -> bool {
    match prop_value(item) {
        Some(AttributeValue::ExpressionContainer(expression)) => expression.mentions_markup(),
        _ => false,
    }
}

/// Where no markup literal stands in any attribute value, nothing is
/// reported.
pub proof fn lemma_no_markup_no_report(attributes: Seq<AttributeItem>)
    requires
        forall|index: int|
            0 <= index < attributes.len() ==> !item_mentions_markup(#[trigger] attributes[index]),
    ensures
        scan(attributes) == Seq::<NoJsxAsPropDiagnostic>::empty(),
{
    assert forall|index: int| 0 <= index < attributes.len() implies finding(
        #[trigger] attributes[index],
    ) is None by {
        assert(!item_mentions_markup(attributes[index]));
        if let Some(AttributeValue::ExpressionContainer(expression)) = prop_value(
            attributes[index],
        ) {
            lemma_no_markup_no_finding(expression);
        }
    }
    lemma_no_finding_no_report(attributes);
}

} // verus!
