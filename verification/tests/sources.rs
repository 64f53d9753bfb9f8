//! The rule on parsed source text: every markup element of a program is
//! handed to the rule, as a linter's traversal does.

use no_jsx_as_prop::{
    Attribute, AttributeItem, AttributeValue, Element, Expression, NoJsxAsProp,
    NoJsxAsPropDiagnostic, NodeKind, Severity, Span,
};
use oxc_allocator::Allocator;
use oxc_ast::ast::{
    Expression as SourceExpression, JSXAttributeItem, JSXAttributeName, JSXAttributeValue,
    JSXElement, JSXExpression,
};
use oxc_ast::{AstKind, Visit};
use oxc_parser::Parser;
use oxc_span::SourceType;

fn lower_span(span: oxc_span::Span) -> Span {
    Span::new(span.start, span.end)
}

fn lower_expression(expression: &SourceExpression) -> Expression {
    match expression {
        SourceExpression::JSXElement(element) => Expression::MarkupLiteral(lower_span(element.span)),
        SourceExpression::LogicalExpression(logical) => Expression::Logical {
            left: Box::new(lower_expression(&logical.left)),
            right: Box::new(lower_expression(&logical.right)),
        },
        SourceExpression::ConditionalExpression(conditional) => Expression::Conditional {
            test: Box::new(lower_expression(&conditional.test)),
            consequent: Box::new(lower_expression(&conditional.consequent)),
            alternate: Box::new(lower_expression(&conditional.alternate)),
        },
        SourceExpression::ParenthesizedExpression(parenthesized) => {
            Expression::Parenthesized(Box::new(lower_expression(&parenthesized.expression)))
        }
        _ => Expression::Other,
    }
}

fn lower_value(value: &JSXAttributeValue) -> AttributeValue {
    match value {
        JSXAttributeValue::StringLiteral(_) => AttributeValue::Literal,
        JSXAttributeValue::ExpressionContainer(container) => match &container.expression {
            JSXExpression::Expression(expression) => {
                AttributeValue::ExpressionContainer(lower_expression(expression))
            }
            JSXExpression::EmptyExpression(_) => AttributeValue::EmptyContainer,
        },
        JSXAttributeValue::Element(_) => AttributeValue::Element,
        JSXAttributeValue::Fragment(_) => AttributeValue::Fragment,
    }
}

fn lower_item(item: &JSXAttributeItem) -> AttributeItem {
    match item {
        JSXAttributeItem::Attribute(attribute) => AttributeItem::Attribute(Attribute {
            name: match &attribute.name {
                JSXAttributeName::Identifier(identifier) => identifier.name.to_string(),
                JSXAttributeName::NamespacedName(name) => name.to_string(),
            },
            value: attribute.value.as_ref().map(lower_value),
        }),
        JSXAttributeItem::SpreadAttribute(_) => AttributeItem::Spread,
    }
}

fn lower_element(element: &JSXElement) -> Element {
    Element { attributes: element.opening_element.attributes.iter().map(lower_item).collect() }
}

fn lower_node(kind: AstKind) -> NodeKind {
    match kind {
        AstKind::JSXElement(element) => NodeKind::Element(lower_element(element)),
        _ => NodeKind::Other,
    }
}

struct Linter {
    rule: NoJsxAsProp,
    reported: Vec<NoJsxAsPropDiagnostic>,
}

impl<'a> Visit<'a> for Linter {
    fn enter_node(&mut self, kind: AstKind<'a>) {
        let reported = self.rule.run(&lower_node(kind));
        self.reported.extend(reported);
    }
}

fn lint(source: &str) -> Vec<NoJsxAsPropDiagnostic> {
    let allocator = Allocator::default();
    let source_type = SourceType::default().with_module(true).with_jsx(true);
    let parsed = Parser::new(&allocator, source, source_type).parse();
    assert!(parsed.errors.is_empty(), "{source} does not parse");
    assert!(!parsed.panicked);
    let mut linter = Linter { rule: NoJsxAsProp::default(), reported: Vec::new() };
    linter.visit_program(&parsed.program);
    linter.reported
}

/// The location of the only `needle` in `source`.
fn span_of(source: &str, needle: &str) -> Span {
    let start = source.find(needle).unwrap();
    assert_eq!(source.rfind(needle), Some(start));
    Span::new(start as u32, (start + needle.len()) as u32)
}

#[test]
fn test() {
    let pass = vec![r"<Item callback={this.props.jsx} />"];

    let fail = vec![
        r"<Item jsx={<SubItem />} />",
        r"<Item jsx={this.props.jsx || <SubItem />} />",
        r"<Item jsx={this.props.jsx ? this.props.jsx : <SubItem />} />",
        r"<Item jsx={this.props.jsx || (this.props.component ? this.props.component : <SubItem />)} />",
    ];

    for source in pass {
        assert_eq!(lint(source), vec![], "{source}");
    }
    for source in fail {
        let reported = lint(source);
        assert_eq!(reported, vec![NoJsxAsPropDiagnostic(span_of(source, "<SubItem />"))], "{source}");
        for report in reported {
            assert_eq!(report.severity(), Severity::Warning);
            assert_eq!(
                report.message(),
                "eslint-plugin-react-perf(no-jsx-as-prop): JSX attribute values should not contain other JSX."
            );
            assert_eq!(
                report.help(),
                "simplify props or memoize props in the parent component (https://react.dev/reference/react/memo#my-component-rerenders-when-a-prop-is-an-object-or-array)."
            );
        }
    }
}

#[test]
fn member_access_is_not_reported() {
    assert_eq!(lint("<Item callback={this.props.jsx} />"), vec![]);
}

#[test]
fn markup_literal_is_reported_at_its_span() {
    let reported = lint("<Item jsx={<SubItem />} />");
    assert_eq!(reported, vec![NoJsxAsPropDiagnostic(Span::new(11, 22))]);
}

#[test]
fn right_operand_is_reported_when_left_has_no_markup() {
    let reported = lint("<Item jsx={this.props.jsx || <SubItem />} />");
    assert_eq!(reported, vec![NoJsxAsPropDiagnostic(Span::new(29, 40))]);
}

#[test]
fn alternate_is_reported_when_consequent_has_no_markup() {
    let reported = lint("<Item jsx={this.props.jsx ? this.props.jsx : <SubItem />} />");
    assert_eq!(reported, vec![NoJsxAsPropDiagnostic(Span::new(45, 56))]);
}

#[test]
fn nested_parenthesized_conditional_is_reported_at_innermost_markup() {
    let source =
        "<Item jsx={this.props.jsx || (this.props.component ? this.props.component : <SubItem />)} />";
    let reported = lint(source);
    assert_eq!(reported, vec![NoJsxAsPropDiagnostic(Span::new(76, 87))]);
    assert_eq!(&source[76..87], "<SubItem />");
}

#[test]
fn left_operand_wins_over_right_operand() {
    let source = "<Item jsx={<First /> || <Second />} />";
    assert_eq!(lint(source), vec![NoJsxAsPropDiagnostic(span_of(source, "<First />"))]);
}

#[test]
fn consequent_wins_over_alternate_and_test_is_ignored() {
    let source = "<Item jsx={<Test /> ? <First /> : <Second />} />";
    assert_eq!(lint(source), vec![NoJsxAsPropDiagnostic(span_of(source, "<First />"))]);
}

#[test]
fn parentheses_change_nothing() {
    let plain = "<Item jsx={a || b ? c : <SubItem />} />";
    let wrapped = "<Item jsx={(((a || b) ? (c) : ((<SubItem />))))} />";
    assert_eq!(lint(plain), vec![NoJsxAsPropDiagnostic(span_of(plain, "<SubItem />"))]);
    assert_eq!(lint(wrapped), vec![NoJsxAsPropDiagnostic(span_of(wrapped, "<SubItem />"))]);
}

#[test]
fn markup_behind_a_call_is_not_reported() {
    assert_eq!(lint("<Item jsx={render(<SubItem />)} />"), vec![]);
    assert_eq!(lint("<Item jsx={[<SubItem />]} />"), vec![]);
    assert_eq!(lint("<Item jsx={() => <SubItem />} />"), vec![]);
}

#[test]
fn fragment_is_not_reported() {
    assert_eq!(lint("<Item jsx={<></>} />"), vec![]);
}

#[test]
fn attribute_without_value_ends_the_scan() {
    let source = "<Item disabled jsx={<SubItem />} />";
    assert_eq!(lint(source), vec![]);
    let source = "<Item jsx={<SubItem />} disabled other={<Late />} />";
    assert_eq!(lint(source), vec![NoJsxAsPropDiagnostic(span_of(source, "<SubItem />"))]);
}

#[test]
fn spread_attribute_ends_the_scan() {
    let source = "<Item {...props} jsx={<SubItem />} />";
    assert_eq!(lint(source), vec![]);
}

#[test]
fn string_literal_is_skipped_and_the_scan_goes_on() {
    let source = "<Item title=\"text\" jsx={<SubItem />} />";
    assert_eq!(lint(source), vec![NoJsxAsPropDiagnostic(span_of(source, "<SubItem />"))]);
}

#[test]
fn markup_without_braces_is_not_reported() {
    assert_eq!(lint("<Item jsx=<SubItem /> />"), vec![]);
}

#[test]
fn each_matching_attribute_is_reported_in_order() {
    let source = "<Item a={<First />} b={x} c={y && <Second />} />";
    assert_eq!(
        lint(source),
        vec![
            NoJsxAsPropDiagnostic(span_of(source, "<First />")),
            NoJsxAsPropDiagnostic(span_of(source, "<Second />")),
        ]
    );
}

#[test]
fn nested_elements_are_checked_on_their_own() {
    let source = "<Outer><Item jsx={<SubItem inner={<Deep />} />} /></Outer>";
    assert_eq!(
        lint(source),
        vec![
            NoJsxAsPropDiagnostic(span_of(source, "<SubItem inner={<Deep />} />")),
            NoJsxAsPropDiagnostic(span_of(source, "<Deep />")),
        ]
    );
}
