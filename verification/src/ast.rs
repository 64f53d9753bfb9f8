//! The shapes of markup elements, attributes and attribute expressions that
//! the rule distinguishes.

use vstd::prelude::*;
use crate::span::Span;

verus! {

/// An expression, reduced to the shapes that decide whether it can evaluate
/// to a markup literal.
#[derive(Debug, PartialEq, Eq)]
pub enum Expression {
    /// A markup element written inline, such as `<SubItem />`, with its
    /// location.
    MarkupLiteral(Span),
    /// A short-circuit expression, such as `left || right`.
    Logical { left: Box<Expression>, right: Box<Expression> },
    /// A ternary expression `test ? consequent : alternate`.
    Conditional { test: Box<Expression>, consequent: Box<Expression>, alternate: Box<Expression> },
    /// An expression in parentheses.
    Parenthesized(Box<Expression>),
    /// Any other expression: a member access, a call, an identifier, ...
    Other,
}

/// The value of an attribute.
#[derive(Debug, PartialEq, Eq)]
pub enum AttributeValue {
    /// A string literal: `name="text"`.
    Literal,
    /// An expression in braces: `name={expression}`.
    ExpressionContainer(Expression),
    /// Braces with nothing in them: `name={}`.
    EmptyContainer,
    /// A markup element written without braces: `name=<a />`.
    Element,
    /// A markup fragment written without braces: `name=<></>`.
    Fragment,
}

/// A named attribute, with or without a value.
#[derive(Debug, PartialEq, Eq)]
pub struct Attribute {
    pub name: String,
    pub value: Option<AttributeValue>,
}

/// One entry of an element's attribute list.
#[derive(Debug, PartialEq, Eq)]
pub enum AttributeItem {
    /// A named attribute: `name`, `name="text"`, `name={expression}`.
    Attribute(Attribute),
    /// A spread: `{...props}`.
    Spread,
}

/// A markup element, reduced to its attributes in the order in which they
/// are written.
#[derive(Debug, PartialEq, Eq)]
pub struct Element {
    pub attributes: Vec<AttributeItem>,
}

impl View for Element {
    type V = Seq<AttributeItem>;

    /// The attributes of the element, in the order in which they are
    /// written.
    open spec fn view(&self) -> Seq<AttributeItem> {
        self.attributes@
    }
}

/// A node of the syntax tree, as far as the rule tells nodes apart.
#[derive(Debug, PartialEq, Eq)]
pub enum NodeKind {
    /// A markup element.
    Element(Element),
    /// Any other node.
    Other,
}

impl Expression {
    /// The expression that is left when every parenthesis around `self` is
    /// taken away. Parentheses further inside stay.
    pub open spec fn unparenthesized(self) -> Expression
        decreases self,
    {
        match self {
            Expression::Parenthesized(inner) => inner.unparenthesized(),
            _ => self,
        }
    }

    /// Strips the parentheses around the expression.
    pub fn without_parenthesized(&self) -> (inner: &Expression)
        ensures
            *inner == self.unparenthesized(),
            !(inner is Parenthesized),
        decreases self,
    {
        match self {
            Expression::Parenthesized(inner) => inner.without_parenthesized(),
            _ => self,
        }
    }
}

impl Clone for Expression {
    fn clone(&self) -> (copy: Self)
        ensures
            copy == *self,
        decreases self,
    {
        match self {
            Expression::MarkupLiteral(span) => Expression::MarkupLiteral(*span),
            Expression::Logical { left, right } => Expression::Logical {
                left: Box::new((&**left).clone()),
                right: Box::new((&**right).clone()),
            },
            Expression::Conditional { test, consequent, alternate } => Expression::Conditional {
                test: Box::new((&**test).clone()),
                consequent: Box::new((&**consequent).clone()),
                alternate: Box::new((&**alternate).clone()),
            },
            Expression::Parenthesized(inner) => Expression::Parenthesized(
                Box::new((&**inner).clone()),
            ),
            Expression::Other => Expression::Other,
        }
    }
}

impl Clone for AttributeValue {
    fn clone(&self) -> (copy: Self)
        ensures
            copy == *self,
    {
        match self {
            AttributeValue::Literal => AttributeValue::Literal,
            AttributeValue::ExpressionContainer(expression) => AttributeValue::ExpressionContainer(
                expression.clone(),
            ),
            AttributeValue::EmptyContainer => AttributeValue::EmptyContainer,
            AttributeValue::Element => AttributeValue::Element,
            AttributeValue::Fragment => AttributeValue::Fragment,
        }
    }
}

impl Clone for Attribute {
    fn clone(&self) -> (copy: Self)
        ensures
            copy == *self,
    {
        let value = match &self.value {
            Some(value) => Some(value.clone()),
            None => None,
        };
        Attribute { name: self.name.clone(), value }
    }
}

impl Clone for AttributeItem {
    fn clone(&self) -> (copy: Self)
        ensures
            copy == *self,
    {
        match self {
            AttributeItem::Attribute(attribute) => AttributeItem::Attribute(attribute.clone()),
            AttributeItem::Spread => AttributeItem::Spread,
        }
    }
}

impl Clone for Element {
    fn clone(&self) -> (copy: Self)
        ensures
            copy@ == self@,
    {
        Element { attributes: self.attributes.clone() }
    }
}

impl Clone for NodeKind {
    fn clone(&self) -> (copy: Self)
        ensures
            match *self {
                NodeKind::Element(element) => copy matches NodeKind::Element(other) && other@
                    == element@,
                NodeKind::Other => copy == NodeKind::Other,
            },
    {
        match self {
            NodeKind::Element(element) => NodeKind::Element(element.clone()),
            NodeKind::Other => NodeKind::Other,
        }
    }
}

} // verus!
