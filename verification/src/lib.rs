//! Detection of markup literals passed as attribute values of markup elements.

pub mod ast;
pub mod diagnostic;
pub mod rule;
pub mod span;
pub mod theory;
pub mod utils;

pub use ast::{Attribute, AttributeItem, AttributeValue, Element, Expression, NodeKind};
pub use diagnostic::{NoJsxAsPropDiagnostic, Severity};
pub use rule::{check_expression, check_jsx_element, NoJsxAsProp};
pub use span::Span;
pub use utils::get_prop_value;
