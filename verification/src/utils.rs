//! Access to the parts of an attribute list.

use vstd::prelude::*;
use crate::ast::{AttributeItem, AttributeValue};

verus! {

/// The value that an entry of an attribute list carries: that of a named
/// attribute which has one. A spread carries none, and neither does a named
/// attribute without a value.
pub open spec fn prop_value(item: AttributeItem) -> Option<AttributeValue> {
    match item {
        AttributeItem::Attribute(attribute) => attribute.value,
        AttributeItem::Spread => None,
    }
}

/// Hands out the value of an entry of an attribute list, where it has one.
pub fn get_prop_value(item: &AttributeItem) -> (value: Option<&AttributeValue>)
    ensures
        match value {
            Some(v) => prop_value(*item) == Some(*v),
            None => prop_value(*item) is None,
        },
{
    match item {
        AttributeItem::Attribute(attribute) => attribute.value.as_ref(),
        AttributeItem::Spread => None,
    }
}

} // verus!
