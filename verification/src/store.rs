//! The requests that the ledger hands to its key-value store, and what the
//! store hands back, as plain values.

use vstd::prelude::*;
use vstd::string::*;

verus! {

/// The value of one attribute of a stored item.
#[derive(Debug)]
pub enum AttributeValue {
    /// A string.
    S(String),
    /// A number, as decimal text.
    N(String),
    /// A value of any other kind.
    Other,
}

/// A named attribute.
#[derive(Debug)]
pub struct Attribute {
    pub name: String,
    pub value: AttributeValue,
}

/// Which attributes an update hands back.
#[derive(Clone, Copy, Debug, PartialEq, Eq, Structural)]
pub enum ReturnValue {
    Nothing,
    AllOld,
    UpdatedOld,
    AllNew,
    UpdatedNew,
}

/// An atomic update of one item, applied only where the condition, if there
/// is one, holds of the stored item.
#[derive(Debug)]
pub struct UpdateItem {
    pub table_name: String,
    pub key: Attribute,
    pub update_expression: String,
    pub condition_expression: Option<String>,
    pub expression_attribute_values: Vec<Attribute>,
    pub return_values: ReturnValue,
}

/// An unconditional write of one item.
#[derive(Debug)]
pub struct PutItem {
    pub table_name: String,
    pub item: Vec<Attribute>,
}

/// A point lookup of one item.
#[derive(Debug)]
pub struct GetItem {
    pub table_name: String,
    pub key: Attribute,
    pub consistent_read: bool,
}

/// Why an update failed.
#[derive(Debug)]
pub enum UpdateError {
    /// The condition did not hold of the stored item; nothing was written.
    ConditionalCheckFailed,
    /// Any other failure, with the text of its cause.
    Other(String),
}

/// What a successful update handed back.
#[derive(Debug)]
pub struct UpdateItemOutput {
    pub attributes: Option<Vec<Attribute>>,
}

/// What a successful lookup handed back.
#[derive(Debug)]
pub struct GetItemOutput {
    pub item: Option<Vec<Attribute>>,
}

/// The attribute has the given name and holds the given string.
pub open spec fn string_attribute(a: Attribute, name: Seq<char>, value: Seq<char>) -> bool {
    a.name@ == name && match a.value {
        AttributeValue::S(s) => s@ == value,
        _ => false,
    }
}

/// The attribute has the given name and holds the given number text.
pub open spec fn number_attribute(a: Attribute, name: Seq<char>, value: Seq<char>) -> bool {
    a.name@ == name && match a.value {
        AttributeValue::N(n) => n@ == value,
        _ => false,
    }
}

/// No two attributes of the list have the same name, as in a map.
pub open spec fn distinct_names(attrs: Seq<Attribute>) -> bool {
    forall|i: int, j: int| 0 <= i < j < attrs.len() ==> attrs[i].name@ != attrs[j].name@
}

/// The value of the first attribute with the given name.
pub open spec fn find_attribute(attrs: Seq<Attribute>, name: Seq<char>) -> Option<AttributeValue>
    decreases attrs.len(),
{
    if attrs.len() == 0 {
        None
    } else if attrs[0].name@ == name {
        Some(attrs[0].value)
    } else {
        find_attribute(attrs.skip(1), name)
    }
}

/// Builds an attribute that holds a string.
pub fn string_attr(name: &str, value: String) -> (a: Attribute)
    ensures
        string_attribute(a, name@, value@),
{
    Attribute { name: name.to_owned(), value: AttributeValue::S(value) }
}

/// Builds an attribute that holds a number text.
pub fn number_attr(name: &str, value: String) -> (a: Attribute)
    ensures
        number_attribute(a, name@, value@),
{
    Attribute { name: name.to_owned(), value: AttributeValue::N(value) }
}

/// Looks an attribute up by its name.
pub fn get_attribute<'a>(attrs: &'a Vec<Attribute>, name: &str) -> (found: Option<&'a AttributeValue>)
    ensures
        match found {
            Some(value) => find_attribute(attrs@, name@) == Some(*value),
            None => find_attribute(attrs@, name@).is_none(),
        },
{
    let wanted = name.to_owned();
    let mut i: usize = 0;
    assert(attrs@.skip(0) =~= attrs@);
    while i < attrs.len()
        invariant
            i <= attrs.len(),
            wanted@ == name@,
            find_attribute(attrs@, name@) == find_attribute(attrs@.skip(i as int), name@),
        decreases attrs.len() - i,
    {
        if attrs[i].name == wanted {
            return Some(&attrs[i].value);
        }
        assert(attrs@.skip(i as int).skip(1) =~= attrs@.skip(i + 1));
        i = i + 1;
    }
    None
}

} // verus!
