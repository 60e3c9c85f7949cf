//! The exact column lists of operator-owned relations.

use vstd::prelude::*;

use crate::execution::continuation::Attribute;
use crate::text::{self, same_text, unsigned_text};

verus! {

/// Whether an attribute has a name and a type.
pub open spec fn is_typed(attribute: Attribute, name: Seq<char>, type_oid: u32) -> bool {
    attribute.name@ == name && attribute.type_oid == type_oid
}

pub fn has_type(attribute: &Attribute, name: &str, type_oid: u32) -> (same: bool)
    ensures
        same == is_typed(*attribute, name@, type_oid),
{
    same_text(attribute.name.as_str(), name) && attribute.type_oid == type_oid
}

/// Whether a relation has exactly these columns, none of them nullable.
pub open spec fn exact_columns(
    attributes: Seq<Attribute>,
    expected: Seq<(&'static str, u32)>,
) -> bool {
    &&& attributes.len() == expected.len()
    &&& forall|index: int|
        0 <= index < attributes.len() ==> is_typed(
            #[trigger] attributes[index],
            expected[index].0@,
            expected[index].1,
        ) && attributes[index].not_null
}

pub fn has_exact_columns(attributes: &Vec<Attribute>, expected: &Vec<(&'static str, u32)>) -> (
    same: bool)
    ensures
        same == exact_columns(attributes@, expected@),
{
    if attributes.len() != expected.len() {
        return false;
    }
    let mut index: usize = 0;
    while index < attributes.len()
        invariant
            attributes.len() == expected.len(),
            index <= attributes.len(),
            forall|k: int|
                0 <= k < index ==> is_typed(
                    #[trigger] attributes@[k],
                    expected@[k].0@,
                    expected@[k].1,
                ) && attributes@[k].not_null,
        decreases attributes.len() - index,
    {
        if !has_type(&attributes[index], expected[index].0, expected[index].1)
            || !attributes[index].not_null {
            assert(!(is_typed(
                attributes@[index as int],
                expected@[index as int].0@,
                expected@[index as int].1,
            ) && attributes@[index as int].not_null));
            return false;
        }
        index = index + 1;
    }
    true
}

/// A column name with a number that counts from one.
pub open spec fn ordinal_name(prefix: Seq<char>, index: int) -> Seq<char> {
    prefix + text::decimal(index + 1)
}

pub fn ordinal_column(prefix: &str, index: usize) -> (name: String)
    requires
        index < usize::MAX,
    ensures
        name@ == ordinal_name(prefix@, index as int),
{
    prefix.to_owned().concat(unsigned_text((index + 1) as u64).as_str())
}

} // verus!
