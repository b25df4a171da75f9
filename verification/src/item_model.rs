//! Plain data describing a fully-read item.

use vstd::prelude::*;

verus! {

/// The four elements an item can carry.
#[derive(Debug, PartialEq)]
pub enum Element {
    Fire,
    Ice,
    Lightning,
    Wind,
}

/// One element together with its strength.
#[derive(Debug, PartialEq)]
pub struct ElementValue {
    pub element: Element,
    pub element_value: u8,
}

/// A fully-read item.
#[derive(Debug, PartialEq)]
pub struct Item {
    pub name: String,
    pub item_number: u8,
    pub level: u8,
    pub category_list: Vec<String>,
    pub elements: Vec<ElementValue>,
}

} // verus!
