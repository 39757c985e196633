//! A value that the wire format wraps in an array of exactly one element.
use vstd::prelude::*;

verus! {

/// The array that was to hold one element held another number of them.
#[derive(Debug, Clone, Copy, PartialEq, Eq, Structural)]
pub struct NotSingleElement;

/// The value an array gives: its element when it has exactly one.
pub open spec fn sole_element_of<T>(elements: Seq<T>) -> Result<T, NotSingleElement> {
    if elements.len() == 1 {
        Ok(elements[0])
    } else {
        Err(NotSingleElement)
    }
}

/// Takes the element out of an array of one element; refuses any other length.
pub fn sole_element<T>(elements: Vec<T>) -> (r: Result<T, NotSingleElement>)
    ensures
        r == sole_element_of(elements@),
{
    if elements.len() != 1 {
        return Err(NotSingleElement);
    }
    let mut elements = elements;
    let value = elements.pop();
    Ok(value.unwrap())
}

/// The array of one element that carries a value.
pub fn one_element<T>(value: T) -> (elements: Vec<T>)
    ensures
        elements@ == seq![value],
{
    let mut elements = Vec::new();
    elements.push(value);
    elements
}

/// Reading back the array written for a value gives the value.
pub proof fn law_sole_element_of_one_element<T>(value: T)
    ensures
        sole_element_of(seq![value]) == Ok::<T, NotSingleElement>(value),
{
}

} // verus!
