//! The host's dynamic values, as far as the core looks into them.

use vstd::prelude::*;

verus! {

/// An element of a host array: the core tells the strings from the rest.
#[derive(Debug)]
pub enum HostElement<T> {
    /// A host string.
    Text(String),
    /// Any value that is no string.
    Other(T),
}

/// The mathematical content of a [`HostElement`].
pub enum HostElementView<T> {
    Text(Seq<char>),
    Other(T),
}

impl<T> View for HostElement<T> {
    type V = HostElementView<T>;

    open spec fn view(&self) -> HostElementView<T> {
        match *self {
            HostElement::Text(s) => HostElementView::Text(s@),
            HostElement::Other(t) => HostElementView::Other(t),
        }
    }
}

/// The contents of the elements of an array, in their order.
pub open spec fn elements_view<T>(elements: Seq<HostElement<T>>) -> Seq<HostElementView<T>> {
    Seq::new(elements.len(), |i: int| elements[i]@)
}

/// A value of the host's dynamic representation.
///
/// The core inspects four shapes only: the two empty values, a string, and an
/// array, of which it tells the elements that are strings from the others.
/// Every other value is carried through untouched as `Other`.
#[derive(Debug)]
pub enum HostValue<T> {
    /// The host's `undefined`.
    Undefined,
    /// The host's `null`.
    Null,
    /// A host string.
    Text(String),
    /// A host array.
    Array(Vec<HostElement<T>>),
    /// Any value of another shape.
    Other(T),
}

/// The mathematical content of a [`HostValue`].
pub enum HostValueView<T> {
    Undefined,
    Null,
    Text(Seq<char>),
    Array(Seq<HostElementView<T>>),
    Other(T),
}

impl<T> HostValueView<T> {
    /// Whether the value is one of the host's two empty values.
    pub open spec fn is_nullish(self) -> bool {
        self is Undefined || self is Null
    }
}

impl<T> View for HostValue<T> {
    type V = HostValueView<T>;

    open spec fn view(&self) -> HostValueView<T> {
        match *self {
            HostValue::Undefined => HostValueView::Undefined,
            HostValue::Null => HostValueView::Null,
            HostValue::Text(s) => HostValueView::Text(s@),
            HostValue::Array(l) => HostValueView::Array(elements_view(l@)),
            HostValue::Other(t) => HostValueView::Other(t),
        }
    }
}

impl<T> HostValue<T> {
    /// Whether this is `null` or `undefined`.
    pub fn is_nullish(&self) -> (b: bool)
        ensures
            b == self@.is_nullish(),
    {
        match self {
            HostValue::Undefined => true,
            HostValue::Null => true,
            _ => false,
        }
    }
}

} // verus!
