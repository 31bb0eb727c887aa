//! A singly linked list whose links live on the heap, so that a list has the
//! same size whatever its length.

use vstd::prelude::*;

verus! {

/// Either an element followed by the rest of the list, or the empty list.
#[derive(Debug)]
pub enum List<T> {
    Cons(T, Box<List<T>>),
    Nil,
}

impl<T> List<T> {
    /// The elements, front first.
    pub open spec fn elements(&self) -> Seq<T>
        decreases self,
    {
        match self {
            List::Cons(head, tail) => seq![*head] + tail.elements(),
            List::Nil => Seq::empty(),
        }
    }
}

} // verus!
