use vstd::prelude::*;

verus! {

/// A position in the list.
pub type Index = usize;

/// Whether an element is still to be done.
#[derive(Clone, Copy, Debug, PartialEq, Eq, Structural)]
pub enum Status {
    Todo,
    Done,
}

/// One entry of the list: a title and a status.
#[derive(Debug)]
pub struct Element {
    pub title: String,
    pub status: Status,
}

impl Clone for Element {
    /// A copy with the same title and status.
    fn clone(&self) -> (r: Self)
        ensures
            r == *self,
    {
        Element { title: self.title.clone(), status: self.status }
    }
}

/// The outcome of a mutating operation.
#[derive(Clone, Copy, Debug, PartialEq, Eq, Structural)]
pub enum Result {
    Success,
    IndexOutOfBounds,
}

} // verus!
