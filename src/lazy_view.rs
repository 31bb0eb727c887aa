//! A view over a sequence of integers that is either borrowed or owned.
//!
//! Reading never copies. The first request for write access copies borrowed
//! data into an owned buffer; later requests reuse that buffer.

use vstd::prelude::*;

verus! {

/// Where the elements of a view live.
pub enum Storage<'a> {
    /// Data owned elsewhere; the view never writes through it.
    Borrowed(&'a [i32]),
    /// Data held by the view alone, free to mutate.
    Owned(Vec<i32>),
}

/// A read view over integers that becomes a private, mutable copy on demand.
pub struct LazyView<'a> {
    storage: Storage<'a>,
    copies: usize,
}

impl<'a> View for LazyView<'a> {
    type V = Seq<i32>;

    closed spec fn view(&self) -> Seq<i32> {
        match self.storage {
            Storage::Borrowed(s) => s@,
            Storage::Owned(v) => v@,
        }
    }
}

impl<'a> LazyView<'a> {
    /// Whether the view holds its own buffer.
    pub closed spec fn owns_data(&self) -> bool {
        self.storage is Owned
    }

    /// How many times the view has copied borrowed data.
    pub closed spec fn copy_count(&self) -> nat {
        self.copies as nat
    }

    /// The slice a borrowed view reads from.
    pub closed spec fn source(&self) -> Option<&'a [i32]> {
        match self.storage {
            Storage::Borrowed(s) => Some(s),
            Storage::Owned(_) => None,
        }
    }

    /// A copy happens at most once, and only on leaving the borrowed state.
    pub closed spec fn wf(&self) -> bool {
        &&& self.copies <= 1
        &&& self.storage is Borrowed ==> self.copies == 0
    }

    /// A view that reads `data` in place.
    pub fn from_borrowed(data: &'a [i32]) -> (r: LazyView<'a>)
        ensures
            r.wf(),
            r@ == data@,
            !r.owns_data(),
            r.source() == Some(data),
            r.copy_count() == 0,
    {
        LazyView { storage: Storage::Borrowed(data), copies: 0 }
    }

    /// A view that takes over `data` without copying it.
    pub fn from_owned(data: Vec<i32>) -> (r: LazyView<'a>)
        ensures
            r.wf(),
            r@ == data@,
            r.owns_data(),
            r.copy_count() == 0,
    {
        LazyView { storage: Storage::Owned(data), copies: 0 }
    }

    /// The number of elements.
    pub fn len(&self) -> (r: usize)
        ensures
            r == self@.len(),
    {
        match &self.storage {
            Storage::Borrowed(s) => s.len(),
            Storage::Owned(v) => v.len(),
        }
    }

    /// The element at `index`.
    pub fn get(&self, index: usize) -> (r: i32)
        requires
            index < self@.len(),
        ensures
            r == self@[index as int],
    {
        match &self.storage {
            Storage::Borrowed(s) => s[index],
            Storage::Owned(v) => v[index],
        }
    }

    /// Whether the view holds its own buffer.
    pub fn is_owned(&self) -> (r: bool)
        ensures
            r == self.owns_data(),
    {
        match &self.storage {
            Storage::Borrowed(_) => false,
            Storage::Owned(_) => true,
        }
    }

    /// How many times the view has copied borrowed data.
    pub fn copies(&self) -> (r: usize)
        ensures
            r == self.copy_count(),
    {
        self.copies
    }

    /// Write access to the elements. A borrowed view first copies its data
    /// into a buffer of its own and keeps it; an owned view hands out its
    /// buffer as it is.
    pub fn to_mutable(&mut self) -> (r: &mut Vec<i32>)
        requires
            old(self).wf(),
        ensures
            r@ == old(self)@,
            final(self).wf(),
            final(self).owns_data(),
            final(self)@ == final(r)@,
            final(self).copy_count() == old(self).copy_count() + if old(self).owns_data() {
                0int
            } else {
                1int
            },
    {
        if let Storage::Borrowed(s) = self.storage {
            let copy = copy_slice(s);
            self.storage = Storage::Owned(copy);
            self.copies = self.copies + 1;
        }
        match &mut self.storage {
            Storage::Owned(v) => v,
            Storage::Borrowed(_) => vstd::pervasive::unreached(),
        }
    }

    /// The current elements as a fresh vector; the view is left as it is.
    pub fn snapshot(&self) -> (r: Vec<i32>)
        ensures
            r@ == self@,
    {
        match &self.storage {
            Storage::Borrowed(s) => copy_slice(s),
            Storage::Owned(v) => copy_slice(v.as_slice()),
        }
    }

    /// The current elements as a vector: the view's own buffer where it has
    /// one, else a copy of the borrowed data.
    pub fn into_owned(self) -> (r: Vec<i32>)
        ensures
            r@ == self@,
    {
        match self.storage {
            Storage::Borrowed(s) => copy_slice(s),
            Storage::Owned(v) => v,
        }
    }
}

/// A new vector holding the elements of `s`.
fn copy_slice(s: &[i32]) -> (r: Vec<i32>)
    ensures
        r@ == s@,
{
    let mut r: Vec<i32> = Vec::with_capacity(s.len());
    let mut i: usize = 0;
    while i < s.len()
        invariant
            i <= s@.len(),
            r@ == s@.subrange(0, i as int),
        decreases s@.len() - i,
    {
        r.push(s[i]);
        i = i + 1;
    }
    assert(r@ =~= s@);
    r
}

} // verus!
