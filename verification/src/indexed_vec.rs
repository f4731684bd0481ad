//! A vector indexed by `u16` whose length never exceeds `u16::MAX - 1`.
use vstd::prelude::*;

verus! {

/// The largest number of elements an `IndexedVec` holds (`u16::MAX - 1`).
pub const MAX_LEN: usize = 65534;

#[verifier::external_type_specification]
#[verifier::external_body]
#[verifier::reject_recursive_types(T)]
pub struct ExIterMut<'a, T: 'a>(std::slice::IterMut<'a, T>);

/// `Vec::iter_mut`: an iterator over mutable references to the elements, first to last. The
/// contract states only that the number of elements stays the same (the iterator can change
/// elements, not add or remove them) and that the call does not panic; what it yields is not
/// stated.
#[verifier::external_body]
fn vec_iter_mut<'a, T>(v: &'a mut Vec<T>) -> (r: std::slice::IterMut<'a, T>)
    ensures
        final(v)@.len() == old(v)@.len(),
    no_unwind
{
    v.iter_mut()
}

/// A vector wrapper indexed by `u16`. Its length is at most `MAX_LEN`, so every length and
/// every index fits a `u16`.
#[derive(Debug)]
pub struct IndexedVec<T> {
    pub(crate) data: Vec<T>,
}

/// Growing an `IndexedVec` beyond `MAX_LEN` elements was refused.
#[derive(Debug, Clone, Copy, PartialEq, Eq, Structural)]
pub struct IndexedVecErr;

impl<T> View for IndexedVec<T> {
    type V = Seq<T>;

    closed spec fn view(&self) -> Seq<T> {
        self.data@
    }
}

impl<T> IndexedVec<T> {
    #[verifier::type_invariant]
    spec fn inv(self) -> bool {
        self.data.len() <= MAX_LEN
    }

    /// Creates a new, empty `IndexedVec`.
    pub fn new() -> (r: Self)
        ensures
            r@ == Seq::<T>::empty(),
    {
        IndexedVec { data: Vec::new() }
    }

    /// Creates a new, empty `IndexedVec` with room for `capacity` elements.
    pub fn with_capacity(capacity: u16) -> (r: Self)
        ensures
            r@ == Seq::<T>::empty(),
    {
        IndexedVec { data: Vec::with_capacity(capacity as usize) }
    }

    /// Returns the number of elements.
    pub fn len(&self) -> (r: u16)
        ensures
            r as nat == self@.len(),
            r as nat <= MAX_LEN,
    {
        proof {
            use_type_invariant(self);
        }
        self.data.len() as u16
    }

    /// Returns `true` if the vector contains no elements.
    pub fn is_empty(&self) -> (r: bool)
        ensures
            r == (self@.len() == 0),
    {
        self.data.len() == 0
    }

    /// Appends an element at the back; refused when the vector already holds `MAX_LEN`
    /// elements, which leaves it unchanged.
    pub fn push(&mut self, value: T) -> (r: Result<(), IndexedVecErr>)
        ensures
            old(self)@.len() < MAX_LEN ==> r is Ok && final(self)@ == old(self)@.push(value),
            old(self)@.len() >= MAX_LEN ==> r is Err && final(self)@ == old(self)@,
    {
        proof {
            use_type_invariant(&*self);
        }
        if self.data.len() >= MAX_LEN {
            return Err(IndexedVecErr);
        }
        let mut data = Vec::new();
        std::mem::swap(&mut data, &mut self.data);
        data.push(value);
        self.data = data;
        Ok(())
    }

    /// Returns an iterator over the elements, first to last.
    pub fn iter(&self) -> (r: std::slice::Iter<'_, T>)
        ensures
            vstd::std_specs::iter::IteratorSpec::remaining(&r) == self@.as_ref(),
    {
        self.data.as_slice().iter()
    }

    /// The elements as a slice.
    pub fn as_slice(&self) -> (r: &[T])
        ensures
            r@ == self@,
    {
        self.data.as_slice()
    }

    /// Returns an iterator over the elements, first to last, that lets them be changed in
    /// place; their number stays the same.
    pub fn iter_mut(&mut self) -> (r: std::slice::IterMut<'_, T>)
        ensures
            final(self)@.len() == old(self)@.len(),
    {
        proof {
            use_type_invariant(&*self);
        }
        vec_iter_mut(&mut self.data)
    }

    /// Returns the element at `index`, or `None` when `index` is past the end.
    pub fn get(&self, index: u16) -> (r: Option<&T>)
        ensures
            index < self@.len() ==> r == Some(&self@[index as int]),
            index >= self@.len() ==> r is None,
    {
        if (index as usize) < self.data.len() {
            Some(&self.data[index as usize])
        } else {
            None
        }
    }

    /// Returns a mutable reference to the element at `index`, or `None` when `index` is past
    /// the end.
    pub fn get_mut(&mut self, index: u16) -> (r: Option<&mut T>)
        ensures
            index >= old(self)@.len() ==> r is None && final(self)@ == old(self)@,
            index < old(self)@.len() ==> r is Some,
            r matches Some(e) ==> *e == old(self)@[index as int] && final(self)@ == old(
                self,
            )@.update(index as int, *final(e)),
    {
        proof {
            use_type_invariant(&*self);
        }
        if (index as usize) < self.data.len() {
            Some(&mut self.data[index as usize])
        } else {
            None
        }
    }

    /// Consumes the wrapper and returns its elements, in order.
    pub fn into_vec(self) -> (r: Vec<T>)
        ensures
            r@ == self@,
    {
        self.data
    }

    /// Wraps `value` when it holds at most `MAX_LEN` elements.
    pub fn from_vec(value: Vec<T>) -> (r: Result<Self, ()>)
        ensures
            value@.len() <= MAX_LEN ==> (r matches Ok(v) && v@ == value@),
            value@.len() > MAX_LEN ==> r is Err,
    {
        if value.len() > MAX_LEN {
            return Err(());
        }
        Ok(IndexedVec { data: value })
    }
}

impl<T: Clone> IndexedVec<T> {
    /// Appends clones of all elements of `slice`; refused (with no change) when the result
    /// would hold more than `MAX_LEN` elements.
    pub fn extend_from_slice(&mut self, slice: &[T]) -> (r: Result<(), IndexedVecErr>)
        ensures
            old(self)@.len() + slice@.len() <= MAX_LEN ==> {
                &&& r is Ok
                &&& final(self)@.len() == old(self)@.len() + slice@.len()
                &&& forall|i: int|
                    0 <= i < old(self)@.len() ==> #[trigger] final(self)@[i] == old(self)@[i]
                &&& forall|i: int|
                    0 <= i < slice@.len() ==> cloned::<T>(
                        slice@[i],
                        #[trigger] final(self)@[old(self)@.len() + i],
                    )
            },
            old(self)@.len() + slice@.len() > MAX_LEN ==> r is Err && final(self)@ == old(self)@,
    {
        proof {
            use_type_invariant(&*self);
        }
        if slice.len() > MAX_LEN - self.data.len() {
            return Err(IndexedVecErr);
        }
        let mut data = Vec::new();
        std::mem::swap(&mut data, &mut self.data);
        let ghost before = data@;
        data.extend_from_slice(slice);
        proof {
            assert forall|i: int| 0 <= i < slice@.len() implies cloned::<T>(
                slice@[i],
                #[trigger] data@[before.len() + i],
            ) by {
                assert(data@[before.len() + i] == data@[before.len() + i]);
            }
        }
        self.data = data;
        Ok(())
    }
}

impl<T: Clone> Clone for IndexedVec<T> {
    fn clone(&self) -> (r: Self)
        ensures
            r@.len() == self@.len(),
            forall|i: int| 0 <= i < self@.len() ==> cloned::<T>(self@[i], #[trigger] r@[i]),
    {
        proof {
            use_type_invariant(self);
        }
        IndexedVec { data: self.data.clone() }
    }
}

impl<T> Default for IndexedVec<T> {
    fn default() -> (r: Self)
        ensures
            r@ == Seq::<T>::empty(),
    {
        IndexedVec { data: Vec::new() }
    }
}

impl<T> vstd::std_specs::convert::TryFromSpecImpl<Vec<T>> for IndexedVec<T> {
    open spec fn obeys_try_from_spec() -> bool {
        true
    }

    closed spec fn try_from_spec(value: Vec<T>) -> Result<Self, ()> {
        if value@.len() <= MAX_LEN {
            Ok(IndexedVec { data: value })
        } else {
            Err(())
        }
    }
}

impl<T> TryFrom<Vec<T>> for IndexedVec<T> {
    type Error = ();

    fn try_from(value: Vec<T>) -> (r: Result<Self, Self::Error>)
        ensures
            value@.len() <= MAX_LEN ==> (r matches Ok(v) && v@ == value@),
            value@.len() > MAX_LEN ==> r is Err,
    {
        if value.len() > MAX_LEN {
            return Err(());
        }
        Ok(IndexedVec { data: value })
    }
}

} // verus!
