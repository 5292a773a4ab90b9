use vstd::prelude::*;
use crate::pointer_iter::PointerIter;

verus! {

/// A fixed-capacity array of `N` slots whose logical length is a separate
/// count, never more than `N`.
#[derive(Debug)]
pub struct BoundedArray<T, const N: usize> {
    items: [T; N],
    count: usize,
}

impl<T, const N: usize> BoundedArray<T, N> {
    #[verifier::type_invariant]
    spec fn within_capacity(self) -> bool {
        self.count <= N
    }

    /// The meaningful elements: the first `count` slots.
    pub closed spec fn elements(self) -> Seq<T> {
        self.items@.subrange(0, self.count as int)
    }

    /// Pairs `items` with the count of its slots that are in use.
    pub fn new(items: [T; N], count: usize) -> (r: Self)
        requires
            count <= N,
        ensures
            r.elements() == items@.subrange(0, count as int),
    {
        BoundedArray { items, count }
    }

    /// The logical length, which never exceeds the capacity `N`.
    pub fn count(&self) -> (r: usize)
        ensures
            r == self.elements().len(),
            r <= N,
    {
        proof {
            use_type_invariant(self);
        }
        self.count
    }

    /// A view over exactly the elements in use.
    pub fn iter(&self) -> (r: PointerIter<'_, T>)
        ensures
            r.elements() == self.elements(),
            r.position() == 0,
    {
        proof {
            use_type_invariant(self);
        }
        let items: &[T] = self.items.as_slice();
        PointerIter::new(items, self.count)
    }
}

impl<const N: usize> BoundedArray<u8, N> {
    /// Whether the identifier `x` is among the elements in use.
    pub fn contains(&self, x: u32) -> (r: bool)
        ensures
            r == (x <= u8::MAX && self.elements().contains(x as u8)),
    {
        proof {
            use_type_invariant(self);
        }
        if x > u8::MAX as u32 {
            return false;
        }
        let mut i: usize = 0;
        while i < self.count
            invariant
                i <= self.count <= N,
                x <= u8::MAX,
                forall|j: int| 0 <= j < i ==> self.elements()[j] != x as u8,
            decreases self.count - i,
        {
            if self.items[i] as u32 == x {
                assert(self.elements()[i as int] == x as u8);
                return true;
            }
            i = i + 1;
        }
        false
    }
}

} // verus!
