use vstd::prelude::*;

verus! {

/// A read-only, borrowed view over the first `count` elements of a
/// fixed-capacity array. It never reads past `count`, and `count` never
/// exceeds the array it borrows.
pub struct PointerIter<'a, T> {
    items: &'a [T],
    count: usize,
    current: usize,
}

impl<'a, T> PointerIter<'a, T> {
    #[verifier::type_invariant]
    spec fn bounded(self) -> bool {
        self.current <= self.count && self.count <= self.items@.len()
    }

    /// All elements that the view covers, from the first.
    pub closed spec fn elements(self) -> Seq<T> {
        self.items@.subrange(0, self.count as int)
    }

    /// How many elements have been handed out so far.
    pub closed spec fn position(self) -> nat {
        self.current as nat
    }

    /// The elements still to come.
    pub open spec fn remaining(self) -> Seq<T> {
        self.elements().subrange(self.position() as int, self.elements().len() as int)
    }

    /// A view of the first `count` elements of `items`, positioned at the start.
    pub fn new(items: &'a [T], count: usize) -> (r: Self)
        requires
            count <= items@.len(),
        ensures
            r.elements() == items@.subrange(0, count as int),
            r.position() == 0,
    {
        PointerIter { items, count, current: 0 }
    }

    /// The number of elements the view covers.
    pub fn len(&self) -> (r: usize)
        ensures
            r == self.elements().len(),
    {
        proof {
            use_type_invariant(self);
        }
        self.count
    }

    /// Hands out the next element, or `None` once all `count` elements have
    /// been handed out.
    pub fn next(&mut self) -> (r: Option<&'a T>)
        ensures
            final(self).elements() == old(self).elements(),
            old(self).remaining().len() == 0 ==> r.is_none() && final(self).position()
                == old(self).position(),
            old(self).remaining().len() > 0 ==> r == Some(&old(self).remaining()[0])
                && final(self).position() == old(self).position() + 1,
            final(self).remaining() == if old(self).remaining().len() == 0 {
                old(self).remaining()
            } else {
                old(self).remaining().drop_first()
            },
    {
        proof {
            use_type_invariant(&*self);
        }
        if self.current >= self.count {
            None
        } else {
            let items: &'a [T] = self.items;
            let object: &'a T = &items[self.current];
            self.current = self.current + 1;
            assert(old(self).remaining()[0] == items@[old(self).current as int]);
            assert(final(self).remaining() =~= old(self).remaining().drop_first());
            Some(object)
        }
    }

    /// Walks the rest of the view and returns how many elements it handed out.
    pub fn count(self) -> (r: usize)
        ensures
            r == self.remaining().len(),
    {
        let mut it = self;
        let mut n: usize = 0;
        proof {
            use_type_invariant(&it);
        }
        while it.next().is_some()
            invariant
                n + it.remaining().len() == self.remaining().len(),
                it.remaining().len() <= self.remaining().len(),
                self.remaining().len() <= usize::MAX,
            decreases it.remaining().len(),
        {
            n = n + 1;
        }
        n
    }
}

} // verus!
