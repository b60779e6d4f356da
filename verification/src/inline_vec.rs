//! A growable sequence container that stores its first `N` elements in an
//! inline buffer and migrates one-directionally to a heap-resident buffer
//! once that inline capacity is exceeded.

use vstd::prelude::*;

verus! {

use vstd::pervasive::cloned;
use vstd::std_specs::cmp::PartialEqSpec;

/// Largest capacity the container may ever reach. A little headroom below
/// `i32::MAX` is reserved so that the capacity arithmetic of a growth step
/// can never overflow.
pub const MAX_CAPACITY: u32 = 2147482623;

/// The two storage representations, kept as a tagged sum: at most one is
/// active at a time, the inactive one is never read, and the migration
/// from the first to the second is observable and one-directional. Safe
/// verified code cannot hold a partially initialized inline array, so both
/// variants own their elements through a `Vec`; the tag carries the state
/// machine.
enum Storage<T> {
    /// The representation the container starts with, good for up to `N`
    /// elements.
    Inline(Vec<T>),
    /// An exclusively owned buffer adopted once the inline capacity has
    /// been outgrown.
    Heap(Vec<T>),
}

/// A sequence container similar to `Vec`, except that up to `N` elements
/// are held inline. Appending beyond the current capacity doubles the
/// capacity and migrates the contents to a fresh heap buffer; the container
/// never migrates back to the inline representation.
#[must_use]
pub struct InlineVec<T, const N: usize> {
    data: Storage<T>,
    len: u32,
    capacity: u32,
}

impl<T, const N: usize> View for InlineVec<T, N> {
    type V = Seq<T>;

    /// The abstract contents: the live elements in append order.
    closed spec fn view(&self) -> Seq<T> {
        match self.data {
            Storage::Inline(v) => v@,
            Storage::Heap(v) => v@,
        }
    }
}

/// Holds when `c` can be reached from `n` by repeated doubling. Every
/// capacity the container ever takes is of this shape.
spec fn grown_from(n: int, c: int) -> bool
    decreases c,
{
    if c == n {
        true
    } else if c > n && n >= 1 {
        c % 2 == 0 && grown_from(n, c / 2)
    } else {
        false
    }
}

/// Two capacities grown from the same starting point are always a factor
/// of two apart (or equal): doubling steps cannot interleave.
proof fn lemma_grown_from_ordering(n: int, c1: int, c2: int)
    requires
        grown_from(n, c1),
        grown_from(n, c2),
        c1 < c2,
    ensures
        2 * c1 <= c2,
    decreases c2,
{
    if c2 == n {
        // impossible: c1 >= n = c2 contradicts c1 < c2
        lemma_grown_from_lower_bound(n, c1);
    } else {
        lemma_grown_from_lower_bound(n, c1);
        if c1 < c2 / 2 {
            lemma_grown_from_ordering(n, c1, c2 / 2);
        } else if c1 > c2 / 2 {
            lemma_grown_from_ordering(n, c2 / 2, c1);
        }
    }
}

/// A grown capacity never drops below its starting point.
proof fn lemma_grown_from_lower_bound(n: int, c: int)
    requires
        grown_from(n, c),
    ensures
        c >= n,
    decreases c,
{
    if c != n {
        lemma_grown_from_lower_bound(n, c / 2);
    }
}

impl<T, const N: usize> InlineVec<T, N> {
    /// Invariant of every constructed container: the length never exceeds
    /// the capacity, the capacity stays within `MAX_CAPACITY`, is reached
    /// from `N` by doubling alone, and equals `N` exactly while the inline
    /// representation is active; the active buffer holds exactly the live
    /// elements.
    #[verifier::type_invariant]
    spec fn inv(self) -> bool {
        &&& 0 < N < MAX_CAPACITY as usize
        &&& self.len <= self.capacity <= MAX_CAPACITY
        &&& grown_from(N as int, self.capacity as int)
        &&& match self.data {
            Storage::Inline(v) => self.capacity == N as u32 && v@.len() == self.len,
            Storage::Heap(v) => self.capacity > N as u32 && v@.len() == self.len,
        }
    }

    /// The current capacity as a mathematical integer.
    pub closed spec fn spec_capacity(&self) -> int {
        self.capacity as int
    }

    /// The inline representation is active exactly while the capacity
    /// still equals `N`; the first growth step doubles the capacity and
    /// migrates to the heap for good.
    pub open spec fn is_inline(&self) -> bool {
        self.spec_capacity() == N as int
    }

    /// Creates an empty container with the inline representation active.
    /// `N` must be positive and leave room for capacity arithmetic; a
    /// violation is a construction-time contract violation.
    pub fn new() -> (r: Self)
        requires
            0 < N < MAX_CAPACITY as usize,
        ensures
            r@ == Seq::<T>::empty(),
            r.spec_capacity() == N as int,
            r.is_inline(),
    {
        InlineVec { data: Storage::Inline(Vec::new()), len: 0, capacity: N as u32 }
    }

    /// The number of live elements.
    pub fn len(&self) -> (r: usize)
        ensures
            r == self@.len(),
    {
        proof {
            use_type_invariant(self);
        }
        self.len as usize
    }

    /// Whether the container holds no elements.
    pub fn is_empty(&self) -> (r: bool)
        ensures
            r == (self@.len() == 0),
    {
        proof {
            use_type_invariant(self);
        }
        self.len == 0
    }

    /// The current capacity. It is at least `N`, at least the length, and
    /// never exceeds `MAX_CAPACITY`.
    pub fn capacity(&self) -> (r: usize)
        ensures
            r == self.spec_capacity(),
            N <= r <= MAX_CAPACITY,
            self@.len() <= r,
    {
        proof {
            use_type_invariant(self);
            lemma_grown_from_lower_bound(N as int, self.capacity as int);
        }
        self.capacity as usize
    }

    /// Appends `value` as the new last element. While there is room, the
    /// element is written in place and nothing else changes; when the
    /// container is full, the capacity doubles and the contents move into
    /// a fresh heap buffer, never to return inline. Growth past
    /// `MAX_CAPACITY` would be fatal, so the caller must rule it out.
    pub fn push(&mut self, value: T)
        requires
            old(self)@.len() == old(self).spec_capacity() ==> 2 * old(self).spec_capacity()
                <= MAX_CAPACITY as int,
        ensures
            final(self)@ == old(self)@.push(value),
            old(self)@.len() < old(self).spec_capacity() ==> final(self).spec_capacity() == old(
                self,
            ).spec_capacity(),
            old(self)@.len() == old(self).spec_capacity() ==> final(self).spec_capacity() == 2
                * old(self).spec_capacity() && !final(self).is_inline(),
    {
        proof {
            use_type_invariant(&*self);
        }
        let mut taken = InlineVec::<T, N> {
            data: Storage::Inline(Vec::new()),
            len: 0,
            capacity: N as u32,
        };
        core::mem::swap(&mut taken, self);
        let InlineVec { data, len, capacity } = taken;
        let mut buffer = match data {
            Storage::Inline(v) => v,
            Storage::Heap(v) => v,
        };
        if len < capacity {
            buffer.push(value);
            let data = if capacity == N as u32 {
                Storage::Inline(buffer)
            } else {
                Storage::Heap(buffer)
            };
            *self = InlineVec { data, len: len + 1, capacity };
        } else {
            let new_capacity = capacity * 2;
            let mut new_buffer: Vec<T> = Vec::with_capacity(new_capacity as usize);
            new_buffer.append(&mut buffer);
            new_buffer.push(value);
            proof {
                lemma_grown_from_lower_bound(N as int, capacity as int);
            }
            *self = InlineVec {
                data: Storage::Heap(new_buffer),
                len: len + 1,
                capacity: new_capacity,
            };
        }
    }

    /// Removes and returns the last element, or reports `None` and leaves
    /// the container untouched when it is empty. The capacity never
    /// shrinks and the representation never changes.
    pub fn pop(&mut self) -> (r: Option<T>)
        ensures
            old(self)@.len() == 0 ==> r is None && *final(self) == *old(self),
            old(self)@.len() > 0 ==> r == Some(old(self)@.last()) && final(self)@ == old(
                self,
            )@.drop_last(),
            final(self).spec_capacity() == old(self).spec_capacity(),
    {
        proof {
            use_type_invariant(&*self);
        }
        if self.len == 0 {
            None
        } else {
            Some(self.pop_unchecked())
        }
    }

    /// Variant of [`Self::pop`] for callers that have already verified
    /// non-emptiness: calling it on an empty container is a precondition
    /// violation, not a recoverable error.
    pub fn pop_unchecked(&mut self) -> (r: T)
        requires
            old(self)@.len() > 0,
        ensures
            r == old(self)@.last(),
            final(self)@ == old(self)@.drop_last(),
            final(self).spec_capacity() == old(self).spec_capacity(),
    {
        proof {
            use_type_invariant(&*self);
        }
        let mut taken = InlineVec::<T, N> {
            data: Storage::Inline(Vec::new()),
            len: 0,
            capacity: N as u32,
        };
        core::mem::swap(&mut taken, self);
        let InlineVec { data, len, capacity } = taken;
        let mut buffer = match data {
            Storage::Inline(v) => v,
            Storage::Heap(v) => v,
        };
        let r = buffer.pop().unwrap();
        let data = if capacity == N as u32 {
            Storage::Inline(buffer)
        } else {
            Storage::Heap(buffer)
        };
        *self = InlineVec { data, len: len - 1, capacity };
        r
    }

    /// A read-only view of the live elements of whichever representation
    /// is active, in append order.
    pub fn as_slice(&self) -> (r: &[T])
        ensures
            r@ == self@,
    {
        match &self.data {
            Storage::Inline(v) => v.as_slice(),
            Storage::Heap(v) => v.as_slice(),
        }
    }

    /// The active buffer, holding exactly the live elements.
    fn buffer(&self) -> (r: &Vec<T>)
        ensures
            r@ == self@,
    {
        match &self.data {
            Storage::Inline(v) => v,
            Storage::Heap(v) => v,
        }
    }
}

impl<T: Clone, const N: usize> Clone for InlineVec<T, N> {
    /// Deep copy: a fresh empty container with a clone of each source
    /// element appended in order. Neither raw memory nor the heap buffer
    /// is shared, so the clone's capacity may be smaller than the
    /// source's, but never larger.
    fn clone(&self) -> (r: Self)
        ensures
            r@.len() == self@.len(),
            forall|i: int| 0 <= i < self@.len() ==> cloned::<T>(self@[i], #[trigger] r@[i]),
            r.spec_capacity() <= self.spec_capacity(),
    {
        proof {
            use_type_invariant(self);
            lemma_grown_from_lower_bound(N as int, self.spec_capacity());
        }
        let mut r = InlineVec::<T, N>::new();
        let src = self.as_slice();
        let n = src.len();
        let mut i: usize = 0;
        while i < n
            invariant
                n == self@.len(),
                src@ == self@,
                i <= n,
                r@.len() == i,
                forall|j: int| 0 <= j < i ==> cloned::<T>(self@[j], #[trigger] r@[j]),
                r.spec_capacity() <= self.spec_capacity(),
            decreases n - i,
        {
            proof {
                use_type_invariant(self);
                use_type_invariant(&r);
                if r@.len() == r.spec_capacity() {
                    lemma_grown_from_ordering(
                        N as int,
                        r.spec_capacity(),
                        self.spec_capacity(),
                    );
                }
            }
            r.push(src[i].clone());
            i = i + 1;
        }
        r
    }
}

impl<T: PartialEq, const N: usize, const M: usize> PartialEq<InlineVec<T, M>> for InlineVec<T, N> {
    /// Structural equality of the live-element sequences. Containers with
    /// different inline capacities compare by content alone: the
    /// representation is not observable.
    fn eq(&self, other: &InlineVec<T, M>) -> bool {
        *self.buffer() == *other.buffer()
    }
}

impl<T: PartialEq, const N: usize, const M: usize> vstd::std_specs::cmp::PartialEqSpecImpl<InlineVec<T, M>> for InlineVec<T, N> {
    open spec fn obeys_eq_spec() -> bool {
        T::obeys_eq_spec()
    }

    open spec fn eq_spec(&self, other: &InlineVec<T, M>) -> bool {
        &&& self@.len() == other@.len()
        &&& forall|i: int| 0 <= i < self@.len() ==> self@[i].eq_spec(&other@[i])
    }
}

impl<T: Eq, const N: usize> Eq for InlineVec<T, N> {}

/// Law: appending a value and then removing the last element hands back
/// exactly that value and restores the previous contents, whatever they
/// were. Together with the contracts of `push` and `pop` this pins the
/// append-then-remove-last behaviour to that of a plain dynamic array.
pub proof fn lemma_append_then_remove_last<T>(s: Seq<T>, v: T)
    ensures
        s.push(v).last() == v,
        s.push(v).drop_last() == s,
{
    assert(s.push(v).drop_last() =~= s);
}

/// Law: containers with equal content sequences are equal under
/// [`PartialEq`], whatever their inline capacities and representations,
/// provided the element equality relation is reflexive.
pub proof fn lemma_eq_ignores_representation<T: PartialEqSpec, const N: usize, const M: usize>(
    a: &InlineVec<T, N>,
    b: &InlineVec<T, M>,
)
    requires
        forall|x: T| #[trigger] x.eq_spec(&x),
        a@ == b@,
    ensures
        a.eq_spec(b),
{
    assert forall|i: int| 0 <= i < a@.len() implies a@[i].eq_spec(&b@[i]) by {
        assert(a@[i].eq_spec(&a@[i]));
        assert(a@[i] == b@[i]);
    }
}

/// Law: containers that are equal under [`PartialEq`] hold equal content
/// sequences, provided the element equality relation implies equality;
/// differing sequences therefore compare unequal.
pub proof fn lemma_eq_distinguishes_content<T: PartialEqSpec, const N: usize, const M: usize>(
    a: &InlineVec<T, N>,
    b: &InlineVec<T, M>,
)
    requires
        forall|x: T, y: T| #[trigger] x.eq_spec(&y) ==> x == y,
        a.eq_spec(b),
    ensures
        a@ == b@,
{
    assert forall|i: int| 0 <= i < a@.len() implies a@[i] == b@[i] by {
        assert(a@[i].eq_spec(&b@[i]));
    }
    assert(a@ =~= b@);
}

} // verus!
