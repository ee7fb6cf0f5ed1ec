use vstd::prelude::*;

verus! {

/// The value at position `i` of a row's contents, absent when `i` lies
/// outside the contents.
pub open spec fn cell_of<T>(s: Seq<Option<T>>, i: int) -> Option<T> {
    if 0 <= i < s.len() {
        s[i]
    } else {
        None
    }
}

/// The contents after writing `v` at position `i`: the contents grow to
/// cover `i` when needed, and every position added before `i` is absent.
pub open spec fn placed<T>(s: Seq<Option<T>>, i: int, v: T) -> Seq<Option<T>> {
    if i < s.len() {
        s.update(i, Some(v))
    } else {
        (s + Seq::new((i - s.len()) as nat, |k: int| None::<T>)).push(Some(v))
    }
}

/// The contents after clearing position `i`; the length never changes.
pub open spec fn cleared<T>(s: Seq<Option<T>>, i: int) -> Seq<Option<T>> {
    if 0 <= i < s.len() {
        s.update(i, None)
    } else {
        s
    }
}

/// Reads an optional reference as the value it refers to.
pub open spec fn deref_opt<T>(o: Option<&T>) -> Option<T> {
    match o {
        Some(x) => Some(*x),
        None => None,
    }
}

/// A homogeneous, sparse row: a growable sequence of optional values.
#[derive(Clone, Debug, PartialEq, Eq)]
pub struct Row<T>(pub Vec<Option<T>>);

impl<T> View for Row<T> {
    type V = Seq<Option<T>>;

    open spec fn view(&self) -> Seq<Option<T>> {
        self.0@
    }
}

impl<T> Default for Row<T> {
    /// Returns an empty row.
    fn default() -> (r: Self)
        ensures
            r@ == Seq::<Option<T>>::empty(),
    {
        Row(Vec::new())
    }
}

impl<T> Row<T> {
    /// The value held at position `i`, absent beyond the row's length.
    pub open spec fn cell(&self, i: int) -> Option<T> {
        cell_of(self@, i)
    }

    /// Constructs a row holding the given slots, in order.
    pub fn from_iter(items: Vec<Option<T>>) -> (r: Self)
        ensures
            r@ == items@,
    {
        Row(items)
    }

    /// Returns the element at the given index; absent beyond the row's length.
    pub fn get(&self, idx: usize) -> (r: Option<&T>)
        ensures
            deref_opt(r) == self.cell(idx as int),
    {
        if idx < self.0.len() {
            self.0[idx].as_ref()
        } else {
            None
        }
    }

    /// Returns the element at the given index as a mutable reference; what is
    /// written through it lands in that slot and nowhere else.
    pub fn get_mut(&mut self, idx: usize) -> (r: Option<&mut T>)
        ensures
            r is Some <==> old(self).cell(idx as int) is Some,
            r is None ==> final(self)@ == old(self)@,
            r is Some ==> {
                &&& Some(*r->0) == old(self).cell(idx as int)
                &&& final(self)@ == old(self)@.update(idx as int, Some(*final(r->0)))
            },
    {
        if idx < self.0.len() {
            self.0[idx].as_mut()
        } else {
            None
        }
    }

    /// Removes the element at the given index and returns it; the slot reads
    /// as absent afterwards and the length is kept.
    pub fn take(&mut self, idx: usize) -> (r: Option<T>)
        ensures
            r == old(self).cell(idx as int),
            final(self)@ == cleared(old(self)@, idx as int),
    {
        if idx < self.0.len() {
            self.0[idx].take()
        } else {
            None
        }
    }

    /// Places a value at the given index, growing the row when needed, and
    /// returns the value that was there.
    pub fn place(&mut self, idx: usize, new_elem: T) -> (r: Option<T>)
        requires
            idx < usize::MAX,
        ensures
            r == old(self).cell(idx as int),
            final(self)@ == placed(old(self)@, idx as int, new_elem),
    {
        let ghost s0 = self@;
        while self.0.len() <= idx
            invariant
                idx < usize::MAX,
                s0.len() <= self@.len(),
                self@.len() == s0.len() || self@.len() <= idx + 1,
                self@ == s0 + Seq::new((self@.len() - s0.len()) as nat, |k: int| None::<T>),
            decreases idx + 1 - self@.len(),
        {
            self.0.push(None);
        }
        let slot = &mut self.0[idx];
        let old_elem = slot.take();
        *slot = Some(new_elem);
        proof {
            if idx < s0.len() {
                assert(self@ =~= s0.update(idx as int, Some(new_elem)));
            } else {
                assert(self@ =~= placed(s0, idx as int, new_elem));
            }
        }
        old_elem
    }

    /// Consumes the row and hands back its slots.
    pub fn into_cells(self) -> (r: Vec<Option<T>>)
        ensures
            r@ == self@,
    {
        self.0
    }
}

/// Reading a position right after placing `v` there gives `v`.
pub proof fn lemma_place_then_get<T>(s: Seq<Option<T>>, i: int, v: T)
    requires
        0 <= i,
    ensures
        cell_of(placed(s, i, v), i) == Some(v),
{
}

/// Taking a position returns what was placed there and leaves it absent.
pub proof fn lemma_take_after_place<T>(s: Seq<Option<T>>, i: int, v: T)
    requires
        0 <= i,
    ensures
        cell_of(placed(s, i, v), i) == Some(v),
        cell_of(cleared(placed(s, i, v), i), i) is None,
        cleared(placed(s, i, v), i).len() == placed(s, i, v).len(),
{
}

/// Placing beyond the end grows the row to cover the position, keeps the
/// old slots, and every slot created in between reads as absent.
pub proof fn lemma_place_grows<T>(s: Seq<Option<T>>, i: int, v: T)
    requires
        s.len() <= i,
    ensures
        placed(s, i, v).len() == i + 1,
        forall|k: int| 0 <= k < s.len() ==> #[trigger] cell_of(placed(s, i, v), k) == cell_of(s, k),
        forall|k: int| s.len() <= k < i ==> #[trigger] cell_of(placed(s, i, v), k) is None,
{
}

} // verus!
