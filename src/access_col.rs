use vstd::prelude::*;

use crate::h_col::HCol;
use crate::h_mat::HMat;
use crate::row::{cell_of, cleared, deref_opt, placed};

verus! {

/// `e`, a borrow of the value at `idx` of a row whose contents were `pre`,
/// matches that value; `post`, what the row holds once the borrow ends,
/// differs from `pre` at most in that slot, which stays present.
pub open spec fn slot_mut<T>(pre: Seq<Option<T>>, idx: int, e: Option<&mut T>, post: Seq<Option<T>>) -> bool {
    &&& deref_opt_mut(e) == cell_of(pre, idx)
    &&& post.len() == pre.len()
    &&& forall|k: int| 0 <= k < pre.len() && k != idx ==> #[trigger] post[k] == pre[k]
    &&& (cell_of(post, idx) is Some <==> cell_of(pre, idx) is Some)
}

/// Reads an optional mutable reference as the value it currently refers to.
pub open spec fn deref_opt_mut<T>(o: Option<&mut T>) -> Option<T> {
    match o {
        Some(x) => Some(*x),
        None => None,
    }
}

/// `post` is what a row holding `pre` holds after `e` is placed at `idx`:
/// a present value overwrites the slot, an absent one leaves it untouched.
pub open spec fn slot_placed<T>(pre: Seq<Option<T>>, idx: int, e: Option<T>) -> Seq<Option<T>> {
    match e {
        Some(v) => placed(pre, idx, v),
        None => pre,
    }
}

/// A stack whose columns can be read by reference.
pub trait AccessColRef<'a, T>: Sized {
    type Rem;

    /// `c` holds, level by level, the value at `idx` of each row.
    spec fn is_col(&self, idx: int, c: HCol<&'a T, Self::Rem>) -> bool;

    /// Returns the column with the given index `idx` as references.
    fn get_col_ref(&'a self, idx: usize) -> (c: HCol<&'a T, Self::Rem>)
        ensures
            self.is_col(idx as int, c),
    ;
}

/// A stack whose columns can be borrowed mutably.
pub trait AccessColMut<'a, T>: Sized {
    type Rem;

    /// `c` borrows, level by level, the value at `idx` of each row of `pre`,
    /// and `post` is `pre` once those borrows end.
    spec fn is_col_mut(pre: Self, idx: int, c: HCol<&'a mut T, Self::Rem>, post: Self) -> bool;

    /// The row of the top level.
    spec fn head_of(&self) -> Seq<Option<T>>;

    /// Returns the column with the given index `idx` as mutable references;
    /// what is written through the top level lands in its slot.
    fn get_col_mut(&'a mut self, idx: usize) -> (c: HCol<&'a mut T, Self::Rem>)
        ensures
            Self::is_col_mut(*old(self), idx as int, c, *final(self)),
            c.elem is Some ==> final(self).head_of() == old(self).head_of().update(
                idx as int,
                Some(*final(c.elem->0)),
            ),
    ;
}

/// A stack whose columns can be moved out.
pub trait TakeCol<T>: Sized {
    type Rem;

    /// `c` holds, level by level, the value at `idx` of each row of `pre`,
    /// and `post` is `pre` with each of those slots cleared.
    spec fn takes(pre: Self, idx: int, c: HCol<T, Self::Rem>, post: Self) -> bool;

    /// Removes the column with the given index `idx` and returns it; the
    /// slots it came from read as absent afterwards.
    fn take_col(&mut self, idx: usize) -> (c: HCol<T, Self::Rem>)
        ensures
            Self::takes(*old(self), idx as int, c, *final(self)),
    ;
}

/// A stack that can store a column.
pub trait PlaceCol<T>: Sized {
    type Rem;

    /// `post` is `pre` with each present value of `c` placed at `idx` of the
    /// row of its level; an absent value leaves its slot untouched.
    spec fn places(pre: Self, idx: int, c: HCol<T, Self::Rem>, post: Self) -> bool;

    /// Places the given column `col` at the given index `idx`.
    fn place_col(&mut self, idx: usize, col: HCol<T, Self::Rem>)
        requires
            idx < usize::MAX,
        ensures
            Self::places(*old(self), idx as int, col, *final(self)),
    ;
}

impl<'a, T1, T2, R> AccessColRef<'a, T1> for HMat<T1, HMat<T2, R>> where
    Self: 'a,
    HMat<T2, R>: AccessColRef<'a, T2>,
 {
    type Rem = HCol<&'a T2, <HMat<T2, R> as AccessColRef<'a, T2>>::Rem>;

    open spec fn is_col(&self, idx: int, c: HCol<&'a T1, Self::Rem>) -> bool {
        &&& deref_opt(c.elem) == self.head_row.cell(idx)
        &&& self.rem.is_col(idx, c.rem)
    }

    fn get_col_ref(&'a self, idx: usize) -> (c: HCol<&'a T1, Self::Rem>) {
        HCol { elem: self.head_row.get(idx), rem: self.rem.get_col_ref(idx) }
    }
}

impl<'a, T> AccessColRef<'a, T> for HMat<T, ()> where Self: 'a {
    type Rem = ();

    open spec fn is_col(&self, idx: int, c: HCol<&'a T, ()>) -> bool {
        deref_opt(c.elem) == self.head_row.cell(idx)
    }

    fn get_col_ref(&'a self, idx: usize) -> (c: HCol<&'a T, ()>) {
        HCol { elem: self.head_row.get(idx), rem: () }
    }
}

impl<'a, T1, T2, R> AccessColMut<'a, T1> for HMat<T1, HMat<T2, R>> where
    Self: 'a,
    HMat<T2, R>: AccessColMut<'a, T2>,
 {
    type Rem = HCol<&'a mut T2, <HMat<T2, R> as AccessColMut<'a, T2>>::Rem>;

    open spec fn is_col_mut(pre: Self, idx: int, c: HCol<&'a mut T1, Self::Rem>, post: Self) -> bool {
        &&& slot_mut(pre.head_row@, idx, c.elem, post.head_row@)
        &&& <HMat<T2, R> as AccessColMut<'a, T2>>::is_col_mut(pre.rem, idx, c.rem, post.rem)
    }

    open spec fn head_of(&self) -> Seq<Option<T1>> {
        self.head_row@
    }

    fn get_col_mut(&'a mut self, idx: usize) -> (c: HCol<&'a mut T1, Self::Rem>) {
        HCol { elem: self.head_row.get_mut(idx), rem: self.rem.get_col_mut(idx) }
    }
}

impl<'a, T> AccessColMut<'a, T> for HMat<T, ()> where Self: 'a {
    type Rem = ();

    open spec fn is_col_mut(pre: Self, idx: int, c: HCol<&'a mut T, ()>, post: Self) -> bool {
        slot_mut(pre.head_row@, idx, c.elem, post.head_row@)
    }

    open spec fn head_of(&self) -> Seq<Option<T>> {
        self.head_row@
    }

    fn get_col_mut(&'a mut self, idx: usize) -> (c: HCol<&'a mut T, ()>) {
        HCol { elem: self.head_row.get_mut(idx), rem: () }
    }
}

impl<T1, T2, R> TakeCol<T1> for HMat<T1, HMat<T2, R>> where HMat<T2, R>: TakeCol<T2> {
    type Rem = HCol<T2, <HMat<T2, R> as TakeCol<T2>>::Rem>;

    open spec fn takes(pre: Self, idx: int, c: HCol<T1, Self::Rem>, post: Self) -> bool {
        &&& c.elem == pre.head_row.cell(idx)
        &&& post.head_row@ == cleared(pre.head_row@, idx)
        &&& <HMat<T2, R> as TakeCol<T2>>::takes(pre.rem, idx, c.rem, post.rem)
    }

    fn take_col(&mut self, idx: usize) -> (c: HCol<T1, Self::Rem>) {
        let elem = self.head_row.take(idx);
        let rem = self.rem.take_col(idx);
        HCol { elem, rem }
    }
}

impl<T> TakeCol<T> for HMat<T, ()> {
    type Rem = ();

    open spec fn takes(pre: Self, idx: int, c: HCol<T, ()>, post: Self) -> bool {
        &&& c.elem == pre.head_row.cell(idx)
        &&& post.head_row@ == cleared(pre.head_row@, idx)
    }

    fn take_col(&mut self, idx: usize) -> (c: HCol<T, ()>) {
        HCol { elem: self.head_row.take(idx), rem: () }
    }
}

impl<T1, T2, R> PlaceCol<T1> for HMat<T1, HMat<T2, R>> where HMat<T2, R>: PlaceCol<T2> {
    type Rem = HCol<T2, <HMat<T2, R> as PlaceCol<T2>>::Rem>;

    open spec fn places(pre: Self, idx: int, c: HCol<T1, Self::Rem>, post: Self) -> bool {
        &&& post.head_row@ == slot_placed(pre.head_row@, idx, c.elem)
        &&& <HMat<T2, R> as PlaceCol<T2>>::places(pre.rem, idx, c.rem, post.rem)
    }

    fn place_col(&mut self, idx: usize, col: HCol<T1, Self::Rem>) {
        let HCol { elem, rem } = col;
        match elem {
            Some(v) => {
                self.head_row.place(idx, v);
            },
            None => {},
        }
        self.rem.place_col(idx, rem);
    }
}

impl<T> PlaceCol<T> for HMat<T, ()> {
    type Rem = ();

    open spec fn places(pre: Self, idx: int, c: HCol<T, ()>, post: Self) -> bool {
        post.head_row@ == slot_placed(pre.head_row@, idx, c.elem)
    }

    fn place_col(&mut self, idx: usize, col: HCol<T, ()>) {
        match col.elem {
            Some(v) => {
                self.head_row.place(idx, v);
            },
            None => {},
        }
    }
}

} // verus!
