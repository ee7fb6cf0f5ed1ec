use vstd::prelude::*;

use crate::access_col::AccessColRef;
use crate::access_row::{AccessRowDirective, AccessRowRef};
use crate::h_col::HCol;
use crate::row::{deref_opt, Row};

verus! {

/// A read-only view of a heterogeneous matrix: a stack of borrowed rows,
/// in an order and a selection of the caller's choosing. `rem` is `()` or
/// another `HMatRef`.
#[derive(Clone, Copy, Debug)]
pub struct HMatRef<'a, D, R> {
    pub row: &'a Row<D>,
    pub rem: R,
}

impl<'a, D, R> AccessRowRef<D, ()> for HMatRef<'a, D, R> {
    open spec fn row_of(&self) -> Row<D> {
        *self.row
    }

    fn get_row_ref(&self) -> (r: &Row<D>) {
        self.row
    }
}

impl<'a, T, R, D, A> AccessRowRef<D, AccessRowDirective<A>> for HMatRef<'a, T, R> where
    R: AccessRowRef<D, A>,
 {
    open spec fn row_of(&self) -> Row<D> {
        self.rem.row_of()
    }

    fn get_row_ref(&self) -> (r: &Row<D>) {
        self.rem.get_row_ref()
    }
}

impl<'a, T1, T2, R> AccessColRef<'a, T1> for HMatRef<'a, T1, HMatRef<'a, T2, R>> where
    HMatRef<'a, T2, R>: AccessColRef<'a, T2>,
 {
    type Rem = HCol<&'a T2, <HMatRef<'a, T2, R> as AccessColRef<'a, T2>>::Rem>;

    open spec fn is_col(&self, idx: int, c: HCol<&'a T1, Self::Rem>) -> bool {
        &&& deref_opt(c.elem) == self.row.cell(idx)
        &&& self.rem.is_col(idx, c.rem)
    }

    fn get_col_ref(&'a self, idx: usize) -> (c: HCol<&'a T1, Self::Rem>) {
        HCol { elem: self.row.get(idx), rem: self.rem.get_col_ref(idx) }
    }
}

impl<'a, T> AccessColRef<'a, T> for HMatRef<'a, T, ()> {
    type Rem = ();

    open spec fn is_col(&self, idx: int, c: HCol<&'a T, ()>) -> bool {
        deref_opt(c.elem) == self.row.cell(idx)
    }

    fn get_col_ref(&'a self, idx: usize) -> (c: HCol<&'a T, ()>) {
        HCol { elem: self.row.get(idx), rem: () }
    }
}

} // verus!
