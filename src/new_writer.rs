use vstd::prelude::*;

use crate::h_mat::HMat;
use crate::h_mat_ref::HMatRef;
use crate::writer::HMatWriter;

verus! {

/// A stack from which an empty writer with the same row types can be made.
pub trait NewWriter<T>: Sized {
    type Rem;

    /// `w` has one empty list for each row of this stack.
    spec fn fresh(w: HMatWriter<T, Self::Rem>) -> bool;

    /// Returns a new writer that can gather edits to apply at once.
    fn new_writer(&self) -> (w: HMatWriter<T, Self::Rem>)
        ensures
            Self::fresh(w),
    ;
}

impl<T1, T2, R> NewWriter<T1> for HMat<T1, HMat<T2, R>> where HMat<T2, R>: NewWriter<T2> {
    type Rem = HMatWriter<T2, <HMat<T2, R> as NewWriter<T2>>::Rem>;

    open spec fn fresh(w: HMatWriter<T1, Self::Rem>) -> bool {
        w.row_mods@.len() == 0 && <HMat<T2, R> as NewWriter<T2>>::fresh(w.rem)
    }

    fn new_writer(&self) -> (w: HMatWriter<T1, Self::Rem>) {
        HMatWriter { row_mods: Vec::new(), rem: self.rem.new_writer() }
    }
}

impl<T1> NewWriter<T1> for HMat<T1, ()> {
    type Rem = ();

    open spec fn fresh(w: HMatWriter<T1, ()>) -> bool {
        w.row_mods@.len() == 0
    }

    fn new_writer(&self) -> (w: HMatWriter<T1, ()>) {
        HMatWriter { row_mods: Vec::new(), rem: () }
    }
}

impl<'a, T1, T2, R> NewWriter<T1> for HMatRef<'a, T1, HMatRef<'a, T2, R>> where
    HMatRef<'a, T2, R>: NewWriter<T2>,
 {
    type Rem = HMatWriter<T2, <HMatRef<'a, T2, R> as NewWriter<T2>>::Rem>;

    open spec fn fresh(w: HMatWriter<T1, Self::Rem>) -> bool {
        w.row_mods@.len() == 0 && <HMatRef<'a, T2, R> as NewWriter<T2>>::fresh(w.rem)
    }

    fn new_writer(&self) -> (w: HMatWriter<T1, Self::Rem>) {
        HMatWriter { row_mods: Vec::new(), rem: self.rem.new_writer() }
    }
}

impl<'a, T1> NewWriter<T1> for HMatRef<'a, T1, ()> {
    type Rem = ();

    open spec fn fresh(w: HMatWriter<T1, ()>) -> bool {
        w.row_mods@.len() == 0
    }

    fn new_writer(&self) -> (w: HMatWriter<T1, ()>) {
        HMatWriter { row_mods: Vec::new(), rem: () }
    }
}

} // verus!
