use vstd::prelude::*;

use crate::row::deref_opt;

verus! {

/// A single column of a heterogeneous matrix: one optional value per row
/// type, all for the same column index. `rem` is `()` or another `HCol`.
#[derive(Clone, Debug, PartialEq, Eq)]
pub struct HCol<T, R> {
    pub elem: Option<T>,
    pub rem: R,
}

impl<T, R> HCol<T, R> {
    /// Returns the value of this level.
    pub fn get(&self) -> (r: Option<&T>)
        ensures
            deref_opt(r) == self.elem,
    {
        self.elem.as_ref()
    }

    /// Returns the value of this level as a mutable reference.
    pub fn get_mut(&mut self) -> (r: Option<&mut T>)
        ensures
            final(self).rem == old(self).rem,
            r is Some <==> old(self).elem is Some,
            r is None ==> final(self).elem is None,
            r is Some ==> {
                &&& old(self).elem == Some(*r->0)
                &&& final(self).elem == Some(*final(r->0))
            },
    {
        self.elem.as_mut()
    }

    /// Removes the value of this level and returns it.
    pub fn take(&mut self) -> (r: Option<T>)
        ensures
            r == old(self).elem,
            final(self).elem is None,
            final(self).rem == old(self).rem,
    {
        self.elem.take()
    }

    /// Stores `new_elem` at this level and returns the value it displaced.
    pub fn place(&mut self, new_elem: T) -> (r: Option<T>)
        ensures
            r == old(self).elem,
            final(self).elem == Some(new_elem),
            final(self).rem == old(self).rem,
    {
        let r = self.elem.take();
        self.elem = Some(new_elem);
        r
    }
}

/// Marks a lookup that descends one level of a column before resolving.
pub struct GetSubColDirective<T>(pub T);

/// A column that holds a sub-column `HCol<D, R>`, e.g. `HCol<T1, HCol<T2, R>>`
/// holds `HCol<T2, R>`.
pub trait GetSubCol<D, R, Directive>: Sized {
    /// The sub-column whose top level has type `D`.
    spec fn sub_col(&self) -> HCol<D, R>;

    /// This column with that sub-column replaced by `c`.
    spec fn with_sub_col(&self, c: HCol<D, R>) -> Self;

    /// Returns the sub-column `HCol<D, R>` as a reference.
    fn subcol_ref(&self) -> (r: &HCol<D, R>)
        ensures
            *r == self.sub_col(),
    ;

    /// Returns the sub-column `HCol<D, R>` as a mutable reference; the
    /// levels above it stay as they were.
    fn subcol_mut(&mut self) -> (r: &mut HCol<D, R>)
        ensures
            *r == old(self).sub_col(),
            *final(self) == old(self).with_sub_col(*final(r)),
    ;
}

impl<D, R> GetSubCol<D, R, ()> for HCol<D, R> {
    open spec fn sub_col(&self) -> HCol<D, R> {
        *self
    }

    open spec fn with_sub_col(&self, c: HCol<D, R>) -> Self {
        c
    }

    fn subcol_ref(&self) -> (r: &HCol<D, R>) {
        self
    }

    fn subcol_mut(&mut self) -> (r: &mut HCol<D, R>) {
        self
    }
}

impl<D, R, T, R1, Inner> GetSubCol<D, R, GetSubColDirective<Inner>> for HCol<T, R1> where
    R1: GetSubCol<D, R, Inner>,
 {
    open spec fn sub_col(&self) -> HCol<D, R> {
        self.rem.sub_col()
    }

    open spec fn with_sub_col(&self, c: HCol<D, R>) -> Self {
        HCol { elem: self.elem, rem: self.rem.with_sub_col(c) }
    }

    fn subcol_ref(&self) -> (r: &HCol<D, R>) {
        self.rem.subcol_ref()
    }

    fn subcol_mut(&mut self) -> (r: &mut HCol<D, R>) {
        self.rem.subcol_mut()
    }
}

} // verus!
