use vstd::prelude::*;

use crate::access_row::AccessRowRef;
use crate::h_mat_ref::HMatRef;

verus! {

/// Marks one level of a view being built: how to find its row in the
/// source, and how to build the rest.
pub struct SlicerDirective<Head, Tail>(pub Head, pub Tail);

/// A view that can be built over a source `H` by looking up, level by
/// level, the source's row of the level's element type.
pub trait Slicer<'a, H, D, Directive>: Sized {
    /// Each level of this view borrows the row of `h` of its element type.
    spec fn slices(&self, h: &H) -> bool;

    /// Builds the view over `h`.
    fn slice(h: &'a H) -> (r: Self)
        ensures
            r.slices(h),
    ;
}

impl<'a, H, D, A> Slicer<'a, H, D, SlicerDirective<A, ()>> for HMatRef<'a, D, ()> where
    H: AccessRowRef<D, A>,
 {
    open spec fn slices(&self, h: &H) -> bool {
        *self.row == <H as AccessRowRef<D, A>>::row_of(h)
    }

    fn slice(h: &'a H) -> (r: Self) {
        HMatRef { row: AccessRowRef::<D, A>::get_row_ref(h), rem: () }
    }
}

impl<'a, H, D1, D2, R, A1, A2, Tail> Slicer<
    'a,
    H,
    D1,
    SlicerDirective<A1, SlicerDirective<A2, Tail>>,
> for HMatRef<'a, D1, HMatRef<'a, D2, R>> where
    H: AccessRowRef<D1, A1>,
    H: AccessRowRef<D2, A2>,
    HMatRef<'a, D2, R>: Slicer<'a, H, D2, SlicerDirective<A2, Tail>>,
 {
    open spec fn slices(&self, h: &H) -> bool {
        &&& *self.row == <H as AccessRowRef<D1, A1>>::row_of(h)
        &&& <HMatRef<'a, D2, R> as Slicer<'a, H, D2, SlicerDirective<A2, Tail>>>::slices(
            &self.rem,
            h,
        )
    }

    fn slice(h: &'a H) -> (r: Self) {
        HMatRef {
            row: AccessRowRef::<D1, A1>::get_row_ref(h),
            rem: <HMatRef<'a, D2, R> as Slicer<'a, H, D2, SlicerDirective<A2, Tail>>>::slice(h),
        }
    }
}

} // verus!
