use vstd::prelude::*;

use crate::writer::{GetSubWriter, HMatWriter, RowMod};

verus! {

/// Marks one level of a writer being merged: where its list goes in the
/// receiver, and how to merge the rest.
pub struct MergeDirective<Head, Tail>(pub Head, pub Tail);

/// `post` is `pre` with `mods` appended to the list of row type `D`, every
/// other list kept.
pub open spec fn appends<W, D, A>(pre: W, mods: Seq<RowMod<D>>, post: W) -> bool where
    W: GetSubWriter<D, A>,
 {
    &&& post.sub().row_mods@ == pre.sub().row_mods@ + mods
    &&& post.sub().rem == pre.sub().rem
    &&& post == pre.with_sub(post.sub())
}

/// A writer that can take in the lists of another writer `Other`.
pub trait Merge<Other, Directive>: Sized {
    /// `post` is `pre` after each list of `other`, from the top, was appended
    /// to the list of the same row type.
    spec fn merges(pre: Self, other: Other, post: Self) -> bool;

    /// Merges `other` into this writer, level by level.
    fn merge(&mut self, other: Other)
        ensures
            Self::merges(*old(self), other, *final(self)),
    ;
}

fn append_mods<W, D, A>(w: &mut W, mods: Vec<RowMod<D>>) where W: GetSubWriter<D, A>
    ensures
        appends::<W, D, A>(*old(w), mods@, *final(w)),
{
    let mut mods = mods;
    let sub = w.sub_writer_mut();
    sub.row_mods.append(&mut mods);
    proof {
        old(w).lemma_with_sub(*sub);
    }
}

impl<T, D, R, A1, A2, Tail> Merge<HMatWriter<D, R>, MergeDirective<A1, MergeDirective<A2, Tail>>> for T where
    T: GetSubWriter<D, A1> + Merge<R, MergeDirective<A2, Tail>>,
 {
    open spec fn merges(pre: Self, other: HMatWriter<D, R>, post: Self) -> bool {
        exists|mid: Self|
            appends::<Self, D, A1>(pre, other.row_mods@, mid)
                && #[trigger] <Self as Merge<R, MergeDirective<A2, Tail>>>::merges(
                mid,
                other.rem,
                post,
            )
    }

    fn merge(&mut self, other: HMatWriter<D, R>) {
        let HMatWriter { row_mods, rem } = other;
        append_mods::<T, D, A1>(self, row_mods);
        let ghost mid = *self;
        Merge::<R, MergeDirective<A2, Tail>>::merge(self, rem);
        assert(appends::<Self, D, A1>(*old(self), other.row_mods@, mid));
    }
}

impl<T, D, A> Merge<HMatWriter<D, ()>, MergeDirective<A, ()>> for T where T: GetSubWriter<D, A> {
    open spec fn merges(pre: Self, other: HMatWriter<D, ()>, post: Self) -> bool {
        appends::<Self, D, A>(pre, other.row_mods@, post)
    }

    fn merge(&mut self, other: HMatWriter<D, ()>) {
        let HMatWriter { row_mods, rem } = other;
        append_mods::<T, D, A>(self, row_mods);
    }
}

impl<T, R> HMatWriter<T, R> {
    /// Merges `other` into this writer: each list of `other` is appended to
    /// the list of the same row type here, both keeping their order.
    pub fn merge<T2, R2, Directive>(&mut self, other: HMatWriter<T2, R2>) where
        Self: Merge<HMatWriter<T2, R2>, Directive>,

        ensures
            <Self as Merge<HMatWriter<T2, R2>, Directive>>::merges(*old(self), other, *final(self)),
    {
        Merge::<HMatWriter<T2, R2>, Directive>::merge(self, other)
    }
}

} // verus!
