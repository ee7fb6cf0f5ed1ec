use vstd::prelude::*;

use itertools::Itertools;

use crate::access_row::AccessRowMut;
use crate::h_mat::HMat;
use crate::row::{cell_of, cleared, placed, Row};

verus! {

/// An in-place edit of one value, supplied by the caller of
/// `HMatWriter::update_col` and run once, when the writer is applied.
///
/// Implementors promise that `update` leaves `self.updated(v)` in `v`; what
/// the contracts of this library say of update edits rests on that promise.
pub trait Update<T> {
    /// What the edit turns `v` into.
    spec fn updated(&self, v: T) -> T;

    /// Runs the edit on `v`, consuming it.
    fn update(self: Box<Self>, v: &mut T)
        ensures
            *final(v) == self.updated(*old(v)),
    ;
}

/// One pending edit of a `Row<T>`.
#[verifier::reject_recursive_types(T)]
pub enum RowMod<T> {
    SetCol(usize, T),
    UnsetCol(usize),
    UpdateCol(usize, Box<dyn Update<T>>),
}

impl<T> RowMod<T> {
    /// The class in which an edit runs when a writer is applied: sets, then
    /// updates, then unsets.
    pub open spec fn priority_spec(&self) -> nat {
        match self {
            RowMod::SetCol(_, _) => 0,
            RowMod::UpdateCol(_, _) => 10,
            RowMod::UnsetCol(_) => 20,
        }
    }

    /// An edit that can run without panicking: a set must not target the
    /// largest index, which no row can grow to cover.
    pub open spec fn admissible(&self) -> bool {
        match self {
            RowMod::SetCol(i, _) => i < usize::MAX,
            _ => true,
        }
    }

    /// The row contents after this edit runs on `s`.
    pub open spec fn applied_to(self, s: Seq<Option<T>>) -> Seq<Option<T>> {
        match self {
            RowMod::SetCol(i, v) => placed(s, i as int, v),
            RowMod::UnsetCol(i) => cleared(s, i as int),
            RowMod::UpdateCol(i, _) => match cell_of(s, i as int) {
                Some(x) => s.update(i as int, Some(edited(self, x))),
                None => s,
            },
        }
    }

    /// The class in which this edit runs: 0 for a set, 10 for an update,
    /// 20 for an unset; lower classes run first.
    pub fn priority(&self) -> (r: usize)
        ensures
            r == self.priority_spec(),
    {
        match self {
            RowMod::SetCol(_, _) => 0,
            RowMod::UpdateCol(_, _) => 10,
            RowMod::UnsetCol(_) => 20,
        }
    }

    /// Runs this edit on `row`: a set places its value, an unset clears the
    /// slot, an update edits the slot's value when there is one.
    pub fn apply(self, row: &mut Row<T>)
        requires
            self.admissible(),
        ensures
            final(row)@ == self.applied_to(old(row)@),
    {
        match self {
            RowMod::SetCol(col_idx, new_val) => {
                row.place(col_idx, new_val);
            },
            RowMod::UnsetCol(col_idx) => {
                row.take(col_idx);
            },
            RowMod::UpdateCol(col_idx, f) => {
                let slot = row.get_mut(col_idx);
                match slot {
                    Some(val) => {
                        f.update(val);
                    },
                    None => {},
                }
            },
        }
    }
}

/// What an update turns `x` into; any other edit leaves `x` as it is.
pub open spec fn edited<T>(m: RowMod<T>, x: T) -> T {
    match m {
        RowMod::UpdateCol(_, f) => f.updated(x),
        _ => x,
    }
}

/// Every edit of `mods` can run.
pub open spec fn mods_admissible<T>(mods: Seq<RowMod<T>>) -> bool {
    forall|i: int| 0 <= i < mods.len() ==> (#[trigger] mods[i]).admissible()
}

/// The edits of `mods` in the order they run: the sets, then the updates,
/// then the unsets, each class in the order it was queued.
pub open spec fn by_priority<T>(mods: Seq<RowMod<T>>) -> Seq<RowMod<T>> {
    mods.filter(|m: RowMod<T>| m is SetCol) + mods.filter(|m: RowMod<T>| m is UpdateCol)
        + mods.filter(|m: RowMod<T>| m is UnsetCol)
}

/// The row contents after running `mods` on `s`, first to last.
pub open spec fn run_mods<T>(mods: Seq<RowMod<T>>, s: Seq<Option<T>>) -> Seq<Option<T>>
    decreases mods.len(),
{
    if mods.len() == 0 {
        s
    } else {
        run_mods(mods.drop_first(), mods[0].applied_to(s))
    }
}

proof fn lemma_filter_admissible<T>(mods: Seq<RowMod<T>>, pred: spec_fn(RowMod<T>) -> bool)
    requires
        mods_admissible(mods),
    ensures
        mods_admissible(mods.filter(pred)),
    decreases mods.len(),
{
    reveal(Seq::filter);
    if mods.len() > 0 {
        lemma_filter_admissible(mods.drop_last(), pred);
    }
}

proof fn lemma_by_priority_admissible<T>(mods: Seq<RowMod<T>>)
    requires
        mods_admissible(mods),
    ensures
        mods_admissible(by_priority(mods)),
{
    let a = mods.filter(|m: RowMod<T>| m is SetCol);
    let b = mods.filter(|m: RowMod<T>| m is UpdateCol);
    let c = mods.filter(|m: RowMod<T>| m is UnsetCol);
    lemma_filter_admissible(mods, |m: RowMod<T>| m is SetCol);
    lemma_filter_admissible(mods, |m: RowMod<T>| m is UpdateCol);
    lemma_filter_admissible(mods, |m: RowMod<T>| m is UnsetCol);
    assert forall|i: int| 0 <= i < (a + b + c).len() implies (#[trigger] (a + b + c)[i]).admissible() by {
        if i < a.len() {
            assert((a + b + c)[i] == a[i]);
        } else if i < a.len() + b.len() {
            assert((a + b + c)[i] == b[i - a.len()]);
        } else {
            assert((a + b + c)[i] == c[i - a.len() - b.len()]);
        }
    }
}

proof fn lemma_run_mods_append<T>(a: Seq<RowMod<T>>, b: Seq<RowMod<T>>, s: Seq<Option<T>>)
    ensures
        run_mods(a + b, s) == run_mods(b, run_mods(a, s)),
    decreases a.len(),
{
    if a.len() > 0 {
        assert((a + b).drop_first() =~= a.drop_first() + b);
        lemma_run_mods_append(a.drop_first(), b, a[0].applied_to(s));
    } else {
        assert(a + b =~= b);
    }
}

proof fn lemma_unsets_clear<T>(c: Seq<RowMod<T>>, s: Seq<Option<T>>, i: usize)
    requires
        forall|k: int| 0 <= k < c.len() ==> (#[trigger] c[k]) is UnsetCol,
        cell_of(s, i as int) is None || c.contains(RowMod::UnsetCol(i)),
    ensures
        cell_of(run_mods(c, s), i as int) is None,
    decreases c.len(),
{
    if c.len() > 0 {
        let next = c[0].applied_to(s);
        if !(cell_of(next, i as int) is None) {
            let k = choose|k: int| 0 <= k < c.len() && c[k] == RowMod::<T>::UnsetCol(i);
            assert(c.drop_first()[k - 1] == c[k]);
        }
        lemma_unsets_clear(c.drop_first(), next, i);
    }
}

/// Unsets win: once a list of edits holds an unset of column `i`, that slot
/// reads as absent after the list runs in priority order, whatever else the
/// list holds and in whatever order it was queued.
pub proof fn lemma_unset_dominates<T>(mods: Seq<RowMod<T>>, s: Seq<Option<T>>, i: usize)
    requires
        mods.contains(RowMod::UnsetCol(i)),
    ensures
        cell_of(run_mods(by_priority(mods), s), i as int) is None,
{
    let a = mods.filter(|m: RowMod<T>| m is SetCol);
    let b = mods.filter(|m: RowMod<T>| m is UpdateCol);
    let c = mods.filter(|m: RowMod<T>| m is UnsetCol);
    let k = choose|k: int| 0 <= k < mods.len() && mods[k] == RowMod::<T>::UnsetCol(i);
    mods.lemma_filter_contains(|m: RowMod<T>| m is UnsetCol, k);
    assert(c.contains(mods[k]));
    lemma_run_mods_append(a + b, c, s);
    lemma_unsets_clear(c, run_mods(a + b, s), i);
}

proof fn lemma_by_priority_pair<T>(set: RowMod<T>, upd: RowMod<T>)
    requires
        set is SetCol,
        upd is UpdateCol,
    ensures
        by_priority(seq![set, upd]) == seq![set, upd],
        by_priority(seq![upd, set]) == seq![set, upd],
{
    reveal_with_fuel(Seq::filter, 3);
    let p = seq![set, upd];
    let q = seq![upd, set];
    assert(p.drop_last() =~= seq![set]);
    assert(q.drop_last() =~= seq![upd]);
    assert(seq![set].drop_last() =~= Seq::<RowMod<T>>::empty());
    assert(seq![upd].drop_last() =~= Seq::<RowMod<T>>::empty());
    assert(p.filter(|m: RowMod<T>| m is SetCol) =~= seq![set]);
    assert(p.filter(|m: RowMod<T>| m is UpdateCol) =~= seq![upd]);
    assert(p.filter(|m: RowMod<T>| m is UnsetCol) =~= Seq::<RowMod<T>>::empty());
    assert(q.filter(|m: RowMod<T>| m is SetCol) =~= seq![set]);
    assert(q.filter(|m: RowMod<T>| m is UpdateCol) =~= seq![upd]);
    assert(q.filter(|m: RowMod<T>| m is UnsetCol) =~= Seq::<RowMod<T>>::empty());
    assert(by_priority(p) =~= seq![set, upd]);
    assert(by_priority(q) =~= seq![set, upd]);
}

proof fn lemma_run_pair<T>(x: RowMod<T>, y: RowMod<T>, s: Seq<Option<T>>)
    ensures
        run_mods(seq![x, y], s) == y.applied_to(x.applied_to(s)),
{
    let p = seq![x, y];
    assert(p.drop_first() =~= seq![y]);
    assert(seq![y].drop_first() =~= Seq::<RowMod<T>>::empty());
    assert(run_mods(p, s) == run_mods(seq![y], x.applied_to(s)));
    assert(run_mods(seq![y], x.applied_to(s)) == run_mods(
        Seq::<RowMod<T>>::empty(),
        y.applied_to(x.applied_to(s)),
    ));
}

/// A set is seen by an update of the same column: a list holding just
/// `SetCol(i, v)` and an update `upd` of column `i`, queued in either order,
/// leaves in that slot what `upd` makes of `v`.
pub proof fn lemma_set_seen_by_update<T>(s: Seq<Option<T>>, i: usize, v: T, upd: RowMod<T>)
    requires
        i < usize::MAX,
        upd is UpdateCol,
        upd->UpdateCol_0 == i,
    ensures
        cell_of(run_mods(by_priority(seq![RowMod::SetCol(i, v), upd]), s), i as int) == Some(
            edited(upd, v),
        ),
        cell_of(run_mods(by_priority(seq![upd, RowMod::SetCol(i, v)]), s), i as int) == Some(
            edited(upd, v),
        ),
{
    let set = RowMod::SetCol(i, v);
    lemma_by_priority_pair(set, upd);
    lemma_run_pair(set, upd, s);
    let placed_s = placed(s, i as int, v);
    assert(set.applied_to(s) == placed_s);
    assert(cell_of(placed_s, i as int) == Some(v));
}

/// Relies on itertools' `Itertools::sorted_by_key`, documented as a stable
/// ascending sort: keyed by `priority` (0 for sets, 10 for updates, 20 for
/// unsets) it yields the sets, then the updates, then the unsets, each class
/// in its original order.
#[verifier::external_body]
fn sorted_by_priority<T>(mods: Vec<RowMod<T>>) -> (r: Vec<RowMod<T>>)
    ensures
        r@ == by_priority(mods@),
{
    mods.into_iter().sorted_by_key(|m| m.priority()).collect()
}

/// Runs every edit of `mods` on `row`, in priority order.
fn apply_mods<T>(row: &mut Row<T>, mods: Vec<RowMod<T>>)
    requires
        mods_admissible(mods@),
    ensures
        final(row)@ == run_mods(by_priority(mods@), old(row)@),
{
    proof {
        lemma_by_priority_admissible(mods@);
    }
    let mut rest = sorted_by_priority(mods);
    while rest.len() > 0
        invariant
            mods_admissible(rest@),
            run_mods(rest@, row@) == run_mods(by_priority(mods@), old(row)@),
        decreases rest.len(),
    {
        let ghost before = rest@;
        let m = rest.remove(0);
        assert(rest@ =~= before.drop_first());
        m.apply(row);
    }
}

/// A stack of pending-edit lists, one per row type, mirroring the rows of
/// a view. Edits are not applied in the order they are queued: within each
/// list the sets run first, then the updates, then the unsets.
#[verifier::reject_recursive_types(T)]
pub struct HMatWriter<T, R> {
    pub row_mods: Vec<RowMod<T>>,
    pub rem: R,
}

/// Marks a lookup that descends one level of a writer before resolving.
pub struct GetSubWriterDirective<T>(pub T);

/// A writer that holds a sub-writer whose list collects edits of `Row<T>`.
pub trait GetSubWriter<T, Directive>: Sized {
    type Rem;

    /// The sub-writer for row type `T`.
    spec fn sub(&self) -> HMatWriter<T, Self::Rem>;

    /// This writer with its sub-writer for `T` replaced by `w`.
    spec fn with_sub(&self, w: HMatWriter<T, Self::Rem>) -> Self;

    /// Reading back a replaced sub-writer gives the replacement.
    proof fn lemma_with_sub(&self, w: HMatWriter<T, Self::Rem>)
        ensures
            self.with_sub(w).sub() == w,
    ;

    /// Returns the sub-writer `HMatWriter<T, _>` as a mutable reference.
    fn sub_writer_mut(&mut self) -> (r: &mut HMatWriter<T, Self::Rem>)
        ensures
            *r == old(self).sub(),
            *final(self) == old(self).with_sub(*final(r)),
    ;
}

impl<D, R> GetSubWriter<D, ()> for HMatWriter<D, R> {
    type Rem = R;

    open spec fn sub(&self) -> HMatWriter<D, R> {
        *self
    }

    open spec fn with_sub(&self, w: HMatWriter<D, R>) -> Self {
        w
    }

    proof fn lemma_with_sub(&self, w: HMatWriter<D, R>) {
    }

    fn sub_writer_mut(&mut self) -> (r: &mut HMatWriter<D, R>) {
        self
    }
}

impl<D, R, T, Inner> GetSubWriter<D, GetSubWriterDirective<Inner>> for HMatWriter<T, R> where
    R: GetSubWriter<D, Inner>,
 {
    type Rem = <R as GetSubWriter<D, Inner>>::Rem;

    open spec fn sub(&self) -> HMatWriter<D, Self::Rem> {
        self.rem.sub()
    }

    open spec fn with_sub(&self, w: HMatWriter<D, Self::Rem>) -> Self {
        HMatWriter { row_mods: self.row_mods, rem: self.rem.with_sub(w) }
    }

    proof fn lemma_with_sub(&self, w: HMatWriter<D, Self::Rem>) {
        self.rem.lemma_with_sub(w);
    }

    fn sub_writer_mut(&mut self) -> (r: &mut HMatWriter<D, Self::Rem>) {
        self.rem.sub_writer_mut()
    }
}

impl<T, R> HMatWriter<T, R> {
    /// `post` is `pre` with `m` queued on the list of row type `D`.
    pub open spec fn queued<D, A>(pre: Self, m: RowMod<D>, post: Self) -> bool where
        Self: GetSubWriter<D, A>,
     {
        &&& post.sub().row_mods@ == pre.sub().row_mods@.push(m)
        &&& post.sub().rem == pre.sub().rem
        &&& post == pre.with_sub(post.sub())
    }

    /// Queues setting column `col_idx` of the row of type `D` to `new_val`.
    pub fn set_col<D, A>(&mut self, col_idx: usize, new_val: D) where
        Self: GetSubWriter<D, A>,

        requires
            col_idx < usize::MAX,
        ensures
            Self::queued(*old(self), RowMod::SetCol(col_idx, new_val), *final(self)),
    {
        self.queue(RowMod::SetCol(col_idx, new_val));
    }

    /// Queues clearing column `col_idx` of the row of type `D`.
    pub fn unset_col<D, A>(&mut self, col_idx: usize) where
        Self: GetSubWriter<D, A>,

        ensures
            Self::queued(*old(self), RowMod::<D>::UnsetCol(col_idx), *final(self)),
    {
        self.queue(RowMod::<D>::UnsetCol(col_idx));
    }

    /// Queues editing column `col_idx` of the row of type `D` with `f`; the
    /// edit runs only where that slot holds a value when the writer is
    /// applied.
    pub fn update_col<D, A>(&mut self, col_idx: usize, f: Box<dyn Update<D>>) where
        Self: GetSubWriter<D, A>,

        ensures
            Self::queued(*old(self), RowMod::UpdateCol(col_idx, f), *final(self)),
    {
        self.queue(RowMod::UpdateCol(col_idx, f));
    }

    fn queue<D, A>(&mut self, m: RowMod<D>) where Self: GetSubWriter<D, A>
        ensures
            Self::queued(*old(self), m, *final(self)),
    {
        let sub = self.sub_writer_mut();
        sub.row_mods.push(m);
        proof {
            old(self).lemma_with_sub(*sub);
        }
    }
}

/// Marks one level of a writer being applied: how to find its row, and how
/// to apply the rest.
pub struct ApplyWriterDirective<Head, Tail>(pub Head, pub Tail);

/// A matrix that can take in the edits of a writer `W`.
pub trait ApplyWriter<W, Directive>: Sized {
    /// Every edit in `w` can run.
    spec fn admits(w: W) -> bool;

    /// `post` is `pre` after the edits of `w` ran: level by level, from the
    /// top of `w`, each list in priority order on the row of its type.
    spec fn applies(pre: Self, w: W, post: Self) -> bool;

    /// Runs the edits of `w` on this matrix.
    fn apply(&mut self, w: W)
        requires
            Self::admits(w),
        ensures
            Self::applies(*old(self), w, *final(self)),
    ;
}

/// `post` is `pre` with its row of type `D` replaced by the result of
/// running `mods` on it, in priority order.
pub open spec fn applies_row<M, D, A>(pre: M, mods: Seq<RowMod<D>>, post: M) -> bool where
    M: AccessRowMut<D, A>,
 {
    &&& post.row_of_mut()@ == run_mods(by_priority(mods), pre.row_of_mut()@)
    &&& post == pre.with_row(post.row_of_mut())
}

impl<D1, D2, R, A, Awt, Hh, Hr> ApplyWriter<
    HMatWriter<D1, HMatWriter<D2, R>>,
    ApplyWriterDirective<A, Awt>,
> for HMat<Hh, Hr> where
    Self: AccessRowMut<D1, A>,
    Self: ApplyWriter<HMatWriter<D2, R>, Awt>,
 {
    open spec fn admits(w: HMatWriter<D1, HMatWriter<D2, R>>) -> bool {
        &&& mods_admissible(w.row_mods@)
        &&& <Self as ApplyWriter<HMatWriter<D2, R>, Awt>>::admits(w.rem)
    }

    open spec fn applies(pre: Self, w: HMatWriter<D1, HMatWriter<D2, R>>, post: Self) -> bool {
        exists|mid: Self|
            applies_row::<Self, D1, A>(pre, w.row_mods@, mid)
                && #[trigger] <Self as ApplyWriter<HMatWriter<D2, R>, Awt>>::applies(
                mid,
                w.rem,
                post,
            )
    }

    fn apply(&mut self, w: HMatWriter<D1, HMatWriter<D2, R>>) {
        let HMatWriter { row_mods, rem } = w;
        let row_mut = AccessRowMut::<D1, A>::get_row_mut(self);
        apply_mods(row_mut, row_mods);
        proof {
            old(self).lemma_with_row(*row_mut);
        }
        let ghost mid = *self;
        ApplyWriter::<HMatWriter<D2, R>, Awt>::apply(self, rem);
        assert(applies_row::<Self, D1, A>(*old(self), w.row_mods@, mid));
    }
}

impl<D, A, Hh, Hr> ApplyWriter<HMatWriter<D, ()>, ApplyWriterDirective<A, ()>> for HMat<
    Hh,
    Hr,
> where Self: AccessRowMut<D, A> {
    open spec fn admits(w: HMatWriter<D, ()>) -> bool {
        mods_admissible(w.row_mods@)
    }

    open spec fn applies(pre: Self, w: HMatWriter<D, ()>, post: Self) -> bool {
        applies_row::<Self, D, A>(pre, w.row_mods@, post)
    }

    fn apply(&mut self, w: HMatWriter<D, ()>) {
        let HMatWriter { row_mods, rem } = w;
        let row_mut = AccessRowMut::<D, A>::get_row_mut(self);
        apply_mods(row_mut, row_mods);
        proof {
            old(self).lemma_with_row(*row_mut);
        }
    }
}

} // verus!
