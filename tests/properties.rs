use h_mat::{
    AccessColRef, AccessRowRef, ApplyWriter, Extend, GetSubCol, HCol, HMat, HMatRef,
    HMatWriter, NewWriter, Row, RowMod, Slicer, Update,
};

struct AddOne;

impl Update<i32> for AddOne {
    fn updated(&self, v: i32) -> i32 {
        v + 1
    }

    fn update(self: Box<Self>, v: &mut i32) {
        *v += 1;
    }
}

struct Double;

impl Update<i32> for Double {
    fn updated(&self, v: i32) -> i32 {
        v * 2
    }

    fn update(self: Box<Self>, v: &mut i32) {
        *v *= 2;
    }
}

fn three_rows() -> HMat<u32, HMat<f32, HMat<i32, ()>>> {
    HMat::<i32, ()>::new_with(vec![Some(-5)])
        .extend_with::<f32>(vec![Some(0.5)])
        .extend_with::<u32>(vec![Some(0)])
}

fn signed_row_after(queue: impl FnOnce(&mut HMatWriter<f32, HMatWriter<i32, ()>>)) -> Row<i32> {
    let mut mat = HMat::<i32, ()>::new().extend::<f32>();
    let mut writer = mat.new_writer();
    queue(&mut writer);
    mat.apply(writer);
    let row: &Row<i32> = mat.get_row_ref();
    row.clone()
}

#[test]
fn place_then_get_returns_value() {
    let mut row = Row::from_iter(vec![Some(1), None, Some(3)]);
    for i in 0..6usize {
        row.place(i, 10 + i as i32);
        assert_eq!(row.get(i), Some(&(10 + i as i32)));
    }
}

#[test]
fn take_returns_placed_value_and_clears() {
    let mut row = Row::<i32>::default();
    assert_eq!(row.place(2, 7), None);
    assert_eq!(row.take(2), Some(7));
    assert_eq!(row.get(2), None);
    assert_eq!(row, Row::from_iter(vec![None, None, None]));
    assert_eq!(row.take(2), None);
}

#[test]
fn place_beyond_end_grows_with_absent_slots() {
    let mut row = Row::from_iter(vec![Some(1), Some(2)]);
    assert_eq!(row.place(5, 6), None);
    assert_eq!(row, Row::from_iter(vec![Some(1), Some(2), None, None, None, Some(6)]));
    for i in 2..5usize {
        assert_eq!(row.get(i), None);
    }
    assert_eq!(row.into_cells().len(), 6);
}

#[test]
fn row_reads_beyond_length_are_absent() {
    let mut row = Row::from_iter(vec![Some(1)]);
    assert_eq!(row.get(1), None);
    assert_eq!(row.get(100), None);
    assert_eq!(row.get_mut(100), None);
    assert_eq!(row.take(100), None);
    assert_eq!(row, Row::from_iter(vec![Some(1)]));
}

#[test]
fn place_returns_displaced_value() {
    let mut row = Row::from_iter(vec![Some(1), None]);
    assert_eq!(row.place(0, 5), Some(1));
    assert_eq!(row.place(1, 6), None);
    assert_eq!(row, Row::from_iter(vec![Some(5), Some(6)]));
}

#[test]
fn column_take_place_round_trip_with_partial_overwrite() {
    let mut mat = three_rows();
    let mut col: HCol<u32, HCol<f32, HCol<i32, ()>>> = mat.take_col(0);
    assert_eq!(
        col,
        HCol { elem: Some(0), rem: HCol { elem: Some(0.5), rem: HCol { elem: Some(-5), rem: () } } }
    );
    let emptied: HCol<&u32, HCol<&f32, HCol<&i32, ()>>> = mat.get_col_ref(0);
    assert_eq!(emptied, HCol { elem: None, rem: HCol { elem: None, rem: HCol { elem: None, rem: () } } });
    let signed: &mut HCol<i32, ()> = GetSubCol::<i32, _, _>::subcol_mut(&mut col);
    assert_eq!(signed.place(-4), Some(-5));
    mat.place_col(1, col);
    let moved: HCol<&u32, HCol<&f32, HCol<&i32, ()>>> = mat.get_col_ref(1);
    assert_eq!(
        moved,
        HCol { elem: Some(&0), rem: HCol { elem: Some(&0.5), rem: HCol { elem: Some(&-4), rem: () } } }
    );
    let still_empty: HCol<&u32, HCol<&f32, HCol<&i32, ()>>> = mat.get_col_ref(0);
    assert_eq!(
        still_empty,
        HCol { elem: None, rem: HCol { elem: None, rem: HCol { elem: None, rem: () } } }
    );
}

#[test]
fn placing_absent_values_never_clears() {
    let mut mat = three_rows();
    let col = HCol { elem: Some(9u32), rem: HCol { elem: None::<f32>, rem: HCol { elem: None::<i32>, rem: () } } };
    mat.place_col(0, col);
    let now: HCol<&u32, HCol<&f32, HCol<&i32, ()>>> = mat.get_col_ref(0);
    assert_eq!(
        now,
        HCol { elem: Some(&9), rem: HCol { elem: Some(&0.5), rem: HCol { elem: Some(&-5), rem: () } } }
    );
}

#[test]
fn column_mut_writes_land_in_rows() {
    let mut mat = three_rows();
    {
        let col = mat.get_col_mut(0);
        if let Some(v) = col.elem {
            *v = 8;
        }
        if let Some(v) = col.rem.rem.elem {
            *v = -6;
        }
    }
    assert_eq!(mat.head_row, Row::from_iter(vec![Some(8)]));
    assert_eq!(mat.rem.rem.head_row, Row::from_iter(vec![Some(-6)]));
}

#[test]
fn set_then_update_gives_four() {
    let row = signed_row_after(|w| {
        w.set_col::<i32, _>(0, 3);
        w.update_col::<i32, _>(0, Box::new(AddOne));
    });
    assert_eq!(row, Row::from_iter(vec![Some(4)]));
}

#[test]
fn update_then_set_gives_four() {
    let row = signed_row_after(|w| {
        w.update_col::<i32, _>(0, Box::new(AddOne));
        w.set_col::<i32, _>(0, 3);
    });
    assert_eq!(row, Row::from_iter(vec![Some(4)]));
}

#[test]
fn set_then_unset_leaves_absent() {
    let row = signed_row_after(|w| {
        w.set_col::<i32, _>(0, 3);
        w.unset_col::<i32, _>(0);
    });
    assert_eq!(row.get(0), None);
}

#[test]
fn unset_then_set_leaves_absent() {
    let row = signed_row_after(|w| {
        w.unset_col::<i32, _>(0);
        w.set_col::<i32, _>(0, 3);
    });
    assert_eq!(row.get(0), None);
}

#[test]
fn classes_keep_their_queue_order() {
    let row = signed_row_after(|w| {
        w.unset_col::<i32, _>(1);
        w.update_col::<i32, _>(0, Box::new(Double));
        w.set_col::<i32, _>(1, 5);
        w.update_col::<i32, _>(0, Box::new(AddOne));
        w.set_col::<i32, _>(0, 3);
    });
    // (3 * 2) + 1, then slot 1 cleared after its set.
    assert_eq!(row, Row::from_iter(vec![Some(7), None]));
}

#[test]
fn update_of_absent_slot_does_nothing() {
    let row = signed_row_after(|w| {
        w.update_col::<i32, _>(2, Box::new(AddOne));
    });
    assert_eq!(row, Row::default());
}

#[test]
fn merged_writers_apply_all_edits() {
    let mut mat = HMat::<i32, ()>::new().extend::<f32>();
    let mut a = mat.new_writer();
    a.set_col::<i32, _>(0, 3);
    a.update_col::<i32, _>(0, Box::new(AddOne));
    let b = {
        let view: HMatRef<i32, ()> = HMatRef::slice(&mat);
        let mut b = view.new_writer();
        b.update_col::<i32, _>(0, Box::new(AddOne));
        b
    };
    a.merge(b);
    mat.write_with(a);
    assert_eq!(mat.rem.head_row, Row::from_iter(vec![Some(5)]));
}

#[test]
fn view_exposes_chosen_rows_of_the_source() {
    let mat = HMat::<usize, ()>::new_with(vec![Some(1)])
        .extend_with::<i32>(vec![Some(-2), None])
        .extend_with::<f32>(vec![None, Some(1.5)]);
    let view: HMatRef<f32, HMatRef<i32, ()>> = mat.slice();
    assert!(std::ptr::eq(view.row, &mat.head_row));
    assert!(std::ptr::eq(view.rem.row, &mat.rem.head_row));
    let f32_row: &Row<f32> = view.get_row_ref();
    let i32_row: &Row<i32> = view.get_row_ref();
    assert_eq!(f32_row, &Row::from_iter(vec![None, Some(1.5)]));
    assert_eq!(i32_row, &Row::from_iter(vec![Some(-2), None]));
    let reordered: HMatRef<i32, HMatRef<f32, ()>> = HMatRef::slice(&mat);
    let col: HCol<&i32, HCol<&f32, ()>> = reordered.get_col_ref(0);
    assert_eq!(col, HCol { elem: Some(&-2), rem: HCol { elem: None, rem: () } });
}

#[test]
fn column_cursor_stops_at_end() {
    let mat = HMat::<i32, ()>::new_with(vec![Some(1), None, Some(3)]).extend_with::<u8>(vec![Some(4)]);
    let mut it = mat.iter(3);
    assert_eq!(it.next(), Some(HCol { elem: Some(&4u8), rem: HCol { elem: Some(&1), rem: () } }));
    assert_eq!(it.next(), Some(HCol { elem: None, rem: HCol { elem: None, rem: () } }));
    assert_eq!(it.next(), Some(HCol { elem: None, rem: HCol { elem: Some(&3), rem: () } }));
    assert_eq!(it.next(), None);
    assert_eq!(it.next(), None);
    let view: HMatRef<i32, ()> = mat.slice();
    let mut it = view.iter(2);
    assert_eq!(it.next(), Some(HCol { elem: Some(&1), rem: () }));
    assert_eq!(it.next(), Some(HCol { elem: None, rem: () }));
    assert_eq!(it.next(), None);
}

#[test]
fn column_cell_operations() {
    let mut col = HCol { elem: Some(1), rem: HCol { elem: None::<u8>, rem: () } };
    assert_eq!(col.get(), Some(&1));
    if let Some(v) = col.get_mut() {
        *v = 2;
    }
    assert_eq!(col.place(3), Some(2));
    assert_eq!(col.take(), Some(3));
    assert_eq!(col.get(), None);
    let inner: &HCol<u8, ()> = GetSubCol::<u8, _, _>::subcol_ref(&col);
    assert_eq!(inner.get(), None);
}

#[test]
fn edit_priorities_and_effects() {
    let set: RowMod<i32> = RowMod::SetCol(1, 4);
    let unset: RowMod<i32> = RowMod::UnsetCol(0);
    let update: RowMod<i32> = RowMod::UpdateCol(1, Box::new(Double));
    assert_eq!(set.priority(), 0);
    assert_eq!(update.priority(), 10);
    assert_eq!(unset.priority(), 20);
    let mut row = Row::from_iter(vec![Some(1)]);
    set.apply(&mut row);
    assert_eq!(row, Row::from_iter(vec![Some(1), Some(4)]));
    update.apply(&mut row);
    assert_eq!(row, Row::from_iter(vec![Some(1), Some(8)]));
    unset.apply(&mut row);
    assert_eq!(row, Row::from_iter(vec![None, Some(8)]));
}

#[test]
fn new_matrix_rows() {
    let mat = HMat::<u8, ()>::new_with(vec![None, Some(2)]).extend::<i32>();
    assert_eq!(mat.head_row, Row::default());
    assert_eq!(mat.rem.head_row, Row::from_iter(vec![None, Some(2)]));
    let row: &Row<u8> = mat.get_row_ref();
    assert_eq!(row.get(1), Some(&2));
}
