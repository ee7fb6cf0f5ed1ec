use h_mat::{
    AccessColRef, AccessRowRef, ApplyWriter, Extend, GetSubWriter, HCol, HMat, HMatRef,
    NewWriter, Row, Slicer, Update,
};

struct AddOne;

impl Update<i32> for AddOne {
    fn updated(&self, v: i32) -> i32 {
        v + 1
    }

    fn update(self: Box<Self>, v: &mut i32) {
        *v += 1;
    }
}

fn receive_sliced(_: HMatRef<f32, HMatRef<i32, ()>>) {}

#[test]
fn extend_extend() {
    // Creating a HMat with i32, f32, usize rows.
    let mat = HMat::<usize, ()>::new().extend::<f32>().extend::<i32>();
    assert_eq!(mat.head_row, Row::<i32>::default());
    assert_eq!(mat.rem.head_row, Row::<f32>::default());
    assert_eq!(mat.rem.rem.head_row, Row::<usize>::default());
    assert_eq!(mat.rem.rem.rem, ());
}

#[test]
fn lib_extend() {
    let mat = HMat::<usize, ()>::new().extend::<f32>().extend::<i32>();
    assert_eq!(mat.head_row, Row::<i32>::default());
    assert_eq!(mat.rem.head_row, Row::<f32>::default());
    assert_eq!(mat.rem.rem.head_row, Row::<usize>::default());
    assert_eq!(mat.rem.rem.rem, ());
}

fn check_access_row() {
    let mut mat = HMat::<usize, ()>::new().extend::<f32>().extend::<i32>();
    {
        // Access the rows explicitly as a reference.
        let usize_row: &Row<usize> = mat.get_row_ref();
        let i32_row: &Row<i32> = mat.get_row_ref();
        assert_eq!(usize_row, &Row::<usize>::default());
        assert_eq!(i32_row, &Row::<i32>::default());
    }
    {
        // ... or as a mutable reference.
        let i32_row_mut: &mut Row<i32> = mat.get_row_mut();
        assert_eq!(i32_row_mut.place(0, 1), None);
        assert_eq!(i32_row_mut.place(2, 3), None);
        assert_eq!(i32_row_mut, &Row::<i32>::from_iter(vec![Some(1), None, Some(3)]));
        i32_row_mut.get_mut(2).map(|val| *val += 1);
        assert_eq!(i32_row_mut, &Row::<i32>::from_iter(vec![Some(1), None, Some(4)]));
        assert_eq!(i32_row_mut.take(0), Some(1));
        assert_eq!(i32_row_mut, &Row::from_iter(vec![None, None, Some(4)]));
    }
    {
        let i32_row: &Row<i32> = mat.get_row_ref();
        assert_eq!(i32_row, &Row::from_iter(vec![None, None, Some(4)]));
    }
}

#[test]
fn access_row_access_row() {
    check_access_row();
}

#[test]
fn lib_access_row() {
    check_access_row();
}

fn check_slice() {
    let mat = HMat::<usize, ()>::new_with(vec![Some(0), Some(1), Some(2)])
        .extend_with::<f32>(vec![None, Some(0.5), None])
        .extend_with::<i32>(vec![None, None, Some(-1)]);
    // A view with its own row order.
    let ref_mat: HMatRef<f32, HMatRef<i32, ()>> = HMatRef::slice(&mat);
    // ... also works as an argument.
    receive_sliced(HMatRef::slice(&mat));
    let f32_row: &Row<f32> = ref_mat.get_row_ref();
    let i32_row: &Row<i32> = ref_mat.get_row_ref();
    assert_eq!(f32_row, &Row::from_iter(vec![None, Some(0.5), None]));
    assert_eq!(i32_row, &Row::from_iter(vec![None, None, Some(-1)]));
    let col: HCol<&f32, HCol<&i32, ()>> = ref_mat.get_col_ref(1);
    assert_eq!(
        col,
        HCol {
            elem: Some(&0.5),
            rem: HCol {
                elem: None,
                rem: ()
            }
        }
    )
}

#[test]
fn slicer_slice() {
    check_slice();
}

#[test]
fn lib_slice() {
    check_slice();
}

fn check_access_col() {
    let mut mat = HMat::<usize, ()>::new_with(vec![Some(0)])
        .extend_with::<f32>(vec![Some(0.5)])
        .extend_with::<i32>(vec![Some(-5)]);
    {
        // Access a single column as a reference.
        let col_ref: HCol<&i32, HCol<&f32, HCol<&usize, ()>>> = mat.get_col_ref(0);
        assert_eq!(
            col_ref,
            HCol {
                elem: Some(&-5),
                rem: HCol {
                    elem: Some(&0.5),
                    rem: HCol {
                        elem: Some(&0),
                        rem: ()
                    }
                }
            }
        );
    }
    {
        // ... or as a mutable reference...
        let col_mut: HCol<&mut i32, HCol<&mut f32, HCol<&mut usize, ()>>> = mat.get_col_mut(0);
        col_mut.elem.map(|v| *v += 1);
    }
    {
        // ... or move it out of the matrix.
        let col: HCol<i32, HCol<f32, HCol<usize, ()>>> = mat.take_col(0);
        assert_eq!(
            col,
            HCol {
                elem: Some(-4),
                rem: HCol {
                    elem: Some(0.5),
                    rem: HCol {
                        elem: Some(0),
                        rem: ()
                    }
                }
            }
        );
        // Then place it back at a different position.
        mat.place_col(1, col);
    }
    {
        let col_ref: HCol<&i32, HCol<&f32, HCol<&usize, ()>>> = mat.get_col_ref(0);
        assert_eq!(
            col_ref,
            HCol {
                elem: None,
                rem: HCol {
                    elem: None,
                    rem: HCol {
                        elem: None,
                        rem: ()
                    }
                }
            }
        );
        let col_ref: HCol<&i32, HCol<&f32, HCol<&usize, ()>>> = mat.get_col_ref(1);
        assert_eq!(
            col_ref,
            HCol {
                elem: Some(&-4),
                rem: HCol {
                    elem: Some(&0.5),
                    rem: HCol {
                        elem: Some(&0),
                        rem: ()
                    }
                }
            }
        );
    }
}

#[test]
fn access_col_h_mat() {
    check_access_col();
}

#[test]
fn access_col() {
    check_access_col();
}

#[test]
fn basic() {
    let mut mat = HMat::<usize, ()>::new().extend::<f32>().extend::<i32>();
    {
        let ref_mat: HMatRef<f32, HMatRef<i32, ()>> = HMatRef::slice(&mat);
        let mut writer = ref_mat.new_writer();
        // Set the column 0 of the i32 row.
        writer.set_col(0, 3);
        // Update the column 0 of the i32 row.
        writer.update_col::<i32, _>(0, Box::new(AddOne));
        // Apply the modifications.
        mat.apply(writer);
    }
    {
        let ref_mat: HMatRef<f32, HMatRef<i32, ()>> = HMatRef::slice(&mat);
        assert_eq!(ref_mat.get_row_ref(), &Row::<i32>::from_iter(vec![Some(4)]));
    }
    {
        let ref_mat: HMatRef<f32, HMatRef<i32, ()>> = HMatRef::slice(&mat);
        let mut writer = ref_mat.new_writer();
        // Remove the column 0 of the i32 row.
        writer.unset_col::<i32, _>(0);
        mat.apply(writer);
    }
    {
        let ref_mat: HMatRef<f32, HMatRef<i32, ()>> = HMatRef::slice(&mat);
        assert_eq!(ref_mat.get_row_ref(), &Row::<i32>::from_iter(vec![None]));
    }
}

#[test]
fn writer() {
    let mut mat = HMat::<usize, ()>::new().extend::<f32>().extend::<i32>();
    {
        let ref_mat: HMatRef<f32, HMatRef<i32, ()>> = HMatRef::slice(&mat);
        let mut writer = ref_mat.new_writer();
        // Set the column 0 of the i32 row.
        GetSubWriter::<i32, _>::sub_writer_mut(&mut writer).set_col(0, 3);
        // Update the column 0 of the i32 row.
        GetSubWriter::<i32, _>::sub_writer_mut(&mut writer)
            .update_col::<i32, _>(0, Box::new(AddOne));
        // Apply the modifications.
        mat.apply(writer);
    }
    {
        let ref_mat: HMatRef<f32, HMatRef<i32, ()>> = HMatRef::slice(&mat);
        assert_eq!(ref_mat.get_row_ref(), &Row::<i32>::from_iter(vec![Some(4)]));
    }
    {
        let ref_mat: HMatRef<f32, HMatRef<i32, ()>> = HMatRef::slice(&mat);
        let mut writer = ref_mat.new_writer();
        // Remove the column 0 of the i32 row.
        GetSubWriter::<i32, _>::sub_writer_mut(&mut writer).unset_col::<i32, _>(0);
        mat.apply(writer);
    }
    {
        let ref_mat: HMatRef<f32, HMatRef<i32, ()>> = HMatRef::slice(&mat);
        assert_eq!(ref_mat.get_row_ref(), &Row::<i32>::from_iter(vec![None]));
    }
}

#[test]
fn merge() {
    let mut mat = HMat::<usize, ()>::new().extend::<f32>().extend::<i32>();
    let w1 = {
        let ref_mat: HMatRef<f32, HMatRef<i32, ()>> = HMatRef::slice(&mat);
        let mut writer = ref_mat.new_writer();
        // Set the column 0 of the i32 row.
        writer.set_col(0, 3);
        // Update the column 0 of the i32 row.
        writer.update_col::<i32, _>(0, Box::new(AddOne));
        writer
    };
    let mut w2 = {
        let mut writer = mat.new_writer();
        // Update the column 0 of the i32 row.
        writer.update_col::<i32, _>(0, Box::new(AddOne));
        writer
    };
    w2.merge(w1);
    mat.apply(w2);
    {
        let ref_mat: HMatRef<i32, ()> = HMatRef::slice(&mat);
        assert_eq!(ref_mat.get_row_ref(), &Row::<i32>::from_iter(vec![Some(5)]));
    }
}
