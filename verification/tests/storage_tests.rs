//! Tests for the contiguous field container and its flat scalar addressing.

use strelitzia::common::CoreError;
use strelitzia::fields::storage::{
    Field, Matrix3Field, ScalarField, SolverInterop, Vector3Field,
};
use strelitzia::fields::storage::FieldElement;
use strelitzia::multiarray::aliases::{Matrix3, Vector3};

#[test]
fn scalar_field_basic_ops() {
    let mut field = ScalarField::new();
    assert!(field.is_empty());

    field.push(1);
    field.push(2);
    field.push(3);

    assert_eq!(field.len(), 3);
    assert_eq!(field.get(0), 1);
    assert_eq!(field.get(1), 2);
    assert_eq!(field.get(2), 3);

    field.set_at(1, 42);
    assert_eq!(field.get(1), 42);
}

#[test]
fn vector3_field_basic_ops() {
    let mut field = Vector3Field::new();
    field.push(Vector3::new(1, 2, 3));
    field.push(Vector3::new(4, 5, 6));

    assert_eq!(field.len(), 2);
    assert_eq!(field.get(0), Vector3::new(1, 2, 3));
    assert_eq!(field.get(1), Vector3::new(4, 5, 6));
}

#[test]
fn vector3_field_flat_slice() {
    // A field of two 3-component elements (1,2,3) and (4,5,6) is seen flat
    // as 1, 2, 3, 4, 5, 6.
    let mut field = Vector3Field::new();
    field.push(Vector3::new(1, 2, 3));
    field.push(Vector3::new(4, 5, 6));

    let flat = field.to_flat_vec();
    assert_eq!(flat, &[1, 2, 3, 4, 5, 6]);

    let view = field.flat_view();
    assert_eq!(view.len(), 6);
    for j in 0..6 {
        assert_eq!(view.get(j), (j + 1) as i64);
    }
}

#[test]
fn vector3_field_flat_slice_mut() {
    let mut field = Vector3Field::new();
    field.push(Vector3::new(0, 0, 0));
    field.push(Vector3::new(0, 0, 0));

    // Simulate a solver writing results through the flat addressing.
    let n = field.flat_len();
    for j in 0..n {
        field.flat_set(j, (j + 1) as i64);
    }

    assert_eq!(field.get(0), Vector3::new(1, 2, 3));
    assert_eq!(field.get(1), Vector3::new(4, 5, 6));
}

#[test]
fn write_flat_hands_solver_results_back() {
    let mut field = Vector3Field::new();
    field.push(Vector3::new(0, 0, 0));
    field.push(Vector3::new(0, 0, 0));

    field.write_flat(&[9, 8, 7, 6, 5, 4]);

    assert_eq!(field.get(0), Vector3::new(9, 8, 7));
    assert_eq!(field.get(1), Vector3::new(6, 5, 4));
}

#[test]
fn matrix3_field_basic_ops() {
    let mut field = Matrix3Field::new();
    let mat = Matrix3::identity();
    field.push(mat);

    assert_eq!(field.len(), 1);
    assert_eq!(field.get(0), Matrix3::identity());
}

#[test]
fn matrix3_field_flat_slice() {
    let mut field = Matrix3Field::new();
    field.push(Matrix3::identity());

    let flat = field.to_flat_vec();
    assert_eq!(flat.len(), 9);
    // Identity matrix in column-major: [1,0,0, 0,1,0, 0,0,1]
    assert_eq!(flat[0], 1); // (0,0)
    assert_eq!(flat[4], 1); // (1,1)
    assert_eq!(flat[8], 1); // (2,2)
}

#[test]
fn matrix3_column_major_layout() {
    // Matrix (row-major input to new()):
    // [1, 2, 3]
    // [4, 5, 6]
    // [7, 8, 9]
    let mat = Matrix3::new(1, 2, 3, 4, 5, 6, 7, 8, 9);
    let mut field = Matrix3Field::new();
    field.push(mat);

    let flat = field.to_flat_vec();

    // Column-major storage: col0, col1, col2
    // col0 = [1, 4, 7], col1 = [2, 5, 8], col2 = [3, 6, 9]
    assert_eq!(flat, &[1, 4, 7, 2, 5, 8, 3, 6, 9]);
}

#[test]
fn flat_view_of_empty_field_is_empty() {
    let field = Vector3Field::new();
    let view = field.flat_view();
    assert_eq!(view.len(), 0);
    assert!(view.is_empty());
    assert!(field.to_flat_vec().is_empty());
}

#[test]
fn flat_len_is_len_times_components() {
    // The flat view of any field has exactly len * K scalars.
    let mut vectors = Vector3Field::new();
    for i in 0..7 {
        vectors.push(Vector3::new(i, i, i));
    }
    assert_eq!(vectors.flat_len(), 7 * 3);
    assert_eq!(vectors.flat_view().len(), 7 * 3);

    let mut matrices = Matrix3Field::new();
    matrices.push(Matrix3::zeros());
    matrices.push(Matrix3::zeros());
    assert_eq!(matrices.flat_len(), 2 * 9);

    let mut scalars = ScalarField::new();
    scalars.push(5);
    assert_eq!(scalars.flat_len(), 1);
}

#[test]
fn flat_write_aliases_element_components() {
    // Writing the flat scalar at j is read back as component j % K of
    // element j / K, and every other scalar is untouched.
    let mut field = Vector3Field::new();
    field.push(Vector3::new(1, 2, 3));
    field.push(Vector3::new(4, 5, 6));

    field.flat_set(0, 10);
    field.flat_set(5, 60);

    assert_eq!(field.get(0).component(0), 10);
    assert_eq!(field.get(0), Vector3::new(10, 2, 3));
    assert_eq!(field.get(1), Vector3::new(4, 5, 60));

    field.flat_set(4, 50);
    assert_eq!(field.get(4 / 3).component(4 % 3), 50);
    assert_eq!(field.flat_get(4), 50);
}

#[test]
fn field_iteration() {
    let mut field = ScalarField::new();
    field.push(1);
    field.push(2);
    field.push(3);

    let sum: i64 = field.iter().iter().sum();
    assert_eq!(sum, 6);
}

#[test]
fn field_mutation_via_iterator() {
    let mut field = ScalarField::new();
    field.push(1);
    field.push(2);

    for val in field.iter_mut() {
        *val *= 2;
    }

    assert_eq!(field.get(0), 2);
    assert_eq!(field.get(1), 4);
}

#[test]
fn field_extend_and_slices() {
    let mut field = ScalarField::new();
    field.push(1);
    field.extend(&[2, 3, 4]);

    assert_eq!(field.len(), 4);
    assert_eq!(field.as_slice(), &[1, 2, 3, 4]);

    field.as_mut_slice()[0] = 9;
    assert_eq!(field.get(0), 9);
}

#[test]
fn field_capacity_and_reserve() {
    let mut field: Field<i64> = Field::with_capacity(10);
    field.push(1);
    field.reserve(100);
    assert!(field.capacity() >= field.len());
    assert_eq!(field.get(0), 1);
}

#[test]
fn field_try_get_out_of_bounds() {
    let mut field = ScalarField::new();
    field.push(7);

    assert_eq!(field.try_get(0), Ok(7));
    assert_eq!(field.try_get(1), Err(CoreError::IndexOutOfBounds));
    assert_eq!(field.try_set_at(5, 0), Err(CoreError::IndexOutOfBounds));
    assert_eq!(field.try_set_at(0, 8), Ok(()));
    assert_eq!(field.get(0), 8);
}

#[test]
fn scalar_elements_have_one_component() {
    let x: i64 = 17;
    assert_eq!(<i64 as FieldElement>::components(), 1);
    assert_eq!(x.component(0), 17);
    assert_eq!(<i64 as FieldElement>::from_scalars(&[5, 6]), 5);
}

#[test]
fn default_field_is_empty() {
    let field: ScalarField = Default::default();
    assert!(field.is_empty());
    assert_eq!(field.len(), 0);
}
