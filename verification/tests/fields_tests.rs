//! Integration tests for the chunked fields module public API.

use strelitzia::fields::aliases::{
    ScalarField, SymmTensor2Field, SymmTensor3Field, SymmTensor4Field, Tensor2Field, Tensor3Field,
    Tensor4Field, Vector2Field, Vector3Field, Vector4Field,
};
use strelitzia::fields::layout::Field;
use strelitzia::fields::types::{Scalar, SymmTensor, Tensor, Vector};

#[test]
fn vector3_field_workflow() {
    let mut field: Vector3Field = Field::new();
    assert!(field.is_empty());

    field.push_raw([1, 2, 3]);
    field.push_raw([4, 5, 6]);

    assert_eq!(field.len(), 2);
    assert!(!field.is_empty());
}

#[test]
fn scalar_field_workflow() {
    let mut field: ScalarField = Field::new();

    field.push_raw([100]);
    field.push_raw([200]);
    field.push_raw([300]);

    assert_eq!(field.len(), 3);
}

#[test]
fn tensor_field_workflow() {
    let mut field: Tensor3Field = Field::new();

    // 3x3 tensor has 9 components
    let identity = [1, 0, 0, 0, 1, 0, 0, 0, 1];
    field.push_raw(identity);

    assert_eq!(field.len(), 1);
}

#[test]
fn symm_tensor_field_workflow() {
    let mut field: SymmTensor3Field = Field::new();

    // 3x3 symmetric tensor has 6 components (row-major upper triangle)
    let stress = [100, 10, 20, 200, 30, 300]; // xx, xy, xz, yy, yz, zz
    field.push_raw(stress);

    assert_eq!(field.len(), 1);
}

#[test]
fn field_default_trait() {
    let field: Vector3Field = Field::default();
    assert!(field.is_empty());
}

#[test]
fn large_field() {
    let mut field: Vector3Field = Field::new();

    // Push many elements to test chunk management
    for i in 0..5000 {
        field.push_raw([i as i64, 0, 0]);
    }

    assert_eq!(field.len(), 5000);
}

#[test]
fn all_type_aliases_compile() {
    // Verify all type aliases are accessible and work
    let _: ScalarField = Field::new();
    let _: Vector2Field = Field::new();
    let _: Vector3Field = Field::new();
    let _: Vector4Field = Field::new();
    let _: Tensor2Field = Field::new();
    let _: Tensor3Field = Field::new();
    let _: Tensor4Field = Field::new();
    let _: SymmTensor2Field = Field::new();
    let _: SymmTensor3Field = Field::new();
    let _: SymmTensor4Field = Field::new();
}

#[test]
fn type_markers_are_reexported() {
    // Verify type markers are accessible from the public API
    let _scalar: Field<Scalar, i64, 1> = Field::new();
    let _vector: Field<Vector, i64, 3> = Field::new();
    let _tensor: Field<Tensor, i64, 9> = Field::new();
    let _symm: Field<SymmTensor, i64, 6> = Field::new();
}
