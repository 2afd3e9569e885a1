//! Tests for the field compound assignment operations.
//!
//! Binary operators that would allocate new fields are intentionally
//! absent; only the in-place operations are tested here.

use strelitzia::common::CoreError;
use strelitzia::fields::storage::{ScalarField, Vector3Field};
use strelitzia::multiarray::aliases::Vector3;

#[test]
fn test_add_assign_field_to_field() {
    let mut field1 = ScalarField::new();
    field1.push(1);
    field1.push(2);

    let mut field2 = ScalarField::new();
    field2.push(10);
    field2.push(20);

    field1.add_assign(&field2);

    assert_eq!(field1.get(0), 11);
    assert_eq!(field1.get(1), 22);
}

#[test]
fn test_sub_assign_field_to_field() {
    let mut field1 = ScalarField::new();
    field1.push(10);
    field1.push(20);

    let mut field2 = ScalarField::new();
    field2.push(1);
    field2.push(2);

    field1.sub_assign(&field2);

    assert_eq!(field1.get(0), 9);
    assert_eq!(field1.get(1), 18);
}

#[test]
fn test_mul_assign_scalar() {
    let mut field = ScalarField::new();
    field.push(1);
    field.push(2);
    field.push(3);

    field.mul_assign(2);

    assert_eq!(field.get(0), 2);
    assert_eq!(field.get(1), 4);
    assert_eq!(field.get(2), 6);
}

#[test]
fn test_mul_assign_vector() {
    let mut field = Vector3Field::new();
    field.push(Vector3::new(1, 2, 3));
    field.push(Vector3::new(4, 5, 6));

    field.mul_assign(2);

    assert_eq!(field.get(0), Vector3::new(2, 4, 6));
    assert_eq!(field.get(1), Vector3::new(8, 10, 12));
}

#[test]
fn test_div_assign_scalar() {
    let mut field = ScalarField::new();
    field.push(10);
    field.push(20);
    field.push(30);

    field.div_assign(2);

    assert_eq!(field.get(0), 5);
    assert_eq!(field.get(1), 10);
    assert_eq!(field.get(2), 15);
}

#[test]
fn test_add_assign_scalar() {
    let mut field = ScalarField::new();
    field.push(1);
    field.push(2);
    field.push(3);

    field.add_assign_scalar(5);

    assert_eq!(field.get(0), 6);
    assert_eq!(field.get(1), 7);
    assert_eq!(field.get(2), 8);
}

#[test]
fn test_sub_assign_scalar() {
    let mut field = ScalarField::new();
    field.push(10);
    field.push(20);
    field.push(30);

    field.sub_assign_scalar(3);

    assert_eq!(field.get(0), 7);
    assert_eq!(field.get(1), 17);
    assert_eq!(field.get(2), 27);
}

#[test]
fn vector_field_add_assign_length_mismatch_is_rejected() {
    let mut field1 = Vector3Field::new();
    field1.push(Vector3::new(1, 2, 3));

    let field2 = Vector3Field::new();
    assert_eq!(field1.try_add_assign(&field2), Err(CoreError::LengthMismatch));
    assert_eq!(field1.get(0), Vector3::new(1, 2, 3));
}

#[test]
fn vector_field_sub_assign() {
    let mut field1 = Vector3Field::new();
    field1.push(Vector3::new(10, 20, 30));

    let mut field2 = Vector3Field::new();
    field2.push(Vector3::new(1, 2, 3));

    field1.sub_assign(&field2);
    assert_eq!(field1.get(0), Vector3::new(9, 18, 27));
}
