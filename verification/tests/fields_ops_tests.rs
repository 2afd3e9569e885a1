//! Tests for generic field operations and the in-place arithmetic layer.

use strelitzia::common::CoreError;
use strelitzia::fields::ops::{FieldOps, ReductionOps, SumOps};
use strelitzia::fields::storage::{ScalarField, Vector3Field};
use strelitzia::multiarray::aliases::Vector3;

#[test]
fn test_field_ops_fill() {
    let mut field = ScalarField::new();
    field.push(1);
    field.push(2);
    field.push(3);

    field.fill(42);

    assert_eq!(field.get(0), 42);
    assert_eq!(field.get(1), 42);
    assert_eq!(field.get(2), 42);
}

#[test]
fn test_field_ops_resize_extend() {
    let mut field = ScalarField::new();
    field.push(1);
    field.push(2);

    field.resize(5, 99);

    assert_eq!(field.len(), 5);
    assert_eq!(field.get(0), 1);
    assert_eq!(field.get(1), 2);
    assert_eq!(field.get(2), 99);
    assert_eq!(field.get(3), 99);
    assert_eq!(field.get(4), 99);
}

#[test]
fn test_field_ops_resize_truncate() {
    let mut field = ScalarField::new();
    field.push(1);
    field.push(2);
    field.push(3);
    field.push(4);

    field.resize(2, 0);

    assert_eq!(field.len(), 2);
    assert_eq!(field.get(0), 1);
    assert_eq!(field.get(1), 2);
}

#[test]
fn resize_grows_with_fill_value() {
    // A field of length 2 resized to 5 keeps its elements and appends the
    // fill value.
    let mut field = ScalarField::new();
    field.push(7);
    field.push(8);

    field.resize(5, -1);

    assert_eq!(field.len(), 5);
    assert_eq!(field.get(0), 7);
    assert_eq!(field.get(1), 8);
    assert_eq!(field.get(2), -1);
    assert_eq!(field.get(3), -1);
    assert_eq!(field.get(4), -1);
}

#[test]
fn resize_is_idempotent() {
    // Resizing twice with the same arguments leaves the field as one resize
    // leaves it, both when growing and when truncating.
    let mut grown = ScalarField::new();
    grown.push(1);
    grown.push(2);
    grown.resize(4, 9);
    let snapshot: Vec<i64> = grown.iter().to_vec();
    grown.resize(4, 9);
    assert_eq!(grown.iter().to_vec(), snapshot);

    let mut shrunk = ScalarField::new();
    for v in [5, 6, 7, 8] {
        shrunk.push(v);
    }
    shrunk.resize(2, 0);
    let snapshot: Vec<i64> = shrunk.iter().to_vec();
    shrunk.resize(2, 0);
    assert_eq!(shrunk.iter().to_vec(), snapshot);
}

#[test]
fn test_field_ops_clear() {
    let mut field = ScalarField::new();
    field.push(1);
    field.push(2);

    field.clear();

    assert!(field.is_empty());
    assert_eq!(field.len(), 0);
}

#[test]
fn test_operator_mul_assign_scalar() {
    let mut field = ScalarField::new();
    field.push(1);
    field.push(2);
    field.push(3);

    field.mul_assign(2);

    assert_eq!(field.get(0), 2);
    assert_eq!(field.get(1), 4);
    assert_eq!(field.get(2), 6);
}

#[test]
fn test_operator_mul_assign_vector() {
    let mut field = Vector3Field::new();
    field.push(Vector3::new(1, 2, 3));
    field.push(Vector3::new(4, 5, 6));

    field.mul_assign(2);

    assert_eq!(field.get(0), Vector3::new(2, 4, 6));
    assert_eq!(field.get(1), Vector3::new(8, 10, 12));
}

#[test]
fn test_operator_add_assign_scalar() {
    let mut field1 = ScalarField::new();
    field1.push(1);
    field1.push(2);

    let mut field2 = ScalarField::new();
    field2.push(10);
    field2.push(20);

    field1.add_assign(&field2);

    assert_eq!(field1.get(0), 11);
    assert_eq!(field1.get(1), 22);
}

#[test]
fn test_operator_add_assign_vector() {
    let mut field1 = Vector3Field::new();
    field1.push(Vector3::new(1, 2, 3));

    let mut field2 = Vector3Field::new();
    field2.push(Vector3::new(10, 20, 30));

    field1.add_assign(&field2);

    assert_eq!(field1.get(0), Vector3::new(11, 22, 33));
}

#[test]
fn test_operator_sub_assign() {
    let mut field1 = ScalarField::new();
    field1.push(10);
    field1.push(20);

    let mut field2 = ScalarField::new();
    field2.push(1);
    field2.push(2);

    field1.sub_assign(&field2);

    assert_eq!(field1.get(0), 9);
    assert_eq!(field1.get(1), 18);
}

#[test]
fn test_operator_div_assign() {
    let mut field = ScalarField::new();
    field.push(10);
    field.push(20);
    field.push(30);

    field.div_assign(2);

    assert_eq!(field.get(0), 5);
    assert_eq!(field.get(1), 10);
    assert_eq!(field.get(2), 15);
}

#[test]
fn div_assign_rounds_toward_zero() {
    let mut field = ScalarField::new();
    field.push(-7);
    field.push(7);
    field.push(-7);

    field.div_assign(2);
    assert_eq!(field.get(0), -3);
    assert_eq!(field.get(1), 3);

    let mut neg = ScalarField::new();
    neg.push(7);
    neg.push(-7);
    neg.div_assign(-2);
    assert_eq!(neg.get(0), -3);
    assert_eq!(neg.get(1), 3);
}

#[test]
fn test_operator_add_assign_real() {
    let mut field = ScalarField::new();
    field.push(1);
    field.push(2);
    field.push(3);

    field.add_assign_scalar(5);

    assert_eq!(field.get(0), 6);
    assert_eq!(field.get(1), 7);
    assert_eq!(field.get(2), 8);
}

#[test]
fn test_operator_sub_assign_real() {
    let mut field = ScalarField::new();
    field.push(10);
    field.push(20);
    field.push(30);

    field.sub_assign_scalar(3);

    assert_eq!(field.get(0), 7);
    assert_eq!(field.get(1), 17);
    assert_eq!(field.get(2), 27);
}

#[test]
fn test_empty_field_compound_assign() {
    let mut empty1: ScalarField = ScalarField::new();
    let empty2: ScalarField = ScalarField::new();

    // Compound assignment on empty fields should succeed silently
    empty1.add_assign(&empty2);
    assert!(empty1.is_empty());

    empty1.mul_assign(2);
    assert!(empty1.is_empty());

    empty1.add_assign_scalar(5);
    assert!(empty1.is_empty());
}

#[test]
fn add_assign_length_mismatch_is_rejected() {
    let mut field1 = ScalarField::new();
    field1.push(1);

    let mut field2 = ScalarField::new();
    field2.push(10);
    field2.push(20);

    assert_eq!(field1.try_add_assign(&field2), Err(CoreError::LengthMismatch));
    // The field is unchanged.
    assert_eq!(field1.len(), 1);
    assert_eq!(field1.get(0), 1);
}

#[test]
fn sub_assign_length_mismatch_is_rejected() {
    let mut field1 = ScalarField::new();
    field1.push(1);

    let mut field2 = ScalarField::new();
    field2.push(10);
    field2.push(20);

    assert_eq!(field1.try_sub_assign(&field2), Err(CoreError::LengthMismatch));
    assert_eq!(field1.get(0), 1);
}

#[test]
fn add_then_sub_restores_field() {
    // Adding another field and then subtracting it restores the original
    // contents.
    let mut field1 = ScalarField::new();
    field1.push(1);
    field1.push(2);

    let mut field2 = ScalarField::new();
    field2.push(10);
    field2.push(20);

    field1.add_assign(&field2);
    assert_eq!(field1.get(0), 11);
    assert_eq!(field1.get(1), 22);

    field1.sub_assign(&field2);
    assert_eq!(field1.get(0), 1);
    assert_eq!(field1.get(1), 2);
}

#[test]
fn test_reduction_ops_max() {
    let mut field = ScalarField::new();
    field.push(1);
    field.push(5);
    field.push(3);

    assert_eq!(field.max(), Some(5));
}

#[test]
fn test_reduction_ops_min() {
    let mut field = ScalarField::new();
    field.push(1);
    field.push(5);
    field.push(3);

    assert_eq!(field.min(), Some(1));
}

#[test]
fn test_reduction_ops_empty() {
    let field = ScalarField::new();
    assert_eq!(field.max(), None);
    assert_eq!(field.min(), None);
}

#[test]
fn test_sum_ops_scalar() {
    let mut field = ScalarField::new();
    field.push(1);
    field.push(2);
    field.push(3);

    assert_eq!(field.sum(), 6);
}

#[test]
fn reductions_on_sample_field() {
    // A scalar field holding 3, 1, 4, 1, 5, 9 has maximum 9, minimum 1 and
    // sum 23.
    let mut field = ScalarField::new();
    for v in [3, 1, 4, 1, 5, 9] {
        field.push(v);
    }

    assert_eq!(field.max(), Some(9));
    assert_eq!(field.min(), Some(1));
    assert_eq!(field.sum(), 23);
}

#[test]
fn test_sum_ops_vector() {
    let mut field = Vector3Field::new();
    field.push(Vector3::new(1, 2, 3));
    field.push(Vector3::new(4, 5, 6));

    let sum = field.sum();
    assert_eq!(sum, Vector3::new(5, 7, 9));
}

#[test]
fn sum_of_empty_vector_field_is_zero() {
    let field = Vector3Field::new();
    assert_eq!(field.sum(), Vector3::zeros());
}
