//! Tests for the chunked field container and its typed element access.

use strelitzia::fields::layout::{Chunk, Field, CHUNK_SIZE};
use strelitzia::fields::traits::FieldView;
use strelitzia::fields::types::{Scalar, SymmTensor, Tensor, Vector};

struct TestMarker;

#[test]
fn new_field_is_empty() {
    let field: Field<TestMarker, f64, 3> = Field::new();
    assert_eq!(field.len(), 0);
    assert!(field.is_empty());
    assert!(field.chunks.is_empty());
}

#[test]
fn default_equals_new() {
    let field1: Field<TestMarker, f64, 3> = Field::new();
    let field2: Field<TestMarker, f64, 3> = Field::default();
    assert_eq!(field1.len(), field2.len());
    assert_eq!(field1.chunks.len(), field2.chunks.len());
}

#[test]
fn push_increments_len() {
    let mut field: Field<TestMarker, f64, 3> = Field::new();
    assert_eq!(field.len(), 0);

    field.push_raw([1.0, 2.0, 3.0]);
    assert_eq!(field.len(), 1);
    assert!(!field.is_empty());
}

#[test]
fn push_multiple_elements() {
    let mut field: Field<TestMarker, f64, 3> = Field::new();

    for i in 0..10 {
        field.push_raw([i as f64, 0.0, 0.0]);
    }
    assert_eq!(field.len(), 10);
}

#[test]
fn first_push_creates_chunk() {
    let mut field: Field<TestMarker, f64, 3> = Field::new();
    assert_eq!(field.chunks.len(), 0);

    field.push_raw([1.0, 2.0, 3.0]);
    assert_eq!(field.chunks.len(), 1);
    assert_eq!(field.chunks[0].len, 1);
}

#[test]
fn chunk_boundary_creates_new_chunk() {
    let mut field: Field<TestMarker, f64, 1> = Field::new();

    // Fill first chunk completely
    for i in 0..CHUNK_SIZE {
        field.push_raw([i as f64]);
    }
    assert_eq!(field.chunks.len(), 1);
    assert_eq!(field.chunks[0].len, CHUNK_SIZE);

    // One more push should create a new chunk
    field.push_raw([9999.0]);
    assert_eq!(field.chunks.len(), 2);
    assert_eq!(field.chunks[1].len, 1);
    assert_eq!(field.len(), CHUNK_SIZE + 1);
}

#[test]
fn partial_last_chunk() {
    let mut field: Field<TestMarker, f64, 1> = Field::new();
    let n = 1500;

    for i in 0..n {
        field.push_raw([i as f64]);
    }

    assert_eq!(field.len(), n);
    assert_eq!(field.chunks.len(), 2);
    assert_eq!(field.chunks[0].len, CHUNK_SIZE); // 1024
    assert_eq!(field.chunks[1].len, n - CHUNK_SIZE); // 476
}

#[test]
fn scalar_field_n1() {
    let mut field: Field<TestMarker, f64, 1> = Field::new();
    field.push_raw([42.0]);
    assert_eq!(field.len(), 1);
    assert_eq!(field.chunks[0].data[0][0], 42.0);
}

#[test]
fn vector_field_n3() {
    let mut field: Field<TestMarker, f64, 3> = Field::new();
    field.push_raw([1.0, 2.0, 3.0]);
    assert_eq!(field.chunks[0].data[0][0], 1.0);
    assert_eq!(field.chunks[0].data[1][0], 2.0);
    assert_eq!(field.chunks[0].data[2][0], 3.0);
}

#[test]
fn tensor_field_n9() {
    let mut field: Field<TestMarker, f64, 9> = Field::new();
    let components = [1.0, 2.0, 3.0, 4.0, 5.0, 6.0, 7.0, 8.0, 9.0];
    field.push_raw(components);

    for i in 0..9 {
        assert_eq!(field.chunks[0].data[i][0], components[i]);
    }
}

#[test]
fn f32_precision() {
    let mut field: Field<TestMarker, f32, 2> = Field::new();
    field.push_raw([1.5_f32, 2.5_f32]);
    assert_eq!(field.chunks[0].data[0][0], 1.5_f32);
    assert_eq!(field.chunks[0].data[1][0], 2.5_f32);
}

#[test]
fn new_chunk_is_empty() {
    let chunk: Chunk<f64, 3> = Chunk::new();
    assert_eq!(chunk.len, 0);
}

#[test]
fn scalar_field_get_returns_value() {
    let mut field: Field<Scalar, f64, 1> = Field::new();
    field.push_raw([42.0]);
    field.push_raw([99.0]);

    assert_eq!(field.get(0), 42.0);
    assert_eq!(field.get(1), 99.0);
}

#[test]
fn vector_field_get_returns_array() {
    let mut field: Field<Vector, f64, 3> = Field::new();
    field.push_raw([1.0, 2.0, 3.0]);
    field.push_raw([4.0, 5.0, 6.0]);

    assert_eq!(field.get(0), [1.0, 2.0, 3.0]);
    assert_eq!(field.get(1), [4.0, 5.0, 6.0]);
}

#[test]
fn tensor_field_get_returns_array() {
    let mut field: Field<Tensor, f64, 9> = Field::new();
    let t = [1.0, 2.0, 3.0, 4.0, 5.0, 6.0, 7.0, 8.0, 9.0];
    field.push_raw(t);

    assert_eq!(field.get(0), t);
}

#[test]
fn symm_tensor_field_get_returns_array() {
    let mut field: Field<SymmTensor, f64, 6> = Field::new();
    let s = [1.0, 2.0, 3.0, 4.0, 5.0, 6.0]; // xx, xy, xz, yy, yz, zz
    field.push_raw(s);

    assert_eq!(field.get(0), s);
}

#[test]
fn get_across_chunk_boundary() {
    let mut field: Field<Scalar, f64, 1> = Field::new();

    // Fill first chunk and add one more
    for i in 0..=CHUNK_SIZE {
        field.push_raw([i as f64]);
    }

    // Element at CHUNK_SIZE is in second chunk
    assert_eq!(field.get(0), 0.0);
    assert_eq!(field.get(CHUNK_SIZE - 1), (CHUNK_SIZE - 1) as f64);
    assert_eq!(field.get(CHUNK_SIZE), CHUNK_SIZE as f64);
}

#[test]
fn vector2_field() {
    let mut field: Field<Vector, f64, 2> = Field::new();
    field.push_raw([1.0, 2.0]);
    assert_eq!(field.get(0), [1.0, 2.0]);
}

#[test]
fn f32_field_view() {
    let mut field: Field<Vector, f32, 3> = Field::new();
    field.push_raw([1.0_f32, 2.0_f32, 3.0_f32]);
    assert_eq!(field.get(0), [1.0_f32, 2.0_f32, 3.0_f32]);
}
