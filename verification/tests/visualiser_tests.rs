//! Tests for the visualization types and the base64 encoder.

use strelitzia::visualiser::encoding::encode;
use strelitzia::visualiser::vtk_types::{CellType, Encoding, FieldArray, VTKCellType};

/// Unit test for cell type conversions
#[test]
fn vtk_types_test_cell_type_conversions() {
    assert_eq!(VTKCellType::from(CellType::Vertex).as_u8(), 1);
    assert_eq!(VTKCellType::from(CellType::Edge).as_u8(), 3);
    assert_eq!(VTKCellType::from(CellType::EdgeChain).as_u8(), 4);
    assert_eq!(VTKCellType::from(CellType::Triangle).as_u8(), 5);
    assert_eq!(VTKCellType::from(CellType::Polygon).as_u8(), 7);
    assert_eq!(VTKCellType::from(CellType::Quad).as_u8(), 9);
    assert_eq!(VTKCellType::from(CellType::Tetra).as_u8(), 10);
    assert_eq!(VTKCellType::from(CellType::Hexa).as_u8(), 12);
}

#[test]
fn encode_empty_input() {
    assert_eq!(encode(&[]), b"");
}

#[test]
fn encode_full_group() {
    // "Man" is the classic base64 example: it encodes to "TWFu".
    assert_eq!(encode(b"Man"), b"TWFu");
}

#[test]
fn encode_one_trailing_byte() {
    assert_eq!(encode(b"M"), b"TQ==");
}

#[test]
fn encode_two_trailing_bytes() {
    assert_eq!(encode(b"Ma"), b"TWE=");
}

#[test]
fn encode_longer_input() {
    assert_eq!(encode(b"hello world"), b"aGVsbG8gd29ybGQ=");
    assert_eq!(encode(&[0u8, 0, 0]), b"AAAA");
    assert_eq!(encode(&[255u8, 255, 255]), b"////");
}

#[test]
fn encoding_modes_are_distinct() {
    assert_ne!(Encoding::Ascii, Encoding::Base64);
}

#[test]
fn field_array_carries_bytes() {
    let bytes = [1u8, 2, 3, 4];
    let fa = FieldArray { name: "temperature", data: &bytes, num_components: 1 };
    assert_eq!(fa.name, "temperature");
    assert_eq!(fa.data, &bytes);
    assert_eq!(fa.num_components, 1);
}
