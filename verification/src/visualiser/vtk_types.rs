//! VTK type definitions for mesh visualization.

use vstd::prelude::*;

verus! {

/// Cell topology types.
///
/// | Type | VTK code | Description |
/// |------|----------|-------------|
/// | `Vertex` | 1 | Point |
/// | `Edge` | 3 | Line segment |
/// | `EdgeChain` | 4 | Polyline |
/// | `Triangle` | 5 | Triangle |
/// | `Polygon` | 7 | N-sided polygon |
/// | `Quad` | 9 | Quadrilateral |
/// | `Tetra` | 10 | Tetrahedron |
/// | `Hexa` | 12 | Hexahedron |
#[derive(Debug, Clone, Copy, PartialEq, Eq, Structural)]
pub enum CellType {
    Vertex,
    Edge,
    EdgeChain,
    Triangle,
    Polygon,
    Quad,
    Tetra,
    Hexa,
}

/// Internal VTK cell type identifiers, named as the VTK specification names
/// its cell type codes.
#[derive(Debug, Clone, Copy, PartialEq, Eq, Structural)]
pub enum VTKCellType {
    Vertex,
    Line,
    PolyLine,
    Triangle,
    Polygon,
    Quad,
    Tetra,
    Hexahedron,
}

impl From<CellType> for VTKCellType {
    /// Maps each cell topology type to its VTK identifier; what the
    /// conversion returns is stated by `from_spec` below.
    fn from(cell_type: CellType) -> Self {
        match cell_type {
            CellType::Vertex => VTKCellType::Vertex,
            CellType::Edge => VTKCellType::Line,
            CellType::EdgeChain => VTKCellType::PolyLine,
            CellType::Triangle => VTKCellType::Triangle,
            CellType::Polygon => VTKCellType::Polygon,
            CellType::Quad => VTKCellType::Quad,
            CellType::Tetra => VTKCellType::Tetra,
            CellType::Hexa => VTKCellType::Hexahedron,
        }
    }
}

impl vstd::std_specs::convert::FromSpecImpl<CellType> for VTKCellType {
    open spec fn obeys_from_spec() -> bool {
        true
    }

    open spec fn from_spec(cell_type: CellType) -> Self {
        match cell_type {
            CellType::Vertex => VTKCellType::Vertex,
            CellType::Edge => VTKCellType::Line,
            CellType::EdgeChain => VTKCellType::PolyLine,
            CellType::Triangle => VTKCellType::Triangle,
            CellType::Polygon => VTKCellType::Polygon,
            CellType::Quad => VTKCellType::Quad,
            CellType::Tetra => VTKCellType::Tetra,
            CellType::Hexa => VTKCellType::Hexahedron,
        }
    }
}

impl VTKCellType {
    /// The cell type code assigned by the VTK specification.
    pub open spec fn spec_code(self) -> u8 {
        match self {
            VTKCellType::Vertex => 1,
            VTKCellType::Line => 3,
            VTKCellType::PolyLine => 4,
            VTKCellType::Triangle => 5,
            VTKCellType::Polygon => 7,
            VTKCellType::Quad => 9,
            VTKCellType::Tetra => 10,
            VTKCellType::Hexahedron => 12,
        }
    }

    /// Returns the cell type code assigned by the VTK specification.
    pub fn as_u8(self) -> (r: u8)
        ensures
            r == self.spec_code(),
    {
        match self {
            VTKCellType::Vertex => 1,
            VTKCellType::Line => 3,
            VTKCellType::PolyLine => 4,
            VTKCellType::Triangle => 5,
            VTKCellType::Polygon => 7,
            VTKCellType::Quad => 9,
            VTKCellType::Tetra => 10,
            VTKCellType::Hexahedron => 12,
        }
    }
}

/// Data encoding format for the writer: human-readable text, or base64
/// binary.
#[derive(Debug, Clone, Copy, PartialEq, Eq, Structural)]
pub enum Encoding {
    Ascii,
    Base64,
}

/// Field data array for point or cell data, as the writer consumes it: a
/// name, the raw bytes of the scalars, and the number of components per
/// element.
pub struct FieldArray<'a> {
    pub name: &'a str,
    pub data: &'a [u8],
    pub num_components: usize,
}

} // verus!
