//! Signal shapes of the stage graph, and their broadcast merge.

use vstd::prelude::*;

verus! {

/// The data types a stage-graph signal can carry.
#[derive(Debug, Eq, PartialEq, Structural, Copy, Clone)]
pub enum ShapeDataType {
    I32,
    I64,
    F32,
    F64,
}

/// Why two shapes cannot merge.
#[derive(Debug, Eq, PartialEq, Structural, Copy, Clone)]
pub enum ShapeMergeError {
    /// The signals carry different data types.
    IncompatibleTypes(ShapeDataType, ShapeDataType),
    /// Neither width is 1 and they differ.
    IncompatibleWidths(usize, usize),
}

/// The shape of a signal: a data type and a channel width.
#[derive(Debug, Eq, PartialEq, Structural, Copy, Clone)]
pub struct Shape {
    pub data_type: ShapeDataType,
    pub width: usize,
}

impl Shape {
    pub fn new(data_type: ShapeDataType, width: usize) -> (r: Shape)
        ensures
            r == (Shape { data_type, width }),
    {
        Shape { data_type, width }
    }

    /// Merge this shape with another, or say why that cannot be done.
    ///
    /// Two shapes are compatible if they are of the same type and width, or
    /// of the same type and one is of width 1; the merge takes the wider
    /// width.
    pub fn merge(&self, other: &Shape) -> (r: Result<Shape, ShapeMergeError>)
        ensures
            self.data_type != other.data_type ==> r == Err::<Shape, _>(
                ShapeMergeError::IncompatibleTypes(self.data_type, other.data_type),
            ),
            self.data_type == other.data_type && (self.width == other.width || self.width == 1
                || other.width == 1) ==> r == Ok::<_, ShapeMergeError>(
                Shape {
                    data_type: self.data_type,
                    width: if self.width >= other.width {
                        self.width
                    } else {
                        other.width
                    },
                },
            ),
            self.data_type == other.data_type && !(self.width == other.width || self.width == 1
                || other.width == 1) ==> r == Err::<Shape, _>(
                ShapeMergeError::IncompatibleWidths(self.width, other.width),
            ),
    {
        if self.data_type != other.data_type {
            return Err(ShapeMergeError::IncompatibleTypes(self.data_type, other.data_type));
        }
        if self.width == other.width || self.width == 1 || other.width == 1 {
            let w = if self.width >= other.width {
                self.width
            } else {
                other.width
            };
            return Ok(Shape::new(self.data_type, w));
        }
        Err(ShapeMergeError::IncompatibleWidths(self.width, other.width))
    }

    /// True for width 1.
    pub fn is_scalar(&self) -> (r: bool)
        ensures
            r == (self.width == 1),
    {
        self.width == 1
    }
}

} // verus!
