//! The ways in which loading a mesh fails.

use vstd::prelude::*;

verus! {

/// One of the three per-vertex attributes that an OBJ file declares.
#[derive(Clone, Copy, Debug, PartialEq, Eq)]
pub enum Attribute {
    /// A vertex position, declared by `v`.
    Position,
    /// A texture coordinate, declared by `vt`.
    TexCoord,
    /// A vertex normal, declared by `vn`.
    Normal,
}

/// Why the lines of a file do not load into a mesh. Lines are numbered
/// from 1.
#[derive(Clone, Copy, Debug, PartialEq, Eq)]
pub enum ObjError {
    /// A `v`, `vt` or `vn` line has too few fields or a field that is no
    /// number.
    MalformedAttributeLine { line: usize },
    /// A face line does not hold exactly six slashes, as a triangle does in
    /// both supported grammars.
    UnsupportedTopology { line: usize },
    /// A face line holds six slashes but reads under neither grammar.
    MalformedFaceLine { line: usize },
    /// A face refers to an attribute that the file does not declare.
    IndexOutOfRange { line: usize, attribute: Attribute, index: u32 },
}

impl Attribute {
    /// The number of scalars in one declaration of the attribute.
    pub open spec fn arity(self) -> nat {
        match self {
            Attribute::Position => 3,
            Attribute::TexCoord => 2,
            Attribute::Normal => 3,
        }
    }

    /// The number of scalars in one declaration of the attribute.
    pub fn width(self) -> (width: usize)
        ensures
            width == self.arity(),
    {
        match self {
            Attribute::Position => 3,
            Attribute::TexCoord => 2,
            Attribute::Normal => 3,
        }
    }
}

} // verus!
