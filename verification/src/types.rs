//! The type mapping table: every abstract vertex attribute type is mapped to
//! the native numeric format and component count that a binding call expects.

use vstd::prelude::*;

verus! {

/// Abstract description of one vertex attribute's data: scalars and 1-4
/// component vectors of 8/16/32-bit signed and unsigned integers and of
/// single- and double-precision floats, plus the matrix forms of both
/// float precisions.
#[derive(Clone, Copy, PartialEq, Eq, Structural, Debug)]
pub enum AttributeType {
    I8,
    I8I8,
    I8I8I8,
    I8I8I8I8,
    U8,
    U8U8,
    U8U8U8,
    U8U8U8U8,
    I16,
    I16I16,
    I16I16I16,
    I16I16I16I16,
    U16,
    U16U16,
    U16U16U16,
    U16U16U16U16,
    I32,
    I32I32,
    I32I32I32,
    I32I32I32I32,
    U32,
    U32U32,
    U32U32U32,
    U32U32U32U32,
    F32,
    F32F32,
    F32F32F32,
    F32F32F32F32,
    F32x2x2,
    F32x2x3,
    F32x2x4,
    F32x3x2,
    F32x3x3,
    F32x3x4,
    F32x4x2,
    F32x4x3,
    F32x4x4,
    F64,
    F64F64,
    F64F64F64,
    F64F64F64F64,
    F64x2x2,
    F64x2x3,
    F64x2x4,
    F64x3x2,
    F64x3x3,
    F64x3x4,
    F64x4x2,
    F64x4x3,
    F64x4x4,
}

pub const GL_BYTE: u32 = 0x1400;
pub const GL_UNSIGNED_BYTE: u32 = 0x1401;
pub const GL_SHORT: u32 = 0x1402;
pub const GL_UNSIGNED_SHORT: u32 = 0x1403;
pub const GL_INT: u32 = 0x1404;
pub const GL_UNSIGNED_INT: u32 = 0x1405;
pub const GL_FLOAT: u32 = 0x1406;
pub const GL_DOUBLE: u32 = 0x140A;
pub const GL_FLOAT_MAT2: u32 = 0x8B5A;
pub const GL_FLOAT_MAT3: u32 = 0x8B5B;
pub const GL_FLOAT_MAT4: u32 = 0x8B5C;
pub const GL_FLOAT_MAT2X3: u32 = 0x8B65;
pub const GL_FLOAT_MAT2X4: u32 = 0x8B66;
pub const GL_FLOAT_MAT3X2: u32 = 0x8B67;
pub const GL_FLOAT_MAT3X4: u32 = 0x8B68;
pub const GL_FLOAT_MAT4X2: u32 = 0x8B69;
pub const GL_FLOAT_MAT4X3: u32 = 0x8B6A;
pub const GL_DOUBLE_MAT2: u32 = 0x8F46;
pub const GL_DOUBLE_MAT3: u32 = 0x8F47;
pub const GL_DOUBLE_MAT4: u32 = 0x8F48;
pub const GL_DOUBLE_MAT2X3: u32 = 0x8F49;
pub const GL_DOUBLE_MAT2X4: u32 = 0x8F4A;
pub const GL_DOUBLE_MAT3X2: u32 = 0x8F4B;
pub const GL_DOUBLE_MAT3X4: u32 = 0x8F4C;
pub const GL_DOUBLE_MAT4X2: u32 = 0x8F4D;
pub const GL_DOUBLE_MAT4X3: u32 = 0x8F4E;
pub const GL_DOUBLE_VEC2: u32 = 0x8FFC;
pub const GL_DOUBLE_VEC3: u32 = 0x8FFD;
pub const GL_DOUBLE_VEC4: u32 = 0x8FFE;

/// The native format and per-binding component count for one abstract type.
/// Matrix types map to their dedicated matrix format with a count of one.
pub open spec fn spec_type_to_gl(ty: AttributeType) -> (u32, u32) {
    match ty {
        AttributeType::I8 => (GL_BYTE, 1),
        AttributeType::I8I8 => (GL_BYTE, 2),
        AttributeType::I8I8I8 => (GL_BYTE, 3),
        AttributeType::I8I8I8I8 => (GL_BYTE, 4),
        AttributeType::U8 => (GL_UNSIGNED_BYTE, 1),
        AttributeType::U8U8 => (GL_UNSIGNED_BYTE, 2),
        AttributeType::U8U8U8 => (GL_UNSIGNED_BYTE, 3),
        AttributeType::U8U8U8U8 => (GL_UNSIGNED_BYTE, 4),
        AttributeType::I16 => (GL_SHORT, 1),
        AttributeType::I16I16 => (GL_SHORT, 2),
        AttributeType::I16I16I16 => (GL_SHORT, 3),
        AttributeType::I16I16I16I16 => (GL_SHORT, 4),
        AttributeType::U16 => (GL_UNSIGNED_SHORT, 1),
        AttributeType::U16U16 => (GL_UNSIGNED_SHORT, 2),
        AttributeType::U16U16U16 => (GL_UNSIGNED_SHORT, 3),
        AttributeType::U16U16U16U16 => (GL_UNSIGNED_SHORT, 4),
        AttributeType::I32 => (GL_INT, 1),
        AttributeType::I32I32 => (GL_INT, 2),
        AttributeType::I32I32I32 => (GL_INT, 3),
        AttributeType::I32I32I32I32 => (GL_INT, 4),
        AttributeType::U32 => (GL_UNSIGNED_INT, 1),
        AttributeType::U32U32 => (GL_UNSIGNED_INT, 2),
        AttributeType::U32U32U32 => (GL_UNSIGNED_INT, 3),
        AttributeType::U32U32U32U32 => (GL_UNSIGNED_INT, 4),
        AttributeType::F32 => (GL_FLOAT, 1),
        AttributeType::F32F32 => (GL_FLOAT, 2),
        AttributeType::F32F32F32 => (GL_FLOAT, 3),
        AttributeType::F32F32F32F32 => (GL_FLOAT, 4),
        AttributeType::F32x2x2 => (GL_FLOAT_MAT2, 1),
        AttributeType::F32x2x3 => (GL_FLOAT_MAT2X3, 1),
        AttributeType::F32x2x4 => (GL_FLOAT_MAT2X4, 1),
        AttributeType::F32x3x2 => (GL_FLOAT_MAT3X2, 1),
        AttributeType::F32x3x3 => (GL_FLOAT_MAT3, 1),
        AttributeType::F32x3x4 => (GL_FLOAT_MAT3X4, 1),
        AttributeType::F32x4x2 => (GL_FLOAT_MAT4X2, 1),
        AttributeType::F32x4x3 => (GL_FLOAT_MAT4X3, 1),
        AttributeType::F32x4x4 => (GL_FLOAT_MAT4, 1),
        AttributeType::F64 => (GL_DOUBLE, 1),
        AttributeType::F64F64 => (GL_DOUBLE, 2),
        AttributeType::F64F64F64 => (GL_DOUBLE, 3),
        AttributeType::F64F64F64F64 => (GL_DOUBLE, 4),
        AttributeType::F64x2x2 => (GL_DOUBLE_MAT2, 1),
        AttributeType::F64x2x3 => (GL_DOUBLE_MAT2X3, 1),
        AttributeType::F64x2x4 => (GL_DOUBLE_MAT2X4, 1),
        AttributeType::F64x3x2 => (GL_DOUBLE_MAT3X2, 1),
        AttributeType::F64x3x3 => (GL_DOUBLE_MAT3, 1),
        AttributeType::F64x3x4 => (GL_DOUBLE_MAT3X4, 1),
        AttributeType::F64x4x2 => (GL_DOUBLE_MAT4X2, 1),
        AttributeType::F64x4x3 => (GL_DOUBLE_MAT4X3, 1),
        AttributeType::F64x4x4 => (GL_DOUBLE_MAT4, 1),
    }
}

/// Maps an abstract attribute type to the native format / component count
/// pair handed to the attribute-pointer binding call.
pub fn vertex_binding_type_to_gl(ty: AttributeType) -> (r: (u32, u32))
    ensures
        r == spec_type_to_gl(ty),
{
    match ty {
        AttributeType::I8 => (GL_BYTE, 1),
        AttributeType::I8I8 => (GL_BYTE, 2),
        AttributeType::I8I8I8 => (GL_BYTE, 3),
        AttributeType::I8I8I8I8 => (GL_BYTE, 4),
        AttributeType::U8 => (GL_UNSIGNED_BYTE, 1),
        AttributeType::U8U8 => (GL_UNSIGNED_BYTE, 2),
        AttributeType::U8U8U8 => (GL_UNSIGNED_BYTE, 3),
        AttributeType::U8U8U8U8 => (GL_UNSIGNED_BYTE, 4),
        AttributeType::I16 => (GL_SHORT, 1),
        AttributeType::I16I16 => (GL_SHORT, 2),
        AttributeType::I16I16I16 => (GL_SHORT, 3),
        AttributeType::I16I16I16I16 => (GL_SHORT, 4),
        AttributeType::U16 => (GL_UNSIGNED_SHORT, 1),
        AttributeType::U16U16 => (GL_UNSIGNED_SHORT, 2),
        AttributeType::U16U16U16 => (GL_UNSIGNED_SHORT, 3),
        AttributeType::U16U16U16U16 => (GL_UNSIGNED_SHORT, 4),
        AttributeType::I32 => (GL_INT, 1),
        AttributeType::I32I32 => (GL_INT, 2),
        AttributeType::I32I32I32 => (GL_INT, 3),
        AttributeType::I32I32I32I32 => (GL_INT, 4),
        AttributeType::U32 => (GL_UNSIGNED_INT, 1),
        AttributeType::U32U32 => (GL_UNSIGNED_INT, 2),
        AttributeType::U32U32U32 => (GL_UNSIGNED_INT, 3),
        AttributeType::U32U32U32U32 => (GL_UNSIGNED_INT, 4),
        AttributeType::F32 => (GL_FLOAT, 1),
        AttributeType::F32F32 => (GL_FLOAT, 2),
        AttributeType::F32F32F32 => (GL_FLOAT, 3),
        AttributeType::F32F32F32F32 => (GL_FLOAT, 4),
        AttributeType::F32x2x2 => (GL_FLOAT_MAT2, 1),
        AttributeType::F32x2x3 => (GL_FLOAT_MAT2X3, 1),
        AttributeType::F32x2x4 => (GL_FLOAT_MAT2X4, 1),
        AttributeType::F32x3x2 => (GL_FLOAT_MAT3X2, 1),
        AttributeType::F32x3x3 => (GL_FLOAT_MAT3, 1),
        AttributeType::F32x3x4 => (GL_FLOAT_MAT3X4, 1),
        AttributeType::F32x4x2 => (GL_FLOAT_MAT4X2, 1),
        AttributeType::F32x4x3 => (GL_FLOAT_MAT4X3, 1),
        AttributeType::F32x4x4 => (GL_FLOAT_MAT4, 1),
        AttributeType::F64 => (GL_DOUBLE, 1),
        AttributeType::F64F64 => (GL_DOUBLE, 2),
        AttributeType::F64F64F64 => (GL_DOUBLE, 3),
        AttributeType::F64F64F64F64 => (GL_DOUBLE, 4),
        AttributeType::F64x2x2 => (GL_DOUBLE_MAT2, 1),
        AttributeType::F64x2x3 => (GL_DOUBLE_MAT2X3, 1),
        AttributeType::F64x2x4 => (GL_DOUBLE_MAT2X4, 1),
        AttributeType::F64x3x2 => (GL_DOUBLE_MAT3X2, 1),
        AttributeType::F64x3x3 => (GL_DOUBLE_MAT3, 1),
        AttributeType::F64x3x4 => (GL_DOUBLE_MAT3X4, 1),
        AttributeType::F64x4x2 => (GL_DOUBLE_MAT4X2, 1),
        AttributeType::F64x4x3 => (GL_DOUBLE_MAT4X3, 1),
        AttributeType::F64x4x4 => (GL_DOUBLE_MAT4, 1),
    }
}

/// Total number of scalar components carried by one attribute of this type;
/// a matrix counts all of its cells.
pub open spec fn spec_num_components(ty: AttributeType) -> u32 {
    match ty {
        AttributeType::I8 => 1,
        AttributeType::I8I8 => 2,
        AttributeType::I8I8I8 => 3,
        AttributeType::I8I8I8I8 => 4,
        AttributeType::U8 => 1,
        AttributeType::U8U8 => 2,
        AttributeType::U8U8U8 => 3,
        AttributeType::U8U8U8U8 => 4,
        AttributeType::I16 => 1,
        AttributeType::I16I16 => 2,
        AttributeType::I16I16I16 => 3,
        AttributeType::I16I16I16I16 => 4,
        AttributeType::U16 => 1,
        AttributeType::U16U16 => 2,
        AttributeType::U16U16U16 => 3,
        AttributeType::U16U16U16U16 => 4,
        AttributeType::I32 => 1,
        AttributeType::I32I32 => 2,
        AttributeType::I32I32I32 => 3,
        AttributeType::I32I32I32I32 => 4,
        AttributeType::U32 => 1,
        AttributeType::U32U32 => 2,
        AttributeType::U32U32U32 => 3,
        AttributeType::U32U32U32U32 => 4,
        AttributeType::F32 => 1,
        AttributeType::F32F32 => 2,
        AttributeType::F32F32F32 => 3,
        AttributeType::F32F32F32F32 => 4,
        AttributeType::F32x2x2 => 4,
        AttributeType::F32x2x3 => 6,
        AttributeType::F32x2x4 => 8,
        AttributeType::F32x3x2 => 6,
        AttributeType::F32x3x3 => 9,
        AttributeType::F32x3x4 => 12,
        AttributeType::F32x4x2 => 8,
        AttributeType::F32x4x3 => 12,
        AttributeType::F32x4x4 => 16,
        AttributeType::F64 => 1,
        AttributeType::F64F64 => 2,
        AttributeType::F64F64F64 => 3,
        AttributeType::F64F64F64F64 => 4,
        AttributeType::F64x2x2 => 4,
        AttributeType::F64x2x3 => 6,
        AttributeType::F64x2x4 => 8,
        AttributeType::F64x3x2 => 6,
        AttributeType::F64x3x3 => 9,
        AttributeType::F64x3x4 => 12,
        AttributeType::F64x4x2 => 8,
        AttributeType::F64x4x3 => 12,
        AttributeType::F64x4x4 => 16,
    }
}

/// Component count of an abstract attribute type, as used by the
/// layout/program compatibility validation.
pub fn get_num_components(ty: AttributeType) -> (r: u32)
    ensures
        r == spec_num_components(ty),
{
    match ty {
        AttributeType::I8 => 1,
        AttributeType::I8I8 => 2,
        AttributeType::I8I8I8 => 3,
        AttributeType::I8I8I8I8 => 4,
        AttributeType::U8 => 1,
        AttributeType::U8U8 => 2,
        AttributeType::U8U8U8 => 3,
        AttributeType::U8U8U8U8 => 4,
        AttributeType::I16 => 1,
        AttributeType::I16I16 => 2,
        AttributeType::I16I16I16 => 3,
        AttributeType::I16I16I16I16 => 4,
        AttributeType::U16 => 1,
        AttributeType::U16U16 => 2,
        AttributeType::U16U16U16 => 3,
        AttributeType::U16U16U16U16 => 4,
        AttributeType::I32 => 1,
        AttributeType::I32I32 => 2,
        AttributeType::I32I32I32 => 3,
        AttributeType::I32I32I32I32 => 4,
        AttributeType::U32 => 1,
        AttributeType::U32U32 => 2,
        AttributeType::U32U32U32 => 3,
        AttributeType::U32U32U32U32 => 4,
        AttributeType::F32 => 1,
        AttributeType::F32F32 => 2,
        AttributeType::F32F32F32 => 3,
        AttributeType::F32F32F32F32 => 4,
        AttributeType::F32x2x2 => 4,
        AttributeType::F32x2x3 => 6,
        AttributeType::F32x2x4 => 8,
        AttributeType::F32x3x2 => 6,
        AttributeType::F32x3x3 => 9,
        AttributeType::F32x3x4 => 12,
        AttributeType::F32x4x2 => 8,
        AttributeType::F32x4x3 => 12,
        AttributeType::F32x4x4 => 16,
        AttributeType::F64 => 1,
        AttributeType::F64F64 => 2,
        AttributeType::F64F64F64 => 3,
        AttributeType::F64F64F64F64 => 4,
        AttributeType::F64x2x2 => 4,
        AttributeType::F64x2x3 => 6,
        AttributeType::F64x2x4 => 8,
        AttributeType::F64x3x2 => 6,
        AttributeType::F64x3x3 => 9,
        AttributeType::F64x3x4 => 12,
        AttributeType::F64x4x2 => 8,
        AttributeType::F64x4x3 => 12,
        AttributeType::F64x4x4 => 16,
    }
}

/// Which attribute-pointer entry point a native format calls for: the
/// integer-pointer form for integer formats, the wide form for
/// double-precision formats, and the ordinary form otherwise.
#[derive(Clone, Copy, PartialEq, Eq, Structural, Debug)]
pub enum PointerForm {
    Integer,
    Double,
    Float,
}

/// Classification of a native format by the pointer call it requires.
pub open spec fn spec_pointer_form(data_type: u32) -> PointerForm {
    if data_type == GL_BYTE || data_type == GL_UNSIGNED_BYTE || data_type == GL_SHORT
        || data_type == GL_UNSIGNED_SHORT || data_type == GL_INT || data_type == GL_UNSIGNED_INT {
        PointerForm::Integer
    } else if data_type == GL_DOUBLE || data_type == GL_DOUBLE_VEC2 || data_type == GL_DOUBLE_VEC3
        || data_type == GL_DOUBLE_VEC4 || data_type == GL_DOUBLE_MAT2 || data_type == GL_DOUBLE_MAT3
        || data_type == GL_DOUBLE_MAT4 || data_type == GL_DOUBLE_MAT2X3
        || data_type == GL_DOUBLE_MAT2X4 || data_type == GL_DOUBLE_MAT3X2
        || data_type == GL_DOUBLE_MAT3X4 || data_type == GL_DOUBLE_MAT4X2
        || data_type == GL_DOUBLE_MAT4X3 {
        PointerForm::Double
    } else {
        PointerForm::Float
    }
}

/// Picks the attribute-pointer call form for a native format.
pub fn pointer_form(data_type: u32) -> (r: PointerForm)
    ensures
        r == spec_pointer_form(data_type),
{
    if data_type == GL_BYTE || data_type == GL_UNSIGNED_BYTE || data_type == GL_SHORT
        || data_type == GL_UNSIGNED_SHORT || data_type == GL_INT || data_type == GL_UNSIGNED_INT {
        PointerForm::Integer
    } else if data_type == GL_DOUBLE || data_type == GL_DOUBLE_VEC2 || data_type == GL_DOUBLE_VEC3
        || data_type == GL_DOUBLE_VEC4 || data_type == GL_DOUBLE_MAT2 || data_type == GL_DOUBLE_MAT3
        || data_type == GL_DOUBLE_MAT4 || data_type == GL_DOUBLE_MAT2X3
        || data_type == GL_DOUBLE_MAT2X4 || data_type == GL_DOUBLE_MAT3X2
        || data_type == GL_DOUBLE_MAT3X4 || data_type == GL_DOUBLE_MAT4X2
        || data_type == GL_DOUBLE_MAT4X3 {
        PointerForm::Double
    } else {
        PointerForm::Float
    }
}

} // verus!
