//! A small vectorized columnar engine: null-aware columns and their builders,
//! owned and borrowed scalars, type-erased columns and scalars, and binary
//! expressions evaluated element-wise with null propagation.
pub mod any;
pub mod array;
pub mod bitmap;
pub mod cmp;
pub mod error;
pub mod expr;
pub mod primitive_array;
pub mod registry;
pub mod scalar;
pub mod string;
pub mod string_array;
mod utf8_lemmas;

pub use any::{ArrayImpl, ScalarImpl, ScalarRefImpl};
pub use array::{build_array, Array, ArrayBuilder, ArrayIterator};
pub use cmp::{CmpOp, ExprCmp};
pub use error::TypeMismatch;
pub use expr::{BinaryExprFunc, BinaryExpression};
pub use primitive_array::{
    BoolArray, BoolArrayBuilder, I32Array, I32ArrayBuilder, I64Array, I64ArrayBuilder,
    PrimitiveArray, PrimitiveArrayBuilder, PrimitiveType,
};
pub use registry::{build_binary_expression, AnyExpression, ExprKind};
pub use scalar::{Scalar, ScalarRef};
pub use string::ExprStrContains;
pub use string_array::{StringArray, StringArrayBuilder};
