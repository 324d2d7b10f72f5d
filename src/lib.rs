//! Exact integer linear algebra in three and four dimensions: vectors,
//! square matrices, determinants, inverses and transform constructors,
//! each operation proved against a mathematical model over unbounded integers.

pub mod algebra;
pub mod vector;
pub mod identities;
mod blocks;
mod adjugate_right;
pub mod matrix;
pub mod laws;
pub mod text;

pub use matrix::{Matrix3D, Matrix3DIterator, Matrix4D};
pub use vector::{Vector3D, Vector4D};
