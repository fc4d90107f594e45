//! Layout compiler for GPU records: from a declarative field schema to a
//! byte-exact raw record, its shader-side declaration and its vertex
//! attributes.

pub mod color;
pub mod convert;
pub mod dim;
pub mod errors;
pub mod field;
pub mod format;
pub mod gpu_buffer;
pub mod laws;
pub mod parse;
pub mod quotes;
pub mod raw_struct;
pub mod raw_value;
pub mod round_trip;
pub mod scalar;
pub mod shader;
pub mod shader_struct;
pub mod text;
pub mod uniform_binding;
pub mod uniform_layout;
pub mod vertex_layout;
pub mod wgsl_type;
