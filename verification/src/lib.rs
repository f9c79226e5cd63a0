//! A loader for triangulated Wavefront OBJ meshes.
//!
//! The loader turns the lines of an OBJ file into flat, non-indexed vertex
//! attribute buffers: `obj_parser::load_obj_mesh` counts the declarations,
//! then reads every line in file order, writing `v`, `vt` and `vn` lines into
//! a store and expanding every `f` line into three vertices. Every executable
//! function carries a contract that Verus checks against its body. The one
//! exception is `scan::scan`, which hands a line to the `scan_fmt` crate and
//! whose contract is taken on trust.
//!
//! Scalars never take part in arithmetic here: the loader only stores them
//! and copies them. They are carried as the 32-bit patterns of IEEE 754
//! single-precision numbers, and the caller supplies the function that reads
//! a numeric token into such a pattern.
//!
//! `laws` holds what is proved of every load. `logger` and `screen` hold the
//! parts of session logging and of screen capture that compute.

pub mod error;
pub mod face;
pub mod gl_utils;
pub mod index;
pub mod laws;
pub mod line;
pub mod logger;
pub mod mesh;
pub mod obj_parser;
pub mod scan;
pub mod screen;
pub mod vertex_data;
