//! A verified core for an OpenVX runtime.
//!
//! References are plain integers (`0` is the null reference) and every registry
//! is an owned table, so each entry point is a function from tables and values
//! to tables and values.  The surrounding C interface turns pointers into those
//! values and back.
#![allow(non_camel_case_types)]
#![allow(non_snake_case)]
#![allow(non_upper_case_globals)]

pub mod agreement;
pub mod arith;
pub mod constants;
pub mod construction;
pub mod contexts;
pub mod delays;
pub mod dispatch;
pub mod distributions;
pub mod execution;
pub mod exemplars;
pub mod feature_nodes;
pub mod graphs;
pub mod image;
pub mod image_nodes;
pub mod immediate;
pub mod kernel_registry;
pub mod kernels;
pub mod lifecycle;
pub mod lookups;
pub mod matrices;
pub mod meta_formats;
pub mod multimap;
pub mod naming;
pub mod object_arrays;
pub mod order;
pub mod outputs;
pub mod pairs;
pub mod parameters;
pub mod pixels;
pub mod pyramids;
pub mod records;
pub mod refs;
pub mod registry;
pub mod remaps;
pub mod replicas;
pub mod runs;
pub mod scalar;
pub mod scalars;
pub mod schedule;
pub mod search;
pub mod settings;
pub mod tensor_nodes;
pub mod tensors;
pub mod text;
pub mod types;
pub mod unsupported;
pub mod user_kernels;
pub mod user_structs;
pub mod valid_rects;
pub mod values;
pub mod verify;
pub mod virtual_images;
pub mod waves;
pub mod wiring;
