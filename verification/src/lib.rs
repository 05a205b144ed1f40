pub mod bind_group;
pub mod codec;
pub mod compiler;
pub mod edit;
pub mod editor;
pub mod engine;
pub mod error;
pub mod geometry;
pub mod ir;
pub mod library;
pub mod local_library;
pub mod mask_math;
pub mod math;
pub mod op_impl_collection;
pub mod ops;
pub mod rectangle;
pub mod ring_buffer;
pub mod runtime;
pub mod services;
pub mod stats;
pub mod text;
pub mod toolbox;
pub mod ui_state;
pub mod value_store;
