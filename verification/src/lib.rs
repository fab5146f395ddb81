//! The safety layer between a caller and a native compression engine, with
//! the engine left out: what is validated before the engine is asked, which
//! calls an operation makes and in what order, how large the buffers are
//! that it hands over, and what each answer of the engine becomes for the
//! caller. The calls themselves are made by whoever runs a [`Job`].

pub mod api;
pub mod decimal;
pub mod error;
pub mod graph;
pub mod job;
pub mod report;
pub mod typed;

pub use api::{
    compress_multi_typed_ref, compress_numeric, compress_serial, compress_typed_ref,
    compress_with_graph, decompress_numeric, decompress_serial, decompress_typed_buffer,
};
pub use error::{Error, Warning};
pub use graph::{
    make_graph_selector_fn, CParam, Compressor, FieldLzGraph, GraphFn, GraphId, GraphSelector,
    NumericGraph, StandardGraph, StoreGraph, ZstdGraph,
};
pub use job::{Call, Job, Operation, Output, Reply, Stage, Step};
pub use report::{Failure, Report};
pub use typed::{DataType, Shape, Span, TypedBuffer, TypedRef};
