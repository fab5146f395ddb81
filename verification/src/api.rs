use crate::graph::{make_graph_selector_fn, selector_for, CParam, Compressor, GraphFn};
use crate::job::{call_at, Job, Operation, Step, StepView};
use crate::typed::{supported_width, unsupported_width, unsupported_width_error, TypedRef};
use vstd::layout::{align_of, layout_for_type_is_valid, size_of};
use vstd::prelude::*;

verus! {

/// Whether a job has just been started on `op`: nothing is answered yet,
/// and the first call of the script is wanted.
pub open spec fn started(r: (Job, Step), op: Operation) -> bool {
    &&& r.0.op() == op
    &&& r.0.position() == 0
    &&& r.1@ == StepView::Call(call_at(op, op.script()[0], 0))
}

/// Whether a job on `op` was refused before the engine was asked anything.
pub open spec fn refused(r: (Job, Step), op: Operation) -> bool {
    &&& r.0.op() == op
    &&& r.0.finished()
    &&& r.1@ is Done
    &&& r.1@->Done_0 is Err
}

/// Starts the compression of `src` with the engine's default graph. The
/// destination has the capacity that the engine gives as the bound for the
/// length of `src`; the result is the frame, cut to the bytes written.
pub fn compress_serial(src: &[u8]) -> (r: (Job, Step))
    ensures
        started(r, Operation::CompressSerial { src_size: src@.len() as usize }),
{
    Job::start(Operation::CompressSerial { src_size: src.len() })
}

/// Starts the compression of one typed input with the general-purpose
/// graph, into a destination of [`crate::job::SCRATCH_CAPACITY`] bytes.
pub fn compress_typed_ref(input: &TypedRef) -> (r: (Job, Step))
    ensures
        started(r, Operation::CompressTypedRef { input: input@ }),
{
    Job::start(Operation::CompressTypedRef { input: input.shape() })
}

/// Starts the compression of several typed inputs into one frame with the
/// general-purpose graph, into a destination of
/// [`crate::job::SCRATCH_CAPACITY`] bytes. The inputs go into the frame in
/// their order.
pub fn compress_multi_typed_ref(inputs: &[&TypedRef]) -> (r: (Job, Step))
    ensures
        started(r, Operation::CompressMultiTypedRef { count: inputs@.len() as usize }),
{
    Job::start(Operation::CompressMultiTypedRef { count: inputs.len() })
}

/// Starts the compression of numbers with the graph for numeric arrays. An
/// element that is not 1, 2, 4 or 8 bytes wide is refused before the engine
/// is asked anything.
pub fn compress_numeric<T: Copy>(data: &[T]) -> (r: (Job, Step))
    requires
        data@.len() * size_of::<T>() <= usize::MAX,
    ensures
        supported_width(size_of::<T>()) ==> started(
            r,
            Operation::CompressNumeric {
                width: size_of::<T>() as usize,
                count: data@.len() as usize,
            },
        ),
        !supported_width(size_of::<T>()) ==> refused(
            r,
            Operation::CompressNumeric {
                width: size_of::<T>() as usize,
                count: data@.len() as usize,
            },
        ) && r.1@->Done_0->Err_0 == unsupported_width_error(size_of::<T>()),
{
    let op = Operation::CompressNumeric { width: core::mem::size_of::<T>(), count: data.len() };
    match TypedRef::numeric(data) {
        Err(e) => Job::refuse(op, e),
        Ok(_) => Job::start(op),
    }
}

/// Starts the compression of `src` with the graph that `graph` builds. The
/// graph is handed to the engine as a callback: one that has no
/// callback of its own is compressed with the general-purpose graph.
pub fn compress_with_graph<G: GraphFn>(src: &[u8], graph: &G) -> (r: (Job, Step))
    ensures
        started(
            r,
            Operation::CompressWithGraph {
                src_size: src@.len() as usize,
                selector: selector_for(graph.graph(Seq::<(CParam, i32)>::empty())),
            },
        ),
{
    let mut compressor = Compressor::new();
    let graph_id = graph.build_graph(&mut compressor);
    let selector = make_graph_selector_fn(graph_id);
    Job::start(Operation::CompressWithGraph { src_size: src.len(), selector })
}

/// Starts the decompression of a frame into bytes. The size of the
/// decompressed data is asked for first, and the destination has that
/// size.
pub fn decompress_serial(src: &[u8]) -> (r: (Job, Step))
    ensures
        started(r, Operation::DecompressSerial { frame_size: src@.len() as usize }),
{
    Job::start(Operation::DecompressSerial { frame_size: src.len() })
}

/// Starts the decompression of a frame into an output buffer that the
/// engine sizes and types.
pub fn decompress_typed_buffer(compressed: &[u8]) -> (r: (Job, Step))
    ensures
        started(r, Operation::DecompressTypedBuffer { frame_size: compressed@.len() as usize }),
{
    Job::start(Operation::DecompressTypedBuffer { frame_size: compressed.len() })
}

/// Starts the decompression of a frame into numbers of type `T`. An element
/// that is not 1, 2, 4 or 8 bytes wide is refused before the engine is asked
/// anything.
pub fn decompress_numeric<T: Copy>(compressed: &[u8]) -> (r: (Job, Step))
    ensures
        supported_width(size_of::<T>()) ==> started(
            r,
            Operation::DecompressNumeric {
                frame_size: compressed@.len() as usize,
                width: size_of::<T>() as usize,
                align: align_of::<T>() as usize,
            },
        ),
        !supported_width(size_of::<T>()) ==> refused(
            r,
            Operation::DecompressNumeric {
                frame_size: compressed@.len() as usize,
                width: size_of::<T>() as usize,
                align: align_of::<T>() as usize,
            },
        ) && r.1@->Done_0->Err_0 == unsupported_width_error(size_of::<T>()),
{
    layout_for_type_is_valid::<T>();
    let width: usize = core::mem::size_of::<T>();
    let op = Operation::DecompressNumeric {
        frame_size: compressed.len(),
        width,
        align: core::mem::align_of::<T>(),
    };
    if !(width == 1 || width == 2 || width == 4 || width == 8) {
        return Job::refuse(op, unsupported_width(width));
    }
    Job::start(op)
}

} // verus!
