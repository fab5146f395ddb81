use crate::error::{Error, ErrorView};
use crate::graph::{CParam, GraphSelector, FORMAT_VERSION};
use crate::report::{result_view, Report};
use crate::typed::{numbers_found, Shape, Span, TypedBuffer};
use vstd::prelude::*;

verus! {

/// The capacity of the destination where the size of the input is not known:
/// one mebibyte. An input that does not compress into it fails in the engine.
pub const SCRATCH_CAPACITY: usize = 1048576;

/// One call of the engine.
#[derive(Debug)]
pub enum Call {
    /// Set a parameter of the compression context.
    SetContextParameter { param: CParam, value: i32 },
    /// Set a parameter of the compressor.
    SetCompressorParameter { param: CParam, value: i32 },
    /// Initialise the compressor with the callback that selects its graph.
    InitCompressor { selector: GraphSelector },
    /// Let the compression context refer to the compressor.
    RefCompressor,
    /// Ask how large the frame of `src_size` bytes can get.
    CompressBound { src_size: usize },
    /// Compress the `src_size` source bytes into `dst`, on the compression
    /// context.
    Compress { src_size: usize, dst: Vec<u8> },
    /// Compress the typed input into `dst`, on the compression context.
    CompressTypedRef { input: Shape, dst: Vec<u8> },
    /// Compress the `count` typed inputs, in their order, into one frame in
    /// `dst`, on the compression context.
    CompressMultiTypedRef { count: usize, dst: Vec<u8> },
    /// Compress the `src_size` source bytes into `dst` with the graph that
    /// the callback selects, without a context.
    CompressUsingGraphFn { src_size: usize, selector: GraphSelector, dst: Vec<u8> },
    /// Ask how many bytes the frame of `frame_size` bytes decompresses to.
    DecompressedSize { frame_size: usize },
    /// Decompress the frame of `frame_size` bytes into `dst`, without a
    /// context.
    Decompress { frame_size: usize, dst: Vec<u8> },
    /// Decompress the frame of `frame_size` bytes into an output buffer
    /// that the engine sizes, on the decompression context.
    DecompressTypedBuffer { frame_size: usize },
}

/// A [`Call`] as mathematical values.
pub enum CallView {
    SetContextParameter { param: CParam, value: i32 },
    SetCompressorParameter { param: CParam, value: i32 },
    InitCompressor { selector: GraphSelector },
    RefCompressor,
    CompressBound { src_size: usize },
    Compress { src_size: usize, dst: Seq<u8> },
    CompressTypedRef { input: Shape, dst: Seq<u8> },
    CompressMultiTypedRef { count: usize, dst: Seq<u8> },
    CompressUsingGraphFn { src_size: usize, selector: GraphSelector, dst: Seq<u8> },
    DecompressedSize { frame_size: usize },
    Decompress { frame_size: usize, dst: Seq<u8> },
    DecompressTypedBuffer { frame_size: usize },
}

impl View for Call {
    type V = CallView;

    open spec fn view(&self) -> CallView {
        match *self {
            Call::SetContextParameter { param, value } => CallView::SetContextParameter {
                param,
                value,
            },
            Call::SetCompressorParameter { param, value } => CallView::SetCompressorParameter {
                param,
                value,
            },
            Call::InitCompressor { selector } => CallView::InitCompressor { selector },
            Call::RefCompressor => CallView::RefCompressor,
            Call::CompressBound { src_size } => CallView::CompressBound { src_size },
            Call::Compress { src_size, dst } => CallView::Compress { src_size, dst: dst@ },
            Call::CompressTypedRef { input, dst } => CallView::CompressTypedRef {
                input,
                dst: dst@,
            },
            Call::CompressMultiTypedRef { count, dst } => CallView::CompressMultiTypedRef {
                count,
                dst: dst@,
            },
            Call::CompressUsingGraphFn { src_size, selector, dst } => {
                CallView::CompressUsingGraphFn { src_size, selector, dst: dst@ }
            },
            Call::DecompressedSize { frame_size } => CallView::DecompressedSize { frame_size },
            Call::Decompress { frame_size, dst } => CallView::Decompress {
                frame_size,
                dst: dst@,
            },
            Call::DecompressTypedBuffer { frame_size } => CallView::DecompressTypedBuffer {
                frame_size,
            },
        }
    }
}

/// The engine's answer to one [`Call`].
#[derive(Debug)]
pub enum Reply {
    /// The report of a call that writes nothing.
    Report(Report),
    /// The bound that was asked for.
    Bound(usize),
    /// The report of a call that writes into a destination, and the
    /// destination as the call left it.
    Written { report: Report, dst: Vec<u8> },
    /// The report of a call that fills an output buffer, and what is found
    /// in the buffer after it.
    Decoded { report: Report, buffer: TypedBuffer },
}

/// What a job gives when it succeeds.
#[derive(Debug)]
pub enum Output {
    /// A frame, or the bytes that a frame held.
    Bytes(Vec<u8>),
    /// An output buffer as the engine filled it.
    Buffer(TypedBuffer),
    /// The numbers in an output buffer.
    Numbers(Span),
}

/// An [`Output`] as mathematical values.
pub enum OutputView {
    Bytes(Seq<u8>),
    Buffer(TypedBuffer),
    Numbers(Span),
}

impl View for Output {
    type V = OutputView;

    open spec fn view(&self) -> OutputView {
        match *self {
            Output::Bytes(bytes) => OutputView::Bytes(bytes@),
            Output::Buffer(buffer) => OutputView::Buffer(buffer),
            Output::Numbers(span) => OutputView::Numbers(span),
        }
    }
}

/// What a job wants next: a call of the engine, or nothing more, with its
/// result.
#[derive(Debug)]
pub enum Step {
    Call(Call),
    Done(Result<Output, Error>),
}

/// A [`Step`] as mathematical values.
pub enum StepView {
    Call(CallView),
    Done(Result<OutputView, ErrorView>),
}

impl View for Step {
    type V = StepView;

    open spec fn view(&self) -> StepView {
        match *self {
            Step::Call(call) => StepView::Call(call@),
            Step::Done(Ok(output)) => StepView::Done(Ok(output@)),
            Step::Done(Err(e)) => StepView::Done(Err(e@)),
        }
    }
}

/// What a call is made for, within a job.
#[derive(Debug, Clone, Copy, PartialEq, Eq, Structural)]
pub enum Stage {
    /// The format version is set on the compression context.
    ContextVersion,
    /// The format version is set on the compressor.
    CompressorVersion,
    /// The compressor is initialised with its graph.
    Init,
    /// The compression context is made to refer to the compressor.
    Reference,
    /// The capacity of the destination is asked for.
    Bound,
    /// The input is compressed.
    Compress,
    /// The size of the decompressed data is asked for.
    Size,
    /// The frame is decompressed into a destination of that size.
    Decompress,
    /// The frame is decompressed into an output buffer.
    Decode,
}

/// What a job is to do.
#[derive(Debug, Clone, Copy, PartialEq, Eq, Structural)]
pub enum Operation {
    /// Compress `src_size` bytes with the engine's default graph.
    CompressSerial { src_size: usize },
    /// Compress one typed input with the general-purpose graph.
    CompressTypedRef { input: Shape },
    /// Compress `count` typed inputs into one frame with the
    /// general-purpose graph.
    CompressMultiTypedRef { count: usize },
    /// Compress `count` numbers of `width` bytes with the graph for
    /// numeric arrays.
    CompressNumeric { width: usize, count: usize },
    /// Compress `src_size` bytes with the graph that `selector` selects.
    CompressWithGraph { src_size: usize, selector: GraphSelector },
    /// Decompress a frame of `frame_size` bytes into bytes.
    DecompressSerial { frame_size: usize },
    /// Decompress a frame of `frame_size` bytes into an output buffer.
    DecompressTypedBuffer { frame_size: usize },
    /// Decompress a frame of `frame_size` bytes into numbers of `width`
    /// bytes that lie at multiples of `align`.
    DecompressNumeric { frame_size: usize, width: usize, align: usize },
}

impl Operation {
    /// The calls that the operation makes, in their order, where none
    /// fails.
    pub open spec fn script(self) -> Seq<Stage> {
        match self {
            Operation::CompressSerial { .. } => seq![
                Stage::ContextVersion,
                Stage::Bound,
                Stage::Compress,
            ],
            Operation::CompressTypedRef { .. } | Operation::CompressMultiTypedRef { .. } => seq![
                Stage::ContextVersion,
                Stage::CompressorVersion,
                Stage::Init,
                Stage::Reference,
                Stage::Compress,
            ],
            Operation::CompressNumeric { .. } => seq![
                Stage::ContextVersion,
                Stage::CompressorVersion,
                Stage::Init,
                Stage::Reference,
                Stage::Bound,
                Stage::Compress,
            ],
            Operation::CompressWithGraph { .. } => seq![Stage::Bound, Stage::Compress],
            Operation::DecompressSerial { .. } => seq![Stage::Size, Stage::Decompress],
            Operation::DecompressTypedBuffer { .. } | Operation::DecompressNumeric { .. } => seq![
                Stage::Decode,
            ],
        }
    }

    /// The callback that the operation has the engine select its graph
    /// with.
    pub open spec fn selector(self) -> GraphSelector {
        match self {
            Operation::CompressNumeric { .. } => GraphSelector::Numeric,
            Operation::CompressWithGraph { selector, .. } => selector,
            _ => GraphSelector::Zstd,
        }
    }

    /// The number of bytes that the operation takes in: those that it
    /// compresses, where it knows their number, or those of the frame that
    /// it decompresses.
    pub open spec fn source_size(self) -> nat {
        match self {
            Operation::CompressSerial { src_size } => src_size as nat,
            Operation::CompressNumeric { width, count } => (count * width) as nat,
            Operation::CompressWithGraph { src_size, .. } => src_size as nat,
            Operation::DecompressSerial { frame_size } => frame_size as nat,
            Operation::DecompressTypedBuffer { frame_size } => frame_size as nat,
            Operation::DecompressNumeric { frame_size, .. } => frame_size as nat,
            _ => 0,
        }
    }

    /// Whether the failure of a call is explained by a context: it is where
    /// the call is made on a compression or decompression context.
    pub open spec fn consults_context(self, stage: Stage) -> bool {
        match stage {
            Stage::ContextVersion | Stage::Reference | Stage::Decode => true,
            Stage::Compress => !(self is CompressWithGraph),
            _ => false,
        }
    }

    /// The operations that can be: the bytes of the numbers that one
    /// compresses can be counted.
    pub open spec fn valid(self) -> bool {
        match self {
            Operation::CompressNumeric { width, count } => count * width <= usize::MAX,
            _ => true,
        }
    }
}

/// A destination of `capacity` bytes, as it is handed to the engine: all
/// zero.
pub open spec fn zeros(capacity: nat) -> Seq<u8> {
    Seq::new(capacity, |i: int| 0u8)
}

/// The first `written` bytes of a destination; all of it where the engine
/// claims to have written more than it holds.
pub open spec fn truncated(dst: Seq<u8>, written: nat) -> Seq<u8> {
    if written <= dst.len() {
        dst.take(written as int)
    } else {
        dst
    }
}

/// Whether `reply` is of the kind that answers the call of `stage`.
pub open spec fn answers(stage: Stage, reply: Reply) -> bool {
    match stage {
        Stage::ContextVersion | Stage::CompressorVersion | Stage::Init | Stage::Reference
        | Stage::Size => reply is Report,
        Stage::Bound => reply is Bound,
        Stage::Compress | Stage::Decompress => reply is Written,
        Stage::Decode => reply is Decoded,
    }
}

/// What the reply to the call of `stage` means: the size that the engine
/// reports, or the error that its failure becomes.
pub open spec fn outcome(op: Operation, stage: Stage, reply: Reply) -> Result<usize, ErrorView> {
    match reply {
        Reply::Bound(bound) => Ok(bound),
        Reply::Report(report) | Reply::Written { report, .. } | Reply::Decoded { report, .. } => {
            if op.consults_context(stage) {
                report.contextual_outcome()
            } else {
                report.plain_outcome()
            }
        },
    }
}

/// The call of `stage`, where `carried` is the size that the call before it
/// reported.
pub open spec fn call_at(op: Operation, stage: Stage, carried: usize) -> CallView {
    match stage {
        Stage::ContextVersion => CallView::SetContextParameter {
            param: CParam::FormatVersion,
            value: FORMAT_VERSION,
        },
        Stage::CompressorVersion => CallView::SetCompressorParameter {
            param: CParam::FormatVersion,
            value: FORMAT_VERSION,
        },
        Stage::Init => CallView::InitCompressor { selector: op.selector() },
        Stage::Reference => CallView::RefCompressor,
        Stage::Bound => CallView::CompressBound { src_size: op.source_size() as usize },
        Stage::Compress => match op {
            Operation::CompressTypedRef { input } => CallView::CompressTypedRef {
                input,
                dst: zeros(SCRATCH_CAPACITY as nat),
            },
            Operation::CompressMultiTypedRef { count } => CallView::CompressMultiTypedRef {
                count,
                dst: zeros(SCRATCH_CAPACITY as nat),
            },
            Operation::CompressNumeric { width, count } => CallView::CompressTypedRef {
                input: Shape::Numeric { width, count },
                dst: zeros(carried as nat),
            },
            Operation::CompressWithGraph { src_size, selector } => {
                CallView::CompressUsingGraphFn { src_size, selector, dst: zeros(carried as nat) }
            },
            _ => CallView::Compress {
                src_size: op.source_size() as usize,
                dst: zeros(carried as nat),
            },
        },
        Stage::Size => CallView::DecompressedSize { frame_size: op.source_size() as usize },
        Stage::Decompress => CallView::Decompress {
            frame_size: op.source_size() as usize,
            dst: zeros(carried as nat),
        },
        Stage::Decode => CallView::DecompressTypedBuffer {
            frame_size: op.source_size() as usize,
        },
    }
}

/// The destination that a call hands to the engine: empty for a call that
/// hands none.
pub open spec fn destination(call: CallView) -> Seq<u8> {
    match call {
        CallView::Compress { dst, .. } => dst,
        CallView::CompressTypedRef { dst, .. } => dst,
        CallView::CompressMultiTypedRef { dst, .. } => dst,
        CallView::CompressUsingGraphFn { dst, .. } => dst,
        CallView::Decompress { dst, .. } => dst,
        _ => Seq::empty(),
    }
}

/// What a job gives for an output buffer that the engine has filled: the
/// buffer as it is, or the numbers in it where numbers were asked for.
pub open spec fn decoded(op: Operation, buffer: TypedBuffer) -> Result<OutputView, ErrorView> {
    match op {
        Operation::DecompressNumeric { width, align, .. } => match numbers_found(
            buffer,
            width as nat,
            align as nat,
        ) {
            Ok(span) => Ok(OutputView::Numbers(span)),
            Err(e) => Err(e),
        },
        _ => Ok(OutputView::Buffer(buffer)),
    }
}

/// What a job that has made the first `position` calls of its script wants
/// after `reply`. A failure ends the job with its error. The reply to a call
/// that writes or fills ends it with what was written or filled. Any other
/// reply leads to the next call of the script.
pub open spec fn step_after(op: Operation, position: nat, reply: Reply) -> StepView {
    match outcome(op, op.script()[position as int], reply) {
        Err(e) => StepView::Done(Err(e)),
        Ok(value) => match reply {
            Reply::Report(_) | Reply::Bound(_) => StepView::Call(
                call_at(op, op.script()[position as int + 1], value),
            ),
            Reply::Written { dst, .. } => StepView::Done(
                Ok(OutputView::Bytes(truncated(dst@, value as nat))),
            ),
            Reply::Decoded { buffer, .. } => StepView::Done(decoded(op, buffer)),
        },
    }
}

/// The number of calls that a job has behind it after `reply`: one more, or
/// all of them where the job has ended.
pub open spec fn position_after(op: Operation, position: nat, reply: Reply) -> nat {
    if step_after(op, position, reply) is Done {
        op.script().len()
    } else {
        position + 1
    }
}

/// One operation under way: what it is to do, and how many calls of its
/// script have been answered.
#[derive(Debug)]
pub struct Job {
    op: Operation,
    position: usize,
}

impl Job {
    /// The position is within the script, or at its end.
    #[verifier::type_invariant]
    closed spec fn inv(self) -> bool {
        self.op.valid() && self.position <= self.op.script().len()
    }

    /// What the job is to do.
    pub closed spec fn op(self) -> Operation {
        self.op
    }

    /// How many calls of the script have been answered; all of them where
    /// the job has ended.
    pub closed spec fn position(self) -> nat {
        self.position as nat
    }

    /// Whether the job has ended.
    pub open spec fn finished(self) -> bool {
        self.position() >= self.op().script().len()
    }

    /// What the call that the job waits for is made for.
    pub open spec fn stage(self) -> Stage
        recommends
            !self.finished(),
    {
        self.op().script()[self.position() as int]
    }

    /// Whether `reply` answers the call that the job waits for.
    pub open spec fn expects(self, reply: Reply) -> bool {
        !self.finished() && answers(self.stage(), reply)
    }
}

/// A destination of `capacity` bytes, all zero.
fn zeroed(capacity: usize) -> (dst: Vec<u8>)
    ensures
        dst@ == zeros(capacity as nat),
{
    let dst = vec![0u8; capacity];
    assert(dst@ =~= zeros(capacity as nat));
    dst
}

impl Operation {
    /// The number of calls in the script.
    fn script_len(self) -> (len: usize)
        ensures
            len == self.script().len(),
    {
        match self {
            Operation::CompressSerial { .. } => 3,
            Operation::CompressTypedRef { .. } => 5,
            Operation::CompressMultiTypedRef { .. } => 5,
            Operation::CompressNumeric { .. } => 6,
            Operation::CompressWithGraph { .. } => 2,
            Operation::DecompressSerial { .. } => 2,
            Operation::DecompressTypedBuffer { .. } => 1,
            Operation::DecompressNumeric { .. } => 1,
        }
    }

    /// What the call at `position` of the script is made for.
    fn stage_at(self, position: usize) -> (stage: Stage)
        requires
            position < self.script().len(),
        ensures
            stage == self.script()[position as int],
    {
        match self {
            Operation::CompressSerial { .. } => {
                if position == 0 {
                    Stage::ContextVersion
                } else if position == 1 {
                    Stage::Bound
                } else {
                    Stage::Compress
                }
            },
            Operation::CompressTypedRef { .. } | Operation::CompressMultiTypedRef { .. } => {
                if position == 0 {
                    Stage::ContextVersion
                } else if position == 1 {
                    Stage::CompressorVersion
                } else if position == 2 {
                    Stage::Init
                } else if position == 3 {
                    Stage::Reference
                } else {
                    Stage::Compress
                }
            },
            Operation::CompressNumeric { .. } => {
                if position == 0 {
                    Stage::ContextVersion
                } else if position == 1 {
                    Stage::CompressorVersion
                } else if position == 2 {
                    Stage::Init
                } else if position == 3 {
                    Stage::Reference
                } else if position == 4 {
                    Stage::Bound
                } else {
                    Stage::Compress
                }
            },
            Operation::CompressWithGraph { .. } => {
                if position == 0 {
                    Stage::Bound
                } else {
                    Stage::Compress
                }
            },
            Operation::DecompressSerial { .. } => {
                if position == 0 {
                    Stage::Size
                } else {
                    Stage::Decompress
                }
            },
            Operation::DecompressTypedBuffer { .. } | Operation::DecompressNumeric { .. } => {
                Stage::Decode
            },
        }
    }

    /// The callback that the operation has the engine select its graph
    /// with.
    fn graph_selector(self) -> (selector: GraphSelector)
        ensures
            selector == self.selector(),
    {
        match self {
            Operation::CompressNumeric { .. } => GraphSelector::Numeric,
            Operation::CompressWithGraph { selector, .. } => selector,
            _ => GraphSelector::Zstd,
        }
    }

    /// The number of bytes that the operation takes in.
    fn input_size(self) -> (size: usize)
        requires
            self.valid(),
        ensures
            size == self.source_size(),
    {
        match self {
            Operation::CompressSerial { src_size } => src_size,
            Operation::CompressNumeric { width, count } => count * width,
            Operation::CompressWithGraph { src_size, .. } => src_size,
            Operation::DecompressSerial { frame_size } => frame_size,
            Operation::DecompressTypedBuffer { frame_size } => frame_size,
            Operation::DecompressNumeric { frame_size, .. } => frame_size,
            _ => 0,
        }
    }

    /// The call of `stage`, see [`call_at`].
    fn call(self, stage: Stage, carried: usize) -> (call: Call)
        requires
            self.valid(),
        ensures
            call@ == call_at(self, stage, carried),
    {
        match stage {
            Stage::ContextVersion => Call::SetContextParameter {
                param: CParam::FormatVersion,
                value: FORMAT_VERSION,
            },
            Stage::CompressorVersion => Call::SetCompressorParameter {
                param: CParam::FormatVersion,
                value: FORMAT_VERSION,
            },
            Stage::Init => Call::InitCompressor { selector: self.graph_selector() },
            Stage::Reference => Call::RefCompressor,
            Stage::Bound => Call::CompressBound { src_size: self.input_size() },
            Stage::Compress => match self {
                Operation::CompressTypedRef { input } => Call::CompressTypedRef {
                    input,
                    dst: zeroed(SCRATCH_CAPACITY),
                },
                Operation::CompressMultiTypedRef { count } => Call::CompressMultiTypedRef {
                    count,
                    dst: zeroed(SCRATCH_CAPACITY),
                },
                Operation::CompressNumeric { width, count } => Call::CompressTypedRef {
                    input: Shape::Numeric { width, count },
                    dst: zeroed(carried),
                },
                Operation::CompressWithGraph { src_size, selector } => {
                    Call::CompressUsingGraphFn { src_size, selector, dst: zeroed(carried) }
                },
                _ => Call::Compress { src_size: self.input_size(), dst: zeroed(carried) },
            },
            Stage::Size => Call::DecompressedSize { frame_size: self.input_size() },
            Stage::Decompress => Call::Decompress {
                frame_size: self.input_size(),
                dst: zeroed(carried),
            },
            Stage::Decode => Call::DecompressTypedBuffer { frame_size: self.input_size() },
        }
    }

    /// Whether the failure of the call of `stage` is explained by a
    /// context.
    fn asks_context(self, stage: Stage) -> (asks: bool)
        ensures
            asks == self.consults_context(stage),
    {
        match stage {
            Stage::ContextVersion | Stage::Reference | Stage::Decode => true,
            Stage::Compress => match self {
                Operation::CompressWithGraph { .. } => false,
                _ => true,
            },
            _ => false,
        }
    }
}

/// Whether `reply` is of the kind that answers the call of `stage`.
fn is_answer(stage: Stage, reply: &Reply) -> (fits: bool)
    ensures
        fits == answers(stage, *reply),
{
    match stage {
        Stage::ContextVersion | Stage::CompressorVersion | Stage::Init | Stage::Reference
        | Stage::Size => match reply {
            Reply::Report(_) => true,
            _ => false,
        },
        Stage::Bound => match reply {
            Reply::Bound(_) => true,
            _ => false,
        },
        Stage::Compress | Stage::Decompress => match reply {
            Reply::Written { .. } => true,
            _ => false,
        },
        Stage::Decode => match reply {
            Reply::Decoded { .. } => true,
            _ => false,
        },
    }
}

/// The result that a report becomes, with or without its context.
fn bridge(report: Report, with_context: bool) -> (r: Result<usize, Error>)
    ensures
        result_view(r) == if with_context {
            report.contextual_outcome()
        } else {
            report.plain_outcome()
        },
{
    if with_context {
        report.into_result()
    } else {
        report.into_plain_result()
    }
}

impl Job {
    /// The job on `op` that ends before it has begun, with the error `e`.
    pub(crate) fn refuse(op: Operation, e: Error) -> (r: (Job, Step))
        requires
            op.valid(),
        ensures
            r.0.op() == op,
            r.0.finished(),
            r.1@ == StepView::Done(Err(e@)),
    {
        (Job { op, position: op.script_len() }, Step::Done(Err(e)))
    }

    /// The job that is to do `op`, and its first call.
    pub(crate) fn start(op: Operation) -> (r: (Job, Step))
        requires
            op.valid(),
        ensures
            r.0.op() == op,
            r.0.position() == 0,
            r.1@ == StepView::Call(call_at(op, op.script()[0], 0)),
    {
        let first = op.call(op.stage_at(0), 0);
        (Job { op, position: 0 }, Step::Call(first))
    }

    /// What the job is to do.
    pub fn operation(&self) -> (op: Operation)
        ensures
            op == self.op(),
    {
        self.op
    }

    /// Whether the job has ended.
    pub fn is_finished(&self) -> (ended: bool)
        ensures
            ended == self.finished(),
    {
        self.position >= self.op.script_len()
    }

    /// Whether `reply` answers the call that the job waits for.
    pub fn accepts(&self, reply: &Reply) -> (fits: bool)
        ensures
            fits == self.expects(*reply),
    {
        proof {
            use_type_invariant(self);
        }
        if self.position >= self.op.script_len() {
            false
        } else {
            is_answer(self.op.stage_at(self.position), reply)
        }
    }

    /// Takes the engine's reply to the call that the job waits for, and
    /// gives the job as it then stands and what it wants next, see
    /// [`step_after`].
    pub fn advance(self, reply: Reply) -> (r: (Job, Step))
        requires
            self.expects(reply),
        ensures
            r.0.op() == self.op(),
            r.0.position() == position_after(self.op(), self.position(), reply),
            r.1@ == step_after(self.op(), self.position(), reply),
    {
        proof {
            use_type_invariant(&self);
        }
        let op = self.op;
        let len = op.script_len();
        let stage = op.stage_at(self.position);
        let with_context = op.asks_context(stage);
        match reply {
            Reply::Bound(bound) => {
                let next = op.call(op.stage_at(self.position + 1), bound);
                (Job { op, position: self.position + 1 }, Step::Call(next))
            },
            Reply::Report(report) => match bridge(report, with_context) {
                Err(e) => (Job { op, position: len }, Step::Done(Err(e))),
                Ok(value) => {
                    let next = op.call(op.stage_at(self.position + 1), value);
                    (Job { op, position: self.position + 1 }, Step::Call(next))
                },
            },
            Reply::Written { report, dst } => match bridge(report, with_context) {
                Err(e) => (Job { op, position: len }, Step::Done(Err(e))),
                Ok(written) => {
                    let mut bytes = dst;
                    bytes.truncate(written);
                    (Job { op, position: len }, Step::Done(Ok(Output::Bytes(bytes))))
                },
            },
            Reply::Decoded { report, buffer } => match bridge(report, with_context) {
                Err(e) => (Job { op, position: len }, Step::Done(Err(e))),
                Ok(_) => {
                    let result = match op {
                        Operation::DecompressNumeric { width, align, .. } => match buffer.numbers(
                            width,
                            align,
                        ) {
                            Ok(span) => Ok(Output::Numbers(span)),
                            Err(e) => Err(e),
                        },
                        _ => Ok(Output::Buffer(buffer)),
                    };
                    (Job { op, position: len }, Step::Done(result))
                },
            },
        }
    }
}

impl Reply {
    /// The report in the reply; a bound counts as a report of its value.
    pub open spec fn report(self) -> Report {
        match self {
            Reply::Bound(bound) => Report::Value(bound),
            Reply::Report(report) | Reply::Written { report, .. } | Reply::Decoded {
                report,
                ..
            } => report,
        }
    }
}

/// A call that writes into a destination or fills an output buffer is the
/// last of its script, and the last call of every script is one of these.
pub proof fn writing_call_is_last(op: Operation, position: nat)
    requires
        position < op.script().len(),
    ensures
        (op.script()[position as int] == Stage::Compress || op.script()[position as int]
            == Stage::Decompress || op.script()[position as int] == Stage::Decode) <==> position
            + 1 == op.script().len(),
{
}

/// Every reply moves a job on by one call or ends it, and no job takes more
/// than six calls.
pub proof fn job_moves_on(job: Job, reply: Reply)
    requires
        job.expects(reply),
    ensures
        job.position() < position_after(job.op(), job.position(), reply) <= job.op().script().len()
            <= 6,
        step_after(job.op(), job.position(), reply) is Done <==> position_after(
            job.op(),
            job.position(),
            reply,
        ) == job.op().script().len(),
{
    writing_call_is_last(job.op(), job.position());
}

/// A failure of the engine ends the job and reaches the caller unchanged:
/// with the engine's code and name, and with the diagnostic of the context
/// on which the call was made, where it was made on one.
pub proof fn failure_ends_job(op: Operation, position: nat, reply: Reply)
    requires
        position < op.script().len(),
        answers(op.script()[position as int], reply),
        reply.report() is Failure,
    ensures
        step_after(op, position, reply) == StepView::Done(
            Err(
                if op.consults_context(op.script()[position as int]) {
                    reply.report()->Failure_0.contextual_error()
                } else {
                    reply.report()->Failure_0.plain_error()
                },
            ),
        ),
        position_after(op, position, reply) == op.script().len(),
{
}

/// Where the engine reports `written` bytes in a destination that holds as
/// many, the job gives exactly those bytes: none is added and none is
/// lost.
pub proof fn written_bytes_are_returned(
    op: Operation,
    position: nat,
    written: usize,
    dst: Vec<u8>,
)
    requires
        position < op.script().len(),
        written <= dst@.len(),
    ensures
        step_after(op, position, Reply::Written { report: Report::Value(written), dst })
            == StepView::Done(Ok(OutputView::Bytes(dst@.take(written as int)))),
        dst@.take(written as int).len() == written,
{
}

/// Every operation that compresses on a context begins by setting the
/// format version on it.
pub proof fn format_version_is_set_first(op: Operation)
    requires
        op is CompressSerial || op is CompressTypedRef || op is CompressMultiTypedRef
            || op is CompressNumeric,
    ensures
        call_at(op, op.script()[0], 0) == (CallView::SetContextParameter {
            param: CParam::FormatVersion,
            value: FORMAT_VERSION,
        }),
{
}

/// A context is made to refer to a compressor only after the compressor
/// has been given the format version and then its graph.
pub proof fn compressor_is_built_before_it_is_referenced(op: Operation, position: nat)
    requires
        position < op.script().len(),
        op.script()[position as int] == Stage::Reference,
    ensures
        position >= 2,
        op.script()[position - 1] == Stage::Init,
        op.script()[position - 2] == Stage::CompressorVersion,
        call_at(op, Stage::CompressorVersion, 0) == (CallView::SetCompressorParameter {
            param: CParam::FormatVersion,
            value: FORMAT_VERSION,
        }),
{
}

/// The destination of a compression has the capacity that the engine gave
/// as its bound, where the operation asks for one, and
/// [`SCRATCH_CAPACITY`] where it does not. The destination of a
/// decompression has the size that the engine gave for the decompressed
/// data.
pub proof fn destination_is_sized_by_the_call_before(op: Operation, position: nat, size: usize)
    requires
        0 < position < op.script().len(),
        op.script()[position as int] == Stage::Compress || op.script()[position as int]
            == Stage::Decompress,
    ensures
        op.script()[position - 1] == Stage::Bound ==> destination(
            call_at(op, op.script()[position as int], size),
        ) == zeros(size as nat),
        op.script()[position - 1] == Stage::Size ==> destination(
            call_at(op, op.script()[position as int], size),
        ) == zeros(size as nat),
        op.script()[position - 1] == Stage::Reference ==> destination(
            call_at(op, op.script()[position as int], size),
        ) == zeros(SCRATCH_CAPACITY as nat),
        op.script()[position - 1] == Stage::Bound || op.script()[position - 1] == Stage::Size
            || op.script()[position - 1] == Stage::Reference,
{
}

} // verus!
