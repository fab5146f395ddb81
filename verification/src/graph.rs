use vstd::prelude::*;

verus! {

/// The format version that every entry point sets before it compresses.
pub const FORMAT_VERSION: i32 = 21;

/// A parameter of a compressor or of a compression context.
#[derive(Debug, Clone, Copy, PartialEq, Eq, Structural)]
pub enum CParam {
    StickyParameters,
    CompressionLevel,
    DecompressionLevel,
    FormatVersion,
    PermissiveCompression,
    CompressedChecksum,
    ContentChecksum,
    MinStreamSize,
}

/// The identifier of a compression graph: a number that names one of the
/// graphs that the engine provides. Two identifiers are equal where their
/// numbers are. The number is this layer's name for the graph; the engine is
/// told of a graph by the engine's own constant for it.
#[derive(Debug, Clone, Copy, PartialEq, Eq, Structural)]
pub struct GraphId {
    gid: u32,
}

/// The graphs that the engine provides ready-made.
#[derive(Debug, Clone, Copy, PartialEq, Eq, Structural)]
pub enum StandardGraph {
    /// No compression: the data is stored as it is.
    Store,
    /// General-purpose compression.
    Zstd,
    /// Compression of numeric arrays.
    Numeric,
    /// Field-level LZ compression.
    FieldLz,
    /// FSE entropy coding.
    Fse,
    /// Huffman entropy coding.
    Huffman,
    /// Entropy coding, FSE or Huffman as fits.
    Entropy,
    /// Bit packing.
    Bitpack,
    /// Compression of a constant value.
    Constant,
}

/// The number by which a standard graph is identified.
pub open spec fn number_of(graph: StandardGraph) -> nat {
    match graph {
        StandardGraph::Store => 1,
        StandardGraph::Zstd => 2,
        StandardGraph::Numeric => 3,
        StandardGraph::FieldLz => 4,
        StandardGraph::Fse => 5,
        StandardGraph::Huffman => 6,
        StandardGraph::Entropy => 7,
        StandardGraph::Bitpack => 8,
        StandardGraph::Constant => 9,
    }
}

impl GraphId {
    /// Every identifier names a standard graph.
    #[verifier::type_invariant]
    closed spec fn inv(self) -> bool {
        1 <= self.gid <= 9
    }

    /// The number of the identifier.
    pub closed spec fn raw(self) -> nat {
        self.gid as nat
    }

    /// The number of the identifier.
    pub fn as_raw(&self) -> (id: u32)
        ensures
            id == self.raw(),
            1 <= id <= 9,
    {
        proof {
            use_type_invariant(self);
        }
        self.gid
    }

    /// The standard graph that the identifier names.
    pub open spec fn spec_standard(self) -> StandardGraph {
        if self.raw() == 1 {
            StandardGraph::Store
        } else if self.raw() == 2 {
            StandardGraph::Zstd
        } else if self.raw() == 3 {
            StandardGraph::Numeric
        } else if self.raw() == 4 {
            StandardGraph::FieldLz
        } else if self.raw() == 5 {
            StandardGraph::Fse
        } else if self.raw() == 6 {
            StandardGraph::Huffman
        } else if self.raw() == 7 {
            StandardGraph::Entropy
        } else if self.raw() == 8 {
            StandardGraph::Bitpack
        } else {
            StandardGraph::Constant
        }
    }

    /// The standard graph that the identifier names.
    #[verifier::when_used_as_spec(spec_standard)]
    pub fn standard(self) -> (graph: StandardGraph)
        ensures
            graph == self.spec_standard(),
            number_of(graph) == self.raw(),
    {
        proof {
            use_type_invariant(self);
        }
        if self.gid == 1 {
            StandardGraph::Store
        } else if self.gid == 2 {
            StandardGraph::Zstd
        } else if self.gid == 3 {
            StandardGraph::Numeric
        } else if self.gid == 4 {
            StandardGraph::FieldLz
        } else if self.gid == 5 {
            StandardGraph::Fse
        } else if self.gid == 6 {
            StandardGraph::Huffman
        } else if self.gid == 7 {
            StandardGraph::Entropy
        } else if self.gid == 8 {
            StandardGraph::Bitpack
        } else {
            StandardGraph::Constant
        }
    }
}

impl StandardGraph {
    /// The fixed identifier of the graph.
    pub closed spec fn spec_id(self) -> GraphId {
        GraphId { gid: number_of(self) as u32 }
    }

    /// The fixed identifier of the graph.
    #[verifier::when_used_as_spec(spec_id)]
    pub fn id(self) -> (g: GraphId)
        ensures
            g == self.spec_id(),
            g.raw() == number_of(self),
            g.standard() == self,
    {
        let gid: u32 = match self {
            StandardGraph::Store => 1,
            StandardGraph::Zstd => 2,
            StandardGraph::Numeric => 3,
            StandardGraph::FieldLz => 4,
            StandardGraph::Fse => 5,
            StandardGraph::Huffman => 6,
            StandardGraph::Entropy => 7,
            StandardGraph::Bitpack => 8,
            StandardGraph::Constant => 9,
        };
        GraphId { gid }
    }
}

/// The identifier of a standard graph names that graph, and its number is
/// the graph's.
pub proof fn identifier_names_its_graph(graph: StandardGraph)
    ensures
        graph.id().standard() == graph,
        graph.id().raw() == number_of(graph),
{
}

/// No two standard graphs share an identifier.
pub proof fn standard_ids_are_distinct(a: StandardGraph, b: StandardGraph)
    ensures
        a.id() == b.id() <==> a == b,
{
    identifier_names_its_graph(a);
    identifier_names_its_graph(b);
}

/// Two identifiers are equal where their numbers are, and where they name
/// the same graph.
pub proof fn identifiers_are_equal_by_number(a: GraphId, b: GraphId)
    ensures
        a == b <==> a.raw() == b.raw(),
        a.raw() == b.raw() ==> a.standard() == b.standard(),
{
}

/// The settings that a graph function makes on the engine's compressor, in
/// the order in which it makes them. The engine's answers to them are no part
/// of it: a graph function does not wait for them.
#[derive(Debug)]
pub struct Compressor {
    pub parameters: Vec<(CParam, i32)>,
}

impl View for Compressor {
    type V = Seq<(CParam, i32)>;

    open spec fn view(&self) -> Seq<(CParam, i32)> {
        self.parameters@
    }
}

impl Compressor {
    /// A compressor on which nothing has been set.
    pub fn new() -> (c: Compressor)
        ensures
            c@ == Seq::<(CParam, i32)>::empty(),
    {
        Compressor { parameters: Vec::new() }
    }

    /// Sets `param` to `value`, after all that was set before.
    pub fn set_parameter(&mut self, param: CParam, value: i32)
        ensures
            final(self)@ == old(self)@.push((param, value)),
    {
        self.parameters.push((param, value));
    }
}

impl Default for Compressor {
    /// A compressor on which nothing has been set.
    fn default() -> (c: Compressor)
        ensures
            c@ == Seq::<(CParam, i32)>::empty(),
    {
        Compressor::new()
    }
}

/// A compression strategy: it says which graph compression starts from, and
/// may set parameters on the compressor on the way.
pub trait GraphFn {
    /// The graph that [`GraphFn::build_graph`] returns.
    open spec fn graph(&self, before: Seq<(CParam, i32)>) -> GraphId {
        arbitrary()
    }

    /// The settings that [`GraphFn::build_graph`] leaves on the compressor.
    open spec fn settings(&self, before: Seq<(CParam, i32)>) -> Seq<(CParam, i32)> {
        arbitrary()
    }

    /// Builds the graph on `compressor` and returns the graph to start from.
    fn build_graph(&self, compressor: &mut Compressor) -> (g: GraphId)
        ensures
            g == self.graph(old(compressor)@),
            final(compressor)@ == self.settings(old(compressor)@),
    ;
}

/// The standard graph for general-purpose compression.
pub struct ZstdGraph;

impl GraphFn for ZstdGraph {
    open spec fn graph(&self, before: Seq<(CParam, i32)>) -> GraphId {
        StandardGraph::Zstd.id()
    }

    open spec fn settings(&self, before: Seq<(CParam, i32)>) -> Seq<(CParam, i32)> {
        before
    }

    fn build_graph(&self, compressor: &mut Compressor) -> (g: GraphId) {
        StandardGraph::Zstd.id()
    }
}

/// The standard graph for numeric arrays.
pub struct NumericGraph;

impl GraphFn for NumericGraph {
    open spec fn graph(&self, before: Seq<(CParam, i32)>) -> GraphId {
        StandardGraph::Numeric.id()
    }

    open spec fn settings(&self, before: Seq<(CParam, i32)>) -> Seq<(CParam, i32)> {
        before
    }

    fn build_graph(&self, compressor: &mut Compressor) -> (g: GraphId) {
        StandardGraph::Numeric.id()
    }
}

/// The standard graph that stores the data as it is.
pub struct StoreGraph;

impl GraphFn for StoreGraph {
    open spec fn graph(&self, before: Seq<(CParam, i32)>) -> GraphId {
        StandardGraph::Store.id()
    }

    open spec fn settings(&self, before: Seq<(CParam, i32)>) -> Seq<(CParam, i32)> {
        before
    }

    fn build_graph(&self, compressor: &mut Compressor) -> (g: GraphId) {
        StandardGraph::Store.id()
    }
}

/// The standard graph for field-level LZ compression.
pub struct FieldLzGraph;

impl GraphFn for FieldLzGraph {
    open spec fn graph(&self, before: Seq<(CParam, i32)>) -> GraphId {
        StandardGraph::FieldLz.id()
    }

    open spec fn settings(&self, before: Seq<(CParam, i32)>) -> Seq<(CParam, i32)> {
        before
    }

    fn build_graph(&self, compressor: &mut Compressor) -> (g: GraphId) {
        StandardGraph::FieldLz.id()
    }
}

/// One of the callbacks that the engine can be handed to select a graph.
#[derive(Debug, Clone, Copy, PartialEq, Eq, Structural)]
pub enum GraphSelector {
    Zstd,
    Numeric,
    Store,
    FieldLz,
}

impl GraphSelector {
    /// The graph that the callback selects.
    pub open spec fn spec_graph(self) -> StandardGraph {
        match self {
            GraphSelector::Zstd => StandardGraph::Zstd,
            GraphSelector::Numeric => StandardGraph::Numeric,
            GraphSelector::Store => StandardGraph::Store,
            GraphSelector::FieldLz => StandardGraph::FieldLz,
        }
    }

    /// The graph that the callback selects.
    #[verifier::when_used_as_spec(spec_graph)]
    pub fn graph(self) -> (g: StandardGraph)
        ensures
            g == self.spec_graph(),
    {
        match self {
            GraphSelector::Zstd => StandardGraph::Zstd,
            GraphSelector::Numeric => StandardGraph::Numeric,
            GraphSelector::Store => StandardGraph::Store,
            GraphSelector::FieldLz => StandardGraph::FieldLz,
        }
    }

    /// Runs the callback on `compressor`, as the engine does while it
    /// initialises: the format version is set, then the graph is returned.
    pub fn select(self, compressor: &mut Compressor) -> (g: GraphId)
        ensures
            g == self.graph().id(),
            final(compressor)@ == old(compressor)@.push((CParam::FormatVersion, FORMAT_VERSION)),
    {
        match self {
            GraphSelector::Zstd => zstd_graph_callback(compressor),
            GraphSelector::Numeric => numeric_graph_callback(compressor),
            GraphSelector::Store => store_graph_callback(compressor),
            GraphSelector::FieldLz => field_lz_graph_callback(compressor),
        }
    }
}

/// The callback that stands for a graph identifier: the callback of
/// its own for each of the graphs that has one, and that of the
/// general-purpose graph for every other identifier.
pub open spec fn selector_for(graph_id: GraphId) -> GraphSelector {
    match graph_id.standard() {
        StandardGraph::Zstd => GraphSelector::Zstd,
        StandardGraph::Numeric => GraphSelector::Numeric,
        StandardGraph::Store => GraphSelector::Store,
        StandardGraph::FieldLz => GraphSelector::FieldLz,
        _ => GraphSelector::Zstd,
    }
}

/// Gives the callback that stands for a graph identifier, see
/// [`selector_for`].
pub fn make_graph_selector_fn(graph_id: GraphId) -> (selector: GraphSelector)
    ensures
        selector == selector_for(graph_id),
{
    match graph_id.standard() {
        StandardGraph::Zstd => GraphSelector::Zstd,
        StandardGraph::Numeric => GraphSelector::Numeric,
        StandardGraph::Store => GraphSelector::Store,
        StandardGraph::FieldLz => GraphSelector::FieldLz,
        _ => GraphSelector::Zstd,
    }
}

/// The callback of the general-purpose graph.
pub fn zstd_graph_callback(compressor: &mut Compressor) -> (g: GraphId)
    ensures
        g == StandardGraph::Zstd.id(),
        final(compressor)@ == old(compressor)@.push((CParam::FormatVersion, FORMAT_VERSION)),
{
    compressor.set_parameter(CParam::FormatVersion, FORMAT_VERSION);
    StandardGraph::Zstd.id()
}

/// The callback of the graph for numeric arrays.
pub fn numeric_graph_callback(compressor: &mut Compressor) -> (g: GraphId)
    ensures
        g == StandardGraph::Numeric.id(),
        final(compressor)@ == old(compressor)@.push((CParam::FormatVersion, FORMAT_VERSION)),
{
    compressor.set_parameter(CParam::FormatVersion, FORMAT_VERSION);
    StandardGraph::Numeric.id()
}

/// The callback of the graph that stores the data as it is.
pub fn store_graph_callback(compressor: &mut Compressor) -> (g: GraphId)
    ensures
        g == StandardGraph::Store.id(),
        final(compressor)@ == old(compressor)@.push((CParam::FormatVersion, FORMAT_VERSION)),
{
    compressor.set_parameter(CParam::FormatVersion, FORMAT_VERSION);
    StandardGraph::Store.id()
}

/// The callback of the graph for field-level LZ compression.
pub fn field_lz_graph_callback(compressor: &mut Compressor) -> (g: GraphId)
    ensures
        g == StandardGraph::FieldLz.id(),
        final(compressor)@ == old(compressor)@.push((CParam::FormatVersion, FORMAT_VERSION)),
{
    compressor.set_parameter(CParam::FormatVersion, FORMAT_VERSION);
    StandardGraph::FieldLz.id()
}

/// A graph that has a callback of its own is selected as itself; every
/// other graph is selected as the general-purpose graph.
pub proof fn selector_returns_its_graph_or_zstd(graph: StandardGraph)
    ensures
        (graph == StandardGraph::Zstd || graph == StandardGraph::Numeric || graph
            == StandardGraph::Store || graph == StandardGraph::FieldLz) ==> selector_for(
            graph.id(),
        ).graph() == graph,
        !(graph == StandardGraph::Zstd || graph == StandardGraph::Numeric || graph
            == StandardGraph::Store || graph == StandardGraph::FieldLz) ==> selector_for(
            graph.id(),
        ) == GraphSelector::Zstd,
{
    identifier_names_its_graph(graph);
}

} // verus!
