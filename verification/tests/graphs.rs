use openzl::graph::{
    field_lz_graph_callback, numeric_graph_callback, store_graph_callback, zstd_graph_callback,
    FORMAT_VERSION,
};
use openzl::{
    make_graph_selector_fn, CParam, Compressor, FieldLzGraph, GraphFn, GraphId, GraphSelector,
    NumericGraph, StandardGraph, StoreGraph, ZstdGraph,
};

const ALL: [StandardGraph; 9] = [
    StandardGraph::Store,
    StandardGraph::Zstd,
    StandardGraph::Numeric,
    StandardGraph::FieldLz,
    StandardGraph::Fse,
    StandardGraph::Huffman,
    StandardGraph::Entropy,
    StandardGraph::Bitpack,
    StandardGraph::Constant,
];

#[test]
fn format_version_is_twenty_one() {
    assert_eq!(FORMAT_VERSION, 21);
}

#[test]
fn standard_graphs_have_distinct_identifiers() {
    for (i, a) in ALL.iter().enumerate() {
        for (j, b) in ALL.iter().enumerate() {
            assert_eq!(a.id() == b.id(), i == j);
        }
    }
}

#[test]
fn graph_identifiers_are_equal_by_number() {
    for a in ALL.iter() {
        for b in ALL.iter() {
            assert_eq!(a.id() == b.id(), a.id().as_raw() == b.id().as_raw());
        }
    }
}

#[test]
fn graph_identifiers_name_their_graph() {
    for g in ALL.iter() {
        assert_eq!(g.id().standard(), *g);
    }
    let zstd: GraphId = StandardGraph::Zstd.id();
    assert_eq!(zstd, StandardGraph::Zstd.id());
    assert_ne!(zstd, StandardGraph::Store.id());
}

#[test]
fn standard_graph_functions_return_their_graph() {
    let mut c = Compressor::new();
    assert_eq!(ZstdGraph.build_graph(&mut c), StandardGraph::Zstd.id());
    assert_eq!(NumericGraph.build_graph(&mut c), StandardGraph::Numeric.id());
    assert_eq!(StoreGraph.build_graph(&mut c), StandardGraph::Store.id());
    assert_eq!(FieldLzGraph.build_graph(&mut c), StandardGraph::FieldLz.id());
    assert!(c.parameters.is_empty());
}

#[test]
fn graphs_with_a_callback_are_selected_as_themselves() {
    assert_eq!(make_graph_selector_fn(StandardGraph::Zstd.id()), GraphSelector::Zstd);
    assert_eq!(make_graph_selector_fn(StandardGraph::Numeric.id()), GraphSelector::Numeric);
    assert_eq!(make_graph_selector_fn(StandardGraph::Store.id()), GraphSelector::Store);
    assert_eq!(make_graph_selector_fn(StandardGraph::FieldLz.id()), GraphSelector::FieldLz);
}

#[test]
fn graphs_without_a_callback_fall_back_to_zstd() {
    assert_eq!(make_graph_selector_fn(StandardGraph::Fse.id()), GraphSelector::Zstd);
    assert_eq!(make_graph_selector_fn(StandardGraph::Huffman.id()), GraphSelector::Zstd);
    assert_eq!(make_graph_selector_fn(StandardGraph::Entropy.id()), GraphSelector::Zstd);
    assert_eq!(make_graph_selector_fn(StandardGraph::Bitpack.id()), GraphSelector::Zstd);
    assert_eq!(make_graph_selector_fn(StandardGraph::Constant.id()), GraphSelector::Zstd);
}

#[test]
fn selectors_name_their_graph() {
    assert_eq!(GraphSelector::Zstd.graph(), StandardGraph::Zstd);
    assert_eq!(GraphSelector::Numeric.graph(), StandardGraph::Numeric);
    assert_eq!(GraphSelector::Store.graph(), StandardGraph::Store);
    assert_eq!(GraphSelector::FieldLz.graph(), StandardGraph::FieldLz);
}

#[test]
fn every_callback_sets_the_format_version_and_returns_its_graph() {
    let mut c = Compressor::new();
    assert_eq!(zstd_graph_callback(&mut c), StandardGraph::Zstd.id());
    assert_eq!(c.parameters, vec![(CParam::FormatVersion, 21)]);
    let mut c = Compressor::new();
    assert_eq!(numeric_graph_callback(&mut c), StandardGraph::Numeric.id());
    assert_eq!(c.parameters, vec![(CParam::FormatVersion, 21)]);
    let mut c = Compressor::new();
    assert_eq!(store_graph_callback(&mut c), StandardGraph::Store.id());
    assert_eq!(c.parameters, vec![(CParam::FormatVersion, 21)]);
    let mut c = Compressor::new();
    assert_eq!(field_lz_graph_callback(&mut c), StandardGraph::FieldLz.id());
    assert_eq!(c.parameters, vec![(CParam::FormatVersion, 21)]);
}

#[test]
fn a_selector_runs_its_callback_after_what_was_set_before() {
    let mut c = Compressor::new();
    c.set_parameter(CParam::CompressionLevel, 3);
    assert_eq!(GraphSelector::Store.select(&mut c), StandardGraph::Store.id());
    assert_eq!(c.parameters, vec![(CParam::CompressionLevel, 3), (CParam::FormatVersion, 21)]);
    for selector in [
        GraphSelector::Zstd,
        GraphSelector::Numeric,
        GraphSelector::Store,
        GraphSelector::FieldLz,
    ] {
        let mut c = Compressor::new();
        assert_eq!(selector.select(&mut c), selector.graph().id());
        assert_eq!(c.parameters, vec![(CParam::FormatVersion, 21)]);
    }
}

#[test]
fn a_new_compressor_has_nothing_set() {
    assert!(Compressor::new().parameters.is_empty());
    assert!(Compressor::default().parameters.is_empty());
    let mut c = Compressor::new();
    c.set_parameter(CParam::CompressionLevel, 3);
    c.set_parameter(CParam::FormatVersion, 20);
    c.set_parameter(CParam::CompressionLevel, 5);
    assert_eq!(
        c.parameters,
        vec![
            (CParam::CompressionLevel, 3),
            (CParam::FormatVersion, 20),
            (CParam::CompressionLevel, 5)
        ]
    );
}
