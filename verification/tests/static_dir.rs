use salvo_kit::serve_static::{
    parse_exts, CompressedVariations, CompressionAlgo, StaticDir, StaticRoots,
};
use salvo_kit::tower_compat::{FlowCtrlService, TowerServiceCompat};

type Dir = StaticDir<fn(&str) -> bool>;

#[test]
fn compression_algos_are_named() {
    for (name, algo) in [
        ("br", CompressionAlgo::Brotli),
        ("brotli", CompressionAlgo::Brotli),
        ("deflate", CompressionAlgo::Deflate),
        ("gzip", CompressionAlgo::Gzip),
        ("zstd", CompressionAlgo::Zstd),
    ] {
        assert_eq!(name.parse::<CompressionAlgo>(), Ok(algo));
    }
    assert_eq!(
        "lz4".parse::<CompressionAlgo>(),
        Err("unknown compression algorithm: lz4".to_string())
    );
    assert_eq!(CompressionAlgo::Brotli.as_str(), "br");
    assert_eq!(CompressionAlgo::Deflate.as_str(), "deflate");
    assert_eq!(CompressionAlgo::Gzip.as_str(), "gzip");
    assert_eq!(CompressionAlgo::Zstd.as_str(), "zstd");
}

#[test]
fn roots_are_collected() {
    assert_eq!("static".collect(), vec!["static".to_string()]);
    assert_eq!("static".to_string().collect(), vec!["static".to_string()]);
    assert_eq!(
        vec!["a".to_string(), "b".to_string()].collect(),
        vec!["a".to_string(), "b".to_string()]
    );
}

#[test]
fn new_dir_knows_the_usual_variants() {
    let dir = Dir::new("static");
    assert_eq!(dir.roots, vec!["static".to_string()]);
    assert_eq!(dir.chunk_size, None);
    assert!(!dir.include_dot_files);
    assert!(dir.exclude_filters.is_empty());
    assert!(!dir.auto_list);
    assert!(dir.defaults.is_empty());
    assert_eq!(dir.fallback, None);
    let table = &dir.compressed_variations;
    assert_eq!(table.len(), 4);
    assert_eq!(table.get(CompressionAlgo::Brotli), Some(&vec!["br".to_string()]));
    assert_eq!(table.get(CompressionAlgo::Zstd), Some(&vec!["zst".to_string()]));
    assert_eq!(table.get(CompressionAlgo::Gzip), Some(&vec!["gz".to_string()]));
    assert_eq!(table.get(CompressionAlgo::Deflate), Some(&vec!["deflate".to_string()]));
    assert!(dir.is_compressed_ext("gz"));
    assert!(dir.is_compressed_ext("zst"));
    assert!(!dir.is_compressed_ext("gzip"));
    assert!(!dir.is_compressed_ext(""));
}

#[test]
fn dir_builders_set_what_they_name() {
    fn hidden(path: &str) -> bool {
        path.contains("/.")
    }
    let dir = Dir::new(vec!["a".to_string(), "b".to_string()])
        .include_dot_files(true)
        .exclude(hidden)
        .auto_list(true)
        .defaults(vec!["index.html".to_string()])
        .fallback("404.html")
        .chunk_size(4096)
        .compressed_variation(CompressionAlgo::Gzip, "gz, gzip ,tgz");
    assert_eq!(dir.roots, vec!["a".to_string(), "b".to_string()]);
    assert!(dir.include_dot_files);
    assert_eq!(dir.exclude_filters.len(), 1);
    assert!(dir.auto_list);
    assert_eq!(dir.defaults, vec!["index.html".to_string()]);
    assert_eq!(dir.fallback.as_deref(), Some("404.html"));
    assert_eq!(dir.chunk_size, Some(4096));
    assert_eq!(dir.compressed_variations.len(), 4);
    assert_eq!(
        dir.compressed_variations.get(CompressionAlgo::Gzip),
        Some(&vec!["gz".to_string(), "gzip".to_string(), "tgz".to_string()])
    );
    assert_eq!(dir.compressed_variations.get(CompressionAlgo::Brotli), Some(&vec!["br".to_string()]));
    assert!(dir.is_compressed_ext("tgz"));
}

#[test]
fn variations_hold_one_entry_for_each_algo() {
    let mut table = CompressedVariations::new();
    assert!(table.is_empty());
    assert_eq!(table.get(CompressionAlgo::Gzip), None);
    table.insert(CompressionAlgo::Gzip, vec!["gz".to_string()]);
    table.insert(CompressionAlgo::Gzip, vec!["gzip".to_string()]);
    assert_eq!(table.len(), 1);
    assert_eq!(table.get(CompressionAlgo::Gzip), Some(&vec!["gzip".to_string()]));
    assert!(table.has_ext("gzip"));
    assert!(!table.has_ext("gz"));
    assert_eq!(parse_exts(" a ,b"), vec!["a".to_string(), "b".to_string()]);
    assert_eq!(parse_exts(""), vec!["".to_string()]);
}

#[test]
fn services_become_handlers() {
    let handler = "service".compat();
    assert_eq!(handler.0, "service");
    assert_eq!(FlowCtrlService::default(), FlowCtrlService);
}
