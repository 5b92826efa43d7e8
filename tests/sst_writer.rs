use engine::compression::{fastest_supported, fmt_db_compression_type, select, validate, CompressionError, CompressionType};
use engine::sst::{CfOptions, ColumnFamily, FileEnv, SourceDb, SstError, SstRecord, SstWriterBuilder, CF_DEFAULT};

fn all_supported() -> Vec<CompressionType> {
    vec![
        CompressionType::No,
        CompressionType::Snappy,
        CompressionType::Zlib,
        CompressionType::Bz2,
        CompressionType::Lz4,
        CompressionType::Lz4hc,
        CompressionType::Zstd,
    ]
}

fn db_with(names: &[&str], env: Option<u64>) -> SourceDb {
    let mut column_families = Vec::new();
    for name in names {
        let mut options = CfOptions::new();
        options.compression_per_level = vec![CompressionType::No, CompressionType::Zstd];
        options.bottommost_compression = CompressionType::Zstd;
        column_families.push(ColumnFamily { name: name.to_string(), options });
    }
    SourceDb { column_families, env }
}

#[test]
fn fastest_prefers_lz4() {
    assert_eq!(fastest_supported(&all_supported()), CompressionType::Lz4);
}

#[test]
fn fastest_follows_priority() {
    let s = vec![CompressionType::Zstd, CompressionType::Snappy];
    assert_eq!(fastest_supported(&s), CompressionType::Snappy);
    let s = vec![CompressionType::Bz2, CompressionType::Zlib];
    assert_eq!(fastest_supported(&s), CompressionType::Zlib);
}

#[test]
fn fastest_without_codecs_is_none() {
    assert_eq!(fastest_supported(&Vec::new()), CompressionType::No);
    assert_eq!(fastest_supported(&vec![CompressionType::No]), CompressionType::No);
}

#[test]
fn validate_accepts_and_refuses() {
    let s = vec![CompressionType::Snappy];
    assert_eq!(validate(&s, CompressionType::Snappy), Ok(CompressionType::Snappy));
    assert_eq!(validate(&s, CompressionType::Zstd), Err(CompressionError::Unsupported(CompressionType::Zstd)));
    assert_eq!(select(&s, None), Ok(CompressionType::Snappy));
    assert_eq!(select(&s, Some(CompressionType::Lz4)), Err(CompressionError::Unsupported(CompressionType::Lz4)));
}

#[test]
fn compression_names() {
    assert_eq!(fmt_db_compression_type(CompressionType::Lz4), "lz4");
    assert_eq!(fmt_db_compression_type(CompressionType::Snappy), "snappy");
    assert_eq!(fmt_db_compression_type(CompressionType::Zstd), "zstd");
}

#[test]
fn unsupported_compression_fails_build() {
    let s = vec![CompressionType::Snappy];
    let r = SstWriterBuilder::new()
        .set_compression_type(Some(CompressionType::Zstd))
        .build("/tmp/never_created.sst", &s);
    assert_eq!(r.unwrap_err(), SstError::UnsupportedCompression(CompressionType::Zstd));
    assert!(std::path::Path::new("/tmp/never_created.sst").metadata().is_err());
}

#[test]
fn missing_column_family_fails_build() {
    let r = SstWriterBuilder::new()
        .set_db(db_with(&["default"], None))
        .set_cf("lock")
        .build("a.sst", &all_supported());
    assert_eq!(r.unwrap_err(), SstError::ColumnFamilyNotFound("lock".to_string()));
}

#[test]
fn missing_column_family_wins_over_compression() {
    let r = SstWriterBuilder::new()
        .set_db(db_with(&["write"], None))
        .set_compression_type(Some(CompressionType::ZstdNotFinal))
        .build("a.sst", &all_supported());
    assert_eq!(r.unwrap_err(), SstError::ColumnFamilyNotFound(CF_DEFAULT.to_string()));
}

#[test]
fn build_resolves_options() {
    let w = SstWriterBuilder::new()
        .set_db(db_with(&["default", "write"], Some(7)))
        .set_cf("write")
        .build("a.sst", &all_supported())
        .unwrap();
    let f = w.finish();
    assert_eq!(f.file_path, "a.sst");
    assert!(!f.in_memory);
    assert_eq!(f.options.compression, CompressionType::Lz4);
    assert!(f.options.compression_per_level.is_empty());
    assert_eq!(f.options.bottommost_compression, CompressionType::Disable);
    assert_eq!(f.options.env, FileEnv::Shared(7));
}

#[test]
fn build_environments() {
    let w = SstWriterBuilder::new().build("a.sst", &all_supported()).unwrap();
    assert_eq!(w.finish().options.env, FileEnv::Default);
    let w = SstWriterBuilder::new()
        .set_db(db_with(&["default"], Some(3)))
        .set_in_memory(true)
        .build("a.sst", &all_supported())
        .unwrap();
    let f = w.finish();
    assert_eq!(f.options.env, FileEnv::Memory);
    assert!(f.in_memory);
}

#[test]
fn explicit_compression_is_kept() {
    let w = SstWriterBuilder::new()
        .set_compression_type(Some(CompressionType::Zstd))
        .build("a.sst", &all_supported())
        .unwrap();
    assert_eq!(w.finish().options.compression, CompressionType::Zstd);
}

#[test]
fn puts_and_deletes_round_trip() {
    let mut w = SstWriterBuilder::new().build("a.sst", &all_supported()).unwrap();
    w.put(b"a", b"1").unwrap();
    w.delete(b"ab").unwrap();
    w.put(b"b", b"2").unwrap();
    let f = w.finish();
    assert_eq!(f.num_entries(), 3);
    assert_eq!(
        f.records,
        vec![
            SstRecord::Put { key: b"a".to_vec(), value: b"1".to_vec() },
            SstRecord::Delete { key: b"ab".to_vec() },
            SstRecord::Put { key: b"b".to_vec(), value: b"2".to_vec() },
        ]
    );
}

#[test]
fn out_of_order_key_is_refused() {
    let mut w = SstWriterBuilder::new().build("a.sst", &all_supported()).unwrap();
    w.put(b"b", b"1").unwrap();
    assert_eq!(w.put(b"a", b"2"), Err(SstError::KeyOutOfOrder));
    assert_eq!(w.delete(b"b"), Err(SstError::KeyOutOfOrder));
    w.put(b"ba", b"3").unwrap();
    assert_eq!(w.finish().num_entries(), 2);
}

#[test]
fn entry_count_matches_puts() {
    let mut w = SstWriterBuilder::new().build("a.sst", &all_supported()).unwrap();
    for i in 0u8..10 {
        w.put(&[i], b"v").unwrap();
    }
    assert_eq!(w.finish().num_entries(), 10);
}

#[test]
fn disk_and_memory_builds() {
    let db = db_with(&["default"], None);
    let mut w = SstWriterBuilder::new()
        .set_cf(CF_DEFAULT)
        .set_db(db.clone())
        .build("sst", &all_supported())
        .unwrap();
    w.put(b"foo", b"bar").unwrap();
    let f = w.finish();
    assert_eq!(f.num_entries(), 1);
    assert!(!f.in_memory);

    let mut w = SstWriterBuilder::new()
        .set_in_memory(true)
        .set_cf(CF_DEFAULT)
        .set_db(db)
        .build("inmem.sst", &all_supported())
        .unwrap();
    w.put(b"foo", b"bar").unwrap();
    let f = w.finish_read().unwrap();
    assert_eq!(f.num_entries(), 1);
    assert!(f.in_memory);
    assert_eq!(f.file_path, "inmem.sst");
}

#[test]
fn read_back_needs_owned_environment() {
    let mut w = SstWriterBuilder::new()
        .set_db(db_with(&["default"], Some(1)))
        .build("sst", &all_supported())
        .unwrap();
    w.put(b"foo", b"bar").unwrap();
    assert_eq!(w.finish_read().unwrap_err(), SstError::MissingEnvironment);
}

#[test]
fn empty_keys_order_first() {
    let mut w = SstWriterBuilder::new().build("a.sst", &all_supported()).unwrap();
    w.put(b"", b"x").unwrap();
    assert_eq!(w.put(b"", b"y"), Err(SstError::KeyOutOfOrder));
    w.put(&[0], b"z").unwrap();
    assert_eq!(w.finish().num_entries(), 2);
}
