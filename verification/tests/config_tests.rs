use franz::config::{
    byte_from_string, example_config_contents, page_size_from_integer, size_text_supported, try_byte_from_string, example_topic_hint, join_sources,
    page_size_from_parsed, source_kind, Config, IpAddress, SourceKind,
};

#[test]
fn config_defaults() {
    let config = Config::default();
    match config.ip {
        IpAddress::V4(octets) => assert_eq!(octets, [127, 0, 0, 1]),
        IpAddress::V6(_) => panic!("expected an IPv4 address"),
    }
    assert_eq!(config.port, 8085);
    assert_eq!(config.data_dir, "/tmp/franz-data");
    assert!(config.topic.is_empty());
}

#[test]
fn default_parts() {
    assert_eq!(Config::default_port(), 8085);
    assert_eq!(Config::default_data_dir(), "/tmp/franz-data");
    assert!(Config::default_topic().is_empty());
    assert!(matches!(Config::default_ip(), IpAddress::V4([127, 0, 0, 1])));
}

#[test]
fn page_size_of_binary_unit() {
    assert_eq!(byte_from_string("1 GiB"), 1 << 30);
    assert_eq!(try_byte_from_string("1 GiB"), Some(1 << 30));
}

#[test]
fn page_size_of_plain_number() {
    assert_eq!(byte_from_string("1024"), 1024);
    assert_eq!(byte_from_string("240000"), 240_000);
}

#[test]
fn page_size_of_decimal_unit() {
    assert_eq!(byte_from_string("10 KB"), 10_000);
}

#[test]
fn page_size_of_no_size() {
    assert_eq!(try_byte_from_string("^_^"), None);
    assert_eq!(try_byte_from_string("abc"), None);
    assert_eq!(try_byte_from_string(""), None);
}

#[test]
fn page_size_too_large_for_32_bits() {
    assert_eq!(try_byte_from_string("4 GiB"), None);
    assert_eq!(byte_from_string("4294967295"), u32::MAX);
    assert_eq!(try_byte_from_string("4294967296"), None);
}

#[test]
fn page_size_from_parsed_values() {
    assert_eq!(page_size_from_parsed(None), None);
    assert_eq!(page_size_from_parsed(Some(0)), Some(0));
    assert_eq!(page_size_from_parsed(Some(u32::MAX as u64)), Some(u32::MAX));
    assert_eq!(page_size_from_parsed(Some(u32::MAX as u64 + 1)), None);
    assert_eq!(page_size_from_parsed(Some(u64::MAX)), None);
}

#[test]
fn source_kinds() {
    let toml = Some("toml".to_string());
    let json = Some("json".to_string());
    assert_eq!(source_kind(true, &toml), SourceKind::Directory);
    assert_eq!(source_kind(true, &None), SourceKind::Directory);
    assert_eq!(source_kind(false, &toml), SourceKind::TomlFile);
    assert_eq!(source_kind(false, &json), SourceKind::Ignored);
    assert_eq!(source_kind(false, &None), SourceKind::Ignored);
    assert_eq!(source_kind(false, &Some("TOML".to_string())), SourceKind::Ignored);
}

#[test]
fn joining_sources_skips_unreadable_entries() {
    let parts = vec![
        Some("port = 1\n".to_string()),
        None,
        Some("ip = \"0.0.0.0\"\n".to_string()),
    ];
    assert_eq!(join_sources(&parts), "port = 1\nip = \"0.0.0.0\"\n");
    assert_eq!(join_sources(&Vec::new()), "");
    assert_eq!(join_sources(&vec![None, None]), "");
}

#[test]
fn joining_sources_is_grouping_independent() {
    let a = vec![Some("a".to_string()), None];
    let b = vec![Some("b".to_string()), Some("c".to_string())];
    let mut all = a.clone();
    all.extend(b.clone());
    assert_eq!(join_sources(&all), join_sources(&a) + &join_sources(&b));
}

#[test]
fn example_config_ends_with_commented_topic() {
    let contents = example_config_contents("port = 8085\n");
    assert_eq!(
        contents,
        "port = 8085\n\n\n# [[topic]]\n# name = \"example_topic\"\n# page_size = \"1 GiB\"\n# max_pages = 16"
    );
    assert!(contents.ends_with(example_topic_hint()));
}

#[test]
fn page_size_from_plain_integer() {
    assert_eq!(page_size_from_integer(240_000), Some(240_000));
    assert_eq!(page_size_from_integer(0), Some(0));
    assert_eq!(page_size_from_integer(u32::MAX as u64), Some(u32::MAX));
    assert_eq!(page_size_from_integer(u32::MAX as u64 + 1), None);
}

#[test]
fn texts_that_parse_size_cannot_take() {
    assert!(!size_text_supported("184467440737095516155"));
    assert!(!size_text_supported("18446744073709551615.5"));
    assert!(!size_text_supported("18_446_744_073_709_551_615 9"));
    assert_eq!(try_byte_from_string("184467440737095516155"), None);
    assert_eq!(try_byte_from_string("18446744073709551615.5"), None);
}

#[test]
fn texts_that_parse_size_takes() {
    assert!(size_text_supported("1 GiB"));
    assert!(size_text_supported("184467440737095516154"));
    assert!(size_text_supported("18446744073709551615.4"));
    assert!(size_text_supported("18446744073709551614.9"));
    assert!(size_text_supported("x18446744073709551615 5"));
    assert!(size_text_supported(""));
    assert_eq!(try_byte_from_string("184467440737095516154"), None);
    assert_eq!(try_byte_from_string("18446744073709551615.4"), None);
    assert_eq!(try_byte_from_string("2.5 K"), Some(2500));
}
