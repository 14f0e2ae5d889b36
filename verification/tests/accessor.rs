use connection_conf::error::{ConfigError, ConfigParsingError};
use connection_conf::path::ConfigPath;
use connection_conf::text::{index_text, same_text, split_text};
use connection_conf::uint::U256;
use connection_conf::urls::{accept_url, clone_urls, parse_base_and_override_urls, parse_custom_urls, parse_url_value, parse_urls};
use connection_conf::value::{ConfigEntry, ConfigValue, ValueParser};
use url::Url;

fn text(s: &str) -> ConfigValue {
    ConfigValue::Str(s.to_string())
}

fn object(entries: Vec<(&str, ConfigValue)>) -> ConfigValue {
    ConfigValue::Object(
        entries
            .into_iter()
            .map(|(key, value)| ConfigEntry { key: key.to_string(), value })
            .collect(),
    )
}

fn path_of(parts: &[&str]) -> ConfigPath {
    ConfigPath { segments: parts.iter().map(|p| p.to_string()).collect() }
}

fn problem(parts: &[&str], cause: &str) -> ConfigError {
    ConfigError { path: path_of(parts), cause: cause.to_string() }
}

#[test]
fn path_join_appends_one_segment() {
    let root = ConfigPath::new();
    assert_eq!(root.len(), 0);
    let chain = root.join("chains").join("ethereum");
    assert_eq!(chain, path_of(&["chains", "ethereum"]));
    assert_eq!(chain.len(), 2);
    assert_eq!(chain.duplicate(), chain);
    assert_eq!(root, path_of(&[]));
}

#[test]
fn errors_are_kept_in_order_and_merged_by_appending() {
    let mut first = ConfigParsingError::new();
    assert!(first.is_ok());
    first.push(path_of(&["a"]), "one".to_string());
    first.push(path_of(&["b"]), "two".to_string());
    assert!(!first.is_ok());
    let mut second = ConfigParsingError::default();
    second.push(path_of(&["c"]), "three".to_string());
    first.merge(second);
    assert_eq!(first.len(), 3);
    assert_eq!(first.entries, vec![problem(&["a"], "one"), problem(&["b"], "two"), problem(&["c"], "three")]);
    first.merge(ConfigParsingError::new());
    assert_eq!(first.len(), 3);
}

#[test]
fn optional_key_absent_is_no_problem() {
    let value = object(vec![("present", ConfigValue::Null)]);
    let reader = ValueParser::new(path_of(&["root"]), &value);
    let mut err = ConfigParsingError::new();
    assert!(reader.get_opt_key("missing", &mut err).is_none());
    assert!(err.is_ok());
    let found = reader.get_opt_key("present", &mut err).unwrap();
    assert_eq!(found.cwp, path_of(&["root", "present"]));
    assert_eq!(found.val, &ConfigValue::Null);
    assert!(err.is_ok());
}

#[test]
fn key_lookup_in_something_that_is_no_object_is_a_problem() {
    let value = text("plain");
    let reader = ValueParser::new(path_of(&["root"]), &value);
    let mut err = ConfigParsingError::new();
    assert!(reader.get_opt_key("k", &mut err).is_none());
    assert_eq!(err.entries, vec![problem(&["root", "k"], "Expected an object type")]);
    assert!(reader.get_key("k", &mut err).is_none());
    assert_eq!(err.len(), 2);
    assert_eq!(err.entries[1], problem(&["root", "k"], "Expected an object type"));
}

#[test]
fn required_key_missing_is_a_problem() {
    let value = object(vec![]);
    let reader = ValueParser::new(path_of(&["root"]), &value);
    let mut err = ConfigParsingError::new();
    assert!(reader.get_key("chainId", &mut err).is_none());
    assert_eq!(err.entries, vec![problem(&["root", "chainId"], "Expected key `chainId` to be defined")]);
}

#[test]
fn first_entry_with_a_key_is_found() {
    let value = object(vec![("k", text("first")), ("k", text("second"))]);
    let reader = ValueParser::new(ConfigPath::new(), &value);
    let mut err = ConfigParsingError::new();
    assert_eq!(reader.string_at("k", &mut err), Some("first"));
    assert_eq!(reader.opt_string_at("k", &mut err), Some("first"));
    assert!(err.is_ok());
}

#[test]
fn strings_are_read_only_from_strings() {
    let value = ConfigValue::Unsigned(1);
    let reader = ValueParser::new(path_of(&["n"]), &value);
    let mut err = ConfigParsingError::new();
    assert_eq!(reader.parse_string(&mut err), None);
    assert_eq!(err.entries, vec![problem(&["n"], "Expected a string")]);
    let value = text("hello");
    let reader = ValueParser::new(path_of(&["s"]), &value);
    assert_eq!(reader.parse_string(&mut err), Some("hello"));
    assert_eq!(err.len(), 1);
}

#[test]
fn unsigned_numbers_come_from_numbers_and_decimal_strings() {
    let mut err = ConfigParsingError::new();
    let value = ConfigValue::Unsigned(18_446_744_073_709_551_615);
    assert_eq!(ValueParser::new(ConfigPath::new(), &value).parse_u64(&mut err), Some(u64::MAX));
    let value = text("18446744073709551615");
    assert_eq!(ValueParser::new(ConfigPath::new(), &value).parse_u64(&mut err), Some(u64::MAX));
    let value = text("0042");
    assert_eq!(ValueParser::new(ConfigPath::new(), &value).parse_u64(&mut err), Some(42));
    assert_eq!(ValueParser::new(ConfigPath::new(), &value).parse_u32(&mut err), Some(42));
    let value = ConfigValue::Unsigned(4_294_967_295);
    assert_eq!(ValueParser::new(ConfigPath::new(), &value).parse_u32(&mut err), Some(u32::MAX));
    assert!(err.is_ok());
}

#[test]
fn what_is_no_unsigned_number_is_a_problem() {
    let cases = vec![
        text("18446744073709551616"),
        text(""),
        text("+5"),
        text("-5"),
        text("1.5"),
        text("12a"),
        text("\u{0663}"),
        ConfigValue::Negative(-3),
        ConfigValue::Fractional,
        ConfigValue::Bool(true),
        ConfigValue::Null,
        ConfigValue::Array(vec![]),
        object(vec![]),
    ];
    for value in cases.iter() {
        let reader = ValueParser::new(path_of(&["n"]), value);
        let mut err = ConfigParsingError::new();
        assert_eq!(reader.parse_u64(&mut err), None);
        assert_eq!(err.entries, vec![problem(&["n"], "Expected an unsigned integer")]);
        let mut err = ConfigParsingError::new();
        assert_eq!(reader.parse_u32(&mut err), None);
        assert_eq!(err.entries, vec![problem(&["n"], "Expected an unsigned integer")]);
    }
}

#[test]
fn a_number_too_wide_for_32_bits_is_a_problem() {
    let value = text("4294967296");
    let reader = ValueParser::new(path_of(&["n"]), &value);
    let mut err = ConfigParsingError::new();
    assert_eq!(reader.parse_u32(&mut err), None);
    assert_eq!(err.entries, vec![problem(&["n"], "Expected a 32-bit unsigned integer")]);
    assert_eq!(reader.parse_u64(&mut err), Some(4_294_967_296));
}

#[test]
fn wide_numbers_are_read_exactly() {
    let mut err = ConfigParsingError::new();
    let value = text("340282366920938463463374607431768211456");
    assert_eq!(
        ValueParser::new(ConfigPath::new(), &value).parse_u256(&mut err),
        Some(U256 { limbs: (0, 0, 1, 0) })
    );
    let value = text("115792089237316195423570985008687907853269984665640564039457584007913129639935");
    assert_eq!(
        ValueParser::new(ConfigPath::new(), &value).parse_u256(&mut err),
        Some(U256 { limbs: (u64::MAX, u64::MAX, u64::MAX, u64::MAX) })
    );
    let value = ConfigValue::Unsigned(9);
    assert_eq!(ValueParser::new(ConfigPath::new(), &value).parse_u256(&mut err), Some(U256::from_u64(9)));
    assert!(err.is_ok());
    let value = text("115792089237316195423570985008687907853269984665640564039457584007913129639936");
    assert_eq!(ValueParser::new(path_of(&["w"]), &value).parse_u256(&mut err), None);
    assert_eq!(err.entries, vec![problem(&["w"], "Expected an unsigned integer")]);
}

#[test]
fn decimal_literals() {
    assert_eq!(U256::zero(), U256 { limbs: (0, 0, 0, 0) });
    assert_eq!(U256::from_dec_str("0"), Some(U256::zero()));
    assert_eq!(U256::from_dec_str("18446744073709551616"), Some(U256 { limbs: (0, 1, 0, 0) }));
    assert_eq!(U256::from_dec_str("18446744073709551617"), Some(U256 { limbs: (1, 1, 0, 0) }));
    assert_eq!(
        U256::from_dec_str("6277101735386680763835789423207666416102355444464034512896"),
        Some(U256 { limbs: (0, 0, 0, 1) })
    );
    assert_eq!(U256::from_dec_str(""), None);
    assert_eq!(U256::from_dec_str("0x10"), None);
    assert_eq!(U256::from_dec_str(" 1"), None);
    assert_eq!(U256::from_u64(77).to_u64(), Some(77));
    assert_eq!(U256 { limbs: (0, 1, 0, 0) }.to_u64(), None);
    assert_eq!(U256::from_u64(25).shift_in_digit(5), Some(U256::from_u64(255)));
    assert_eq!(U256 { limbs: (u64::MAX, u64::MAX, u64::MAX, u64::MAX) }.shift_in_digit(0), None);
    assert_eq!(
        U256 { limbs: (u64::MAX, 0, 0, 0) }.shift_in_digit(9),
        Some(U256 { limbs: (18_446_744_073_709_551_615, 9, 0, 0) })
    );
}

#[test]
fn arrays_give_a_reader_for_each_item() {
    let value = ConfigValue::Array((0..11).map(ConfigValue::Unsigned).collect());
    let reader = ValueParser::new(path_of(&["list"]), &value);
    let mut err = ConfigParsingError::new();
    let readers = reader.into_array(&mut err).unwrap();
    assert_eq!(readers.len(), 11);
    assert_eq!(readers[0].cwp, path_of(&["list", "0"]));
    assert_eq!(readers[10].cwp, path_of(&["list", "10"]));
    assert_eq!(readers[10].val, &ConfigValue::Unsigned(10));
    assert!(err.is_ok());
    let value = object(vec![]);
    let reader = ValueParser::new(path_of(&["list"]), &value);
    assert!(reader.into_array(&mut err).is_none());
    assert_eq!(err.entries, vec![problem(&["list"], "Expected an array type")]);
}

#[test]
fn numbers_are_written_in_decimal() {
    assert_eq!(index_text(0), "0");
    assert_eq!(index_text(7), "7");
    assert_eq!(index_text(10), "10");
    assert_eq!(index_text(1905), "1905");
    assert_eq!(index_text(usize::MAX), usize::MAX.to_string());
}

#[test]
fn text_is_split_at_every_separator() {
    assert_eq!(split_text("a,b,c", ','), vec!["a", "b", "c"]);
    assert_eq!(split_text("", ','), vec![""]);
    assert_eq!(split_text(",", ','), vec!["", ""]);
    assert_eq!(split_text("a,,b,", ','), vec!["a", "", "b", ""]);
    assert_eq!(split_text("héllo,wörld", ','), vec!["héllo", "wörld"]);
    assert_eq!(split_text("no separator", ','), vec!["no separator"]);
    assert!(same_text("quorum", "quorum"));
    assert!(!same_text("quorum", "Quorum"));
    assert!(!same_text("", "x"));
}

#[test]
fn urls_are_read_from_strings() {
    let value = text("https://rpc.example:8545/path?x=1");
    let reader = ValueParser::new(path_of(&["url"]), &value);
    let mut err = ConfigParsingError::new();
    let url = parse_url_value(&reader, &mut err).unwrap();
    assert_eq!(url, Url::parse("https://rpc.example:8545/path?x=1").unwrap());
    assert_eq!(url.as_str(), "https://rpc.example:8545/path?x=1");
    assert_eq!(url.port(), Some(8545));
    assert!(err.is_ok());
    let value = text("HTTP://Example.COM");
    let reader = ValueParser::new(path_of(&["url"]), &value);
    assert_eq!(parse_url_value(&reader, &mut err).unwrap().as_str(), "http://example.com/");
}

#[test]
fn what_is_no_url_is_a_problem() {
    let value = text("not a url");
    let reader = ValueParser::new(path_of(&["url"]), &value);
    let mut err = ConfigParsingError::new();
    assert_eq!(parse_url_value(&reader, &mut err), None);
    assert_eq!(err.entries, vec![problem(&["url"], "Invalid url")]);
    let value = ConfigValue::Unsigned(1);
    let reader = ValueParser::new(path_of(&["url"]), &value);
    assert_eq!(parse_url_value(&reader, &mut err), None);
    assert_eq!(err.entries[1], problem(&["url"], "Expected a string"));
}

#[test]
fn a_judged_url_is_handed_on_or_recorded() {
    let mut err = ConfigParsingError::new();
    let url = Url::parse("http://a.example/").unwrap();
    assert_eq!(accept_url(Some(url.clone()), &path_of(&["p"]), &mut err), Some(url));
    assert!(err.is_ok());
    assert_eq!(accept_url(None, &path_of(&["p"]), &mut err), None);
    assert_eq!(err.entries, vec![problem(&["p"], "Invalid url")]);
}

#[test]
fn url_lists_are_copied_in_order() {
    let urls = vec![Url::parse("http://b.example/").unwrap(), Url::parse("http://a.example/").unwrap()];
    assert_eq!(clone_urls(&urls), urls);
    assert_eq!(clone_urls(&[]), Vec::<Url>::new());
}

#[test]
fn base_urls_skip_what_cannot_be_read() {
    let value = object(vec![(
        "grpcUrls",
        ConfigValue::Array(vec![
            object(vec![("http", text("http://one.example/"))]),
            object(vec![("ws", text("ws://skipped.example/"))]),
            object(vec![("http", text("::"))]),
            object(vec![("http", text("http://two.example/"))]),
        ]),
    )]);
    let chain = ValueParser::new(path_of(&["c"]), &value);
    let mut err = ConfigParsingError::new();
    let urls = parse_urls(&chain, "grpcUrls", "http", &mut err);
    assert_eq!(urls, vec![Url::parse("http://one.example/").unwrap(), Url::parse("http://two.example/").unwrap()]);
    assert_eq!(
        err.entries,
        vec![
            problem(&["c", "grpcUrls", "1", "http"], "Expected key `http` to be defined"),
            problem(&["c", "grpcUrls", "2", "http"], "Invalid url"),
        ]
    );
}

#[test]
fn custom_urls_are_absent_without_the_key() {
    let value = object(vec![]);
    let chain = ValueParser::new(path_of(&["c"]), &value);
    let mut err = ConfigParsingError::new();
    assert_eq!(parse_custom_urls(&chain, "customGrpcUrls", &mut err), None);
    assert!(err.is_ok());
}

#[test]
fn custom_urls_record_each_piece_that_is_no_url() {
    let value = object(vec![("customGrpcUrls", text("http://x.example/,,bad,http://y.example/"))]);
    let chain = ValueParser::new(path_of(&["c"]), &value);
    let mut err = ConfigParsingError::new();
    let urls = parse_custom_urls(&chain, "customGrpcUrls", &mut err).unwrap();
    assert_eq!(urls, vec![Url::parse("http://x.example/").unwrap(), Url::parse("http://y.example/").unwrap()]);
    assert_eq!(
        err.entries,
        vec![problem(&["c", "customGrpcUrls"], "Invalid url"), problem(&["c", "customGrpcUrls"], "Invalid url")]
    );
}

#[test]
fn a_chain_left_without_endpoints_is_recorded_twice() {
    let value = object(vec![("grpcUrls", ConfigValue::Array(vec![])), ("customGrpcUrls", text(""))]);
    let chain = ValueParser::new(path_of(&["c"]), &value);
    let mut err = ConfigParsingError::new();
    let urls = parse_base_and_override_urls(&chain, "grpcUrls", "customGrpcUrls", "http", &mut err);
    assert_eq!(urls, Vec::<Url>::new());
    assert_eq!(
        err.entries,
        vec![
            problem(&["c", "customGrpcUrls"], "Invalid url"),
            problem(&["c", "grpcUrls"], "Missing base `grpcUrls` definitions for chain"),
            problem(&["c", "customGrpcUrls"], "Also missing `customGrpcUrls` overrides for chain"),
        ]
    );
}

#[test]
fn an_override_replaces_the_base_urls_even_when_both_are_there() {
    let value = object(vec![
        ("grpcUrls", ConfigValue::Array(vec![object(vec![("http", text("http://base.example/"))])])),
        ("customGrpcUrls", text("http://override.example/")),
    ]);
    let chain = ValueParser::new(path_of(&["c"]), &value);
    let mut err = ConfigParsingError::new();
    let urls = parse_base_and_override_urls(&chain, "grpcUrls", "customGrpcUrls", "http", &mut err);
    assert_eq!(urls, vec![Url::parse("http://override.example/").unwrap()]);
    assert!(err.is_ok());
    let value = object(vec![
        ("grpcUrls", ConfigValue::Array(vec![object(vec![("http", text("http://base.example/"))])])),
    ]);
    let chain = ValueParser::new(path_of(&["c"]), &value);
    let urls = parse_base_and_override_urls(&chain, "grpcUrls", "customGrpcUrls", "http", &mut err);
    assert_eq!(urls, vec![Url::parse("http://base.example/").unwrap()]);
    assert!(err.is_ok());
}
