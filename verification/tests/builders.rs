use connection_conf::chain_conf::ChainConnectionConf;
use connection_conf::common::{H256, HyperlaneDomainProtocol, NativeToken, OperationBatchConfig};
use connection_conf::connection::{
    build_connection_conf, build_cosmos_connection_conf, build_ethereum_connection_conf,
    build_sealevel_connection_conf, parse_cosmos_gas_price, parse_native_token,
};
use connection_conf::cosmos::RawCosmosAmount;
use connection_conf::error::ConfigParsingError;
use connection_conf::ethereum::{RpcConnectionConf, TransactionOverrides};
use connection_conf::path::ConfigPath;
use connection_conf::uint::U256;
use connection_conf::value::{ConfigEntry, ConfigValue, ValueParser};
use url::Url;

fn text(s: &str) -> ConfigValue {
    ConfigValue::Str(s.to_string())
}

fn object(entries: Vec<(&str, ConfigValue)>) -> ConfigValue {
    ConfigValue::Object(
        entries
            .into_iter()
            .map(|(key, value)| ConfigEntry { key: key.to_string(), value })
            .collect(),
    )
}

fn root_path() -> ConfigPath {
    ConfigPath { segments: vec!["chains".to_string(), "test".to_string()] }
}

fn path_of(parts: &[&str]) -> ConfigPath {
    ConfigPath { segments: parts.iter().map(|p| p.to_string()).collect() }
}

fn batch() -> OperationBatchConfig {
    OperationBatchConfig { batch_contract_address: Some(H256 { bytes: [7u8; 32] }), max_batch_size: 32 }
}

fn abc() -> Vec<Url> {
    vec![
        Url::parse("http://a.example/").unwrap(),
        Url::parse("http://b.example/").unwrap(),
        Url::parse("http://c.example/").unwrap(),
    ]
}

fn ethereum_connection(conf: Option<ChainConnectionConf>) -> connection_conf::ethereum::ConnectionConf {
    match conf {
        Some(ChainConnectionConf::Ethereum(conf)) => conf,
        other => panic!("expected ethereum settings, got {:?}", other),
    }
}

fn cosmos_connection(conf: Option<ChainConnectionConf>) -> connection_conf::cosmos::ConnectionConf {
    match conf {
        Some(ChainConnectionConf::Cosmos(conf)) => conf,
        other => panic!("expected cosmos settings, got {:?}", other),
    }
}

fn cosmos_chain(extra: Vec<(&str, ConfigValue)>) -> ConfigValue {
    let mut entries = vec![
        (
            "grpcUrls",
            ConfigValue::Array(vec![
                object(vec![("http", text("http://grpc-one.example:9090/"))]),
                object(vec![("http", text("http://grpc-two.example:9090/"))]),
            ]),
        ),
        ("chainId", text("cosmoshub-4")),
        ("gasPrice", object(vec![("amount", text("0.025")), ("denom", text("uatom"))])),
        ("contractAddressBytes", ConfigValue::Unsigned(32)),
    ];
    entries.extend(extra);
    object(entries)
}

#[test]
fn empty_endpoints_switch_ethereum_off() {
    let value = object(vec![("rpcConsensusType", text("roundrobin"))]);
    let chain = ValueParser::new(root_path(), &value);
    let mut err = ConfigParsingError::new();
    let conf = build_ethereum_connection_conf(&[], &chain, &mut err, "fallback", batch());
    assert_eq!(conf, None);
    assert!(err.is_ok());
    assert_eq!(err.len(), 0);
}

#[test]
fn empty_endpoints_switch_fuel_and_sealevel_off() {
    let value = object(vec![("nativeToken", text("not an object"))]);
    let chain = ValueParser::new(root_path(), &value);
    for protocol in [HyperlaneDomainProtocol::Fuel, HyperlaneDomainProtocol::Sealevel, HyperlaneDomainProtocol::Ethereum] {
        let mut err = ConfigParsingError::new();
        let conf = build_connection_conf(protocol, &[], &chain, &mut err, "single", batch());
        assert_eq!(conf, None);
        assert_eq!(err.len(), 0);
    }
}

#[test]
fn empty_endpoints_keep_earlier_problems() {
    let value = object(vec![]);
    let chain = ValueParser::new(root_path(), &value);
    let mut err = ConfigParsingError::new();
    err.push(path_of(&["earlier"]), "kept".to_string());
    let conf = build_connection_conf(HyperlaneDomainProtocol::Fuel, &[], &chain, &mut err, "single", batch());
    assert_eq!(conf, None);
    assert_eq!(err.len(), 1);
    assert_eq!(err.entries[0].cause, "kept");
}

#[test]
fn single_uses_exactly_the_first_endpoint() {
    let value = object(vec![("rpcConsensusType", text("single"))]);
    let chain = ValueParser::new(root_path(), &value);
    let mut err = ConfigParsingError::new();
    let conf = ethereum_connection(build_ethereum_connection_conf(&abc(), &chain, &mut err, "quorum", batch()));
    assert_eq!(conf.rpc_connection, RpcConnectionConf::Http { url: Url::parse("http://a.example/").unwrap() });
    assert_eq!(conf.operation_batch, batch());
    assert_eq!(conf.transaction_overrides, TransactionOverrides::default());
    assert!(err.is_ok());
}

#[test]
fn fallback_preserves_the_order_of_endpoints() {
    let value = object(vec![("rpcConsensusType", text("fallback"))]);
    let chain = ValueParser::new(root_path(), &value);
    let mut err = ConfigParsingError::new();
    let conf = ethereum_connection(build_ethereum_connection_conf(&abc(), &chain, &mut err, "single", batch()));
    assert_eq!(conf.rpc_connection, RpcConnectionConf::HttpFallback { urls: abc() });
    assert!(err.is_ok());
}

#[test]
fn quorum_holds_every_endpoint() {
    let value = object(vec![("rpcConsensusType", text("quorum"))]);
    let chain = ValueParser::new(root_path(), &value);
    let mut err = ConfigParsingError::new();
    let conf = ethereum_connection(build_ethereum_connection_conf(&abc(), &chain, &mut err, "single", batch()));
    assert_eq!(conf.rpc_connection, RpcConnectionConf::HttpQuorum { urls: abc() });
    assert!(err.is_ok());
}

#[test]
fn quorum_keeps_duplicate_endpoints() {
    let value = object(vec![]);
    let chain = ValueParser::new(root_path(), &value);
    let twice = vec![Url::parse("http://a.example/").unwrap(), Url::parse("http://a.example/").unwrap()];
    let mut err = ConfigParsingError::new();
    let conf = ethereum_connection(build_ethereum_connection_conf(&twice, &chain, &mut err, "quorum", batch()));
    assert_eq!(conf.rpc_connection, RpcConnectionConf::HttpQuorum { urls: twice.clone() });
}

#[test]
fn default_consensus_type_is_used_when_none_is_configured() {
    let value = object(vec![]);
    let chain = ValueParser::new(root_path(), &value);
    let mut err = ConfigParsingError::new();
    let conf = ethereum_connection(build_ethereum_connection_conf(&abc(), &chain, &mut err, "fallback", batch()));
    assert_eq!(conf.rpc_connection, RpcConnectionConf::HttpFallback { urls: abc() });
    assert!(err.is_ok());
}

#[test]
fn unknown_consensus_type_is_one_problem_and_no_settings() {
    let value = object(vec![("rpcConsensusType", text("roundrobin"))]);
    let chain = ValueParser::new(root_path(), &value);
    let mut err = ConfigParsingError::new();
    let conf = build_ethereum_connection_conf(&abc(), &chain, &mut err, "single", batch());
    assert_eq!(conf, None);
    assert_eq!(err.len(), 1);
    assert_eq!(err.entries[0].path, path_of(&["chains", "test", "rpc_consensus_type"]));
    assert_eq!(err.entries[0].cause, "unknown rpc consensus type `roundrobin`");
}

#[test]
fn unknown_default_consensus_type_is_a_problem_too() {
    let value = object(vec![]);
    let chain = ValueParser::new(ConfigPath::new(), &value);
    let mut err = ConfigParsingError::new();
    let conf = build_ethereum_connection_conf(&abc(), &chain, &mut err, "", batch());
    assert_eq!(conf, None);
    assert_eq!(err.len(), 1);
    assert_eq!(err.entries[0].path, path_of(&["rpc_consensus_type"]));
    assert_eq!(err.entries[0].cause, "unknown rpc consensus type ``");
}

#[test]
fn consensus_type_of_the_wrong_kind_falls_back_to_the_default() {
    let value = object(vec![("rpcConsensusType", ConfigValue::Unsigned(3))]);
    let chain = ValueParser::new(root_path(), &value);
    let mut err = ConfigParsingError::new();
    let conf = ethereum_connection(build_ethereum_connection_conf(&abc(), &chain, &mut err, "single", batch()));
    assert_eq!(conf.rpc_connection, RpcConnectionConf::Http { url: Url::parse("http://a.example/").unwrap() });
    assert_eq!(err.len(), 1);
    assert_eq!(err.entries[0].path, path_of(&["chains", "test", "rpcConsensusType"]));
    assert_eq!(err.entries[0].cause, "Expected a string");
}

#[test]
fn only_max_fee_per_gas_is_overridden() {
    let value = object(vec![
        ("transactionOverrides", object(vec![("maxFeePerGas", text("100000000000"))])),
    ]);
    let chain = ValueParser::new(root_path(), &value);
    let mut err = ConfigParsingError::new();
    let conf = ethereum_connection(build_ethereum_connection_conf(&abc(), &chain, &mut err, "single", batch()));
    assert_eq!(
        conf.transaction_overrides,
        TransactionOverrides {
            gas_price: None,
            gas_limit: None,
            max_fee_per_gas: Some(U256::from_u64(100_000_000_000)),
            max_priority_fee_per_gas: None,
        }
    );
    assert_eq!(err.len(), 0);
}

#[test]
fn every_override_is_read_on_its_own() {
    let value = object(vec![
        (
            "transactionOverrides",
            object(vec![
                ("gasPrice", ConfigValue::Unsigned(5)),
                ("gasLimit", text("not a number")),
                ("maxFeePerGas", text("7")),
                ("maxPriorityFeePerGas", ConfigValue::Negative(-1)),
            ]),
        ),
    ]);
    let chain = ValueParser::new(root_path(), &value);
    let mut err = ConfigParsingError::new();
    let conf = ethereum_connection(build_ethereum_connection_conf(&abc(), &chain, &mut err, "single", batch()));
    assert_eq!(conf.transaction_overrides.gas_price, Some(U256::from_u64(5)));
    assert_eq!(conf.transaction_overrides.gas_limit, None);
    assert_eq!(conf.transaction_overrides.max_fee_per_gas, Some(U256::from_u64(7)));
    assert_eq!(conf.transaction_overrides.max_priority_fee_per_gas, None);
    assert_eq!(err.len(), 2);
    assert_eq!(err.entries[0].path, path_of(&["chains", "test", "transactionOverrides", "gasLimit"]));
    assert_eq!(err.entries[0].cause, "Expected an unsigned integer");
    assert_eq!(
        err.entries[1].path,
        path_of(&["chains", "test", "transactionOverrides", "maxPriorityFeePerGas"])
    );
}

#[test]
fn several_problems_are_all_reported() {
    let value = object(vec![
        ("rpcConsensusType", text("roundrobin")),
        ("transactionOverrides", object(vec![("gasPrice", ConfigValue::Bool(true))])),
    ]);
    let chain = ValueParser::new(root_path(), &value);
    let mut err = ConfigParsingError::new();
    let conf = build_ethereum_connection_conf(&abc(), &chain, &mut err, "single", batch());
    assert_eq!(conf, None);
    assert_eq!(err.len(), 2);
    assert_eq!(err.entries[0].path, path_of(&["chains", "test", "rpc_consensus_type"]));
    assert_eq!(err.entries[1].path, path_of(&["chains", "test", "transactionOverrides", "gasPrice"]));
}

#[test]
fn cosmos_without_prefix_is_not_built() {
    let value = cosmos_chain(vec![]);
    let chain = ValueParser::new(root_path(), &value);
    let mut err = ConfigParsingError::new();
    let conf = build_cosmos_connection_conf(&abc(), &chain, &mut err, batch());
    assert_eq!(conf, None);
    assert!(err.len() >= 1);
    assert!(err.entries.iter().any(|e| e.path == path_of(&["chains", "test", "bech32Prefix"])
        && e.cause == "Missing bech32 prefix for chain"));
    let causes: Vec<&str> = err.entries.iter().map(|e| e.cause.as_str()).collect();
    assert_eq!(
        causes,
        vec![
            "Expected key `bech32Prefix` to be defined",
            "Missing bech32 prefix for chain",
            "Missing canonical asset for chain",
        ]
    );
}

#[test]
fn cosmos_prefix_gives_the_canonical_asset() {
    let value = cosmos_chain(vec![("bech32Prefix", text("cosmos"))]);
    let chain = ValueParser::new(root_path(), &value);
    let mut err = ConfigParsingError::new();
    let conf = cosmos_connection(build_cosmos_connection_conf(&abc(), &chain, &mut err, batch()));
    assert!(err.is_ok());
    assert_eq!(conf.canonical_asset, "ucosmos");
    assert_eq!(conf.bech32_prefix, "cosmos");
    assert_eq!(conf.chain_id, "cosmoshub-4");
    assert_eq!(
        conf.grpc_urls,
        vec![
            Url::parse("http://grpc-one.example:9090/").unwrap(),
            Url::parse("http://grpc-two.example:9090/").unwrap(),
        ]
    );
    assert_eq!(conf.rpc_urls, abc());
    assert_eq!(conf.gas_price, RawCosmosAmount { denom: "uatom".to_string(), amount: "0.025".to_string() });
    assert_eq!(conf.contract_address_bytes, 32);
    assert_eq!(conf.operation_batch, batch());
    assert_eq!(conf.native_token, NativeToken { decimals: 18, denom: String::new() });
}

#[test]
fn cosmos_explicit_canonical_asset_wins() {
    let value = cosmos_chain(vec![("bech32Prefix", text("cosmos")), ("canonicalAsset", text("uatom"))]);
    let chain = ValueParser::new(root_path(), &value);
    let mut err = ConfigParsingError::new();
    let conf = cosmos_connection(build_cosmos_connection_conf(&abc(), &chain, &mut err, batch()));
    assert_eq!(conf.canonical_asset, "uatom");
    assert!(err.is_ok());
}

#[test]
fn cosmos_does_not_ask_for_rpc_endpoints() {
    let value = cosmos_chain(vec![("bech32Prefix", text("osmo"))]);
    let chain = ValueParser::new(root_path(), &value);
    let mut err = ConfigParsingError::new();
    let conf = cosmos_connection(build_connection_conf(
        HyperlaneDomainProtocol::Cosmos,
        &[],
        &chain,
        &mut err,
        "single",
        batch(),
    ));
    assert_eq!(conf.rpc_urls, Vec::<Url>::new());
    assert_eq!(conf.canonical_asset, "uosmo");
}

#[test]
fn cosmos_without_gas_price_or_address_bytes_is_not_built() {
    let value = object(vec![
        ("grpcUrls", ConfigValue::Array(vec![object(vec![("http", text("http://grpc.example/"))])])),
        ("chainId", text("cosmoshub-4")),
        ("bech32Prefix", text("cosmos")),
    ]);
    let chain = ValueParser::new(root_path(), &value);
    let mut err = ConfigParsingError::new();
    let conf = build_cosmos_connection_conf(&abc(), &chain, &mut err, batch());
    assert_eq!(conf, None);
    let found: Vec<(ConfigPath, &str)> =
        err.entries.iter().map(|e| (e.path.clone(), e.cause.as_str())).collect();
    assert_eq!(
        found,
        vec![
            (path_of(&["chains", "test", "gas_price"]), "Missing gas price for chain"),
            (
                path_of(&["chains", "test", "contract_address_bytes"]),
                "Missing contract address bytes for chain"
            ),
        ]
    );
}

#[test]
fn cosmos_with_nothing_configured_reports_everything() {
    let value = object(vec![]);
    let chain = ValueParser::new(root_path(), &value);
    let mut err = ConfigParsingError::new();
    let conf = build_cosmos_connection_conf(&abc(), &chain, &mut err, batch());
    assert_eq!(conf, None);
    let causes: Vec<&str> = err.entries.iter().map(|e| e.cause.as_str()).collect();
    assert_eq!(
        causes,
        vec![
            "Expected key `bech32Prefix` to be defined",
            "Expected key `grpcUrls` to be defined",
            "Missing base `grpcUrls` definitions for chain",
            "Also missing `customGrpcUrls` overrides for chain",
            "Expected key `chainId` to be defined",
            "Missing chain id for chain",
            "Missing bech32 prefix for chain",
            "Missing canonical asset for chain",
            "Missing gas price for chain",
            "Missing contract address bytes for chain",
        ]
    );
}

#[test]
fn cosmos_custom_grpc_urls_replace_the_base_list() {
    let value = cosmos_chain(vec![
        ("bech32Prefix", text("cosmos")),
        ("customGrpcUrls", text("http://x.example/,http://y.example/")),
    ]);
    let chain = ValueParser::new(root_path(), &value);
    let mut err = ConfigParsingError::new();
    let conf = cosmos_connection(build_cosmos_connection_conf(&abc(), &chain, &mut err, batch()));
    assert_eq!(
        conf.grpc_urls,
        vec![Url::parse("http://x.example/").unwrap(), Url::parse("http://y.example/").unwrap()]
    );
    assert!(err.is_ok());
}

#[test]
fn cosmos_gas_price_needs_amount_and_denom() {
    let value = object(vec![("amount", text("0.1"))]);
    let reader = ValueParser::new(path_of(&["gasPrice"]), &value);
    let mut err = ConfigParsingError::new();
    assert_eq!(parse_cosmos_gas_price(&reader, &mut err), None);
    assert_eq!(err.len(), 1);
    assert_eq!(err.entries[0].path, path_of(&["gasPrice", "denom"]));
    assert_eq!(err.entries[0].cause, "Expected key `denom` to be defined");

    let value = object(vec![("denom", text("untrn")), ("amount", text("0.0053"))]);
    let reader = ValueParser::new(path_of(&["gasPrice"]), &value);
    let mut err = ConfigParsingError::new();
    assert_eq!(
        parse_cosmos_gas_price(&reader, &mut err),
        Some(RawCosmosAmount { denom: "untrn".to_string(), amount: "0.0053".to_string() })
    );
    assert!(err.is_ok());
}

#[test]
fn native_token_defaults() {
    let value = object(vec![]);
    let chain = ValueParser::new(root_path(), &value);
    let mut err = ConfigParsingError::new();
    assert_eq!(parse_native_token(&chain, &mut err, 18), NativeToken { decimals: 18, denom: String::new() });
    assert_eq!(parse_native_token(&chain, &mut err, 9), NativeToken { decimals: 9, denom: String::new() });
    assert!(err.is_ok());
}

#[test]
fn native_token_is_read_when_configured() {
    let value = object(vec![
        ("nativeToken", object(vec![("decimals", text("6")), ("denom", text("uatom"))])),
    ]);
    let chain = ValueParser::new(root_path(), &value);
    let mut err = ConfigParsingError::new();
    assert_eq!(
        parse_native_token(&chain, &mut err, 18),
        NativeToken { decimals: 6, denom: "uatom".to_string() }
    );
    assert!(err.is_ok());
}

#[test]
fn native_token_with_unreadable_decimals_uses_the_default_and_records() {
    let value = object(vec![
        ("nativeToken", object(vec![("decimals", ConfigValue::Unsigned(4_294_967_296)), ("denom", text("x"))])),
    ]);
    let chain = ValueParser::new(root_path(), &value);
    let mut err = ConfigParsingError::new();
    assert_eq!(parse_native_token(&chain, &mut err, 18), NativeToken { decimals: 18, denom: "x".to_string() });
    assert_eq!(err.len(), 1);
    assert_eq!(err.entries[0].path, path_of(&["chains", "test", "nativeToken", "decimals"]));
    assert_eq!(err.entries[0].cause, "Expected a 32-bit unsigned integer");
}

#[test]
fn sealevel_has_nine_decimals_by_default() {
    let value = object(vec![]);
    let chain = ValueParser::new(root_path(), &value);
    let mut err = ConfigParsingError::new();
    let url = Url::parse("http://sealevel.example/").unwrap();
    let conf = build_sealevel_connection_conf(&url, &chain, &mut err, batch());
    assert_eq!(conf.url, url);
    assert_eq!(conf.operation_batch, batch());
    assert_eq!(conf.native_token, NativeToken { decimals: 9, denom: String::new() });
    assert!(err.is_ok());
}

#[test]
fn dispatcher_uses_the_first_endpoint_for_sealevel_and_fuel() {
    let value = object(vec![("nativeToken", object(vec![("denom", text("SOL"))]))]);
    let chain = ValueParser::new(root_path(), &value);
    let mut err = ConfigParsingError::new();
    let conf = build_connection_conf(HyperlaneDomainProtocol::Sealevel, &abc(), &chain, &mut err, "single", batch());
    assert_eq!(
        conf,
        Some(ChainConnectionConf::Sealevel(connection_conf::sealevel::ConnectionConf {
            url: Url::parse("http://a.example/").unwrap(),
            operation_batch: batch(),
            native_token: NativeToken { decimals: 9, denom: "SOL".to_string() },
        }))
    );
    let conf = build_connection_conf(HyperlaneDomainProtocol::Fuel, &abc(), &chain, &mut err, "single", batch());
    assert_eq!(
        conf,
        Some(ChainConnectionConf::Fuel(connection_conf::fuel::ConnectionConf {
            url: Url::parse("http://a.example/").unwrap(),
        }))
    );
    assert!(err.is_ok());
}

#[test]
fn dispatcher_routes_ethereum_and_cosmos() {
    let value = cosmos_chain(vec![("bech32Prefix", text("cosmos")), ("rpcConsensusType", text("quorum"))]);
    let chain = ValueParser::new(root_path(), &value);
    let mut err = ConfigParsingError::new();
    let eth = build_connection_conf(HyperlaneDomainProtocol::Ethereum, &abc(), &chain, &mut err, "single", batch());
    let mut direct_err = ConfigParsingError::new();
    assert_eq!(eth, build_ethereum_connection_conf(&abc(), &chain, &mut direct_err, "single", batch()));
    assert_eq!(ethereum_connection(eth).rpc_connection, RpcConnectionConf::HttpQuorum { urls: abc() });
    let cosmos = build_connection_conf(HyperlaneDomainProtocol::Cosmos, &abc(), &chain, &mut err, "single", batch());
    assert_eq!(cosmos, build_cosmos_connection_conf(&abc(), &chain, &mut direct_err, batch()));
    assert!(cosmos.is_some());
    assert!(err.is_ok());
}

#[test]
fn building_twice_gives_the_same_result() {
    let good = cosmos_chain(vec![("bech32Prefix", text("cosmos")), ("rpcConsensusType", text("fallback"))]);
    let bad = object(vec![
        ("rpcConsensusType", text("roundrobin")),
        ("nativeToken", text("oops")),
        ("customGrpcUrls", text("nonsense,,http://ok.example/")),
    ]);
    for value in [&good, &bad] {
        let chain = ValueParser::new(root_path(), value);
        for protocol in [
            HyperlaneDomainProtocol::Ethereum,
            HyperlaneDomainProtocol::Fuel,
            HyperlaneDomainProtocol::Sealevel,
            HyperlaneDomainProtocol::Cosmos,
        ] {
            let mut first_err = ConfigParsingError::new();
            let first = build_connection_conf(protocol, &abc(), &chain, &mut first_err, "single", batch());
            let mut second_err = ConfigParsingError::new();
            let second = build_connection_conf(protocol, &abc(), &chain, &mut second_err, "single", batch());
            assert_eq!(first, second);
            assert_eq!(first_err, second_err);
        }
    }
}
