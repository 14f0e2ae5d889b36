//! The builders: from a chain's configuration subtree and its protocol to
//! that protocol's connection settings, with every problem recorded.

use vstd::prelude::*;
use vstd::string::*;
use url::Url;
use crate::chain_conf::{ChainConnectionConf, ChainConnectionView};
use crate::common::{HyperlaneDomainProtocol, NativeToken, NativeTokenView, OperationBatchConfig};
use crate::cosmos;
use crate::cosmos::{RawCosmosAmount, RawCosmosAmountView};
use crate::error::{ConfigErrorView, ConfigParsingError};
use crate::ethereum;
use crate::ethereum::{
    no_overrides, RpcConnectionConf, RpcConnectionView, TransactionOverrides,
    TransactionOverridesView,
};
use crate::fuel;
use crate::sealevel;
use crate::text::same_text;
use crate::urls::{clone_urls, merged_url_errors, merged_urls, parse_base_and_override_urls};
use crate::value::{ParserView, Read, ValueParser};

verus! {

/// The native token that a chain's configuration describes: the decimals
/// under `nativeToken.decimals`, or `default_decimals` where they are
/// missing or unreadable; the denomination under `nativeToken.denom`, or the
/// empty string.
pub open spec fn native_token_of(chain: ParserView, default_decimals: u32) -> NativeTokenView {
    let decimals = chain.opt_key("nativeToken"@).and_then(
        |block: ParserView| block.opt_u32_at("decimals"@),
    );
    let denom = chain.opt_key("nativeToken"@).and_then(
        |block: ParserView| block.opt_string_at("denom"@),
    );
    NativeTokenView {
        decimals: match decimals.value {
            Some(n) => n,
            None => default_decimals,
        },
        denom: match denom.value {
            Some(text) => text,
            None => Seq::empty(),
        },
    }
}

/// The problems met while reading a chain's native token: those of the
/// decimals, then those of the denomination.
pub open spec fn native_token_errors(chain: ParserView) -> Seq<ConfigErrorView> {
    chain.opt_key("nativeToken"@).and_then(
        |block: ParserView| block.opt_u32_at("decimals"@),
    ).errors + chain.opt_key("nativeToken"@).and_then(
        |block: ParserView| block.opt_string_at("denom"@),
    ).errors
}

/// Reads a chain's native token. It always yields one: what cannot be read
/// is recorded in `err` and replaced by its default.
pub fn parse_native_token(
    chain: &ValueParser,
    err: &mut ConfigParsingError,
    default_decimals: u32,
) -> (token: NativeToken)
    ensures
        token@ == native_token_of(chain@, default_decimals),
        final(err)@ == old(err)@ + native_token_errors(chain@),
{
    let ghost before = err@;
    let decimals = match chain.get_opt_key("nativeToken", err) {
        Some(block) => block.opt_u32_at("decimals", err),
        None => None,
    };
    let ghost middle = err@;
    assert(middle =~= before + chain@.opt_key("nativeToken"@).and_then(
        |block: ParserView| block.opt_u32_at("decimals"@),
    ).errors);
    let denom = match chain.get_opt_key("nativeToken", err) {
        Some(block) => block.opt_string_at("denom", err),
        None => None,
    };
    assert(err@ =~= middle + chain@.opt_key("nativeToken"@).and_then(
        |block: ParserView| block.opt_string_at("denom"@),
    ).errors);
    assert(err@ =~= before + native_token_errors(chain@));
    let token = NativeToken {
        decimals: match decimals {
            Some(n) => n,
            None => default_decimals,
        },
        denom: match denom {
            Some(text) => text.to_owned(),
            None => String::new(),
        },
    };
    token
}

/// The consensus type that a chain's configuration names under
/// `rpcConsensusType`, or `default_type` where it names none that can be
/// read.
pub open spec fn consensus_type_of(chain: ParserView, default_type: Seq<char>) -> Seq<char> {
    match chain.opt_string_at("rpcConsensusType"@).value {
        Some(text) => text,
        None => default_type,
    }
}

/// How a consensus type uses a list of endpoints: `single` takes the first,
/// `fallback` and `quorum` take them all in the order given, and any other
/// word is none.
pub open spec fn rpc_strategy(rpcs: Seq<Url>, consensus_type: Seq<char>) -> Option<
    RpcConnectionView,
>
    recommends
        rpcs.len() > 0,
{
    if consensus_type == "single"@ {
        Some(RpcConnectionView::Http { url: rpcs[0] })
    } else if consensus_type == "fallback"@ {
        Some(RpcConnectionView::HttpFallback { urls: rpcs })
    } else if consensus_type == "quorum"@ {
        Some(RpcConnectionView::HttpQuorum { urls: rpcs })
    } else {
        None
    }
}

/// The problem recorded for a consensus type that is none of the three
/// known ones.
pub open spec fn unknown_consensus_type(chain: ParserView, consensus_type: Seq<char>)
    -> ConfigErrorView {
    ConfigErrorView {
        path: chain.cwp.push("rpc_consensus_type"@),
        cause: "unknown rpc consensus type `"@ + consensus_type + "`"@,
    }
}

/// The transaction overrides that a chain's configuration gives under
/// `transactionOverrides`: each of the four is read on its own, and all are
/// absent where the block is.
pub open spec fn overrides_of(chain: ParserView) -> TransactionOverridesView {
    match chain.opt_key("transactionOverrides"@).value {
        Some(block) => TransactionOverridesView {
            gas_price: block.opt_u256_at("gasPrice"@).value,
            gas_limit: block.opt_u256_at("gasLimit"@).value,
            max_fee_per_gas: block.opt_u256_at("maxFeePerGas"@).value,
            max_priority_fee_per_gas: block.opt_u256_at("maxPriorityFeePerGas"@).value,
        },
        None => no_overrides(),
    }
}

/// The problems met while reading the transaction overrides, in the order
/// in which the fields are read.
pub open spec fn overrides_errors(chain: ParserView) -> Seq<ConfigErrorView> {
    let found = chain.opt_key("transactionOverrides"@);
    match found.value {
        Some(block) => found.errors + block.opt_u256_at("gasPrice"@).errors
            + block.opt_u256_at("gasLimit"@).errors + block.opt_u256_at("maxFeePerGas"@).errors
            + block.opt_u256_at("maxPriorityFeePerGas"@).errors,
        None => found.errors,
    }
}

/// The settings of an EVM-style chain: none without an endpoint, none for
/// an unknown consensus type, else the strategy, the overrides and the
/// batching configuration.
pub open spec fn ethereum_conf(
    rpcs: Seq<Url>,
    chain: ParserView,
    default_type: Seq<char>,
    operation_batch: OperationBatchConfig,
) -> Option<ChainConnectionView> {
    if rpcs.len() == 0 {
        None
    } else {
        match rpc_strategy(rpcs, consensus_type_of(chain, default_type)) {
            Some(rpc_connection) => Some(
                ChainConnectionView::Ethereum(
                    ethereum::ConnectionView {
                        rpc_connection,
                        transaction_overrides: overrides_of(chain),
                        operation_batch,
                    },
                ),
            ),
            None => None,
        }
    }
}

/// The problems recorded while building the settings of an EVM-style chain:
/// none without an endpoint; else those of reading the consensus type, one
/// for an unknown consensus type, and those of the overrides.
pub open spec fn ethereum_errors(rpcs: Seq<Url>, chain: ParserView, default_type: Seq<char>)
    -> Seq<ConfigErrorView> {
    if rpcs.len() == 0 {
        Seq::empty()
    } else {
        let consensus_type = consensus_type_of(chain, default_type);
        chain.opt_string_at("rpcConsensusType"@).errors + (if rpc_strategy(rpcs, consensus_type)
            is None {
            seq![unknown_consensus_type(chain, consensus_type)]
        } else {
            Seq::empty()
        }) + overrides_errors(chain)
    }
}

/// Picks the connection strategy that `consensus_type` names. An unknown
/// name is recorded in `err`.
fn resolve_rpc_strategy(
    rpcs: &[Url],
    chain: &ValueParser,
    err: &mut ConfigParsingError,
    consensus_type: &str,
) -> (strategy: Option<RpcConnectionConf>)
    requires
        rpcs@.len() > 0,
    ensures
        strategy.is_some() == rpc_strategy(rpcs@, consensus_type@).is_some(),
        strategy matches Some(s) ==> Some(s@) == rpc_strategy(rpcs@, consensus_type@),
        final(err)@ == old(err)@ + (if rpc_strategy(rpcs@, consensus_type@) is None {
            seq![unknown_consensus_type(chain@, consensus_type@)]
        } else {
            Seq::<ConfigErrorView>::empty()
        }),
{
    let ghost before = err@;
    if same_text(consensus_type, "single") {
        assert(err@ =~= before + Seq::<ConfigErrorView>::empty());
        Some(RpcConnectionConf::Http { url: rpcs[0].clone() })
    } else if same_text(consensus_type, "fallback") {
        assert(err@ =~= before + Seq::<ConfigErrorView>::empty());
        Some(RpcConnectionConf::HttpFallback { urls: clone_urls(rpcs) })
    } else if same_text(consensus_type, "quorum") {
        assert(err@ =~= before + Seq::<ConfigErrorView>::empty());
        Some(RpcConnectionConf::HttpQuorum { urls: clone_urls(rpcs) })
    } else {
        let cause = "unknown rpc consensus type `".to_owned().concat(consensus_type).concat("`");
        err.push(chain.cwp.join("rpc_consensus_type"), cause);
        assert(err@ =~= before + seq![unknown_consensus_type(chain@, consensus_type@)]);
        None
    }
}

/// Reads the transaction overrides of an EVM-style chain. What cannot be
/// read is recorded in `err` and left absent.
fn parse_transaction_overrides(chain: &ValueParser, err: &mut ConfigParsingError) -> (overrides:
    TransactionOverrides)
    ensures
        overrides@ == overrides_of(chain@),
        final(err)@ == old(err)@ + overrides_errors(chain@),
{
    let ghost before = err@;
    match chain.get_opt_key("transactionOverrides", err) {
        Some(block) => {
            let gas_price = block.opt_u256_at("gasPrice", err);
            let gas_limit = block.opt_u256_at("gasLimit", err);
            let max_fee_per_gas = block.opt_u256_at("maxFeePerGas", err);
            let max_priority_fee_per_gas = block.opt_u256_at("maxPriorityFeePerGas", err);
            assert(err@ =~= before + overrides_errors(chain@));
            TransactionOverrides { gas_price, gas_limit, max_fee_per_gas, max_priority_fee_per_gas }
        },
        None => TransactionOverrides::default(),
    }
}

/// Builds the connection settings of an EVM-style chain.
///
/// A chain without endpoints is switched off: nothing is built and nothing
/// recorded. Otherwise the consensus type is read (`default_rpc_consensus_type`
/// where none is configured) and the overrides are read; an unknown
/// consensus type is recorded and nothing is built.
pub fn build_ethereum_connection_conf(
    rpcs: &[Url],
    chain: &ValueParser,
    err: &mut ConfigParsingError,
    default_rpc_consensus_type: &str,
    operation_batch: OperationBatchConfig,
) -> (conf: Option<ChainConnectionConf>)
    ensures
        conf.deep_view() == ethereum_conf(
            rpcs@,
            chain@,
            default_rpc_consensus_type@,
            operation_batch,
        ),
        final(err)@ == old(err)@ + ethereum_errors(rpcs@, chain@, default_rpc_consensus_type@),
{
    let ghost before = err@;
    if rpcs.len() == 0 {
        assert(err@ =~= before + Seq::<ConfigErrorView>::empty());
        return None;
    }
    let rpc_consensus_type = match chain.opt_string_at("rpcConsensusType", err) {
        Some(text) => text,
        None => default_rpc_consensus_type,
    };
    let rpc_connection_conf = resolve_rpc_strategy(rpcs, chain, err, rpc_consensus_type);
    let transaction_overrides = parse_transaction_overrides(chain, err);
    assert(err@ =~= before + ethereum_errors(rpcs@, chain@, default_rpc_consensus_type@));
    match rpc_connection_conf {
        Some(rpc_connection) => Some(
            ChainConnectionConf::Ethereum(
                ethereum::ConnectionConf { rpc_connection, transaction_overrides, operation_batch },
            ),
        ),
        None => None,
    }
}

/// Reading a Cosmos gas price: an object with the strings `amount` and
/// `denom`, both required.
pub open spec fn gas_price_of(reader: ParserView) -> Read<RawCosmosAmountView> {
    let amount = reader.string_at("amount"@);
    let denom = reader.string_at("denom"@);
    Read {
        value: if amount.value is Some && denom.value is Some {
            Some(RawCosmosAmountView { denom: denom.value->0, amount: amount.value->0 })
        } else {
            None
        },
        errors: amount.errors + denom.errors,
    }
}

/// Reads a Cosmos gas price. What is missing or no string is recorded in
/// `err`, and then there is no price.
pub fn parse_cosmos_gas_price(gas_price: &ValueParser, err: &mut ConfigParsingError) -> (price:
    Option<RawCosmosAmount>)
    ensures
        price.deep_view() == gas_price_of(gas_price@).value,
        final(err)@ == old(err)@ + gas_price_of(gas_price@).errors,
{
    let ghost before = err@;
    let amount = gas_price.string_at("amount", err);
    let denom = gas_price.string_at("denom", err);
    assert(err@ =~= before + gas_price_of(gas_price@).errors);
    match (amount, denom) {
        (Some(amount), Some(denom)) => Some(
            RawCosmosAmount { denom: denom.to_owned(), amount: amount.to_owned() },
        ),
        _ => None,
    }
}

/// Reading the gas price of a Cosmos chain, under `gasPrice`.
pub open spec fn cosmos_gas_price(chain: ParserView) -> Read<RawCosmosAmountView> {
    chain.opt_key("gasPrice"@).and_then(|found: ParserView| gas_price_of(found))
}

/// The canonical asset of a Cosmos chain: the one configured under
/// `canonicalAsset`; else the letter `u` before the bech32 prefix; none
/// where neither can be read.
pub open spec fn canonical_asset_of(chain: ParserView) -> Option<Seq<char>> {
    match chain.opt_string_at("canonicalAsset"@).value {
        Some(asset) => Some(asset),
        None => match chain.string_at("bech32Prefix"@).value {
            Some(prefix) => Some("u"@ + prefix),
            None => None,
        },
    }
}

/// One problem of a Cosmos chain, at the key `segment` of the chain.
pub open spec fn cosmos_problem(chain: ParserView, segment: Seq<char>, cause: Seq<char>)
    -> ConfigErrorView {
    ConfigErrorView { path: chain.cwp.push(segment), cause }
}

/// `problem` where `missing` holds, else nothing.
pub open spec fn problem_if(missing: bool, problem: ConfigErrorView) -> Seq<ConfigErrorView> {
    if missing {
        seq![problem]
    } else {
        Seq::empty()
    }
}

/// What blocks a Cosmos chain for want of a chain id: the problems of
/// reading `chainId`, and one more where it could not be had.
pub open spec fn chain_id_blocking(chain: ParserView) -> Seq<ConfigErrorView> {
    chain.string_at("chainId"@).errors + problem_if(
        chain.string_at("chainId"@).value is None,
        cosmos_problem(chain, "chain_id"@, "Missing chain id for chain"@),
    )
}

/// What blocks a Cosmos chain for want of a bech32 prefix.
pub open spec fn prefix_blocking(chain: ParserView) -> Seq<ConfigErrorView> {
    problem_if(
        chain.string_at("bech32Prefix"@).value is None,
        cosmos_problem(chain, "bech32Prefix"@, "Missing bech32 prefix for chain"@),
    )
}

/// What blocks a Cosmos chain for want of a canonical asset.
pub open spec fn asset_blocking(chain: ParserView) -> Seq<ConfigErrorView> {
    problem_if(
        canonical_asset_of(chain) is None,
        cosmos_problem(chain, "canonical_asset"@, "Missing canonical asset for chain"@),
    )
}

/// What blocks a Cosmos chain for want of a gas price.
pub open spec fn gas_price_blocking(chain: ParserView) -> Seq<ConfigErrorView> {
    problem_if(
        cosmos_gas_price(chain).value is None,
        cosmos_problem(chain, "gas_price"@, "Missing gas price for chain"@),
    )
}

/// What blocks a Cosmos chain for want of the width of a contract address.
pub open spec fn address_bytes_blocking(chain: ParserView) -> Seq<ConfigErrorView> {
    problem_if(
        chain.opt_u64_at("contractAddressBytes"@).value is None,
        cosmos_problem(
            chain,
            "contract_address_bytes"@,
            "Missing contract address bytes for chain"@,
        ),
    )
}

/// The problems that keep a Cosmos chain from being built, in the order in
/// which they are found: those of the gRPC endpoints and of reading the
/// chain id, then one for each of chain id, bech32 prefix, canonical asset,
/// gas price and contract address bytes that could not be had.
pub open spec fn cosmos_blocking_errors(chain: ParserView) -> Seq<ConfigErrorView> {
    merged_url_errors(chain, "grpcUrls"@, "customGrpcUrls"@, "http"@) + chain_id_blocking(chain)
        + prefix_blocking(chain) + asset_blocking(chain) + gas_price_blocking(chain)
        + address_bytes_blocking(chain)
}

/// The problems that reading the fields of a Cosmos chain records whether
/// or not the chain is built, in the order in which the fields are read.
pub open spec fn cosmos_field_errors(chain: ParserView) -> Seq<ConfigErrorView> {
    chain.string_at("bech32Prefix"@).errors + chain.opt_string_at("canonicalAsset"@).errors
        + cosmos_gas_price(chain).errors + chain.opt_u64_at("contractAddressBytes"@).errors
        + native_token_errors(chain)
}

/// The settings of a Cosmos chain: all of them where nothing blocks the
/// chain, none otherwise.
pub open spec fn cosmos_conf(
    rpcs: Seq<Url>,
    chain: ParserView,
    operation_batch: OperationBatchConfig,
) -> Option<ChainConnectionView> {
    if cosmos_blocking_errors(chain).len() == 0 {
        Some(
            ChainConnectionView::Cosmos(
                cosmos::ConnectionView {
                    grpc_urls: merged_urls(chain, "grpcUrls"@, "customGrpcUrls"@, "http"@),
                    rpc_urls: rpcs,
                    chain_id: chain.string_at("chainId"@).value->0,
                    bech32_prefix: chain.string_at("bech32Prefix"@).value->0,
                    canonical_asset: canonical_asset_of(chain)->0,
                    gas_price: cosmos_gas_price(chain).value->0,
                    contract_address_bytes: chain.opt_u64_at("contractAddressBytes"@).value->0,
                    operation_batch,
                    native_token: native_token_of(chain, 18),
                },
            ),
        )
    } else {
        None
    }
}

/// The problems recorded while building the settings of a Cosmos chain:
/// those of reading the fields, then those that block the chain.
pub open spec fn cosmos_errors(chain: ParserView) -> Seq<ConfigErrorView> {
    cosmos_field_errors(chain) + cosmos_blocking_errors(chain)
}

/// Reads the chain id of a Cosmos chain. Every problem goes to `blocking`.
fn read_chain_id<'v>(chain: &ValueParser<'v>, blocking: &mut ConfigParsingError) -> (chain_id:
    Option<&'v str>)
    ensures
        chain_id.deep_view() == chain@.string_at("chainId"@).value,
        final(blocking)@ == old(blocking)@ + chain_id_blocking(chain@),
{
    let ghost before = blocking@;
    let chain_id = chain.string_at("chainId", blocking);
    if chain_id.is_none() {
        blocking.push(chain.cwp.join("chain_id"), "Missing chain id for chain".to_owned());
    }
    assert(blocking@ =~= before + chain_id_blocking(chain@));
    chain_id
}

/// Reads the bech32 prefix of a Cosmos chain. What the reading records goes
/// to `err`; that there is no prefix goes to `blocking`.
fn read_prefix<'v>(
    chain: &ValueParser<'v>,
    err: &mut ConfigParsingError,
    blocking: &mut ConfigParsingError,
) -> (prefix: Option<&'v str>)
    ensures
        prefix.deep_view() == chain@.string_at("bech32Prefix"@).value,
        final(err)@ == old(err)@ + chain@.string_at("bech32Prefix"@).errors,
        final(blocking)@ == old(blocking)@ + prefix_blocking(chain@),
{
    let ghost before = blocking@;
    let prefix = chain.string_at("bech32Prefix", err);
    if prefix.is_none() {
        blocking.push(
            chain.cwp.join("bech32Prefix"),
            "Missing bech32 prefix for chain".to_owned(),
        );
    }
    assert(blocking@ =~= before + prefix_blocking(chain@));
    prefix
}

/// Settles the canonical asset of a Cosmos chain: the configured one, else
/// one made from `prefix`, which is the prefix that was read before. That
/// there is neither goes to `blocking`.
fn read_canonical_asset(
    chain: &ValueParser,
    prefix: Option<&str>,
    err: &mut ConfigParsingError,
    blocking: &mut ConfigParsingError,
) -> (asset: Option<String>)
    requires
        prefix.deep_view() == chain@.string_at("bech32Prefix"@).value,
    ensures
        asset.deep_view() == canonical_asset_of(chain@),
        final(err)@ == old(err)@ + chain@.opt_string_at("canonicalAsset"@).errors,
        final(blocking)@ == old(blocking)@ + asset_blocking(chain@),
{
    let ghost before = blocking@;
    let asset = match chain.opt_string_at("canonicalAsset", err) {
        Some(asset) => Some(asset.to_owned()),
        None => match prefix {
            Some(hrp) => Some("u".to_owned().concat(hrp)),
            None => {
                blocking.push(
                    chain.cwp.join("canonical_asset"),
                    "Missing canonical asset for chain".to_owned(),
                );
                None
            },
        },
    };
    assert(blocking@ =~= before + asset_blocking(chain@));
    asset
}

/// Reads the gas price of a Cosmos chain. What the reading records goes to
/// `err`; that there is no price goes to `blocking`.
fn read_gas_price(
    chain: &ValueParser,
    err: &mut ConfigParsingError,
    blocking: &mut ConfigParsingError,
) -> (price: Option<RawCosmosAmount>)
    ensures
        price.deep_view() == cosmos_gas_price(chain@).value,
        final(err)@ == old(err)@ + cosmos_gas_price(chain@).errors,
        final(blocking)@ == old(blocking)@ + gas_price_blocking(chain@),
{
    let ghost before = blocking@;
    let ghost err_before = err@;
    let price = match chain.get_opt_key("gasPrice", err) {
        Some(found) => parse_cosmos_gas_price(&found, err),
        None => None,
    };
    assert(err@ =~= err_before + cosmos_gas_price(chain@).errors);
    if price.is_none() {
        blocking.push(chain.cwp.join("gas_price"), "Missing gas price for chain".to_owned());
    }
    assert(blocking@ =~= before + gas_price_blocking(chain@));
    price
}

/// Reads the width of a contract address of a Cosmos chain. What the
/// reading records goes to `err`; that there is no width goes to `blocking`.
fn read_contract_address_bytes(
    chain: &ValueParser,
    err: &mut ConfigParsingError,
    blocking: &mut ConfigParsingError,
) -> (width: Option<u64>)
    ensures
        width == chain@.opt_u64_at("contractAddressBytes"@).value,
        final(err)@ == old(err)@ + chain@.opt_u64_at("contractAddressBytes"@).errors,
        final(blocking)@ == old(blocking)@ + address_bytes_blocking(chain@),
{
    let ghost before = blocking@;
    let width = chain.opt_u64_at("contractAddressBytes", err);
    if width.is_none() {
        blocking.push(
            chain.cwp.join("contract_address_bytes"),
            "Missing contract address bytes for chain".to_owned(),
        );
    }
    assert(blocking@ =~= before + address_bytes_blocking(chain@));
    width
}

/// Where nothing blocks a Cosmos chain, every one of its required fields
/// has been read.
pub proof fn lemma_unblocked_cosmos_is_complete(chain: ParserView)
    requires
        cosmos_blocking_errors(chain).len() == 0,
    ensures
        chain.string_at("chainId"@).value is Some,
        chain.string_at("bech32Prefix"@).value is Some,
        canonical_asset_of(chain) is Some,
        cosmos_gas_price(chain).value is Some,
        chain.opt_u64_at("contractAddressBytes"@).value is Some,
{
    let urls = merged_url_errors(chain, "grpcUrls"@, "customGrpcUrls"@, "http"@);
    let a = urls + chain_id_blocking(chain);
    let b = a + prefix_blocking(chain);
    let c = b + asset_blocking(chain);
    let d = c + gas_price_blocking(chain);
    let e = d + address_bytes_blocking(chain);
    assert(e == cosmos_blocking_errors(chain));
    assert(e.len() == d.len() + address_bytes_blocking(chain).len());
    assert(d.len() == c.len() + gas_price_blocking(chain).len());
    assert(c.len() == b.len() + asset_blocking(chain).len());
    assert(b.len() == a.len() + prefix_blocking(chain).len());
    assert(a.len() == urls.len() + chain_id_blocking(chain).len());
}

/// Appending is associative.
proof fn lemma_append_assoc(
    a: Seq<ConfigErrorView>,
    b: Seq<ConfigErrorView>,
    c: Seq<ConfigErrorView>,
)
    ensures
        (a + b) + c == a + (b + c),
{
    assert((a + b) + c =~= a + (b + c));
}

/// Reads every field of a Cosmos chain but the endpoints and the native
/// token, in their order.
fn read_cosmos_fields<'v>(
    chain: &ValueParser<'v>,
    err: &mut ConfigParsingError,
    blocking: &mut ConfigParsingError,
) -> (fields: (
    Option<&'v str>,
    Option<&'v str>,
    Option<String>,
    Option<RawCosmosAmount>,
    Option<u64>,
))
    ensures
        fields.0.deep_view() == chain@.string_at("chainId"@).value,
        fields.1.deep_view() == chain@.string_at("bech32Prefix"@).value,
        fields.2.deep_view() == canonical_asset_of(chain@),
        fields.3.deep_view() == cosmos_gas_price(chain@).value,
        fields.4 == chain@.opt_u64_at("contractAddressBytes"@).value,
        final(err)@ == old(err)@ + (chain@.string_at("bech32Prefix"@).errors + chain@.opt_string_at(
            "canonicalAsset"@,
        ).errors + cosmos_gas_price(chain@).errors + chain@.opt_u64_at(
            "contractAddressBytes"@,
        ).errors),
        final(blocking)@ == old(blocking)@ + chain_id_blocking(chain@) + prefix_blocking(chain@)
            + asset_blocking(chain@) + gas_price_blocking(chain@) + address_bytes_blocking(
            chain@,
        ),
{
    let ghost before = err@;
    let chain_id = read_chain_id(chain, blocking);
    let prefix = read_prefix(chain, err, blocking);
    let canonical_asset = read_canonical_asset(chain, prefix, err, blocking);
    let gas_price = read_gas_price(chain, err, blocking);
    let contract_address_bytes = read_contract_address_bytes(chain, err, blocking);
    proof {
        let of_prefix = chain@.string_at("bech32Prefix"@).errors;
        let of_asset = chain@.opt_string_at("canonicalAsset"@).errors;
        let of_price = cosmos_gas_price(chain@).errors;
        let of_width = chain@.opt_u64_at("contractAddressBytes"@).errors;
        lemma_append_assoc(before, of_prefix, of_asset);
        lemma_append_assoc(before, of_prefix + of_asset, of_price);
        lemma_append_assoc(before, of_prefix + of_asset + of_price, of_width);
    }
    (chain_id, prefix, canonical_asset, gas_price, contract_address_bytes)
}

/// Builds the connection settings of a Cosmos chain.
///
/// Every field is read, whatever became of the others. What blocks the
/// chain is gathered apart and reaches `err` only at the end; the settings
/// are built if and only if nothing was gathered, and then every field has
/// been read.
pub fn build_cosmos_connection_conf(
    rpcs: &[Url],
    chain: &ValueParser,
    err: &mut ConfigParsingError,
    operation_batch: OperationBatchConfig,
) -> (conf: Option<ChainConnectionConf>)
    ensures
        conf.deep_view() == cosmos_conf(rpcs@, chain@, operation_batch),
        final(err)@ == old(err)@ + cosmos_errors(chain@),
{
    let ghost before = err@;
    let mut local_err = ConfigParsingError::new();
    let grpcs = parse_base_and_override_urls(
        chain,
        "grpcUrls",
        "customGrpcUrls",
        "http",
        &mut local_err,
    );
    proof {
        let urls = merged_url_errors(chain@, "grpcUrls"@, "customGrpcUrls"@, "http"@);
        assert(Seq::<ConfigErrorView>::empty() + urls =~= urls);
    }
    let fields = read_cosmos_fields(chain, err, &mut local_err);
    let native_token = parse_native_token(chain, err, 18);
    proof {
        let of_fields = chain@.string_at("bech32Prefix"@).errors + chain@.opt_string_at(
            "canonicalAsset"@,
        ).errors + cosmos_gas_price(chain@).errors + chain@.opt_u64_at(
            "contractAddressBytes"@,
        ).errors;
        lemma_append_assoc(before, of_fields, native_token_errors(chain@));
        assert(err@ == before + cosmos_field_errors(chain@));
        assert(local_err@ == cosmos_blocking_errors(chain@));
        lemma_append_assoc(before, cosmos_field_errors(chain@), cosmos_blocking_errors(chain@));
    }

    if !local_err.is_ok() {
        err.merge(local_err);
        None
    } else {
        proof {
            lemma_unblocked_cosmos_is_complete(chain@);
            assert(err@ + cosmos_blocking_errors(chain@) =~= err@);
        }
        let (chain_id, prefix, canonical_asset, gas_price, contract_address_bytes) = fields;
        Some(
            ChainConnectionConf::Cosmos(
                cosmos::ConnectionConf::new(
                    grpcs,
                    clone_urls(rpcs),
                    chain_id.unwrap().to_owned(),
                    prefix.unwrap().to_owned(),
                    canonical_asset.unwrap(),
                    gas_price.unwrap(),
                    contract_address_bytes.unwrap(),
                    operation_batch,
                    native_token,
                ),
            ),
        )
    }
}

/// The settings of a Sealevel chain with the endpoint `url`.
pub open spec fn sealevel_conf(
    url: Url,
    chain: ParserView,
    operation_batch: OperationBatchConfig,
) -> sealevel::ConnectionView {
    sealevel::ConnectionView { url, operation_batch, native_token: native_token_of(chain, 9) }
}

/// Builds the connection settings of a Sealevel chain from its endpoint.
/// It always succeeds; what cannot be read of the native token is recorded
/// in `err`.
pub fn build_sealevel_connection_conf(
    url: &Url,
    chain: &ValueParser,
    err: &mut ConfigParsingError,
    operation_batch: OperationBatchConfig,
) -> (conf: sealevel::ConnectionConf)
    ensures
        conf@ == sealevel_conf(*url, chain@, operation_batch),
        final(err)@ == old(err)@ + native_token_errors(chain@),
{
    let native_token = parse_native_token(chain, err, 9);
    sealevel::ConnectionConf { url: url.clone(), operation_batch, native_token }
}

/// The settings that a chain's configuration yields for its protocol.
///
/// Ethereum, Fuel and Sealevel chains without an endpoint yield none; Fuel
/// and Sealevel chains use the first endpoint.
pub open spec fn connection_conf(
    protocol: HyperlaneDomainProtocol,
    rpcs: Seq<Url>,
    chain: ParserView,
    default_type: Seq<char>,
    operation_batch: OperationBatchConfig,
) -> Option<ChainConnectionView> {
    match protocol {
        HyperlaneDomainProtocol::Ethereum => ethereum_conf(
            rpcs,
            chain,
            default_type,
            operation_batch,
        ),
        HyperlaneDomainProtocol::Fuel => if rpcs.len() == 0 {
            None
        } else {
            Some(ChainConnectionView::Fuel(fuel::ConnectionView { url: rpcs[0] }))
        },
        HyperlaneDomainProtocol::Sealevel => if rpcs.len() == 0 {
            None
        } else {
            Some(ChainConnectionView::Sealevel(sealevel_conf(rpcs[0], chain, operation_batch)))
        },
        HyperlaneDomainProtocol::Cosmos => cosmos_conf(rpcs, chain, operation_batch),
    }
}

/// The problems recorded while building a chain's settings for its
/// protocol.
pub open spec fn connection_errors(
    protocol: HyperlaneDomainProtocol,
    rpcs: Seq<Url>,
    chain: ParserView,
    default_type: Seq<char>,
) -> Seq<ConfigErrorView> {
    match protocol {
        HyperlaneDomainProtocol::Ethereum => ethereum_errors(rpcs, chain, default_type),
        HyperlaneDomainProtocol::Fuel => Seq::empty(),
        HyperlaneDomainProtocol::Sealevel => if rpcs.len() == 0 {
            Seq::empty()
        } else {
            native_token_errors(chain)
        },
        HyperlaneDomainProtocol::Cosmos => cosmos_errors(chain),
    }
}

/// Builds the connection settings of a chain with the builder of its
/// protocol, and hands on what that builder yields.
pub fn build_connection_conf(
    domain_protocol: HyperlaneDomainProtocol,
    rpcs: &[Url],
    chain: &ValueParser,
    err: &mut ConfigParsingError,
    default_rpc_consensus_type: &str,
    operation_batch: OperationBatchConfig,
) -> (conf: Option<ChainConnectionConf>)
    ensures
        conf.deep_view() == connection_conf(
            domain_protocol,
            rpcs@,
            chain@,
            default_rpc_consensus_type@,
            operation_batch,
        ),
        final(err)@ == old(err)@ + connection_errors(
            domain_protocol,
            rpcs@,
            chain@,
            default_rpc_consensus_type@,
        ),
{
    let ghost before = err@;
    match domain_protocol {
        HyperlaneDomainProtocol::Ethereum => build_ethereum_connection_conf(
            rpcs,
            chain,
            err,
            default_rpc_consensus_type,
            operation_batch,
        ),
        HyperlaneDomainProtocol::Fuel => {
            assert(err@ =~= before + Seq::<ConfigErrorView>::empty());
            if rpcs.len() == 0 {
                None
            } else {
                Some(ChainConnectionConf::Fuel(fuel::ConnectionConf { url: rpcs[0].clone() }))
            }
        },
        HyperlaneDomainProtocol::Sealevel => {
            if rpcs.len() == 0 {
                assert(err@ =~= before + Seq::<ConfigErrorView>::empty());
                None
            } else {
                Some(
                    ChainConnectionConf::Sealevel(
                        build_sealevel_connection_conf(&rpcs[0], chain, err, operation_batch),
                    ),
                )
            }
        },
        HyperlaneDomainProtocol::Cosmos => build_cosmos_connection_conf(
            rpcs,
            chain,
            err,
            operation_batch,
        ),
    }
}

} // verus!
