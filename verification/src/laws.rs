//! What holds of the builders on every input, proved from their models.

use vstd::prelude::*;
use url::Url;
use crate::chain_conf::ChainConnectionView;
use crate::common::{HyperlaneDomainProtocol, NativeTokenView, OperationBatchConfig};
use crate::connection::{
    address_bytes_blocking, asset_blocking, canonical_asset_of, chain_id_blocking,
    connection_conf, connection_errors, consensus_type_of, cosmos_blocking_errors, cosmos_conf,
    cosmos_errors, cosmos_field_errors, cosmos_problem, ethereum_conf, ethereum_errors,
    gas_price_blocking, native_token_errors, native_token_of, overrides_errors, overrides_of,
    prefix_blocking, rpc_strategy, sealevel_conf, unknown_consensus_type,
};
use crate::urls::merged_url_errors;
use crate::error::ConfigErrorView;
use crate::ethereum::{RpcConnectionView, TransactionOverridesView};
use crate::value::{read_absent, read_ok, ParserView};

verus! {

/// What a run of `build_connection_conf` leaves behind: the settings it
/// returned and the sink after it, given the inputs and the sink before it.
pub open spec fn built(
    protocol: HyperlaneDomainProtocol,
    rpcs: Seq<Url>,
    chain: ParserView,
    default_type: Seq<char>,
    operation_batch: OperationBatchConfig,
    sink_before: Seq<ConfigErrorView>,
    conf: Option<ChainConnectionView>,
    sink_after: Seq<ConfigErrorView>,
) -> bool {
    &&& conf == connection_conf(protocol, rpcs, chain, default_type, operation_batch)
    &&& sink_after == sink_before + connection_errors(protocol, rpcs, chain, default_type)
}

/// An Ethereum, Fuel or Sealevel chain without any endpoint is switched
/// off: no settings are built and nothing is recorded.
pub proof fn law_no_endpoint_switches_chain_off(
    protocol: HyperlaneDomainProtocol,
    chain: ParserView,
    default_type: Seq<char>,
    operation_batch: OperationBatchConfig,
)
    requires
        protocol != HyperlaneDomainProtocol::Cosmos,
    ensures
        connection_conf(protocol, Seq::empty(), chain, default_type, operation_batch) is None,
        connection_errors(protocol, Seq::empty(), chain, default_type) == Seq::<
            ConfigErrorView,
        >::empty(),
{
}

/// With at least one endpoint, `single` uses exactly the first endpoint,
/// and `fallback` and `quorum` use all of them in the order given.
pub proof fn law_strategy_resolution(rpcs: Seq<Url>)
    requires
        rpcs.len() > 0,
    ensures
        rpc_strategy(rpcs, "single"@) == Some(RpcConnectionView::Http { url: rpcs[0] }),
        rpc_strategy(rpcs, "fallback"@) == Some(RpcConnectionView::HttpFallback { urls: rpcs }),
        rpc_strategy(rpcs, "quorum"@) == Some(RpcConnectionView::HttpQuorum { urls: rpcs }),
{
    reveal_strlit("single");
    reveal_strlit("fallback");
    reveal_strlit("quorum");
    assert("fallback"@.len() != "single"@.len());
    assert("quorum"@[0] != "single"@[0]);
    assert("quorum"@.len() != "fallback"@.len());
}

/// A consensus type that is none of `single`, `fallback` and `quorum`
/// yields no settings, and exactly one problem beyond those of reading the
/// fields: the one at `rpc_consensus_type`.
pub proof fn law_unknown_consensus_type_is_a_problem(
    rpcs: Seq<Url>,
    chain: ParserView,
    default_type: Seq<char>,
    operation_batch: OperationBatchConfig,
)
    requires
        rpcs.len() > 0,
        consensus_type_of(chain, default_type) != "single"@,
        consensus_type_of(chain, default_type) != "fallback"@,
        consensus_type_of(chain, default_type) != "quorum"@,
    ensures
        ethereum_conf(rpcs, chain, default_type, operation_batch) is None,
        ethereum_errors(rpcs, chain, default_type) == chain.opt_string_at(
            "rpcConsensusType"@,
        ).errors + seq![
            unknown_consensus_type(chain, consensus_type_of(chain, default_type)),
        ] + overrides_errors(chain),
        unknown_consensus_type(chain, consensus_type_of(chain, default_type)).path
            == chain.cwp.push("rpc_consensus_type"@),
        ethereum_errors(rpcs, chain, default_type).len() == chain.opt_string_at(
            "rpcConsensusType"@,
        ).errors.len() + 1 + overrides_errors(chain).len(),
{
}

/// Each override is read on its own: where the overrides block holds a
/// readable `maxFeePerGas` and none of the other three keys, the settings
/// hold that fee, the other three are absent, and nothing is recorded.
pub proof fn law_override_independence(chain: ParserView, block: ParserView, fee: nat)
    requires
        chain.opt_key("transactionOverrides"@) == read_ok(block),
        block.opt_key("gasPrice"@) == read_absent::<ParserView>(),
        block.opt_key("gasLimit"@) == read_absent::<ParserView>(),
        block.opt_key("maxPriorityFeePerGas"@) == read_absent::<ParserView>(),
        block.opt_u256_at("maxFeePerGas"@) == read_ok(fee),
    ensures
        overrides_of(chain) == (TransactionOverridesView {
            gas_price: None,
            gas_limit: None,
            max_fee_per_gas: Some(fee),
            max_priority_fee_per_gas: None,
        }),
        overrides_errors(chain) == Seq::<ConfigErrorView>::empty(),
{
    assert(overrides_errors(chain) =~= Seq::<ConfigErrorView>::empty());
}

/// A Cosmos chain is built whole or not at all: settings come out exactly
/// when nothing blocks the chain, and where none come out at least one
/// problem is recorded. A chain without a readable bech32 prefix is never
/// built, and the missing prefix is among what is recorded.
pub proof fn law_cosmos_all_or_nothing(
    rpcs: Seq<Url>,
    chain: ParserView,
    operation_batch: OperationBatchConfig,
)
    ensures
        cosmos_conf(rpcs, chain, operation_batch) is Some <==> cosmos_blocking_errors(
            chain,
        ).len() == 0,
        cosmos_conf(rpcs, chain, operation_batch) is None ==> cosmos_errors(chain).len() >= 1,
        chain.string_at("bech32Prefix"@).value is None ==> {
            &&& cosmos_conf(rpcs, chain, operation_batch) is None
            &&& cosmos_errors(chain).contains(
                cosmos_problem(chain, "bech32Prefix"@, "Missing bech32 prefix for chain"@),
            )
        },
{
    if chain.string_at("bech32Prefix"@).value is None {
        let problem = cosmos_problem(chain, "bech32Prefix"@, "Missing bech32 prefix for chain"@);
        let urls = merged_url_errors(chain, "grpcUrls"@, "customGrpcUrls"@, "http"@);
        let a = urls + chain_id_blocking(chain);
        let b = a + prefix_blocking(chain);
        let c = b + asset_blocking(chain);
        let d = c + gas_price_blocking(chain);
        let e = d + address_bytes_blocking(chain);
        assert(prefix_blocking(chain) == seq![problem]);
        assert(b[a.len() as int] == problem);
        assert(e[a.len() as int] == problem);
        assert(e == cosmos_blocking_errors(chain));
        let all = cosmos_errors(chain);
        assert(all[(cosmos_field_errors(chain).len() + a.len()) as int] == problem);
    }
}

/// The canonical asset of a Cosmos chain is the configured one whatever
/// the prefix is; without a configured one it is the letter `u` before the
/// prefix.
pub proof fn law_canonical_asset_defaulting(chain: ParserView)
    ensures
        chain.opt_string_at("canonicalAsset"@).value is Some ==> canonical_asset_of(chain)
            == chain.opt_string_at("canonicalAsset"@).value,
        chain.opt_string_at("canonicalAsset"@).value is None && chain.string_at(
            "bech32Prefix"@,
        ).value is Some ==> canonical_asset_of(chain) == Some(
            "u"@ + chain.string_at("bech32Prefix"@).value->0,
        ),
        chain.opt_string_at("canonicalAsset"@).value is None && chain.string_at(
            "bech32Prefix"@,
        ).value is None ==> canonical_asset_of(chain) is None,
{
}

/// A chain without a `nativeToken` block has the default decimals of its
/// protocol, 18 on Cosmos and 9 on Sealevel, and an empty denomination, and
/// reading the token records nothing.
pub proof fn law_native_token_defaulting(
    rpcs: Seq<Url>,
    chain: ParserView,
    default_decimals: u32,
    operation_batch: OperationBatchConfig,
)
    requires
        chain.opt_key("nativeToken"@) == read_absent::<ParserView>(),
    ensures
        native_token_of(chain, default_decimals) == (NativeTokenView {
            decimals: default_decimals,
            denom: Seq::empty(),
        }),
        native_token_errors(chain) == Seq::<ConfigErrorView>::empty(),
        cosmos_conf(rpcs, chain, operation_batch) matches Some(ChainConnectionView::Cosmos(conf))
            ==> conf.native_token == (NativeTokenView { decimals: 18, denom: Seq::empty() }),
        rpcs.len() > 0 ==> sealevel_conf(rpcs[0], chain, operation_batch).native_token == (
        NativeTokenView { decimals: 9, denom: Seq::empty() }),
{
    assert(native_token_errors(chain) =~= Seq::<ConfigErrorView>::empty());
}

/// Building twice from the same inputs, each time into an empty sink, gives
/// the same settings and the same problems in the same order.
pub proof fn law_building_is_repeatable(
    protocol: HyperlaneDomainProtocol,
    rpcs: Seq<Url>,
    chain: ParserView,
    default_type: Seq<char>,
    operation_batch: OperationBatchConfig,
    first_conf: Option<ChainConnectionView>,
    first_sink: Seq<ConfigErrorView>,
    second_conf: Option<ChainConnectionView>,
    second_sink: Seq<ConfigErrorView>,
)
    requires
        built(
            protocol,
            rpcs,
            chain,
            default_type,
            operation_batch,
            Seq::empty(),
            first_conf,
            first_sink,
        ),
        built(
            protocol,
            rpcs,
            chain,
            default_type,
            operation_batch,
            Seq::empty(),
            second_conf,
            second_sink,
        ),
    ensures
        first_conf == second_conf,
        first_sink == second_sink,
{
}

} // verus!
