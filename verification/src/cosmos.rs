//! Connection settings of a Cosmos SDK chain.

use vstd::prelude::*;
use url::Url;
use crate::common::{NativeToken, NativeTokenView, OperationBatchConfig};

verus! {

/// An amount of a Cosmos asset as the configuration spells it: the number
/// stays text, so that no digit of it is lost.
#[derive(Debug, Clone, PartialEq, Eq)]
pub struct RawCosmosAmount {
    /// The denomination, such as `uatom`.
    pub denom: String,
    /// The amount, as written.
    pub amount: String,
}

/// What a `RawCosmosAmount` is.
pub struct RawCosmosAmountView {
    pub denom: Seq<char>,
    pub amount: Seq<char>,
}

impl View for RawCosmosAmount {
    type V = RawCosmosAmountView;

    open spec fn view(&self) -> RawCosmosAmountView {
        RawCosmosAmountView { denom: self.denom@, amount: self.amount@ }
    }
}

impl DeepView for RawCosmosAmount {
    type V = RawCosmosAmountView;

    open spec fn deep_view(&self) -> RawCosmosAmountView {
        self@
    }
}

/// The connection settings of a Cosmos SDK chain.
#[derive(Debug, Clone, PartialEq, Eq)]
pub struct ConnectionConf {
    /// The gRPC endpoints.
    pub grpc_urls: Vec<Url>,
    /// The RPC endpoints.
    pub rpc_urls: Vec<Url>,
    /// The chain identifier.
    pub chain_id: String,
    /// The human-readable prefix of the chain's bech32 addresses.
    pub bech32_prefix: String,
    /// The denomination in which fees are paid.
    pub canonical_asset: String,
    /// The price of one unit of gas.
    pub gas_price: RawCosmosAmount,
    /// The number of bytes in a contract address.
    pub contract_address_bytes: u64,
    /// How operations are batched.
    pub operation_batch: OperationBatchConfig,
    /// The chain's native token.
    pub native_token: NativeToken,
}

/// What a Cosmos `ConnectionConf` is.
pub struct ConnectionView {
    pub grpc_urls: Seq<Url>,
    pub rpc_urls: Seq<Url>,
    pub chain_id: Seq<char>,
    pub bech32_prefix: Seq<char>,
    pub canonical_asset: Seq<char>,
    pub gas_price: RawCosmosAmountView,
    pub contract_address_bytes: u64,
    pub operation_batch: OperationBatchConfig,
    pub native_token: NativeTokenView,
}

impl View for ConnectionConf {
    type V = ConnectionView;

    open spec fn view(&self) -> ConnectionView {
        ConnectionView {
            grpc_urls: self.grpc_urls@,
            rpc_urls: self.rpc_urls@,
            chain_id: self.chain_id@,
            bech32_prefix: self.bech32_prefix@,
            canonical_asset: self.canonical_asset@,
            gas_price: self.gas_price@,
            contract_address_bytes: self.contract_address_bytes,
            operation_batch: self.operation_batch,
            native_token: self.native_token@,
        }
    }
}

impl ConnectionConf {
    /// The settings with every field as given.
    pub fn new(
        grpc_urls: Vec<Url>,
        rpc_urls: Vec<Url>,
        chain_id: String,
        bech32_prefix: String,
        canonical_asset: String,
        gas_price: RawCosmosAmount,
        contract_address_bytes: u64,
        operation_batch: OperationBatchConfig,
        native_token: NativeToken,
    ) -> (conf: ConnectionConf)
        ensures
            conf@ == (ConnectionView {
                grpc_urls: grpc_urls@,
                rpc_urls: rpc_urls@,
                chain_id: chain_id@,
                bech32_prefix: bech32_prefix@,
                canonical_asset: canonical_asset@,
                gas_price: gas_price@,
                contract_address_bytes,
                operation_batch,
                native_token: native_token@,
            }),
    {
        ConnectionConf {
            grpc_urls,
            rpc_urls,
            chain_id,
            bech32_prefix,
            canonical_asset,
            gas_price,
            contract_address_bytes,
            operation_batch,
            native_token,
        }
    }
}

} // verus!
