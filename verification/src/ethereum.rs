//! Connection settings of an EVM-style chain.

use vstd::prelude::*;
use url::Url;
use crate::common::OperationBatchConfig;
use crate::uint::U256;

verus! {

/// How the endpoints of a chain are used together.
#[derive(Debug, Clone, PartialEq, Eq)]
pub enum RpcConnectionConf {
    /// Every endpoint is asked and the answers are put to a vote.
    HttpQuorum { urls: Vec<Url> },
    /// The endpoints are tried in order, a later one only after the earlier
    /// ones have failed.
    HttpFallback { urls: Vec<Url> },
    /// One endpoint.
    Http { url: Url },
}

/// What an `RpcConnectionConf` is, with each list as a sequence.
pub enum RpcConnectionView {
    HttpQuorum { urls: Seq<Url> },
    HttpFallback { urls: Seq<Url> },
    Http { url: Url },
}

impl View for RpcConnectionConf {
    type V = RpcConnectionView;

    open spec fn view(&self) -> RpcConnectionView {
        match self {
            RpcConnectionConf::HttpQuorum { urls } => RpcConnectionView::HttpQuorum { urls: urls@ },
            RpcConnectionConf::HttpFallback { urls } => RpcConnectionView::HttpFallback {
                urls: urls@,
            },
            RpcConnectionConf::Http { url } => RpcConnectionView::Http { url: *url },
        }
    }
}

/// Values that replace what a transaction would otherwise be sent with. Each
/// is there or not on its own.
#[derive(Debug, Clone, Copy, PartialEq, Eq)]
pub struct TransactionOverrides {
    pub gas_price: Option<U256>,
    pub gas_limit: Option<U256>,
    pub max_fee_per_gas: Option<U256>,
    pub max_priority_fee_per_gas: Option<U256>,
}

/// What a `TransactionOverrides` is, each value as a natural number.
pub struct TransactionOverridesView {
    pub gas_price: Option<nat>,
    pub gas_limit: Option<nat>,
    pub max_fee_per_gas: Option<nat>,
    pub max_priority_fee_per_gas: Option<nat>,
}

impl View for TransactionOverrides {
    type V = TransactionOverridesView;

    open spec fn view(&self) -> TransactionOverridesView {
        TransactionOverridesView {
            gas_price: self.gas_price.deep_view(),
            gas_limit: self.gas_limit.deep_view(),
            max_fee_per_gas: self.max_fee_per_gas.deep_view(),
            max_priority_fee_per_gas: self.max_priority_fee_per_gas.deep_view(),
        }
    }
}

impl Default for TransactionOverrides {
    /// No override at all.
    fn default() -> (overrides: TransactionOverrides)
        ensures
            overrides@ == no_overrides(),
    {
        TransactionOverrides {
            gas_price: None,
            gas_limit: None,
            max_fee_per_gas: None,
            max_priority_fee_per_gas: None,
        }
    }
}

/// The override set in which nothing is overridden.
pub open spec fn no_overrides() -> TransactionOverridesView {
    TransactionOverridesView {
        gas_price: None,
        gas_limit: None,
        max_fee_per_gas: None,
        max_priority_fee_per_gas: None,
    }
}

/// The connection settings of an EVM-style chain.
#[derive(Debug, Clone, PartialEq, Eq)]
pub struct ConnectionConf {
    /// How the endpoints are used.
    pub rpc_connection: RpcConnectionConf,
    /// What transactions are sent with, where the defaults are replaced.
    pub transaction_overrides: TransactionOverrides,
    /// How operations are batched.
    pub operation_batch: OperationBatchConfig,
}

/// What an EVM `ConnectionConf` is.
pub struct ConnectionView {
    pub rpc_connection: RpcConnectionView,
    pub transaction_overrides: TransactionOverridesView,
    pub operation_batch: OperationBatchConfig,
}

impl View for ConnectionConf {
    type V = ConnectionView;

    open spec fn view(&self) -> ConnectionView {
        ConnectionView {
            rpc_connection: self.rpc_connection@,
            transaction_overrides: self.transaction_overrides@,
            operation_batch: self.operation_batch,
        }
    }
}

} // verus!
