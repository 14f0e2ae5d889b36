//! Types shared by the connection settings of every protocol.

use vstd::prelude::*;

verus! {

/// The family of chains that a configuration belongs to; it decides which
/// builder reads it.
#[derive(Debug, Clone, Copy, PartialEq, Eq)]
pub enum HyperlaneDomainProtocol {
    /// An EVM-style chain.
    Ethereum,
    /// A Fuel VM chain.
    Fuel,
    /// A Sealevel (Solana-style) chain.
    Sealevel,
    /// A Cosmos SDK chain.
    Cosmos,
}

/// A 256-bit hash or address, as 32 bytes.
#[derive(Debug, Clone, Copy, PartialEq, Eq, Hash)]
pub struct H256 {
    pub bytes: [u8; 32],
}

/// How operations are batched on a chain. The builders pass it through
/// unchanged.
#[derive(Debug, Clone, Copy, PartialEq, Eq)]
pub struct OperationBatchConfig {
    /// The contract that batches calls, if any.
    pub batch_contract_address: Option<H256>,
    /// The most operations that go into one batch.
    pub max_batch_size: u32,
}

/// A chain's native token.
#[derive(Debug, Clone, PartialEq, Eq)]
pub struct NativeToken {
    /// The number of decimals of the token.
    pub decimals: u32,
    /// The denomination; empty where none is configured.
    pub denom: String,
}

/// What a `NativeToken` is, with the denomination as a sequence.
pub struct NativeTokenView {
    pub decimals: u32,
    pub denom: Seq<char>,
}

impl View for NativeToken {
    type V = NativeTokenView;

    open spec fn view(&self) -> NativeTokenView {
        NativeTokenView { decimals: self.decimals, denom: self.denom@ }
    }
}

impl DeepView for NativeToken {
    type V = NativeTokenView;

    open spec fn deep_view(&self) -> NativeTokenView {
        self@
    }
}

} // verus!
