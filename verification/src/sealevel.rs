//! Connection settings of a Sealevel chain.

use vstd::prelude::*;
use url::Url;
use crate::common::{NativeToken, NativeTokenView, OperationBatchConfig};

verus! {

/// `url::ParseError`, the reason for which `Url::parse` rejects a text. It is
/// only carried along.
#[verifier::external_type_specification]
#[verifier::external_body]
pub struct ExParseError(url::ParseError);

/// The connection settings of a Sealevel chain.
#[derive(Debug, Clone, PartialEq, Eq)]
pub struct ConnectionConf {
    /// The endpoint to connect to.
    pub url: Url,
    /// How operations are batched.
    pub operation_batch: OperationBatchConfig,
    /// The native token and its denomination.
    pub native_token: NativeToken,
}

/// What a Sealevel `ConnectionConf` is.
pub struct ConnectionView {
    pub url: Url,
    pub operation_batch: OperationBatchConfig,
    pub native_token: NativeTokenView,
}

impl View for ConnectionConf {
    type V = ConnectionView;

    open spec fn view(&self) -> ConnectionView {
        ConnectionView {
            url: self.url,
            operation_batch: self.operation_batch,
            native_token: self.native_token@,
        }
    }
}

/// What can be wrong with the endpoint of a connection configuration.
#[derive(Debug)]
pub enum ConnectionConfError {
    /// No `url` was given.
    MissingConnectionUrl,
    /// The `url` that was given is no URL: the text, and why it was rejected.
    InvalidConnectionUrl(String, url::ParseError),
}

} // verus!
