//! Connection settings of a Fuel chain.

use vstd::prelude::*;
use url::Url;

verus! {

/// The connection settings of a Fuel chain.
#[derive(Debug, Clone, PartialEq, Eq)]
pub struct ConnectionConf {
    /// The endpoint to connect to.
    pub url: Url,
}

/// What a Fuel `ConnectionConf` is.
pub struct ConnectionView {
    pub url: Url,
}

impl View for ConnectionConf {
    type V = ConnectionView;

    open spec fn view(&self) -> ConnectionView {
        ConnectionView { url: self.url }
    }
}

} // verus!
