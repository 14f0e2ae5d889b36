//! The connection settings of a chain, whatever its protocol.

use vstd::prelude::*;
use crate::cosmos;
use crate::ethereum;
use crate::fuel;
use crate::sealevel;

verus! {

/// How to reach a chain: one variant for each protocol, holding that
/// protocol's settings.
#[derive(Debug, Clone, PartialEq, Eq)]
pub enum ChainConnectionConf {
    Ethereum(ethereum::ConnectionConf),
    Fuel(fuel::ConnectionConf),
    Cosmos(cosmos::ConnectionConf),
    Sealevel(sealevel::ConnectionConf),
}

/// What a `ChainConnectionConf` is.
pub enum ChainConnectionView {
    Ethereum(ethereum::ConnectionView),
    Fuel(fuel::ConnectionView),
    Cosmos(cosmos::ConnectionView),
    Sealevel(sealevel::ConnectionView),
}

impl View for ChainConnectionConf {
    type V = ChainConnectionView;

    open spec fn view(&self) -> ChainConnectionView {
        match self {
            ChainConnectionConf::Ethereum(conf) => ChainConnectionView::Ethereum(conf@),
            ChainConnectionConf::Fuel(conf) => ChainConnectionView::Fuel(conf@),
            ChainConnectionConf::Cosmos(conf) => ChainConnectionView::Cosmos(conf@),
            ChainConnectionConf::Sealevel(conf) => ChainConnectionView::Sealevel(conf@),
        }
    }
}

impl DeepView for ChainConnectionConf {
    type V = ChainConnectionView;

    open spec fn deep_view(&self) -> ChainConnectionView {
        self@
    }
}

} // verus!
