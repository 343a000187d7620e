//! The proxies of the Contms provider as the store keeps them.
use vstd::prelude::*;

verus! {

/// A proxy on offer.
#[derive(Debug)]
pub struct ContmsProxy {
    pub port: u16,
    pub total: u16,
    pub name: String,
    /// The proxy's type (`type` on the wire).
    pub kind: String,
    pub host: String,
    pub ipv: u8,
    pub sonet: String,
    pub auth: String,
}

/// The proxies on offer.
#[derive(Debug)]
pub struct ContmsAvailableResponse {
    pub status: String,
    pub action: String,
    pub proxy: Vec<ContmsProxy>,
}

} // verus!
