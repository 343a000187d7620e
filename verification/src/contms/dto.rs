//! The messages of the Contms provider.
use vstd::prelude::*;

verus! {

/// A proxy as the provider describes it.
#[derive(Debug)]
pub struct ContmsProxyResponse {
    pub port: u16,
    pub total: u16,
    pub name: String,
    /// The proxy's type (`type` on the wire).
    pub kind: String,
    pub host: String,
    pub ipv: u8,
    pub sonet: String,
    pub auth: String,
}

/// The answer listing the proxies on offer.
#[derive(Debug)]
pub struct ContmsAvailableResponse {
    pub status: String,
    pub action: String,
    pub proxy: Vec<ContmsProxyResponse>,
}

/// A user account on a proxy.
#[derive(Debug)]
pub struct ContmsUserResponse {
    pub name: String,
    pub proxy: String,
    pub expires: i64,
    pub pass: String,
}

/// The answer to opening an account.
#[derive(Debug)]
pub struct ContmsUpResponse {
    pub status: String,
    pub action: String,
    pub user: ContmsUserResponse,
}

/// The answer to closing an account.
#[derive(Debug)]
pub struct ContmsDownResponse {
    pub status: String,
    pub action: String,
    pub user: String,
}

/// When an account's proxy expires.
#[derive(Debug)]
pub struct ContmsStatusProxyResponse {
    pub expires: i64,
}

/// The answer to a status request.
#[derive(Debug)]
pub struct ContmsStatusResponse {
    pub status: String,
    pub action: String,
    pub proxy: ContmsStatusProxyResponse,
}

/// The answer to renewing an account.
#[derive(Debug)]
pub struct ContmsRenewResponse {
    pub status: String,
    pub action: String,
    pub user: String,
}

} // verus!
