//! The proxy products of the Contms provider.
pub mod dto;
pub mod models;

use vstd::prelude::*;

use crate::contms::models::ContmsProxy;

verus! {

/// A source of the proxies the Contms provider offers.
pub trait ContmsProductsProviderTrait {
    fn get_products(&self) -> Vec<ContmsProxy>;
}

} // verus!
