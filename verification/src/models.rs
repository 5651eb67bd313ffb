//! Catalogue records.
use vstd::prelude::*;

verus! {

/// A product on sale.
#[derive(Debug)]
pub struct Product {
    pub id: i32,
    pub name: String,
    /// Price in cents.
    pub price: i32,
    pub description: Option<String>,
}

} // verus!
