//! The domain values a successful request materialises.

use vstd::prelude::*;

verus! {

/// A fetched image: its canonical id, read from the `picsum-id`
/// response header (never from the body), and the raw body bytes.
#[derive(Debug, Clone, Ord, PartialOrd, Eq, PartialEq, Hash, Default)]
pub struct Image {
    pub id: String,
    pub data: Vec<u8>,
}

/// Metadata of one image, decoded verbatim from a JSON object. All
/// fields are required; a missing one is a decode failure.
#[derive(Debug, Clone, Ord, PartialOrd, Eq, PartialEq, Hash, Default)]
pub struct ImageDetails {
    pub id: String,
    pub author: String,
    pub width: u16,
    pub height: u16,
    pub url: String,
    pub download_url: String,
}

} // verus!
