//! Client library for the picsum.photos placeholder-image service.
//!
//! The library covers the full request/response logic of the service:
//! building request URLs (including the `grayscale` and `blur` query
//! parameters), classifying HTTP outcomes into the service's error
//! taxonomy, and materialising domain values from raw responses. The
//! network transport itself is supplied by the caller; every decision
//! this crate makes is verified.

pub mod client;
pub mod decode;
pub mod digits;
pub mod entities;
pub mod error;
pub mod query;
pub mod response;
pub mod settings;
pub mod urls;

pub use client::{PicsumClient, PicsumClientBuilder};
pub use digits::u16_to_string;
pub use entities::{Image, ImageDetails};
pub use error::RequestError;
pub use response::{HttpOutcome, ResponseParts};
pub use settings::{FileType, ImageSettings};
