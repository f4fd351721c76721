//! A server of images, chosen at random or in turn from a set of sources:
//! the cache backends, the shared server state, the rules by which sources
//! become cache entries, and the rules by which requests are answered.
//!
//! Nothing in this crate touches a disk, a socket or a clock. Whoever calls
//! it performs those and hands over what came back.

use vstd::prelude::*;

pub mod cache;
pub mod config;
pub mod env;
pub mod http;
pub mod ingest;
pub mod media;
pub mod state;

pub use ingest::{read_image_from_path, read_image_from_url};
pub use media::ALLOWED_IMAGE_EXTENSIONS;

verus! {

/// The mathematical value of a text that may be absent.
pub open spec fn text_model(text: Option<String>) -> Option<Seq<char>> {
    match text {
        Some(text) => Some(text@),
        None => None,
    }
}

/// `str`'s `==` of std: two texts are equal when they hold the same
/// characters.
#[verifier::external_body]
pub(crate) fn same_text(a: &str, b: &str) -> (same: bool)
    ensures
        same == (a@ == b@),
{
    a == b
}

} // verus!
