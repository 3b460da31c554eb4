//! The object store that publishes the generated files.

pub mod mock;

pub use mock::MockCdnClient;

use crate::error::Error;
use vstd::prelude::*;

verus! {

/// The object store as the pipeline consumes it. Every call may fail with
/// a storage error; nothing else is known of an implementation.
pub trait CdnService {
    /// Stores the bytes under the key and answers with their public URL.
    fn upload_file(&mut self, key: &str, data: &[u8], content_type: &str) -> Result<String, Error>;

    /// Reads the text stored under the key.
    fn read_json(&mut self, key: &str) -> Result<String, Error>;

    /// Tells whether something is stored under the key.
    fn file_exists(&mut self, key: &str) -> Result<bool, Error>;
}

/// The public URL of a key: the base URL, a slash, the key.
pub open spec fn public_url(base_url: Seq<char>, key: Seq<char>) -> Seq<char> {
    base_url + "/"@ + key
}

/// The public URL under which a stored key is served.
pub fn get_public_url(base_url: &str, key: &str) -> (r: String)
    ensures
        r@ == public_url(base_url@, key@),
{
    let head = crate::text::concat(base_url, "/");
    crate::text::concat(head.as_str(), key)
}

} // verus!
