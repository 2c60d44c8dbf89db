//! What is written to the cache for the bytes that a download brought.

use crate::asset::{is_compressed_name, stored_name, Asset};
use crate::cache::with_name;
use std::io::Read;
use vstd::prelude::*;
use vstd::string::*;

verus! {

/// Why one asset could not be brought into the cache. Such a failure stays
/// with its asset: the other assets of the batch go on.
#[derive(Clone, Copy, Debug, PartialEq, Eq)]
pub enum DownloadError {
    /// The bytes could not be fetched.
    Transport,
    /// The bytes are no xz stream, though the name says so.
    Decompression,
    /// The file could not be written.
    Filesystem,
}

/// A file to be written into a version directory.
#[derive(Debug, PartialEq, Eq)]
pub struct StoredFile {
    /// The name of the file, without any directory.
    pub name: String,
    /// The bytes of the file.
    pub content: Vec<u8>,
}

impl View for StoredFile {
    type V = (Seq<char>, Seq<u8>);

    open spec fn view(&self) -> (Seq<char>, Seq<u8>) {
        (self.name@, self.content@)
    }
}

/// What `xz2` decodes `body` to as one xz stream: `None` where it reports an
/// error.
pub uninterp spec fn xz_decoded(body: Seq<u8>) -> Option<Seq<u8>>;

/// Reads `body` through `xz2::bufread::XzDecoder` to its end. The result is
/// what the decoder gave, or `None` where it reported an error.
#[verifier::external_body]
fn xz_decode(body: &[u8]) -> (r: Option<Vec<u8>>)
    ensures
        r matches Some(content) ==> xz_decoded(body@) == Some(content@),
        r is None ==> xz_decoded(body@) is None,
{
    let mut content = Vec::new();
    match xz2::bufread::XzDecoder::new(body).read_to_end(&mut content) {
        Ok(_) => Some(content),
        Err(_) => None,
    }
}

/// The file kept for an asset called `name` whose download brought `body`,
/// where `decoded` is what the bytes decode to: for a compressed name the
/// decoded bytes under the stored name, for any other name the bytes as they
/// came under the name itself.
pub open spec fn stored_file_of(name: Seq<char>, body: Seq<u8>, decoded: Option<Seq<u8>>) -> Result<
    (Seq<char>, Seq<u8>),
    DownloadError,
> {
    if is_compressed_name(name) {
        match decoded {
            Some(content) => Ok((stored_name(name), content)),
            None => Err(DownloadError::Decompression),
        }
    } else {
        Ok((name, body))
    }
}

/// The value of what storing an asset gave.
pub open spec fn stored_result_view(r: Result<StoredFile, DownloadError>) -> Result<
    (Seq<char>, Seq<u8>),
    DownloadError,
> {
    match r {
        Ok(file) => Ok(file@),
        Err(e) => Err(e),
    }
}

/// The value of optional bytes.
pub open spec fn optional_bytes(bytes: Option<Vec<u8>>) -> Option<Seq<u8>> {
    match bytes {
        Some(content) => Some(content@),
        None => None,
    }
}

/// An asset is cached once the file of its download is in the directory:
/// the file that a download gives carries the stored name of the asset, so
/// a listing that takes the file in holds the name that the cache check
/// looks for.
pub proof fn lemma_cached_once_stored(
    listing: Seq<Seq<char>>,
    name: Seq<char>,
    body: Seq<u8>,
    decoded: Option<Seq<u8>>,
)
    requires
        stored_file_of(name, body, decoded) is Ok,
    ensures
        stored_file_of(name, body, decoded)->Ok_0.0 == stored_name(name),
        with_name(listing, stored_file_of(name, body, decoded)->Ok_0.0).contains(stored_name(name)),
{
    let file = stored_name(name);
    if !listing.contains(file) {
        assert(listing.push(file)[listing.len() as int] == file);
    }
}

impl Asset {
    /// The file kept for this asset, given the bytes that came and what they
    /// decode to.
    pub fn store(&self, body: Vec<u8>, decoded: Option<Vec<u8>>) -> (r: Result<
        StoredFile,
        DownloadError,
    >)
        ensures
            stored_result_view(r) == stored_file_of(self@.name, body@, optional_bytes(decoded)),
    {
        if self.is_compressed() {
            match decoded {
                Some(content) => Ok(StoredFile { name: self.file_name(), content }),
                None => Err(DownloadError::Decompression),
            }
        } else {
            Ok(StoredFile { name: self.file_name(), content: body })
        }
    }

    /// The file kept for this asset when its download brought `body`. The
    /// bytes of a compressed asset are decoded; those of any other are kept
    /// as they came.
    pub fn download(&self, body: Vec<u8>) -> (r: Result<StoredFile, DownloadError>)
        ensures
            stored_result_view(r) == stored_file_of(self@.name, body@, xz_decoded(body@)),
    {
        let decoded = if self.is_compressed() {
            xz_decode(body.as_slice())
        } else {
            None
        };
        self.store(body, decoded)
    }
}

} // verus!
