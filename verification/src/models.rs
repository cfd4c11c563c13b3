//! The replies of the provider, as values.

use vstd::prelude::*;

verus! {

/// The reply to account authorization.
#[derive(Clone)]
pub struct AuthorizeAccount {
    pub authorization_token: String,
    pub application_key_expiration_timestamp: Option<u64>,
    pub api_info: ApiInfo,
}

/// The interfaces that an authorized account may use.
#[derive(Clone, Debug)]
pub struct ApiInfo {
    pub storage_api: StorageApi,
}

/// Where the storage interface lives and which bucket the key is for.
#[derive(Clone, Debug)]
pub struct StorageApi {
    pub bucket_id: String,
    pub bucket_name: String,
    pub api_url: String,
    pub s3_api_url: String,
    pub download_url: String,
    pub name_prefix: String,
}

/// An upload ticket: where to send one upload, and the credential for it.
#[derive(Clone)]
pub struct GetUploadUrl {
    pub authorization_token: String,
    pub upload_url: String,
}

/// One page of a listing.
#[derive(Clone, Debug)]
pub struct ListFileNames {
    pub files: Vec<B2File>,
    pub next_file_name: Option<String>,
}

/// One listed object.
#[derive(Clone, Debug)]
pub struct B2File {
    pub file_name: String,
}

impl ListFileNames {
    /// The names of the listed objects, in the order of the page.
    pub open spec fn names(&self) -> Seq<Seq<char>> {
        self.files@.map_values(|file: B2File| file.file_name@)
    }
}

/// The texts that a vector of strings holds.
pub open spec fn texts(strings: Seq<String>) -> Seq<Seq<char>> {
    strings.map_values(|s: String| s@)
}

} // verus!
