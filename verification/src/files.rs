//! The Files API: listing files, reading a file's metadata and downloading
//! its content. The API is experimental, so every request carries the
//! feature flag of the Files API.

use vstd::prelude::*;
use crate::client::{issued, join2, join3, AnthropicClient, IdentityView};
use crate::request::{Expect, Method, PreparedRequest};
use crate::types::files::{validated, FileError, ListFilesParams};

verus! {

/// The feature flag of the Files API.
pub const FILES_BETA_HEADER: &'static str = "files-api-2025-04-14";

/// The query of a listing: the pairs of the parameters where some are
/// given, no query where none are.
pub open spec fn list_files_query(params: Option<&ListFilesParams>) -> Option<
    Seq<(Seq<char>, Seq<char>)>,
> {
    match params {
        Some(p) => Some(p.query_pairs()),
        None => None,
    }
}

/// The operations on files. Each prepares the one request of its call.
pub trait FileClient {
    /// Who is calling.
    spec fn who(&self) -> IdentityView;

    /// Lists files, a page at a time. Parameters that do not pass
    /// [`ListFilesParams::validate`] end the call before anything is
    /// issued.
    fn list_files(&self, params: Option<&ListFilesParams>) -> (out: Result<
        PreparedRequest,
        FileError,
    >)
        ensures
            match params {
                Some(p) if validated(*p) is Err => out is Err && out->Err_0 == validated(
                    *p,
                )->Err_0,
                _ => out matches Ok(request) && request@ == issued(
                    self.who(),
                    Method::Get,
                    "/files"@,
                    list_files_query(params),
                    None,
                    Some(FILES_BETA_HEADER@),
                    Expect::Json,
                ),
            },
    ;

    /// Reads the metadata of the file `file_id`.
    fn get_file_metadata(&self, file_id: &str) -> (out: PreparedRequest)
        ensures
            out@ == issued(
                self.who(),
                Method::Get,
                "/files/"@ + file_id@,
                None,
                None,
                Some(FILES_BETA_HEADER@),
                Expect::Json,
            ),
    ;

    /// Downloads the content of the file `file_id` as raw bytes.
    fn download_file(&self, file_id: &str) -> (out: PreparedRequest)
        ensures
            out@ == issued(
                self.who(),
                Method::Get,
                "/files/"@ + file_id@ + "/content"@,
                None,
                None,
                Some(FILES_BETA_HEADER@),
                Expect::Bytes,
            ),
    ;
}

impl FileClient for AnthropicClient {
    open spec fn who(&self) -> IdentityView {
        self@
    }

    fn list_files(&self, params: Option<&ListFilesParams>) -> (out: Result<
        PreparedRequest,
        FileError,
    >) {
        let query = match params {
            Some(p) => {
                match p.validate() {
                    Err(error) => {
                        return Err(error);
                    },
                    Ok(_) => {},
                }
                Some(p.to_query())
            },
            None => None,
        };
        Ok(self.get_with_beta("/files", query, FILES_BETA_HEADER))
    }

    fn get_file_metadata(&self, file_id: &str) -> (out: PreparedRequest) {
        let path = join2("/files/", file_id);
        self.get_with_beta(path.as_str(), None, FILES_BETA_HEADER)
    }

    fn download_file(&self, file_id: &str) -> (out: PreparedRequest) {
        let path = join3("/files/", file_id, "/content");
        self.download_with_beta(path.as_str(), FILES_BETA_HEADER)
    }
}

} // verus!
