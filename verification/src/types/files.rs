//! Types for the Files API.

use vstd::prelude::*;
use vstd::std_specs::convert::FromSpecImpl;
use vstd::string::StringExecFns;
use crate::decimal::{decimal, render_decimal};
use crate::query::{
    clamp_limit, clamp_page_limit, find_limit, find_value, lemma_page_round_trip, limit_of,
    page_pairs, push_limit, push_optional, value_of, Pairs,
};

verus! {

/// Errors that can occur when using the Files API.
#[derive(Debug)]
pub enum FileError {
    /// Both pagination cursors were given.
    InvalidPagination,
    /// The page size is outside 1 to 1000.
    InvalidLimit(u16),
    /// The request could not be completed.
    RequestFailed(String),
    /// The API returned an error.
    ApiError(String),
}

impl From<String> for FileError {
    fn from(error: String) -> (out: Self) {
        FileError::ApiError(error)
    }
}

impl FromSpecImpl<String> for FileError {
    open spec fn obeys_from_spec() -> bool {
        true
    }

    open spec fn from_spec(error: String) -> Self {
        FileError::ApiError(error)
    }
}

/// The text that a [`FileError`] is reported with.
pub open spec fn file_error_text(error: FileError) -> Seq<char> {
    match error {
        FileError::InvalidPagination => "Invalid pagination parameters"@,
        FileError::InvalidLimit(limit) => "Invalid limit value: "@ + decimal(limit as nat),
        FileError::RequestFailed(detail) => "API request failed: "@ + detail@,
        FileError::ApiError(detail) => "API error: "@ + detail@,
    }
}

impl FileError {
    /// Renders the error as one line of text.
    pub fn message(&self) -> (out: String)
        ensures
            out@ == file_error_text(*self),
    {
        match self {
            FileError::InvalidPagination => "Invalid pagination parameters".to_string(),
            FileError::InvalidLimit(limit) => {
                let mut out = "Invalid limit value: ".to_string();
                out.append(render_decimal(*limit).as_str());
                out
            },
            FileError::RequestFailed(detail) => {
                let mut out = "API request failed: ".to_string();
                out.append(detail.as_str());
                out
            },
            FileError::ApiError(detail) => {
                let mut out = "API error: ".to_string();
                out.append(detail.as_str());
                out
            },
        }
    }
}

/// Parameters for listing files.
#[derive(Debug)]
pub struct ListFilesParams {
    /// ID of the item to use as the starting point for pagination (exclusive).
    pub before_id: Option<String>,
    /// ID of the item to use as the ending point for pagination (exclusive).
    pub after_id: Option<String>,
    /// Number of items to return per page (1-1000).
    pub limit: Option<u16>,
}

impl Default for ListFilesParams {
    fn default() -> (out: Self)
        ensures
            out.before_id is None,
            out.after_id is None,
            out.limit is None,
    {
        ListFilesParams { before_id: None, after_id: None, limit: None }
    }
}

/// What [`ListFilesParams::validate`] decides: a page size outside the
/// range is reported first, then a pair of cursors.
pub open spec fn validated(params: ListFilesParams) -> Result<(), FileError> {
    match params.limit {
        Some(limit) if limit == 0 || limit > 1000 => Err(FileError::InvalidLimit(limit)),
        _ => if params.before_id is Some && params.after_id is Some {
            Err(FileError::InvalidPagination)
        } else {
            Ok(())
        },
    }
}

impl ListFilesParams {
    /// Parameters with no field set.
    pub fn new() -> (out: Self)
        ensures
            out.before_id is None,
            out.after_id is None,
            out.limit is None,
    {
        ListFilesParams { before_id: None, after_id: None, limit: None }
    }

    /// Sets the page size, clamped to the range 1 to 1000.
    pub fn limit(self, limit: u16) -> (out: Self)
        ensures
            out.limit == Some(clamp_page_limit(limit as int) as u16),
            out.before_id == self.before_id,
            out.after_id == self.after_id,
    {
        ListFilesParams {
            before_id: self.before_id,
            after_id: self.after_id,
            limit: Some(clamp_limit(limit)),
        }
    }

    /// Sets the cursor before which to page.
    pub fn before_id(self, before_id: &str) -> (out: Self)
        ensures
            out.before_id.deep_view() == Some(before_id@),
            out.after_id == self.after_id,
            out.limit == self.limit,
    {
        ListFilesParams {
            before_id: Some(before_id.to_string()),
            after_id: self.after_id,
            limit: self.limit,
        }
    }

    /// Sets the cursor after which to page.
    pub fn after_id(self, after_id: &str) -> (out: Self)
        ensures
            out.after_id.deep_view() == Some(after_id@),
            out.before_id == self.before_id,
            out.limit == self.limit,
    {
        ListFilesParams {
            before_id: self.before_id,
            after_id: Some(after_id.to_string()),
            limit: self.limit,
        }
    }

    /// Checks the parameters: the page size must lie in 1 to 1000, and at
    /// most one cursor may be given.
    pub fn validate(&self) -> (out: Result<(), FileError>)
        ensures
            out == validated(*self),
    {
        match self.limit {
            Some(limit) => {
                if limit == 0 || limit > 1000 {
                    return Err(FileError::InvalidLimit(limit));
                }
            },
            None => {},
        }
        if self.before_id.is_some() && self.after_id.is_some() {
            return Err(FileError::InvalidPagination);
        }
        Ok(())
    }

    /// The query pairs of the parameters.
    pub open spec fn query_pairs(&self) -> Pairs {
        page_pairs(self.before_id.deep_view(), self.after_id.deep_view(), self.limit)
    }

    /// Writes the parameters as query pairs.
    pub fn to_query(&self) -> (out: Vec<(String, String)>)
        ensures
            out.deep_view() == self.query_pairs(),
    {
        let mut out: Vec<(String, String)> = Vec::new();
        assert(out.deep_view() =~= Seq::<(Seq<char>, Seq<char>)>::empty());
        push_optional(&mut out, "before_id", &self.before_id);
        push_optional(&mut out, "after_id", &self.after_id);
        push_limit(&mut out, self.limit);
        assert(out.deep_view() =~= self.query_pairs());
        out
    }

    /// Reads the parameters back from query pairs. `None` where the pairs
    /// hold a page size that is no number.
    pub fn from_query(pairs: &Vec<(String, String)>) -> (out: Option<Self>)
        ensures
            match limit_of(pairs.deep_view()) {
                Some(limit) => out matches Some(params) && params.limit == limit
                    && params.before_id.deep_view() == value_of(pairs.deep_view(), "before_id"@)
                    && params.after_id.deep_view() == value_of(pairs.deep_view(), "after_id"@),
                None => out is None,
            },
    {
        match find_limit(pairs) {
            None => None,
            Some(limit) => Some(
                ListFilesParams {
                    before_id: find_value(pairs, "before_id"),
                    after_id: find_value(pairs, "after_id"),
                    limit,
                },
            ),
        }
    }

    /// Written as a query and read back, every field is what it was,
    /// whether it was present or absent.
    pub proof fn lemma_query_round_trip(self)
        ensures
            value_of(self.query_pairs(), "before_id"@) == self.before_id.deep_view(),
            value_of(self.query_pairs(), "after_id"@) == self.after_id.deep_view(),
            limit_of(self.query_pairs()) == Some(self.limit),
    {
        let pairs = self.query_pairs();
        lemma_page_round_trip(
            self.before_id.deep_view(),
            self.after_id.deep_view(),
            self.limit,
            Seq::empty(),
        );
        assert(pairs + Seq::<(Seq<char>, Seq<char>)>::empty() =~= pairs);
    }
}

/// A file in the API.
#[derive(Debug, Clone)]
pub struct File {
    /// RFC 3339 timestamp of when the file was created.
    pub created_at: String,
    /// Whether the file can be downloaded.
    pub downloadable: bool,
    /// Name of the file as it was uploaded.
    pub filename: String,
    /// Unique file identifier.
    pub id: String,
    /// MIME type of the file.
    pub mime_type: String,
    /// File size in bytes.
    pub size_bytes: u64,
    /// Object type (always "file").
    pub file_type: String,
}

/// Response from listing files.
#[derive(Debug)]
pub struct ListFilesResponse {
    /// List of files.
    pub data: Vec<File>,
    /// ID of the first item in the data list.
    pub first_id: Option<String>,
    /// ID of the last item in the data list.
    pub last_id: Option<String>,
    /// Whether there are more items available.
    pub has_more: bool,
}

} // verus!
