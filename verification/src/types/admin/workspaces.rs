//! Workspaces.

use vstd::prelude::*;
use crate::json::{encode_fields, json_object_text};
use crate::query::{
    clamp_limit, clamp_page_limit, find_flag, find_limit, find_value, flag_of, flag_text,
    lemma_field_names_differ, lemma_page_round_trip, lemma_value_of_concat,
    lemma_value_of_optional, limit_of, optional_pair, page_pairs, push_flag, push_limit,
    push_optional, push_pair, value_of, Pairs,
};

verus! {

/// Workspace information returned by the Admin API.
#[derive(Debug)]
pub struct Workspace {
    /// When the workspace was archived, if at all.
    pub archived_at: Option<time::OffsetDateTime>,
    /// When the workspace was created.
    pub created_at: time::OffsetDateTime,
    /// Hex color code representing the workspace.
    pub display_color: String,
    /// ID of the workspace.
    pub id: String,
    /// Name of the workspace.
    pub name: String,
    /// Object type (always "workspace").
    pub type_: String,
}

/// Parameters for listing workspaces.
#[derive(Debug)]
pub struct ListWorkspacesParams {
    /// Whether to include archived workspaces in the response.
    pub include_archived: Option<bool>,
    /// Cursor for pagination (before).
    pub before_id: Option<String>,
    /// Cursor for pagination (after).
    pub after_id: Option<String>,
    /// Number of items per page (1-1000).
    pub limit: Option<u16>,
}

impl Default for ListWorkspacesParams {
    fn default() -> (out: Self)
        ensures
            out.include_archived is None,
            out.before_id is None,
            out.after_id is None,
            out.limit is None,
    {
        ListWorkspacesParams { include_archived: None, before_id: None, after_id: None, limit: None }
    }
}

/// The text of a flag that may be absent.
pub open spec fn optional_flag_text(flag: Option<bool>) -> Option<Seq<char>> {
    match flag {
        Some(b) => Some(flag_text(b)),
        None => None,
    }
}

impl ListWorkspacesParams {
    /// Parameters with no field set.
    pub fn new() -> (out: Self)
        ensures
            out.include_archived is None,
            out.before_id is None,
            out.after_id is None,
            out.limit is None,
    {
        ListWorkspacesParams { include_archived: None, before_id: None, after_id: None, limit: None }
    }

    /// Sets whether archived workspaces are listed too.
    pub fn include_archived(self, archived: bool) -> (out: Self)
        ensures
            out.include_archived == Some(archived),
            out.before_id == self.before_id,
            out.after_id == self.after_id,
            out.limit == self.limit,
    {
        ListWorkspacesParams {
            include_archived: Some(archived),
            before_id: self.before_id,
            after_id: self.after_id,
            limit: self.limit,
        }
    }

    /// Sets the cursor before which to page.
    pub fn before_id(self, before_id: &str) -> (out: Self)
        ensures
            out.before_id.deep_view() == Some(before_id@),
            out.include_archived == self.include_archived,
            out.after_id == self.after_id,
            out.limit == self.limit,
    {
        ListWorkspacesParams {
            include_archived: self.include_archived,
            before_id: Some(before_id.to_string()),
            after_id: self.after_id,
            limit: self.limit,
        }
    }

    /// Sets the cursor after which to page.
    pub fn after_id(self, after_id: &str) -> (out: Self)
        ensures
            out.after_id.deep_view() == Some(after_id@),
            out.include_archived == self.include_archived,
            out.before_id == self.before_id,
            out.limit == self.limit,
    {
        ListWorkspacesParams {
            include_archived: self.include_archived,
            before_id: self.before_id,
            after_id: Some(after_id.to_string()),
            limit: self.limit,
        }
    }

    /// Sets the page size, clamped to the range 1 to 1000.
    pub fn limit(self, limit: u16) -> (out: Self)
        ensures
            out.limit == Some(clamp_page_limit(limit as int) as u16),
            out.include_archived == self.include_archived,
            out.before_id == self.before_id,
            out.after_id == self.after_id,
    {
        ListWorkspacesParams {
            include_archived: self.include_archived,
            before_id: self.before_id,
            after_id: self.after_id,
            limit: Some(clamp_limit(limit)),
        }
    }

    /// The query pairs of the parameters.
    pub open spec fn query_pairs(&self) -> Pairs {
        optional_pair("include_archived"@, optional_flag_text(self.include_archived))
            + page_pairs(self.before_id.deep_view(), self.after_id.deep_view(), self.limit)
    }

    /// Writes the parameters as query pairs.
    pub fn to_query(&self) -> (out: Vec<(String, String)>)
        ensures
            out.deep_view() == self.query_pairs(),
    {
        let mut out: Vec<(String, String)> = Vec::new();
        assert(out.deep_view() =~= Seq::<(Seq<char>, Seq<char>)>::empty());
        push_flag(&mut out, "include_archived", self.include_archived);
        push_optional(&mut out, "before_id", &self.before_id);
        push_optional(&mut out, "after_id", &self.after_id);
        push_limit(&mut out, self.limit);
        assert(out.deep_view() =~= self.query_pairs());
        out
    }

    /// Reads the parameters back from query pairs. `None` where the pairs
    /// hold a page size that is no number or a flag that is neither `true`
    /// nor `false`.
    pub fn from_query(pairs: &Vec<(String, String)>) -> (out: Option<Self>)
        ensures
            match (limit_of(pairs.deep_view()), flag_of(pairs.deep_view(), "include_archived"@)) {
                (Some(limit), Some(flag)) => out matches Some(params) && params.limit == limit
                    && params.include_archived == flag && params.before_id.deep_view()
                    == value_of(pairs.deep_view(), "before_id"@) && params.after_id.deep_view()
                    == value_of(pairs.deep_view(), "after_id"@),
                _ => out is None,
            },
    {
        match find_limit(pairs) {
            None => None,
            Some(limit) => match find_flag(pairs, "include_archived") {
                None => None,
                Some(include_archived) => Some(
                    ListWorkspacesParams {
                        include_archived,
                        before_id: find_value(pairs, "before_id"),
                        after_id: find_value(pairs, "after_id"),
                        limit,
                    },
                ),
            },
        }
    }

    /// Written as a query and read back, every field is what it was,
    /// whether it was present or absent.
    pub proof fn lemma_query_round_trip(self)
        ensures
            flag_of(self.query_pairs(), "include_archived"@) == Some(self.include_archived),
            value_of(self.query_pairs(), "before_id"@) == self.before_id.deep_view(),
            value_of(self.query_pairs(), "after_id"@) == self.after_id.deep_view(),
            limit_of(self.query_pairs()) == Some(self.limit),
    {
        let front = optional_pair("include_archived"@, optional_flag_text(self.include_archived));
        let page = page_pairs(self.before_id.deep_view(), self.after_id.deep_view(), self.limit);
        let none = Seq::<(Seq<char>, Seq<char>)>::empty();
        lemma_field_names_differ();
        lemma_page_round_trip(
            self.before_id.deep_view(),
            self.after_id.deep_view(),
            self.limit,
            none,
        );
        assert(page + none =~= page);
        lemma_value_of_concat(front, page, "include_archived"@);
        lemma_value_of_concat(front, page, "before_id"@);
        lemma_value_of_concat(front, page, "after_id"@);
        lemma_value_of_concat(front, page, "limit"@);
        lemma_value_of_optional(
            "include_archived"@,
            optional_flag_text(self.include_archived),
            "include_archived"@,
        );
        lemma_value_of_optional(
            "include_archived"@,
            optional_flag_text(self.include_archived),
            "before_id"@,
        );
        lemma_value_of_optional(
            "include_archived"@,
            optional_flag_text(self.include_archived),
            "after_id"@,
        );
        lemma_value_of_optional(
            "include_archived"@,
            optional_flag_text(self.include_archived),
            "limit"@,
        );
        assert(value_of(page, "include_archived"@) == value_of(none, "include_archived"@));
    }
}

/// Response structure for listing workspaces.
#[derive(Debug)]
pub struct ListWorkspacesResponse {
    /// List of workspaces returned.
    pub data: Vec<Workspace>,
    /// First ID in the list.
    pub first_id: Option<String>,
    /// Indicates if there are more results.
    pub has_more: bool,
    /// Last ID in the list.
    pub last_id: Option<String>,
}

/// Response type for retrieving a workspace.
pub type GetWorkspaceResponse = Workspace;

/// Response type for creating a workspace.
pub type CreateWorkspaceResponse = Workspace;

/// Whether `name` can name a workspace: 1 to 40 characters.
pub open spec fn workspace_name_ok(name: Seq<char>) -> bool {
    1 <= name.len() <= 40
}

/// Whether `name` can name a workspace.
pub fn is_workspace_name(name: &str) -> (out: bool)
    ensures
        out == workspace_name_ok(name@),
{
    let n = name.unicode_len();
    1 <= n && n <= 40
}

/// Parameters for creating a workspace.
#[derive(Debug)]
pub struct AdminCreateWorkspaceParams {
    /// Name of the workspace (1-40 characters).
    pub name: String,
}

impl AdminCreateWorkspaceParams {
    /// Parameters that create a workspace called `name`.
    pub fn new(name: &str) -> (out: Self)
        requires
            workspace_name_ok(name@),
        ensures
            out.name@ == name@,
    {
        AdminCreateWorkspaceParams { name: name.to_string() }
    }

    /// The members of the JSON body.
    pub open spec fn json_fields(&self) -> Pairs {
        seq![("name"@, self.name@)]
    }

    /// Encodes the parameters as a JSON body: the text of the members,
    /// always `Ok`.
    pub fn to_json(&self) -> (out: Result<String, String>)
        ensures
            out matches Ok(text) && text@ == json_object_text(self.json_fields()),
    {
        let mut fields: Vec<(String, String)> = Vec::new();
        assert(fields.deep_view() =~= Seq::<(Seq<char>, Seq<char>)>::empty());
        push_pair(&mut fields, "name", self.name.clone());
        assert(fields.deep_view() =~= self.json_fields());
        encode_fields(&fields)
    }
}

/// Parameters for updating a workspace.
#[derive(Debug)]
pub struct AdminUpdateWorkspaceParams {
    /// Name of the workspace (1-40 characters).
    pub name: String,
}

impl AdminUpdateWorkspaceParams {
    /// Parameters that rename a workspace to `name`.
    pub fn new(name: &str) -> (out: Self)
        requires
            workspace_name_ok(name@),
        ensures
            out.name@ == name@,
    {
        AdminUpdateWorkspaceParams { name: name.to_string() }
    }

    /// The members of the JSON body.
    pub open spec fn json_fields(&self) -> Pairs {
        seq![("name"@, self.name@)]
    }

    /// Encodes the parameters as a JSON body: the text of the members,
    /// always `Ok`.
    pub fn to_json(&self) -> (out: Result<String, String>)
        ensures
            out matches Ok(text) && text@ == json_object_text(self.json_fields()),
    {
        let mut fields: Vec<(String, String)> = Vec::new();
        assert(fields.deep_view() =~= Seq::<(Seq<char>, Seq<char>)>::empty());
        push_pair(&mut fields, "name", self.name.clone());
        assert(fields.deep_view() =~= self.json_fields());
        encode_fields(&fields)
    }
}

} // verus!
