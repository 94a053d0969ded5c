//! Workspace members.

use vstd::prelude::*;
use crate::json::{encode_fields, json_object_text};
use crate::query::{
    clamp_limit, clamp_page_limit, find_limit, find_value, lemma_page_round_trip, limit_of,
    page_pairs, push_limit, push_optional, push_pair, value_of, Pairs,
};

verus! {

/// Role of the workspace member.
#[derive(Debug, Clone, Copy, PartialEq, Eq, Structural)]
pub enum WorkspaceRole {
    WorkspaceUser,
    WorkspaceDeveloper,
    WorkspaceAdmin,
    WorkspaceBilling,
}

/// The name under which a workspace role travels.
pub open spec fn workspace_role_name(role: WorkspaceRole) -> Seq<char> {
    match role {
        WorkspaceRole::WorkspaceUser => "workspace_user"@,
        WorkspaceRole::WorkspaceDeveloper => "workspace_developer"@,
        WorkspaceRole::WorkspaceAdmin => "workspace_admin"@,
        WorkspaceRole::WorkspaceBilling => "workspace_billing"@,
    }
}

impl WorkspaceRole {
    /// The name under which the role travels.
    pub fn wire_name(&self) -> (out: &'static str)
        ensures
            out@ == workspace_role_name(*self),
    {
        match self {
            WorkspaceRole::WorkspaceUser => "workspace_user",
            WorkspaceRole::WorkspaceDeveloper => "workspace_developer",
            WorkspaceRole::WorkspaceAdmin => "workspace_admin",
            WorkspaceRole::WorkspaceBilling => "workspace_billing",
        }
    }
}

/// Information about a workspace member.
#[derive(Debug)]
pub struct WorkspaceMember {
    /// Object type. Always `"workspace_member"`.
    pub type_: String,
    /// ID of the user.
    pub user_id: String,
    /// ID of the workspace.
    pub workspace_id: String,
    /// Role of the member within the workspace.
    pub workspace_role: WorkspaceRole,
}

/// Parameters for adding a workspace member.
#[derive(Debug)]
pub struct AdminAddWorkspaceMemberParams {
    /// ID of the user to add to the workspace.
    pub user_id: String,
    /// Role for the new workspace member.
    pub workspace_role: WorkspaceRole,
}

impl AdminAddWorkspaceMemberParams {
    /// Parameters that add `user_id` with `workspace_role`.
    pub fn new(user_id: &str, workspace_role: WorkspaceRole) -> (out: Self)
        ensures
            out.user_id@ == user_id@,
            out.workspace_role == workspace_role,
    {
        AdminAddWorkspaceMemberParams { user_id: user_id.to_string(), workspace_role }
    }

    /// The members of the JSON body.
    pub open spec fn json_fields(&self) -> Pairs {
        seq![
            ("user_id"@, self.user_id@),
            ("workspace_role"@, workspace_role_name(self.workspace_role)),
        ]
    }

    /// Encodes the parameters as a JSON body: the text of the members,
    /// always `Ok`.
    pub fn to_json(&self) -> (out: Result<String, String>)
        ensures
            out matches Ok(text) && text@ == json_object_text(self.json_fields()),
    {
        let mut fields: Vec<(String, String)> = Vec::new();
        assert(fields.deep_view() =~= Seq::<(Seq<char>, Seq<char>)>::empty());
        push_pair(&mut fields, "user_id", self.user_id.clone());
        push_pair(&mut fields, "workspace_role", self.workspace_role.wire_name().to_string());
        assert(fields.deep_view() =~= self.json_fields());
        encode_fields(&fields)
    }
}

/// Parameters for updating a workspace member.
#[derive(Debug)]
pub struct AdminUpdateWorkspaceMemberParams {
    /// New workspace role for the user.
    pub workspace_role: WorkspaceRole,
}

impl AdminUpdateWorkspaceMemberParams {
    /// Parameters that set `workspace_role`.
    pub fn new(workspace_role: WorkspaceRole) -> (out: Self)
        ensures
            out.workspace_role == workspace_role,
    {
        AdminUpdateWorkspaceMemberParams { workspace_role }
    }

    /// The members of the JSON body.
    pub open spec fn json_fields(&self) -> Pairs {
        seq![("workspace_role"@, workspace_role_name(self.workspace_role))]
    }

    /// Encodes the parameters as a JSON body: the text of the members,
    /// always `Ok`.
    pub fn to_json(&self) -> (out: Result<String, String>)
        ensures
            out matches Ok(text) && text@ == json_object_text(self.json_fields()),
    {
        let mut fields: Vec<(String, String)> = Vec::new();
        assert(fields.deep_view() =~= Seq::<(Seq<char>, Seq<char>)>::empty());
        push_pair(&mut fields, "workspace_role", self.workspace_role.wire_name().to_string());
        assert(fields.deep_view() =~= self.json_fields());
        encode_fields(&fields)
    }
}

/// Parameters for listing workspace members.
#[derive(Debug)]
pub struct ListWorkspaceMembersParams {
    /// Cursor for pagination (before).
    pub before_id: Option<String>,
    /// Cursor for pagination (after).
    pub after_id: Option<String>,
    /// Number of items per page (1-1000).
    pub limit: Option<u16>,
}

impl Default for ListWorkspaceMembersParams {
    fn default() -> (out: Self)
        ensures
            out.before_id is None,
            out.after_id is None,
            out.limit is None,
    {
        ListWorkspaceMembersParams { before_id: None, after_id: None, limit: None }
    }
}

impl ListWorkspaceMembersParams {
    /// Parameters with no field set.
    pub fn new() -> (out: Self)
        ensures
            out.before_id is None,
            out.after_id is None,
            out.limit is None,
    {
        ListWorkspaceMembersParams { before_id: None, after_id: None, limit: None }
    }

    /// Sets the cursor before which to page.
    pub fn before_id(self, before_id: &str) -> (out: Self)
        ensures
            out.before_id.deep_view() == Some(before_id@),
            out.after_id == self.after_id,
            out.limit == self.limit,
    {
        ListWorkspaceMembersParams {
            before_id: Some(before_id.to_string()),
            after_id: self.after_id,
            limit: self.limit,
        }
    }

    /// Sets the cursor after which to page.
    pub fn after_id(self, after_id: &str) -> (out: Self)
        ensures
            out.after_id.deep_view() == Some(after_id@),
            out.before_id == self.before_id,
            out.limit == self.limit,
    {
        ListWorkspaceMembersParams {
            before_id: self.before_id,
            after_id: Some(after_id.to_string()),
            limit: self.limit,
        }
    }

    /// Sets the page size, clamped to the range 1 to 1000.
    pub fn limit(self, limit: u16) -> (out: Self)
        ensures
            out.limit == Some(clamp_page_limit(limit as int) as u16),
            out.before_id == self.before_id,
            out.after_id == self.after_id,
    {
        ListWorkspaceMembersParams {
            before_id: self.before_id,
            after_id: self.after_id,
            limit: Some(clamp_limit(limit)),
        }
    }

    /// The query pairs of the parameters.
    pub open spec fn query_pairs(&self) -> Pairs {
        page_pairs(self.before_id.deep_view(), self.after_id.deep_view(), self.limit)
    }

    /// Writes the parameters as query pairs.
    pub fn to_query(&self) -> (out: Vec<(String, String)>)
        ensures
            out.deep_view() == self.query_pairs(),
    {
        let mut out: Vec<(String, String)> = Vec::new();
        assert(out.deep_view() =~= Seq::<(Seq<char>, Seq<char>)>::empty());
        push_optional(&mut out, "before_id", &self.before_id);
        push_optional(&mut out, "after_id", &self.after_id);
        push_limit(&mut out, self.limit);
        assert(out.deep_view() =~= self.query_pairs());
        out
    }

    /// Reads the parameters back from query pairs. `None` where the pairs
    /// hold a page size that is no number.
    pub fn from_query(pairs: &Vec<(String, String)>) -> (out: Option<Self>)
        ensures
            match limit_of(pairs.deep_view()) {
                Some(limit) => out matches Some(params) && params.limit == limit
                    && params.before_id.deep_view() == value_of(pairs.deep_view(), "before_id"@)
                    && params.after_id.deep_view() == value_of(pairs.deep_view(), "after_id"@),
                None => out is None,
            },
    {
        match find_limit(pairs) {
            None => None,
            Some(limit) => Some(
                ListWorkspaceMembersParams {
                    before_id: find_value(pairs, "before_id"),
                    after_id: find_value(pairs, "after_id"),
                    limit,
                },
            ),
        }
    }

    /// Written as a query and read back, every field is what it was,
    /// whether it was present or absent.
    pub proof fn lemma_query_round_trip(self)
        ensures
            value_of(self.query_pairs(), "before_id"@) == self.before_id.deep_view(),
            value_of(self.query_pairs(), "after_id"@) == self.after_id.deep_view(),
            limit_of(self.query_pairs()) == Some(self.limit),
    {
        let pairs = self.query_pairs();
        lemma_page_round_trip(
            self.before_id.deep_view(),
            self.after_id.deep_view(),
            self.limit,
            Seq::empty(),
        );
        assert(pairs + Seq::<(Seq<char>, Seq<char>)>::empty() =~= pairs);
    }
}

/// Response structure for listing workspace members.
#[derive(Debug)]
pub struct ListWorkspaceMembersResponse {
    /// List of workspace members returned.
    pub data: Vec<WorkspaceMember>,
    /// First ID in the data list.
    pub first_id: Option<String>,
    /// Indicates if there are more results.
    pub has_more: bool,
    /// Last ID in the data list.
    pub last_id: Option<String>,
}

/// Response type for retrieving a workspace member.
pub type GetWorkspaceMemberResponse = WorkspaceMember;

} // verus!
