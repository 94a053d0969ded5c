//! The Admin API: API keys, organization users, workspaces, workspace
//! members and invites. Each operation prepares the one request of its
//! call, with an administrative credential as the client's key.

use vstd::prelude::*;
use crate::client::{
    dispatched, encoded_view, is_outcome, issued, join2, join3, join4, AnthropicClient,
};
use crate::error::DispatchError;
use crate::json::json_object_text;
use crate::request::{Expect, Method, PreparedRequest};
use crate::types::admin::invites::{CreateInviteParams, ListInvitesParams};
use crate::types::admin::users::{AdminUpdateUserParams, ListUsersParams};
use crate::types::admin::workspace_members::{
    AdminAddWorkspaceMemberParams, AdminUpdateWorkspaceMemberParams, ListWorkspaceMembersParams,
};
use crate::types::admin::workspaces::{AdminUpdateWorkspaceParams, ListWorkspacesParams};

verus! {

impl AnthropicClient {
    /// Lists API keys. `query` holds the filter and pagination
    /// parameters, already written as pairs.
    pub fn list_api_keys(&self, query: Option<Vec<(String, String)>>) -> (out: PreparedRequest)
        ensures
            out@ == issued(
                self@,
                Method::Get,
                "/organizations/api_keys"@,
                query.deep_view(),
                None,
                None,
                Expect::Json,
            ),
    {
        self.get("/organizations/api_keys", query)
    }

    /// Reads the API key `api_key_id`.
    pub fn get_api_key_by_id(&self, api_key_id: &str) -> (out: PreparedRequest)
        ensures
            out@ == issued(self@, Method::Get, "/organizations/api_keys/"@ + api_key_id@, None, None, None, Expect::Json),
    {
        let path = join2("/organizations/api_keys/", api_key_id);
        self.get(path.as_str(), None)
    }

    /// Updates the API key `api_key_id`. `body` is the JSON text of the
    /// update, or the encoder's message.
    pub fn update_api_key(&self, api_key_id: &str, body: Result<String, String>) -> (out: Result<
        PreparedRequest,
        DispatchError,
    >)
        ensures
            is_outcome(
                out,
                dispatched(
                    self@,
                    Method::Post,
                    "/organizations/api_keys/"@ + api_key_id@,
                    None,
                    encoded_view(Some(body)),
                    None,
                    Expect::Json,
                ),
            ),
    {
        let path = join2("/organizations/api_keys/", api_key_id);
        self.post(path.as_str(), Some(body))
    }

    /// Lists organization users.
    pub fn list_users(&self, params: Option<&ListUsersParams>) -> (out: PreparedRequest)
        ensures
            out@ == issued(
                self@,
                Method::Get,
                "/organizations/users"@,
                match params {
                    Some(p) => Some(p.query_pairs()),
                    None => None,
                },
                None,
                None,
                Expect::Json,
            ),
    {
        let query = match params {
            Some(p) => Some(p.to_query()),
            None => None,
        };
        self.get("/organizations/users", query)
    }

    /// Reads the user `user_id`.
    pub fn get_user(&self, user_id: &str) -> (out: PreparedRequest)
        ensures
            out@ == issued(self@, Method::Get, "/organizations/users/"@ + user_id@, None, None, None, Expect::Json),
    {
        let path = join2("/organizations/users/", user_id);
        self.get(path.as_str(), None)
    }

    /// Updates the user `user_id`.
    pub fn update_user(&self, user_id: &str, params: &AdminUpdateUserParams) -> (out: Result<
        PreparedRequest,
        DispatchError,
    >)
        ensures
            out matches Ok(request) && request@ == issued(
                self@,
                Method::Post,
                "/organizations/users/"@ + user_id@,
                None,
                Some(json_object_text(params.json_fields())),
                None,
                Expect::Json,
            ),
    {
        let path = join2("/organizations/users/", user_id);
        self.post(path.as_str(), Some(params.to_json()))
    }

    /// Removes the user `user_id` from the organization.
    pub fn delete_user(&self, user_id: &str) -> (out: PreparedRequest)
        ensures
            out@ == issued(self@, Method::Delete, "/organizations/users/"@ + user_id@, None, None, None, Expect::Json),
    {
        let path = join2("/organizations/users/", user_id);
        self.delete(path.as_str(), None)
    }

    /// Lists workspaces.
    pub fn list_workspaces(&self, params: Option<&ListWorkspacesParams>) -> (out: PreparedRequest)
        ensures
            out@ == issued(
                self@,
                Method::Get,
                "/organizations/workspaces"@,
                match params {
                    Some(p) => Some(p.query_pairs()),
                    None => None,
                },
                None,
                None,
                Expect::Json,
            ),
    {
        let query = match params {
            Some(p) => Some(p.to_query()),
            None => None,
        };
        self.get("/organizations/workspaces", query)
    }

    /// Reads the workspace `workspace_id`.
    pub fn get_workspace(&self, workspace_id: &str) -> (out: PreparedRequest)
        ensures
            out@ == issued(self@, Method::Get, "/organizations/workspaces/"@ + workspace_id@, None, None, None, Expect::Json),
    {
        let path = join2("/organizations/workspaces/", workspace_id);
        self.get(path.as_str(), None)
    }

    /// Updates the workspace `workspace_id`.
    pub fn update_workspace(&self, workspace_id: &str, params: &AdminUpdateWorkspaceParams) -> (out: Result<
        PreparedRequest,
        DispatchError,
    >)
        ensures
            out matches Ok(request) && request@ == issued(
                self@,
                Method::Post,
                "/organizations/workspaces/"@ + workspace_id@,
                None,
                Some(json_object_text(params.json_fields())),
                None,
                Expect::Json,
            ),
    {
        let path = join2("/organizations/workspaces/", workspace_id);
        self.post(path.as_str(), Some(params.to_json()))
    }

    /// Lists the members of the workspace `workspace_id`.
    pub fn list_workspace_members(&self, workspace_id: &str, params: Option<&ListWorkspaceMembersParams>) -> (out: PreparedRequest)
        ensures
            out@ == issued(
                self@,
                Method::Get,
                "/organizations/workspaces/"@ + workspace_id@ + "/members"@,
                match params {
                    Some(p) => Some(p.query_pairs()),
                    None => None,
                },
                None,
                None,
                Expect::Json,
            ),
    {
        let query = match params {
            Some(p) => Some(p.to_query()),
            None => None,
        };
        let path = join3("/organizations/workspaces/", workspace_id, "/members");
        self.get(path.as_str(), query)
    }

    /// Reads the member `user_id` of the workspace `workspace_id`.
    pub fn get_workspace_member(&self, workspace_id: &str, user_id: &str) -> (out: PreparedRequest)
        ensures
            out@ == issued(self@, Method::Get, "/organizations/workspaces/"@ + workspace_id@ + "/members/"@ + user_id@, None, None, None, Expect::Json),
    {
        let path = join4("/organizations/workspaces/", workspace_id, "/members/", user_id);
        self.get(path.as_str(), None)
    }

    /// Adds a member to the workspace `workspace_id`.
    pub fn add_workspace_member(&self, workspace_id: &str, params: &AdminAddWorkspaceMemberParams) -> (out: Result<
        PreparedRequest,
        DispatchError,
    >)
        ensures
            out matches Ok(request) && request@ == issued(
                self@,
                Method::Post,
                "/organizations/workspaces/"@ + workspace_id@ + "/members"@,
                None,
                Some(json_object_text(params.json_fields())),
                None,
                Expect::Json,
            ),
    {
        let path = join3("/organizations/workspaces/", workspace_id, "/members");
        self.post(path.as_str(), Some(params.to_json()))
    }

    /// Updates the member `user_id` of the workspace `workspace_id`.
    pub fn update_workspace_member(
        &self,
        workspace_id: &str,
        user_id: &str,
        params: &AdminUpdateWorkspaceMemberParams,
    ) -> (out: Result<PreparedRequest, DispatchError>)
        ensures
            out matches Ok(request) && request@ == issued(
                self@,
                Method::Post,
                "/organizations/workspaces/"@ + workspace_id@ + "/members/"@ + user_id@,
                None,
                Some(json_object_text(params.json_fields())),
                None,
                Expect::Json,
            ),
    {
        let path = join4("/organizations/workspaces/", workspace_id, "/members/", user_id);
        self.post(path.as_str(), Some(params.to_json()))
    }

    /// Removes the member `user_id` from the workspace `workspace_id`.
    pub fn delete_workspace_member(&self, workspace_id: &str, user_id: &str) -> (out: PreparedRequest)
        ensures
            out@ == issued(self@, Method::Delete, "/organizations/workspaces/"@ + workspace_id@ + "/members/"@ + user_id@, None, None, None, Expect::Json),
    {
        let path = join4("/organizations/workspaces/", workspace_id, "/members/", user_id);
        self.delete(path.as_str(), None)
    }

    /// Lists invites.
    pub fn list_invites(&self, params: Option<&ListInvitesParams>) -> (out: PreparedRequest)
        ensures
            out@ == issued(
                self@,
                Method::Get,
                "/organizations/invites"@,
                match params {
                    Some(p) => Some(p.query_pairs()),
                    None => None,
                },
                None,
                None,
                Expect::Json,
            ),
    {
        let query = match params {
            Some(p) => Some(p.to_query()),
            None => None,
        };
        self.get("/organizations/invites", query)
    }

    /// Creates an invite.
    pub fn create_invite(&self, params: &CreateInviteParams) -> (out: Result<
        PreparedRequest,
        DispatchError,
    >)
        ensures
            out matches Ok(request) && request@ == issued(
                self@,
                Method::Post,
                "/organizations/invites"@,
                None,
                Some(json_object_text(params.json_fields())),
                None,
                Expect::Json,
            ),
    {
        self.post("/organizations/invites", Some(params.to_json()))
    }

    /// Reads the invite `invite_id`.
    pub fn get_invite(&self, invite_id: &str) -> (out: PreparedRequest)
        ensures
            out@ == issued(self@, Method::Get, "/organizations/invites/"@ + invite_id@, None, None, None, Expect::Json),
    {
        let path = join2("/organizations/invites/", invite_id);
        self.get(path.as_str(), None)
    }

    /// Deletes the invite `invite_id`.
    pub fn delete_invite(&self, invite_id: &str) -> (out: PreparedRequest)
        ensures
            out@ == issued(self@, Method::Delete, "/organizations/invites/"@ + invite_id@, None, None, None, Expect::Json),
    {
        let path = join2("/organizations/invites/", invite_id);
        self.delete(path.as_str(), None)
    }
}

} // verus!
