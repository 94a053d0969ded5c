//! Organization users.

use vstd::prelude::*;
use crate::json::{encode_fields, json_object_text};
use crate::query::{
    clamp_limit, clamp_page_limit, find_limit, find_value, lemma_field_names_differ,
    lemma_page_round_trip, lemma_value_of_optional, limit_of, optional_pair, page_pairs,
    push_limit, push_optional, push_pair, value_of, Pairs,
};

verus! {

/// Organization role of the user.
#[derive(Debug, Clone, Copy, PartialEq, Eq, Structural)]
pub enum UserRole {
    User,
    Developer,
    Billing,
    Admin,
}

/// The name under which a role travels.
pub open spec fn user_role_name(role: UserRole) -> Seq<char> {
    match role {
        UserRole::User => "user"@,
        UserRole::Developer => "developer"@,
        UserRole::Billing => "billing"@,
        UserRole::Admin => "admin"@,
    }
}

impl UserRole {
    /// The name under which the role travels.
    pub fn wire_name(&self) -> (out: &'static str)
        ensures
            out@ == user_role_name(*self),
    {
        match self {
            UserRole::User => "user",
            UserRole::Developer => "developer",
            UserRole::Billing => "billing",
            UserRole::Admin => "admin",
        }
    }
}

/// Detailed information about an organization user.
#[derive(Debug)]
pub struct OrganizationUser {
    /// When the user was added to the organization.
    pub added_at: time::OffsetDateTime,
    /// Email of the user.
    pub email: String,
    /// ID of the user.
    pub id: String,
    /// Name of the user.
    pub name: String,
    /// Role of the user within the organization.
    pub role: UserRole,
    /// Object type. Always `"user"`.
    pub type_: String,
}

/// Parameters for listing organization users.
#[derive(Debug)]
pub struct ListUsersParams {
    /// Cursor for pagination (before).
    pub before_id: Option<String>,
    /// Cursor for pagination (after).
    pub after_id: Option<String>,
    /// Number of items per page (1-1000).
    pub limit: Option<u16>,
    /// Filter by user email.
    pub email: Option<String>,
}

impl Default for ListUsersParams {
    fn default() -> (out: Self)
        ensures
            out.before_id is None,
            out.after_id is None,
            out.limit is None,
            out.email is None,
    {
        ListUsersParams { before_id: None, after_id: None, limit: None, email: None }
    }
}

impl ListUsersParams {
    /// Parameters with no field set.
    pub fn new() -> (out: Self)
        ensures
            out.before_id is None,
            out.after_id is None,
            out.limit is None,
            out.email is None,
    {
        ListUsersParams { before_id: None, after_id: None, limit: None, email: None }
    }

    /// Sets the cursor before which to page.
    pub fn before_id(self, before_id: &str) -> (out: Self)
        ensures
            out.before_id.deep_view() == Some(before_id@),
            out.after_id == self.after_id,
            out.limit == self.limit,
            out.email == self.email,
    {
        ListUsersParams {
            before_id: Some(before_id.to_string()),
            after_id: self.after_id,
            limit: self.limit,
            email: self.email,
        }
    }

    /// Sets the cursor after which to page.
    pub fn after_id(self, after_id: &str) -> (out: Self)
        ensures
            out.after_id.deep_view() == Some(after_id@),
            out.before_id == self.before_id,
            out.limit == self.limit,
            out.email == self.email,
    {
        ListUsersParams {
            before_id: self.before_id,
            after_id: Some(after_id.to_string()),
            limit: self.limit,
            email: self.email,
        }
    }

    /// Sets the page size, clamped to the range 1 to 1000.
    pub fn limit(self, limit: u16) -> (out: Self)
        ensures
            out.limit == Some(clamp_page_limit(limit as int) as u16),
            out.before_id == self.before_id,
            out.after_id == self.after_id,
            out.email == self.email,
    {
        ListUsersParams {
            before_id: self.before_id,
            after_id: self.after_id,
            limit: Some(clamp_limit(limit)),
            email: self.email,
        }
    }

    /// Sets the email to filter by.
    pub fn email(self, email: &str) -> (out: Self)
        ensures
            out.email.deep_view() == Some(email@),
            out.before_id == self.before_id,
            out.after_id == self.after_id,
            out.limit == self.limit,
    {
        ListUsersParams {
            before_id: self.before_id,
            after_id: self.after_id,
            limit: self.limit,
            email: Some(email.to_string()),
        }
    }

    /// The query pairs of the parameters.
    pub open spec fn query_pairs(&self) -> Pairs {
        page_pairs(self.before_id.deep_view(), self.after_id.deep_view(), self.limit)
            + optional_pair("email"@, self.email.deep_view())
    }

    /// Writes the parameters as query pairs.
    pub fn to_query(&self) -> (out: Vec<(String, String)>)
        ensures
            out.deep_view() == self.query_pairs(),
    {
        let mut out: Vec<(String, String)> = Vec::new();
        assert(out.deep_view() =~= Seq::<(Seq<char>, Seq<char>)>::empty());
        push_optional(&mut out, "before_id", &self.before_id);
        push_optional(&mut out, "after_id", &self.after_id);
        push_limit(&mut out, self.limit);
        push_optional(&mut out, "email", &self.email);
        assert(out.deep_view() =~= self.query_pairs());
        out
    }

    /// Reads the parameters back from query pairs. `None` where the pairs
    /// hold a page size that is no number.
    pub fn from_query(pairs: &Vec<(String, String)>) -> (out: Option<Self>)
        ensures
            match limit_of(pairs.deep_view()) {
                Some(limit) => out matches Some(params) && params.limit == limit
                    && params.before_id.deep_view() == value_of(pairs.deep_view(), "before_id"@)
                    && params.after_id.deep_view() == value_of(pairs.deep_view(), "after_id"@)
                    && params.email.deep_view() == value_of(pairs.deep_view(), "email"@),
                None => out is None,
            },
    {
        match find_limit(pairs) {
            None => None,
            Some(limit) => Some(
                ListUsersParams {
                    before_id: find_value(pairs, "before_id"),
                    after_id: find_value(pairs, "after_id"),
                    limit,
                    email: find_value(pairs, "email"),
                },
            ),
        }
    }

    /// Written as a query and read back, every field is what it was,
    /// whether it was present or absent.
    pub proof fn lemma_query_round_trip(self)
        ensures
            value_of(self.query_pairs(), "before_id"@) == self.before_id.deep_view(),
            value_of(self.query_pairs(), "after_id"@) == self.after_id.deep_view(),
            limit_of(self.query_pairs()) == Some(self.limit),
            value_of(self.query_pairs(), "email"@) == self.email.deep_view(),
    {
        let behind = optional_pair("email"@, self.email.deep_view());
        lemma_field_names_differ();
        lemma_value_of_optional("email"@, self.email.deep_view(), "before_id"@);
        lemma_value_of_optional("email"@, self.email.deep_view(), "after_id"@);
        lemma_value_of_optional("email"@, self.email.deep_view(), "limit"@);
        lemma_value_of_optional("email"@, self.email.deep_view(), "email"@);
        lemma_page_round_trip(
            self.before_id.deep_view(),
            self.after_id.deep_view(),
            self.limit,
            behind,
        );
    }
}

/// Response structure for listing organization users.
#[derive(Debug)]
pub struct ListUsersResponse {
    /// List of users.
    pub data: Vec<OrganizationUser>,
    /// First ID in the data list.
    pub first_id: Option<String>,
    /// Indicates if there are more results.
    pub has_more: bool,
    /// Last ID in the data list.
    pub last_id: Option<String>,
}

/// Parameters for updating a user.
#[derive(Debug)]
pub struct AdminUpdateUserParams {
    /// New role for the user.
    pub role: UserRole,
}

impl AdminUpdateUserParams {
    /// Parameters that set `role`.
    pub fn new(role: UserRole) -> (out: Self)
        ensures
            out.role == role,
    {
        AdminUpdateUserParams { role }
    }

    /// The members of the JSON body.
    pub open spec fn json_fields(&self) -> Pairs {
        seq![("role"@, user_role_name(self.role))]
    }

    /// Encodes the parameters as a JSON body: the text of the members,
    /// always `Ok`.
    pub fn to_json(&self) -> (out: Result<String, String>)
        ensures
            out matches Ok(text) && text@ == json_object_text(self.json_fields()),
    {
        let mut fields: Vec<(String, String)> = Vec::new();
        assert(fields.deep_view() =~= Seq::<(Seq<char>, Seq<char>)>::empty());
        push_pair(&mut fields, "role", self.role.wire_name().to_string());
        assert(fields.deep_view() =~= self.json_fields());
        encode_fields(&fields)
    }
}

/// Response type for deleting a user.
#[derive(Debug)]
pub struct DeleteUserResponse {
    /// ID of the user.
    pub id: String,
    /// Deleted object type. Always `"user_deleted"`.
    pub obj_type: String,
}

} // verus!
