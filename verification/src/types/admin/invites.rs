//! Organization invites.

use vstd::prelude::*;
use crate::json::{encode_fields, json_object_text};
use crate::query::{
    clamp_limit, clamp_page_limit, find_limit, find_value, lemma_page_round_trip, limit_of,
    page_pairs, push_limit, push_optional, push_pair, value_of, Pairs,
};
use crate::types::admin::users::{user_role_name, UserRole};

verus! {

/// Status of the invite.
#[derive(Debug, Clone, Copy, PartialEq, Eq, Structural)]
pub enum InviteStatus {
    Accepted,
    Expired,
    Deleted,
    Pending,
}

/// Information about an organization invite.
#[derive(Debug)]
pub struct Invite {
    /// Email of the user being invited.
    pub email: String,
    /// When the invite expires.
    pub expires_at: time::OffsetDateTime,
    /// ID of the invite.
    pub id: String,
    /// When the invite was created.
    pub invited_at: time::OffsetDateTime,
    /// Organization role of the user.
    pub role: UserRole,
    /// Status of the invite.
    pub status: InviteStatus,
    /// Object type. Always `"invite"`.
    pub type_: String,
}

/// Parameters for creating an invite.
#[derive(Debug)]
pub struct CreateInviteParams {
    /// Email of the user.
    pub email: String,
    /// Role for the invited user. Cannot be `Admin`.
    pub role: UserRole,
}

impl CreateInviteParams {
    /// Parameters that invite `email` with `role`.
    pub fn new(email: &str, role: UserRole) -> (out: Self)
        ensures
            out.email@ == email@,
            out.role == role,
    {
        CreateInviteParams { email: email.to_string(), role }
    }

    /// The members of the JSON body.
    pub open spec fn json_fields(&self) -> Pairs {
        seq![("email"@, self.email@), ("role"@, user_role_name(self.role))]
    }

    /// Encodes the parameters as a JSON body: the text of the members,
    /// always `Ok`.
    pub fn to_json(&self) -> (out: Result<String, String>)
        ensures
            out matches Ok(text) && text@ == json_object_text(self.json_fields()),
    {
        let mut fields: Vec<(String, String)> = Vec::new();
        assert(fields.deep_view() =~= Seq::<(Seq<char>, Seq<char>)>::empty());
        push_pair(&mut fields, "email", self.email.clone());
        push_pair(&mut fields, "role", self.role.wire_name().to_string());
        assert(fields.deep_view() =~= self.json_fields());
        encode_fields(&fields)
    }
}

/// Parameters for listing invites.
#[derive(Debug)]
pub struct ListInvitesParams {
    /// Cursor for pagination (before).
    pub before_id: Option<String>,
    /// Cursor for pagination (after).
    pub after_id: Option<String>,
    /// Number of items per page (1-1000).
    pub limit: Option<u16>,
}

impl Default for ListInvitesParams {
    fn default() -> (out: Self)
        ensures
            out.before_id is None,
            out.after_id is None,
            out.limit is None,
    {
        ListInvitesParams { before_id: None, after_id: None, limit: None }
    }
}

impl ListInvitesParams {
    /// Parameters with no field set.
    pub fn new() -> (out: Self)
        ensures
            out.before_id is None,
            out.after_id is None,
            out.limit is None,
    {
        ListInvitesParams { before_id: None, after_id: None, limit: None }
    }

    /// Sets the cursor before which to page.
    pub fn before_id(self, before_id: &str) -> (out: Self)
        ensures
            out.before_id.deep_view() == Some(before_id@),
            out.after_id == self.after_id,
            out.limit == self.limit,
    {
        ListInvitesParams {
            before_id: Some(before_id.to_string()),
            after_id: self.after_id,
            limit: self.limit,
        }
    }

    /// Sets the cursor after which to page.
    pub fn after_id(self, after_id: &str) -> (out: Self)
        ensures
            out.after_id.deep_view() == Some(after_id@),
            out.before_id == self.before_id,
            out.limit == self.limit,
    {
        ListInvitesParams {
            before_id: self.before_id,
            after_id: Some(after_id.to_string()),
            limit: self.limit,
        }
    }

    /// Sets the page size, clamped to the range 1 to 1000.
    pub fn limit(self, limit: u16) -> (out: Self)
        ensures
            out.limit == Some(clamp_page_limit(limit as int) as u16),
            out.before_id == self.before_id,
            out.after_id == self.after_id,
    {
        ListInvitesParams {
            before_id: self.before_id,
            after_id: self.after_id,
            limit: Some(clamp_limit(limit)),
        }
    }

    /// The query pairs of the parameters.
    pub open spec fn query_pairs(&self) -> Pairs {
        page_pairs(self.before_id.deep_view(), self.after_id.deep_view(), self.limit)
    }

    /// Writes the parameters as query pairs.
    pub fn to_query(&self) -> (out: Vec<(String, String)>)
        ensures
            out.deep_view() == self.query_pairs(),
    {
        let mut out: Vec<(String, String)> = Vec::new();
        assert(out.deep_view() =~= Seq::<(Seq<char>, Seq<char>)>::empty());
        push_optional(&mut out, "before_id", &self.before_id);
        push_optional(&mut out, "after_id", &self.after_id);
        push_limit(&mut out, self.limit);
        assert(out.deep_view() =~= self.query_pairs());
        out
    }

    /// Reads the parameters back from query pairs. `None` where the pairs
    /// hold a page size that is no number.
    pub fn from_query(pairs: &Vec<(String, String)>) -> (out: Option<Self>)
        ensures
            match limit_of(pairs.deep_view()) {
                Some(limit) => out matches Some(params) && params.limit == limit
                    && params.before_id.deep_view() == value_of(pairs.deep_view(), "before_id"@)
                    && params.after_id.deep_view() == value_of(pairs.deep_view(), "after_id"@),
                None => out is None,
            },
    {
        match find_limit(pairs) {
            None => None,
            Some(limit) => Some(
                ListInvitesParams {
                    before_id: find_value(pairs, "before_id"),
                    after_id: find_value(pairs, "after_id"),
                    limit,
                },
            ),
        }
    }

    /// Written as a query and read back, every field is what it was,
    /// whether it was present or absent.
    pub proof fn lemma_query_round_trip(self)
        ensures
            value_of(self.query_pairs(), "before_id"@) == self.before_id.deep_view(),
            value_of(self.query_pairs(), "after_id"@) == self.after_id.deep_view(),
            limit_of(self.query_pairs()) == Some(self.limit),
    {
        let pairs = self.query_pairs();
        lemma_page_round_trip(
            self.before_id.deep_view(),
            self.after_id.deep_view(),
            self.limit,
            Seq::empty(),
        );
        assert(pairs + Seq::<(Seq<char>, Seq<char>)>::empty() =~= pairs);
    }
}

/// Response structure for listing invites.
#[derive(Debug)]
pub struct ListInvitesResponse {
    /// List of invites returned.
    pub data: Vec<Invite>,
    /// First ID in the data list. Can be used as the `before_id` for the previous page.
    pub first_id: Option<String>,
    /// Indicates if there are more results in the requested page direction.
    pub has_more: bool,
    /// Last ID in the data list. Can be used as the `after_id` for the next page.
    pub last_id: Option<String>,
}

/// Response type for retrieving an invite.
pub type GetInviteResponse = Invite;

} // verus!
