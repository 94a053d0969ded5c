use anthropic_ai_sdk::query::clamp_limit;
use anthropic_ai_sdk::types::admin::invites::{CreateInviteParams, ListInvitesParams};
use anthropic_ai_sdk::types::admin::users::{AdminUpdateUserParams, ListUsersParams, UserRole};
use anthropic_ai_sdk::types::admin::workspace_members::{
    AdminAddWorkspaceMemberParams, AdminUpdateWorkspaceMemberParams, ListWorkspaceMembersParams,
    WorkspaceRole,
};
use anthropic_ai_sdk::types::admin::workspaces::{
    is_workspace_name, AdminCreateWorkspaceParams, AdminUpdateWorkspaceParams,
    ListWorkspacesParams,
};
use anthropic_ai_sdk::types::files::{FileError, ListFilesParams};

#[test]
fn files_test_list_files_params_validation() {
    // Valid params
    let params = ListFilesParams::new().limit(100);
    assert!(params.validate().is_ok());

    // Clamped limit still passes validation (clamped to 1000)
    let params = ListFilesParams::new().limit(1001);
    assert!(params.validate().is_ok());
    assert_eq!(params.limit, Some(1000));

    // Zero limit gets clamped to 1 and passes validation
    let params = ListFilesParams::new().limit(0);
    assert!(params.validate().is_ok());
    assert_eq!(params.limit, Some(1));
}

#[test]
fn invites_limit_clamps_upper_bound() {
    let params = ListInvitesParams::new().limit(2000);
    assert_eq!(params.limit, Some(1000));
}

#[test]
fn invites_limit_clamps_lower_bound() {
    let params = ListInvitesParams::new().limit(0);
    assert_eq!(params.limit, Some(1));
}

#[test]
fn users_limit_clamps_upper_bound() {
    let params = ListUsersParams::new().limit(2000);
    assert_eq!(params.limit, Some(1000));
}

#[test]
fn users_limit_clamps_lower_bound() {
    let params = ListUsersParams::new().limit(0);
    assert_eq!(params.limit, Some(1));
}

#[test]
fn workspace_members_limit_clamps_upper_bound() {
    let params = ListWorkspaceMembersParams::new().limit(2000);
    assert_eq!(params.limit, Some(1000));
}

#[test]
fn workspace_members_limit_clamps_lower_bound() {
    let params = ListWorkspaceMembersParams::new().limit(0);
    assert_eq!(params.limit, Some(1));
}

#[test]
fn workspaces_limit_clamps_upper_bound() {
    let params = ListWorkspacesParams::new().limit(2000);
    assert_eq!(params.limit, Some(1000));
}

#[test]
fn workspaces_limit_clamps_lower_bound() {
    let params = ListWorkspacesParams::new().limit(0);
    assert_eq!(params.limit, Some(1));
}

#[test]
fn update_params_accepts_valid_name() {
    let params = AdminUpdateWorkspaceParams::new("hello");
    assert_eq!(params.name, "hello");
}

#[test]
fn create_params_accepts_valid_name() {
    let params = AdminCreateWorkspaceParams::new("valid");
    assert_eq!(params.name, "valid");
}

#[test]
fn test_list_files_params_builder() {
    let params = ListFilesParams::new().limit(50).after_id("file_abc123");

    assert_eq!(params.limit, Some(50));
    assert_eq!(params.after_id, Some("file_abc123".to_string()));
    assert_eq!(params.before_id, None);
}

#[test]
fn test_list_files_params_limit_clamping() {
    // Test upper bound clamping
    let params = ListFilesParams::new().limit(2000);
    assert_eq!(params.limit, Some(1000));

    // Test lower bound clamping (0 becomes 1)
    let params = ListFilesParams::new().limit(0);
    assert_eq!(params.limit, Some(1));
}

#[test]
fn test_list_files_params_validation() {
    // Valid params
    let params = ListFilesParams::new().limit(100);
    assert!(params.validate().is_ok());

    // Both before_id and after_id set should fail
    let params = ListFilesParams::new().before_id("file_1").after_id("file_2");
    assert!(matches!(params.validate(), Err(FileError::InvalidPagination)));
}

#[test]
fn test_file_error_from_string() {
    let error = FileError::from("Test error".to_string());
    assert!(matches!(error, FileError::ApiError(_)));
}

#[test]
fn clamp_is_total_and_idempotent() {
    assert_eq!(clamp_limit(0), 1);
    assert_eq!(clamp_limit(1), 1);
    assert_eq!(clamp_limit(500), 500);
    assert_eq!(clamp_limit(1000), 1000);
    assert_eq!(clamp_limit(1001), 1000);
    assert_eq!(clamp_limit(u16::MAX), 1000);
    for n in [0u16, 1, 2, 999, 1000, 1001, 40000, u16::MAX] {
        let once = clamp_limit(n);
        assert!((1..=1000).contains(&once));
        assert_eq!(clamp_limit(once), once);
    }
}

#[test]
fn validate_reports_a_limit_out_of_range() {
    let params = ListFilesParams { before_id: None, after_id: None, limit: Some(0) };
    assert!(matches!(params.validate(), Err(FileError::InvalidLimit(0))));
    let params = ListFilesParams { before_id: None, after_id: None, limit: Some(1001) };
    assert!(matches!(params.validate(), Err(FileError::InvalidLimit(1001))));
    // the limit is reported before the cursors
    let params = ListFilesParams {
        before_id: Some("a".to_string()),
        after_id: Some("b".to_string()),
        limit: Some(2000),
    };
    assert!(matches!(params.validate(), Err(FileError::InvalidLimit(2000))));
    let params = ListFilesParams { before_id: None, after_id: None, limit: Some(1000) };
    assert!(params.validate().is_ok());
    assert!(ListFilesParams::default().validate().is_ok());
}

#[test]
fn file_error_messages() {
    assert_eq!(FileError::InvalidPagination.message(), "Invalid pagination parameters");
    assert_eq!(FileError::InvalidLimit(1001).message(), "Invalid limit value: 1001");
    assert_eq!(FileError::InvalidLimit(0).message(), "Invalid limit value: 0");
    assert_eq!(FileError::RequestFailed("down".to_string()).message(), "API request failed: down");
    assert_eq!(FileError::ApiError("no".to_string()).message(), "API error: no");
}

#[test]
fn workspace_names_are_one_to_forty_characters() {
    assert!(!is_workspace_name(""));
    assert!(is_workspace_name("a"));
    assert!(is_workspace_name(&"a".repeat(40)));
    assert!(!is_workspace_name(&"a".repeat(41)));
    // characters, not bytes
    assert!(is_workspace_name(&"é".repeat(40)));
}

#[test]
fn builders_set_one_field_each() {
    let params = ListUsersParams::new().before_id("u1").email("a@b.c").limit(7);
    assert_eq!(params.before_id, Some("u1".to_string()));
    assert_eq!(params.after_id, None);
    assert_eq!(params.limit, Some(7));
    assert_eq!(params.email, Some("a@b.c".to_string()));

    let params = ListWorkspacesParams::new().include_archived(true).after_id("w9");
    assert_eq!(params.include_archived, Some(true));
    assert_eq!(params.after_id, Some("w9".to_string()));
    assert_eq!(params.before_id, None);
    assert_eq!(params.limit, None);

    let params = ListInvitesParams::new().before_id("i1").after_id("i2");
    assert_eq!(params.before_id, Some("i1".to_string()));
    assert_eq!(params.after_id, Some("i2".to_string()));

    let params = ListWorkspaceMembersParams::new().after_id("m3");
    assert_eq!(params.after_id, Some("m3".to_string()));

    let invite = CreateInviteParams::new("new@example.com", UserRole::Developer);
    assert_eq!(invite.email, "new@example.com");
    assert_eq!(invite.role, UserRole::Developer);
    assert_eq!(AdminUpdateUserParams::new(UserRole::Billing).role, UserRole::Billing);
    let member = AdminAddWorkspaceMemberParams::new("user_1", WorkspaceRole::WorkspaceAdmin);
    assert_eq!(member.user_id, "user_1");
    assert_eq!(member.workspace_role, WorkspaceRole::WorkspaceAdmin);
    assert_eq!(
        AdminUpdateWorkspaceMemberParams::new(WorkspaceRole::WorkspaceBilling).workspace_role,
        WorkspaceRole::WorkspaceBilling
    );
}

#[test]
fn bodies_are_encoded_as_json_objects() {
    let invite = CreateInviteParams::new("new@example.com", UserRole::User);
    assert_eq!(
        invite.to_json(),
        Ok("{\"email\":\"new@example.com\",\"role\":\"user\"}".to_string())
    );
    assert_eq!(
        AdminUpdateUserParams::new(UserRole::Admin).to_json(),
        Ok("{\"role\":\"admin\"}".to_string())
    );
    let member = AdminAddWorkspaceMemberParams::new("user_1", WorkspaceRole::WorkspaceDeveloper);
    assert_eq!(
        member.to_json(),
        Ok("{\"user_id\":\"user_1\",\"workspace_role\":\"workspace_developer\"}".to_string())
    );
    assert_eq!(
        AdminUpdateWorkspaceMemberParams::new(WorkspaceRole::WorkspaceUser).to_json(),
        Ok("{\"workspace_role\":\"workspace_user\"}".to_string())
    );
    // quoting is the encoder's
    assert_eq!(
        AdminCreateWorkspaceParams::new("a \"b\" \\ c").to_json(),
        Ok("{\"name\":\"a \\\"b\\\" \\\\ c\"}".to_string())
    );
    assert_eq!(
        AdminUpdateWorkspaceParams::new("line\nbreak").to_json(),
        Ok("{\"name\":\"line\\nbreak\"}".to_string())
    );
    // what was written is what a JSON reader finds
    let text = invite.to_json().unwrap();
    let read: serde_json::Value = serde_json::from_str(&text).unwrap();
    assert_eq!(read["email"], serde_json::Value::String("new@example.com".to_string()));
    assert_eq!(read["role"], serde_json::Value::String("user".to_string()));
}
