use anthropic_ai_sdk::client::{
    join2, join3, join4, AnthropicClient, AnthropicClientBuilder, DEFAULT_API_BASE_URL,
    DEFAULT_API_VERSION, DEFAULT_USER_AGENT,
};
use anthropic_ai_sdk::error::DispatchError;
use anthropic_ai_sdk::files::{FileClient, FILES_BETA_HEADER};
use anthropic_ai_sdk::request::{Expect, Method, PreparedRequest};
use anthropic_ai_sdk::response::{
    body_read, is_success, send_failed, settle_bytes, settle_decode, settle_failure, settle_text,
    BodyRead,
};
use anthropic_ai_sdk::types::admin::invites::{CreateInviteParams, ListInvitesParams};
use anthropic_ai_sdk::types::admin::users::{AdminUpdateUserParams, ListUsersParams, UserRole};
use anthropic_ai_sdk::types::admin::workspace_members::{
    AdminAddWorkspaceMemberParams, AdminUpdateWorkspaceMemberParams, ListWorkspaceMembersParams,
    WorkspaceRole,
};
use anthropic_ai_sdk::types::admin::workspaces::{AdminUpdateWorkspaceParams, ListWorkspacesParams};
use anthropic_ai_sdk::types::files::{FileError, ListFilesParams};

fn client() -> AnthropicClient {
    AnthropicClient::builder("sk-test", "2023-06-01")
        .with_api_base_url("https://example.test/v1")
        .build()
        .unwrap()
}

fn pair(name: &str, value: &str) -> (String, String) {
    (name.to_string(), value.to_string())
}

fn two_headers() -> Vec<(String, String)> {
    vec![pair("x-api-key", "sk-test"), pair("anthropic-version", "2023-06-01")]
}

fn three_headers(flag: &str) -> Vec<(String, String)> {
    vec![
        pair("x-api-key", "sk-test"),
        pair("anthropic-version", "2023-06-01"),
        pair("anthropic-beta", flag),
    ]
}

fn plain(method: Method, path: &str) -> PreparedRequest {
    PreparedRequest {
        method,
        url: format!("https://example.test/v1{}", path),
        headers: two_headers(),
        query: None,
        body: None,
        expect: Expect::Json,
    }
}

#[test]
fn constants() {
    assert_eq!(DEFAULT_API_BASE_URL, "https://api.anthropic.com/v1");
    assert_eq!(DEFAULT_API_VERSION, "2023-06-01");
    assert_eq!(DEFAULT_USER_AGENT, "anthropic-ai-sdk-0.2.0");
    assert_eq!(FILES_BETA_HEADER, "files-api-2025-04-14");
}

#[test]
fn builder_collects_the_identity() {
    let client = AnthropicClient::new("key", "2023-06-01").unwrap();
    assert_eq!(client.get_api_key(), "key");
    assert_eq!(client.get_api_version(), "2023-06-01");
    assert_eq!(client.get_api_base_url(), "https://api.anthropic.com/v1");

    let client = AnthropicClient::new_admin("admin-key", "2024-01-01").unwrap();
    assert_eq!(client.get_api_key(), "admin-key");
    assert_eq!(client.get_api_version(), "2024-01-01");

    let transport = reqwest::Client::new();
    let client = AnthropicClientBuilder::new("k", "v1")
        .with_api_version("v2")
        .with_api_base_url("http://localhost:1")
        .with_http_client(transport)
        .build()
        .unwrap();
    assert_eq!(client.get_api_key(), "k");
    assert_eq!(client.get_api_version(), "v2");
    assert_eq!(client.get_api_base_url(), "http://localhost:1");
    let _handle: &reqwest::Client = client.get_client();
    let copy = client.clone();
    assert_eq!(copy.get_api_key(), "k");
    assert_eq!(copy.get_api_base_url(), "http://localhost:1");
}

#[test]
fn assemble_reports_a_transport_that_could_not_be_made() {
    let out = AnthropicClient::builder("k", "v").assemble(Err("no tls".to_string()));
    assert_eq!(out.unwrap_err(), DispatchError::Transport { detail: "no tls".to_string() });
    let out = AnthropicClient::builder("k", "v").assemble(Ok(reqwest::Client::new()));
    assert_eq!(out.unwrap().get_api_key(), "k");
    // a handle that was supplied is used, whatever else happened
    let out = AnthropicClient::builder("k", "v")
        .with_http_client(reqwest::Client::new())
        .assemble(Err("ignored".to_string()));
    assert!(out.is_ok());
}

#[test]
fn a_call_without_body_and_query_has_two_headers_and_no_payload() {
    let request = client().send_request(Method::Get, "/models", None, None).unwrap();
    assert_eq!(request, plain(Method::Get, "/models"));
    assert_eq!(request.headers.len(), 2);
    assert_eq!(request.body, None);
    assert_eq!(request.query, None);
    assert_eq!(client().get("/models", None), plain(Method::Get, "/models"));
    assert_eq!(client().delete("/x/1", None), plain(Method::Delete, "/x/1"));
    assert_eq!(client().post("/x", None), Ok(plain(Method::Post, "/x")));
}

#[test]
fn a_feature_flag_is_the_third_header_verbatim() {
    let request = client()
        .send_request_with_beta(Method::Post, "/files", None, None, "files-api-2025-04-14")
        .unwrap();
    assert_eq!(request.headers, three_headers("files-api-2025-04-14"));
    assert_eq!(request.headers.len(), 3);
    let odd = " Odd Flag/1.0 ";
    let request = client().get_with_beta("/files", None, odd);
    assert_eq!(request.headers[2], pair("anthropic-beta", odd));
    assert_eq!(request.method, Method::Get);
    assert_eq!(request.expect, Expect::Json);
    let request = client().send_request_with_beta_bytes(Method::Get, "/f", None, "b");
    assert_eq!(request.headers, three_headers("b"));
    assert_eq!(request.expect, Expect::Bytes);
    assert_eq!(request.body, None);
    let request = client().download_with_beta("/files/f1/content", "b");
    assert_eq!(request.url, "https://example.test/v1/files/f1/content");
    assert_eq!(request.expect, Expect::Bytes);
    assert_eq!(request.method, Method::Get);
}

#[test]
fn query_and_body_are_passed_on() {
    let query = vec![pair("limit", "5"), pair("after_id", "x y")];
    let request = client()
        .send_request(Method::Post, "/p", Some(query.clone()), Some(Ok("{\"a\":1}".to_string())))
        .unwrap();
    assert_eq!(request.url, "https://example.test/v1/p");
    assert_eq!(request.query, Some(query));
    assert_eq!(request.body, Some("{\"a\":1}".to_string()));
    assert_eq!(request.headers, two_headers());
    let request = client()
        .send_request_with_beta(Method::Post, "/p", None, Some(Ok("[]".to_string())), "b")
        .unwrap();
    assert_eq!(request.body, Some("[]".to_string()));
    assert_eq!(request.headers, three_headers("b"));
}

#[test]
fn a_body_that_did_not_encode_is_never_sent() {
    let failed = || Some(Err("key must be a string".to_string()));
    let expected =
        Err(DispatchError::Serialization { detail: "key must be a string".to_string() });
    assert_eq!(client().send_request(Method::Post, "/p", None, failed()), expected);
    assert_eq!(client().post("/p", failed()), expected);
    assert_eq!(client().send_request_with_beta(Method::Post, "/p", None, failed(), "b"), expected);
    assert_eq!(client().create_message(failed()), expected);
    assert_eq!(
        expected.unwrap_err().message(),
        "Failed to serialize body: key must be a string"
    );
}

#[test]
fn status_classification() {
    for status in [0u16, 100, 199, 300, 301, 400, 404, 500, 599, u16::MAX] {
        assert!(!is_success(status));
        assert_eq!(body_read(Expect::Json, status), BodyRead::Text);
        assert_eq!(body_read(Expect::Bytes, status), BodyRead::Text);
        assert_eq!(body_read(Expect::EventStream, status), BodyRead::Text);
    }
    for status in [200u16, 201, 204, 250, 299] {
        assert!(is_success(status));
        assert_eq!(body_read(Expect::Json, status), BodyRead::Text);
        assert_eq!(body_read(Expect::Bytes, status), BodyRead::Bytes);
        assert_eq!(body_read(Expect::EventStream, status), BodyRead::Stream);
    }
}

#[test]
fn a_success_body_that_parses_is_the_value() {
    let body = settle_text(Expect::Json, 200, Ok("{\"n\":7}".to_string())).unwrap();
    assert_eq!(body, "{\"n\":7}");
    let parsed = serde_json::from_str::<serde_json::Value>(&body).map_err(|e| e.to_string());
    let value = settle_decode(body, parsed).unwrap();
    assert_eq!(value["n"], serde_json::Value::from(7));
    assert_eq!(settle_decode("7".to_string(), Ok::<u32, String>(7)), Ok(7));
}

#[test]
fn a_success_body_that_does_not_parse_is_a_decode_error_with_the_body() {
    let body = settle_text(Expect::Json, 201, Ok("<html>".to_string())).unwrap();
    let parsed = serde_json::from_str::<serde_json::Value>(&body).map_err(|e| e.to_string());
    let detail = parsed.clone().unwrap_err();
    let error = settle_decode(body, parsed).unwrap_err();
    assert_eq!(error, DispatchError::Decode { detail: detail.clone(), body: "<html>".to_string() });
    assert_eq!(
        error.message(),
        format!("JSON parsing error: {}. Response body: <html>", detail)
    );
    assert!(error.message().contains("<html>"));
}

#[test]
fn a_failure_status_is_an_api_error_with_the_body_verbatim() {
    let body = "{\"type\":\"error\",\"error\":{\"message\":\" spaced \\u00e9 \"}}\n";
    for expect in [Expect::Json, Expect::Bytes, Expect::EventStream] {
        for status in [199u16, 300, 400, 401, 429, 500, 529] {
            let error = settle_text(expect, status, Ok(body.to_string())).unwrap_err();
            assert_eq!(error, DispatchError::Api { body: body.to_string() });
            assert_eq!(error.message(), body);
        }
    }
    assert_eq!(
        settle_text(Expect::Json, 404, Ok(String::new())),
        Err(DispatchError::Api { body: String::new() })
    );
}

#[test]
fn read_failures() {
    assert_eq!(
        settle_text(Expect::Json, 200, Err("eof".to_string())),
        Err(DispatchError::Transport { detail: "Failed to get response body: eof".to_string() })
    );
    assert_eq!(
        settle_text(Expect::Json, 500, Err("eof".to_string())),
        Err(DispatchError::Transport { detail: "Failed to get response body: eof".to_string() })
    );
    // a download whose error body cannot be read fails in the transport
    assert_eq!(
        settle_text(Expect::Bytes, 500, Err("eof".to_string())),
        Err(DispatchError::Transport { detail: "Failed to get response body: eof".to_string() })
    );
    assert_eq!(
        settle_failure(Expect::Bytes, 404, Err("eof".to_string())),
        DispatchError::Transport { detail: "Failed to get response body: eof".to_string() }
    );
    assert_eq!(
        settle_failure(Expect::EventStream, 503, Ok("busy".to_string())),
        DispatchError::Api { body: "busy".to_string() }
    );
    assert_eq!(
        settle_text(Expect::EventStream, 500, Err("eof".to_string())),
        Err(DispatchError::Transport { detail: "Failed to read error response: eof".to_string() })
    );
    assert_eq!(settle_bytes(Ok(vec![0, 159, 146, 150])), Ok(vec![0, 159, 146, 150]));
    assert_eq!(
        settle_bytes(Err("reset".to_string())),
        Err(DispatchError::Transport { detail: "Failed to get response bytes: reset".to_string() })
    );
    let error = send_failed("dns error".to_string());
    assert_eq!(error, DispatchError::Transport { detail: "dns error".to_string() });
    assert_eq!(error.message(), "dns error");
}

#[test]
fn streaming_without_the_flag_issues_nothing() {
    let body = || Ok("{\"stream\":true}".to_string());
    for flag in [None, Some(false)] {
        let out = client().create_message_streaming(flag, body());
        assert_eq!(out, Err(DispatchError::StreamPrecondition));
        // the flag is looked at first
        let out = client().create_message_streaming(flag, Err("bad".to_string()));
        assert_eq!(out, Err(DispatchError::StreamPrecondition));
    }
    assert_eq!(
        DispatchError::StreamPrecondition.message(),
        "Stream parameter must be set to true for streaming"
    );
    let request = client().create_message_streaming(Some(true), body()).unwrap();
    assert_eq!(
        request,
        PreparedRequest {
            method: Method::Post,
            url: "https://example.test/v1/messages".to_string(),
            headers: two_headers(),
            query: None,
            body: Some("{\"stream\":true}".to_string()),
            expect: Expect::EventStream,
        }
    );
    assert_eq!(
        client().create_message_streaming(Some(true), Err("bad".to_string())),
        Err(DispatchError::Serialization { detail: "bad".to_string() })
    );
}

#[test]
fn message_routes() {
    let body = || Some(Ok("{}".to_string()));
    let request = client().create_message(body()).unwrap();
    assert_eq!(request.url, "https://example.test/v1/messages");
    assert_eq!(request.method, Method::Post);
    assert_eq!(request.body, Some("{}".to_string()));
    assert_eq!(client().create_message(None), Ok(plain(Method::Post, "/messages")));
    let request = client().count_tokens(body()).unwrap();
    assert_eq!(request.url, "https://example.test/v1/messages/count_tokens");
    assert_eq!(request.method, Method::Post);
    let request = client().send_stream_request("/messages", "{}".to_string());
    assert_eq!(request.expect, Expect::EventStream);
}

#[test]
fn batch_routes() {
    let c = client();
    let request = c.create_message_batch(Ok("{\"requests\":[]}".to_string())).unwrap();
    assert_eq!(request.url, "https://example.test/v1/messages/batches");
    assert_eq!(request.method, Method::Post);
    assert_eq!(request.body, Some("{\"requests\":[]}".to_string()));
    let request = c.list_message_batches(Some(vec![pair("limit", "2")]));
    assert_eq!(request.url, "https://example.test/v1/messages/batches");
    assert_eq!(request.query, Some(vec![pair("limit", "2")]));
    assert_eq!(c.list_message_batches(None), plain(Method::Get, "/messages/batches"));
    assert_eq!(c.retrieve_message_batch("b1"), plain(Method::Get, "/messages/batches/b1"));
    assert_eq!(
        c.retrieve_message_batch_results("b1"),
        plain(Method::Get, "/messages/batches/b1/results")
    );
    let request = c.cancel_message_batch("b1", Ok("{}".to_string())).unwrap();
    assert_eq!(request.url, "https://example.test/v1/messages/batches/b1/cancel");
    assert_eq!(request.method, Method::Post);
    assert_eq!(c.delete_message_batch("b1"), plain(Method::Delete, "/messages/batches/b1"));
}

#[test]
fn admin_routes() {
    let c = client();
    assert_eq!(c.list_api_keys(None), plain(Method::Get, "/organizations/api_keys"));
    assert_eq!(c.get_api_key_by_id("k1"), plain(Method::Get, "/organizations/api_keys/k1"));
    let request = c.update_api_key("k1", Ok("{\"name\":\"n\"}".to_string())).unwrap();
    assert_eq!(request.url, "https://example.test/v1/organizations/api_keys/k1");
    assert_eq!(request.method, Method::Post);
    assert_eq!(request.body, Some("{\"name\":\"n\"}".to_string()));

    assert_eq!(c.list_users(None), plain(Method::Get, "/organizations/users"));
    let params = ListUsersParams::new().limit(5).email("a@b.c");
    let request = c.list_users(Some(&params));
    assert_eq!(request.query, Some(vec![pair("limit", "5"), pair("email", "a@b.c")]));
    assert_eq!(c.get_user("u1"), plain(Method::Get, "/organizations/users/u1"));
    let request = c.update_user("u1", &AdminUpdateUserParams::new(UserRole::Developer)).unwrap();
    assert_eq!(request.url, "https://example.test/v1/organizations/users/u1");
    assert_eq!(request.method, Method::Post);
    assert_eq!(request.body, Some("{\"role\":\"developer\"}".to_string()));
    assert_eq!(c.delete_user("u1"), plain(Method::Delete, "/organizations/users/u1"));

    let params = ListWorkspacesParams::new().include_archived(false).before_id("w0");
    let request = c.list_workspaces(Some(&params));
    assert_eq!(request.url, "https://example.test/v1/organizations/workspaces");
    assert_eq!(
        request.query,
        Some(vec![pair("include_archived", "false"), pair("before_id", "w0")])
    );
    assert_eq!(c.get_workspace("w1"), plain(Method::Get, "/organizations/workspaces/w1"));
    let request = c.update_workspace("w1", &AdminUpdateWorkspaceParams::new("ops")).unwrap();
    assert_eq!(request.url, "https://example.test/v1/organizations/workspaces/w1");
    assert_eq!(request.body, Some("{\"name\":\"ops\"}".to_string()));

    let params = ListWorkspaceMembersParams::new().after_id("m1").limit(1000);
    let request = c.list_workspace_members("w1", Some(&params));
    assert_eq!(request.url, "https://example.test/v1/organizations/workspaces/w1/members");
    assert_eq!(request.query, Some(vec![pair("after_id", "m1"), pair("limit", "1000")]));
    assert_eq!(
        c.get_workspace_member("w1", "u1"),
        plain(Method::Get, "/organizations/workspaces/w1/members/u1")
    );
    let member = AdminAddWorkspaceMemberParams::new("u1", WorkspaceRole::WorkspaceUser);
    let request = c.add_workspace_member("w1", &member).unwrap();
    assert_eq!(request.url, "https://example.test/v1/organizations/workspaces/w1/members");
    assert_eq!(
        request.body,
        Some("{\"user_id\":\"u1\",\"workspace_role\":\"workspace_user\"}".to_string())
    );
    let update = AdminUpdateWorkspaceMemberParams::new(WorkspaceRole::WorkspaceAdmin);
    let request = c.update_workspace_member("w1", "u1", &update).unwrap();
    assert_eq!(request.url, "https://example.test/v1/organizations/workspaces/w1/members/u1");
    assert_eq!(request.method, Method::Post);
    assert_eq!(request.body, Some("{\"workspace_role\":\"workspace_admin\"}".to_string()));
    assert_eq!(
        c.delete_workspace_member("w1", "u1"),
        plain(Method::Delete, "/organizations/workspaces/w1/members/u1")
    );

    let request = c.list_invites(Some(&ListInvitesParams::new()));
    assert_eq!(request.url, "https://example.test/v1/organizations/invites");
    assert_eq!(request.query, Some(vec![]));
    let invite = CreateInviteParams::new("a@b.c", UserRole::Billing);
    let request = c.create_invite(&invite).unwrap();
    assert_eq!(request.url, "https://example.test/v1/organizations/invites");
    assert_eq!(request.body, Some("{\"email\":\"a@b.c\",\"role\":\"billing\"}".to_string()));
    assert_eq!(c.get_invite("i1"), plain(Method::Get, "/organizations/invites/i1"));
    assert_eq!(c.delete_invite("i1"), plain(Method::Delete, "/organizations/invites/i1"));
}

#[test]
fn file_routes() {
    let c = client();
    let request = c.list_files(None).unwrap();
    assert_eq!(
        request,
        PreparedRequest {
            method: Method::Get,
            url: "https://example.test/v1/files".to_string(),
            headers: three_headers("files-api-2025-04-14"),
            query: None,
            body: None,
            expect: Expect::Json,
        }
    );
    let params = ListFilesParams::new().limit(50).after_id("file_abc123");
    let request = c.list_files(Some(&params)).unwrap();
    assert_eq!(request.query, Some(vec![pair("after_id", "file_abc123"), pair("limit", "50")]));
    let both = ListFilesParams::new().before_id("a").after_id("b");
    assert!(matches!(c.list_files(Some(&both)), Err(FileError::InvalidPagination)));
    let wide = ListFilesParams { before_id: None, after_id: None, limit: Some(5000) };
    assert!(matches!(c.list_files(Some(&wide)), Err(FileError::InvalidLimit(5000))));

    let request = c.get_file_metadata("file_1");
    assert_eq!(request.url, "https://example.test/v1/files/file_1");
    assert_eq!(request.headers, three_headers("files-api-2025-04-14"));
    assert_eq!(request.expect, Expect::Json);
    let request = c.download_file("file_1");
    assert_eq!(request.url, "https://example.test/v1/files/file_1/content");
    assert_eq!(request.headers, three_headers("files-api-2025-04-14"));
    assert_eq!(request.expect, Expect::Bytes);
    assert_eq!(request.method, Method::Get);
}

#[test]
fn joins() {
    assert_eq!(join2("a", "b"), "ab");
    assert_eq!(join3("a", "", "c"), "ac");
    assert_eq!(join4("/w/", "1", "/m/", "2"), "/w/1/m/2");
}
