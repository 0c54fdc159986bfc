use resend_client_rs::emails::SendEmailResponse;
use resend_client_rs::json::Json;
use resend_client_rs::reqlib::{
    attach_body, interpret, APIResponse, BaseUrl, BuildError, ErrorResponse, Exchange, Failure,
    Method, ParseCause, ReqClient, CONTENT_TYPE, PRODUCT, USER_AGENT, VERSION,
};
use resend_client_rs::Client;

fn header<'a>(request: &'a resend_client_rs::reqlib::Request, name: &str) -> Option<&'a str> {
    request.headers.get(name).map(|value| value.as_str())
}

#[test]
fn new_client_has_the_defaults() {
    let client = ReqClient::new("api-key".to_string());
    assert_eq!(client.api_key, "api-key");
    assert_eq!(client.user_agent, "resend-rust/0.1.0");
    assert_eq!(client.base_url.scheme, "https");
    assert_eq!(client.base_url.host, "api.resend.com");
    assert_eq!(client.base_url.port, None);
    assert!(client.headers.entries().is_empty());
    let custom = ReqClient::new_custom("other".to_string());
    assert_eq!(custom.api_key, "other");
    assert_eq!(custom.user_agent, USER_AGENT);
}

#[test]
fn user_agent_is_product_slash_version() {
    assert_eq!(USER_AGENT, format!("{}/{}", PRODUCT, VERSION));
    assert_eq!(CONTENT_TYPE, "application/json");
}

#[test]
fn request_carries_the_fixed_headers() {
    let client = ReqClient::new("api-key".to_string());
    let request = client.new_request(Method::Get, "/emails/1").unwrap();
    assert_eq!(request.method, Method::Get);
    assert_eq!(request.path, "/emails/1");
    assert_eq!(request.base_url.host, "api.resend.com");
    assert_eq!(header(&request, "Accept"), Some("application/json"));
    assert_eq!(header(&request, "User-Agent"), Some("resend-rust/0.1.0"));
    assert_eq!(header(&request, "Authorization"), Some("Bearer api-key"));
    assert_eq!(header(&request, "Content-Type"), None);
    assert_eq!(request.headers.entries().len(), 3);
    assert!(request.body.is_none());
}

#[test]
fn fixed_headers_win_over_custom_ones() {
    let mut client = ReqClient::new("api-key".to_string());
    client.headers.insert("accept".to_string(), "text/plain".to_string());
    client.headers.insert("AUTHORIZATION".to_string(), "Basic abc".to_string());
    client.headers.insert("user-agent".to_string(), "curl".to_string());
    client.headers.insert("X-Trace".to_string(), "42".to_string());
    client.user_agent = "custom-agent/9".to_string();
    let request = client.new_request(Method::Post, "emails").unwrap();
    assert_eq!(header(&request, "Accept"), Some("application/json"));
    assert_eq!(header(&request, "Authorization"), Some("Bearer api-key"));
    assert_eq!(header(&request, "User-Agent"), Some("custom-agent/9"));
    assert_eq!(header(&request, "x-trace"), Some("42"));
    assert_eq!(request.headers.entries().len(), 4);
}

#[test]
fn request_reflects_the_configuration_at_call_time() {
    let mut client = ReqClient::new("first".to_string());
    let before = client.new_request(Method::Get, "domains").unwrap();
    client.api_key = "second".to_string();
    client.base_url = BaseUrl::parse("http://localhost:3000/ignored?x=1#frag").unwrap();
    let after = client.new_request(Method::Get, "domains").unwrap();
    assert_eq!(header(&before, "Authorization"), Some("Bearer first"));
    assert_eq!(header(&after, "Authorization"), Some("Bearer second"));
    assert_eq!(before.base_url.host, "api.resend.com");
    assert_eq!(after.base_url.scheme, "http");
    assert_eq!(after.base_url.host, "localhost");
    assert_eq!(after.base_url.port, Some(3000));
    assert_eq!(after.path, "domains");
}

#[test]
fn illegal_header_values_are_refused() {
    let client = ReqClient::new("bad\nkey".to_string());
    assert_eq!(
        client.new_request(Method::Get, "emails").err(),
        Some(BuildError::InvalidHeaderValue)
    );

    let mut client = ReqClient::new("api-key".to_string());
    client.user_agent = "agent\u{7f}".to_string();
    assert_eq!(
        client.new_request(Method::Get, "emails").err(),
        Some(BuildError::InvalidHeaderValue)
    );

    let mut client = ReqClient::new("api-key".to_string());
    client.headers.insert("Accept".to_string(), "a\rb".to_string());
    assert_eq!(
        client
            .new_body_request(Method::Post, "emails", Some(&Json::Null))
            .err(),
        Some(BuildError::InvalidHeaderValue)
    );
}

#[test]
fn tabs_and_bytes_above_ascii_are_legal_header_values() {
    let mut client = ReqClient::new("schl\u{fc}ssel".to_string());
    client.headers.insert("X-Note".to_string(), "a\tb".to_string());
    let request = client.new_request(Method::Get, "emails").unwrap();
    assert_eq!(header(&request, "Authorization"), Some("Bearer schl\u{fc}ssel"));
    assert_eq!(header(&request, "X-Note"), Some("a\tb"));
}

#[test]
fn body_request_without_payload_has_no_body() {
    let client = ReqClient::new("api-key".to_string());
    let request = client
        .new_body_request::<Json>(Method::Post, "emails", None)
        .unwrap();
    assert!(request.body.is_none());
    assert_eq!(header(&request, "Content-Type"), None);
    assert_eq!(request.headers.entries().len(), 3);
}

#[test]
fn body_request_with_payload_sets_body_and_content_type() {
    let mut client = ReqClient::new("api-key".to_string());
    client.headers.insert("content-type".to_string(), "text/plain".to_string());
    let payload = Json::Object(vec![
        ("b".to_string(), Json::Number(1)),
        ("a".to_string(), Json::Array(vec![Json::Bool(true), Json::Null])),
    ]);
    let request = client
        .new_body_request(Method::Put, "things", Some(&payload))
        .unwrap();
    assert_eq!(request.method, Method::Put);
    assert_eq!(request.body.as_deref(), Some(r#"{"b":1,"a":[true,null]}"#));
    assert_eq!(header(&request, "Content-Type"), Some("application/json"));
    assert_eq!(request.headers.entries().len(), 4);
}

#[test]
fn empty_payload_is_not_no_payload() {
    let client = ReqClient::new("api-key".to_string());
    let request = client
        .new_body_request(Method::Post, "emails", Some(&Json::Str(String::new())))
        .unwrap();
    assert_eq!(request.body.as_deref(), Some(r#""""#));
    assert_eq!(header(&request, "Content-Type"), Some("application/json"));
}

#[test]
fn payload_without_json_text_is_a_serialization_error() {
    let client = ReqClient::new("api-key".to_string());
    let payload = Json::Array(vec![Json::Decimal("abc".to_string())]);
    assert_eq!(
        client
            .new_body_request(Method::Post, "emails", Some(&payload))
            .err(),
        Some(BuildError::Serialization)
    );
    let request = client.new_request(Method::Post, "emails").unwrap();
    assert_eq!(attach_body(request, None).err(), Some(BuildError::Serialization));
}

#[test]
fn success_body_gives_success() {
    let client = ReqClient::new("api-key".to_string());
    let result = client.exec::<SendEmailResponse>(Exchange::Response {
        status: 200,
        body: r#"{"id":"mock-id","unknown":1}"#.to_string(),
    });
    match result {
        Ok(APIResponse::Success(data)) => assert_eq!(data.id, "mock-id"),
        other => panic!("{:?}", other),
    }
}

#[test]
fn body_of_another_shape_gives_parse_error() {
    let client = ReqClient::new("api-key".to_string());
    let result = client.exec::<SendEmailResponse>(Exchange::Response {
        status: 200,
        body: r#"{"id":7}"#.to_string(),
    });
    match result {
        Err(APIResponse::ParseError(failure)) => {
            assert_eq!(failure.cause, ParseCause::Mismatch);
            assert_eq!(failure.body, r#"{"id":7}"#);
        }
        other => panic!("{:?}", other),
    }
}

#[test]
fn body_that_is_not_json_gives_parse_error() {
    let client = ReqClient::new("api-key".to_string());
    let result = client.exec::<SendEmailResponse>(Exchange::Response {
        status: 201,
        body: "<html>".to_string(),
    });
    match result {
        Err(APIResponse::ParseError(failure)) => {
            assert_eq!(failure.cause, ParseCause::Malformed);
            assert_eq!(failure.body, "<html>");
        }
        other => panic!("{:?}", other),
    }
}

#[test]
fn error_status_with_error_body_gives_api_error() {
    let client = ReqClient::new("api-key".to_string());
    let result = client.exec::<SendEmailResponse>(Exchange::Response {
        status: 422,
        body: r#"{"name":"validation_error","status_code":422,"message":"Missing `to` field"}"#
            .to_string(),
    });
    match result {
        Err(APIResponse::Error(ErrorResponse {
            name,
            status_code,
            message,
        })) => {
            assert_eq!(name, "validation_error");
            assert_eq!(status_code, 422);
            assert_eq!(message, "Missing `to` field");
        }
        other => panic!("{:?}", other),
    }
}

#[test]
fn error_status_with_other_body_gives_status_failure() {
    let client = ReqClient::new("api-key".to_string());
    for body in ["Bad Gateway", r#"{"id":"mock-id"}"#, r#"{"name":"n","status_code":70000,"message":"m"}"#] {
        let result = client.exec::<SendEmailResponse>(Exchange::Response {
            status: 502,
            body: body.to_string(),
        });
        match result {
            Err(APIResponse::Failure(Failure::Status { status })) => assert_eq!(status, 502),
            other => panic!("{:?}", other),
        }
    }
}

#[test]
fn four_hundred_is_the_first_error_status() {
    let client = ReqClient::new("api-key".to_string());
    let body = r#"{"id":"mock-id"}"#.to_string();
    let below = client.exec::<SendEmailResponse>(Exchange::Response {
        status: 399,
        body: body.clone(),
    });
    assert!(matches!(below, Ok(APIResponse::Success(_))));
    let at = client.exec::<SendEmailResponse>(Exchange::Response { status: 400, body });
    assert!(matches!(
        at,
        Err(APIResponse::Failure(Failure::Status { status: 400 }))
    ));
}

#[test]
fn no_response_gives_failure() {
    let client = ReqClient::new("api-key".to_string());
    let result = client.exec::<SendEmailResponse>(Exchange::NoResponse {
        reason: "connection refused".to_string(),
    });
    match result {
        Err(APIResponse::Failure(Failure::NoResponse { reason })) => {
            assert_eq!(reason, "connection refused")
        }
        other => panic!("{:?}", other),
    }
}

#[test]
fn unreadable_body_gives_failure() {
    let client = ReqClient::new("api-key".to_string());
    let result = client.exec::<SendEmailResponse>(Exchange::UnreadableBody {
        status: 200,
        reason: "connection reset".to_string(),
    });
    match result {
        Err(APIResponse::Failure(Failure::UnreadableBody { status, reason })) => {
            assert_eq!(status, 200);
            assert_eq!(reason, "connection reset");
        }
        other => panic!("{:?}", other),
    }
}

#[test]
fn interpret_takes_the_parsed_body() {
    let parsed = Some(Json::Object(vec![(
        "id".to_string(),
        Json::Str("x".to_string()),
    )]));
    let result = interpret::<SendEmailResponse>(200, "ignored".to_string(), parsed);
    assert!(matches!(result, Ok(APIResponse::Success(SendEmailResponse { id })) if id == "x"));
    let result = interpret::<SendEmailResponse>(200, "raw".to_string(), None);
    assert!(matches!(result, Err(APIResponse::ParseError(failure)) if failure.body == "raw"));
    let result = interpret::<SendEmailResponse>(500, "raw".to_string(), None);
    assert!(matches!(
        result,
        Err(APIResponse::Failure(Failure::Status { status: 500 }))
    ));
}

#[test]
fn base_url_is_read_from_text() {
    let base = BaseUrl::parse("http://127.0.0.1:1234/x?y#z").unwrap();
    assert_eq!(base.scheme, "http");
    assert_eq!(base.host, "127.0.0.1");
    assert_eq!(base.port, Some(1234));

    let base = BaseUrl::parse("HTTPS://API.Resend.com:443").unwrap();
    assert_eq!(base.scheme, "https");
    assert_eq!(base.host, "api.resend.com");
    assert_eq!(base.port, None);

    assert!(BaseUrl::parse("not a url").is_none());
    assert!(BaseUrl::parse("mailto:someone@example.com").is_none());
    assert!(BaseUrl::from_origin(Some(("http".to_string(), None, Some(80)))).is_none());
    assert!(BaseUrl::from_origin(None).is_none());
}

#[test]
fn services_have_configurations_of_their_own() {
    let mut client = Client::new("api-key");
    client.email_service.req_client.base_url = BaseUrl::parse("http://localhost:1").unwrap();
    client.email_service.req_client.headers.insert("X-A".to_string(), "1".to_string());
    assert_eq!(client.raw_client.base_url.host, "api.resend.com");
    assert_eq!(client.domain_service.req_client.base_url.host, "api.resend.com");
    assert!(client.domain_service.req_client.headers.get("X-A").is_none());
    assert_eq!(client.email_service.req_client.base_url.host, "localhost");
    assert_eq!(client.raw_client.api_key, "api-key");
    assert_eq!(client.domain_service.req_client.api_key, "api-key");
}
