use resend_client_rs::emails::{Email, SendEmailRequest, SendEmailResponse};
use resend_client_rs::json::ToJson;
use resend_client_rs::reqlib::{APIResponse, BaseUrl, Exchange, Method};
use resend_client_rs::Client;

fn mock_base() -> BaseUrl {
    BaseUrl::parse("http://127.0.0.1:1234").unwrap()
}

fn plain_email() -> SendEmailRequest<'static> {
    SendEmailRequest {
        subject: "My subject".to_string(),
        from: "from@domain.com".to_string(),
        to: vec!["to@domain.com".to_string()],
        cc: None,
        bcc: None,
        reply_to: None,
        html: None,
        text: None,
        tags: None,
        attachments: None,
        headers: None,
    }
}

#[test]
fn send_should_work() {
    let send_email_response = SendEmailResponse {
        id: "mock-id".to_string(),
    };
    let body = send_email_response.to_json().to_text().unwrap();

    let mut client = Client::new("api-key");
    client.email_service.req_client.base_url = mock_base();
    let request = client.email_service.send(&plain_email()).unwrap();
    assert_eq!(request.method, Method::Post);
    assert_eq!(request.path, "emails");
    assert_eq!(request.base_url.scheme, "http");
    assert_eq!(request.base_url.host, "127.0.0.1");
    assert_eq!(request.base_url.port, Some(1234));
    assert_eq!(
        request.headers.get("Content-Type").map(|v| v.as_str()),
        Some("application/json")
    );
    assert_eq!(
        request.body.as_deref(),
        Some(r#"{"subject":"My subject","from":"from@domain.com","to":["to@domain.com"]}"#)
    );

    let result = client
        .email_service
        .send_outcome(Exchange::Response { status: 200, body });
    let data = match result.unwrap() {
        APIResponse::Success(data) => Some(data),
        _ => None,
    };
    assert_eq!(data.unwrap().id, "mock-id");
}

#[test]
fn emails_tests_get_should_work() {
    let email_details = Email {
        id: "id".to_string(),
        object: "email".to_string(),
        from: "from@domain.com".to_string(),
        to: vec!["to@domain.com".to_string()],
        created_at: "2023-11-19T10:00:00.000Z".to_string(),
        subject: "My subject".to_string(),
        html: None,
        text: None,
        bcc: None,
        cc: None,
        reply_to: None,
        last_event: "delivered".to_string(),
    };
    let body = email_details.to_json().to_text().unwrap();

    let mut client = Client::new("api-key");
    client.email_service.req_client.base_url = mock_base();
    let request = client.email_service.get("mock-id").unwrap();
    assert_eq!(request.method, Method::Get);
    assert_eq!(request.path, "emails/mock-id");
    assert!(request.body.is_none());
    assert!(request.headers.get("Content-Type").is_none());

    let result = client
        .email_service
        .get_outcome(Exchange::Response { status: 200, body });
    let data = match result.unwrap() {
        APIResponse::Success(data) => Some(data),
        _ => None,
    };

    assert_eq!(
        email_details.to_json().to_text().unwrap(),
        data.unwrap().to_json().to_text().unwrap()
    );
}

#[test]
fn email_body_keeps_field_order_and_skips_absent_fields() {
    let mut email = plain_email();
    email.cc = Some(vec!["cc@domain.com".to_string()]);
    email.text = Some("Hello World".to_string());
    email.headers = Some(vec![("X-Entity".to_string(), "7".to_string())]);
    let text = email.to_json().to_text().unwrap();
    assert_eq!(
        text,
        r#"{"subject":"My subject","from":"from@domain.com","to":["to@domain.com"],"cc":["cc@domain.com"],"text":"Hello World","headers":{"X-Entity":"7"}}"#
    );
}

#[test]
fn email_with_null_fields_is_read() {
    let body = r#"{"id":"1","object":"email","from":"a@b.c","to":["d@e.f"],"created_at":"now","subject":"s","html":null,"text":"t","bcc":[null,"x@y.z"],"last_event":"sent","extra":{"deep":[1,2.5,-3]}}"#;
    let client = Client::new("api-key");
    let result = client.email_service.get_outcome(Exchange::Response {
        status: 200,
        body: body.to_string(),
    });
    let email = match result {
        Ok(APIResponse::Success(email)) => email,
        other => panic!("{:?}", other),
    };
    assert_eq!(email.html, None);
    assert_eq!(email.text.as_deref(), Some("t"));
    assert_eq!(email.bcc, Some(vec![None, Some("x@y.z".to_string())]));
    assert_eq!(email.cc, None);
    assert_eq!(email.reply_to, None);
}

#[test]
fn integration_test() {
    // The request that the live round trip sends, against the default address.
    let client = Client::new("re_123");
    let mut email = plain_email();
    email.text = Some("Hello World".to_string());
    let request = client.email_service.send(&email).unwrap();
    assert_eq!(request.base_url.scheme, "https");
    assert_eq!(request.base_url.host, "api.resend.com");
    assert_eq!(request.base_url.port, None);
    assert_eq!(
        request.headers.get("Authorization").map(|v| v.as_str()),
        Some("Bearer re_123")
    );
    assert_eq!(
        request.body.as_deref(),
        Some(
            r#"{"subject":"My subject","from":"from@domain.com","to":["to@domain.com"],"text":"Hello World"}"#
        )
    );
    let result = client.email_service.send_outcome(Exchange::Response {
        status: 200,
        body: r#"{"id":"49a3999c-0ce1-4ea6-ab68-afcd6dc2e794"}"#.to_string(),
    });
    let data = match result.unwrap() {
        APIResponse::Success(data) => Some(data),
        _ => None,
    };
    assert!(data.unwrap().id != "");
}
