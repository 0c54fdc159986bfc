use resend_client_rs::domains::{
    CreateDomainRequest, CreateDomainResponse, DeleteDomainResponse, DnsRecord, DnsRecordType,
    DomainDetails, DomainStatus, DomainSummary, EmailDnsRecord, ListDomainsResponse,
};
use resend_client_rs::json::ToJson;
use resend_client_rs::reqlib::{APIResponse, BaseUrl, Exchange, Method};
use resend_client_rs::Client;

fn mock_client() -> Client {
    let mut client = Client::new("api-key");
    client.domain_service.req_client.base_url = BaseUrl::parse("http://127.0.0.1:1234").unwrap();
    client
}

#[test]
fn create_should_work() {
    let create_domain_response = CreateDomainResponse {
        id: "mock-id".into(),
        created_at: "2023-11-19T10:00:00.000Z".into(),
        name: "domain.com".into(),
        region: "us-east-1".into(),
        status: DomainStatus::Pending,
        dnsProvider: "unknown".into(),
    };
    let body = create_domain_response.to_json().to_text().unwrap();

    let client = mock_client();
    let request = client
        .domain_service
        .create(&CreateDomainRequest {
            name: "domain.com".into(),
            region: None,
        })
        .unwrap();
    assert_eq!(request.method, Method::Post);
    assert_eq!(request.path, "domains");
    assert_eq!(request.body.as_deref(), Some(r#"{"name":"domain.com"}"#));

    let result = client
        .domain_service
        .create_outcome(Exchange::Response { status: 200, body });
    let data = match result.unwrap() {
        APIResponse::Success(data) => Some(data),
        _ => None,
    };
    assert_eq!(
        create_domain_response.to_json().to_text().unwrap(),
        data.unwrap().to_json().to_text().unwrap(),
    );
}

#[test]
fn list_should_work() {
    let list_domains_response = ListDomainsResponse {
        data: vec![DomainSummary {
            id: "d91cd9bd-1176-453e-8fc1-35364d380206".into(),
            name: "example.com".into(),
            status: DomainStatus::NotStarted,
            created_at: "2023-04-26T20:21:26.347412+00:00".into(),
            region: "us-east-1".into(),
        }],
    };
    let body = list_domains_response.to_json().to_text().unwrap();

    let client = mock_client();
    let request = client.domain_service.list().unwrap();
    assert_eq!(request.method, Method::Get);
    assert_eq!(request.path, "domains");

    let result = client
        .domain_service
        .list_outcome(Exchange::Response { status: 200, body });
    let data = match result.unwrap() {
        APIResponse::Success(data) => Some(data),
        _ => None,
    };
    assert_eq!(
        list_domains_response.to_json().to_text().unwrap(),
        data.unwrap().to_json().to_text().unwrap(),
    );
}

#[test]
fn domains_tests_get_should_work() {
    let get_domain_response = DomainDetails {
        object: "domain".into(),
        id: "d91cd9bd-1176-453e-8fc1-35364d380206".into(),
        name: "example.com".into(),
        status: DomainStatus::NotStarted,
        created_at: "2023-04-26T20:21:26.347412+00:00".into(),
        region: "us-east-1".into(),
        records: vec![DnsRecord {
            record: EmailDnsRecord::Spf,
            name: "send".into(),
            record_type: DnsRecordType::Mx,
            ttl: "Auto".into(),
            status: DomainStatus::NotStarted,
            value: "feedback-smtp.us-east-1.amazonses.com".into(),
            priority: Some(10),
        }],
    };
    let body = get_domain_response.to_json().to_text().unwrap();

    let client = mock_client();
    let request = client.domain_service.get("mock-id").unwrap();
    assert_eq!(request.method, Method::Get);
    assert_eq!(request.path, "domains/mock-id");

    let result = client
        .domain_service
        .get_outcome(Exchange::Response { status: 200, body });
    let data = match result.unwrap() {
        APIResponse::Success(data) => Some(data),
        _ => None,
    };
    let data = data.unwrap();
    assert_eq!(data.records.len(), 1);
    assert_eq!(data.records[0].status, DomainStatus::NotStarted);
    assert_eq!(data.records[0].priority, Some(10));
    assert_eq!(
        get_domain_response.to_json().to_text().unwrap(),
        data.to_json().to_text().unwrap(),
    );
}

#[test]
fn delete_should_work() {
    let delete_response = DeleteDomainResponse {
        object: "domain".into(),
        id: "d91cd9bd-1176-453e-8fc1-35364d380206".into(),
        deleted: false,
    };
    let body = delete_response.to_json().to_text().unwrap();

    let client = mock_client();
    let request = client.domain_service.delete("mock-id").unwrap();
    assert_eq!(request.method, Method::Delete);
    assert_eq!(request.path, "domains/mock-id");

    let result = client
        .domain_service
        .delete_outcome(Exchange::Response { status: 200, body });
    let data = match result.unwrap() {
        APIResponse::Success(data) => Some(data),
        _ => None,
    };
    assert_eq!(
        delete_response.to_json().to_text().unwrap(),
        data.unwrap().to_json().to_text().unwrap(),
    );
}

#[test]
fn verify_request_and_outcome() {
    let client = mock_client();
    let request = client.domain_service.verify("mock-id").unwrap();
    assert_eq!(request.method, Method::Post);
    assert_eq!(request.path, "domains/mock-id");
    assert!(request.body.is_none());
    let result = client.domain_service.verify_outcome(Exchange::Response {
        status: 200,
        body: r#"{"object":"domain","id":"mock-id"}"#.to_string(),
    });
    match result {
        Ok(APIResponse::Success(data)) => {
            assert_eq!(data.id, "mock-id");
            assert_eq!(data.object, "domain");
        }
        other => panic!("{:?}", other),
    }
}

#[test]
fn domain_details_wire_form() {
    let body = r#"{"object":"domain","id":"1","name":"example.com","status":"temporary_failure","created_at":"now","region":"us-east-1","records":[{"record":"DKIM","name":"n","type":"CNAME","ttl":"Auto","status":"verified","value":"v"},{"record":"SPF","name":"n","type":"TXT","ttl":"Auto","status":"failed","value":"v","priority":null}]}"#;
    let client = mock_client();
    let result = client.domain_service.get_outcome(Exchange::Response {
        status: 200,
        body: body.to_string(),
    });
    let details = match result {
        Ok(APIResponse::Success(details)) => details,
        other => panic!("{:?}", other),
    };
    assert_eq!(details.status, DomainStatus::TemporaryFailure);
    assert_eq!(details.records.len(), 2);
    assert_eq!(details.records[0].record, EmailDnsRecord::Dkim);
    assert_eq!(details.records[0].record_type, DnsRecordType::Cname);
    assert_eq!(details.records[0].status, DomainStatus::Verified);
    assert_eq!(details.records[0].priority, None);
    assert_eq!(details.records[1].record_type, DnsRecordType::Txt);
    assert_eq!(details.records[1].status, DomainStatus::Failed);
}

#[test]
fn unknown_status_is_a_parse_error() {
    let body = r#"{"id":"1","name":"n","created_at":"c","status":"PENDING","region":"r","dnsProvider":"d"}"#;
    let client = mock_client();
    let result = client.domain_service.create_outcome(Exchange::Response {
        status: 200,
        body: body.to_string(),
    });
    assert!(matches!(result, Err(APIResponse::ParseError(_))));
}

#[test]
fn create_request_with_region() {
    let client = mock_client();
    let request = client
        .domain_service
        .create(&CreateDomainRequest {
            name: "domain.com".into(),
            region: Some("eu-west-1".into()),
        })
        .unwrap();
    assert_eq!(
        request.body.as_deref(),
        Some(r#"{"name":"domain.com","region":"eu-west-1"}"#)
    );
}

#[test]
fn provider_field_keeps_its_spelling() {
    let response = CreateDomainResponse {
        id: "1".into(),
        name: "n".into(),
        created_at: "c".into(),
        status: DomainStatus::Verified,
        region: "r".into(),
        dnsProvider: "d".into(),
    };
    assert_eq!(
        response.to_json().to_text().unwrap(),
        r#"{"id":"1","name":"n","created_at":"c","status":"verified","region":"r","dnsProvider":"d"}"#
    );
}
