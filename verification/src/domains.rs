//! Managing sending domains.

use crate::json::{
    lemma_first_field_at, lemma_value_list_reads_back, no_fields, optional_small, put,
    put_optional, value_list, with_optional, FromJson, Json, JsonView, ToJson,
};
use crate::reqlib::{
    response_view, settled, APIResponse, BuildError, Exchange, Method, ReqClient, Request,
};
use crate::text::{joined, same_text};
use vstd::prelude::*;

verus! {

/// The type of a DNS record.
#[derive(Debug, Clone, Copy, PartialEq, Eq)]
pub enum DnsRecordType {
    Mx,
    Cname,
    Txt,
}

impl DeepView for DnsRecordType {
    type V = DnsRecordType;

    open spec fn deep_view(&self) -> DnsRecordType {
        *self
    }
}

impl DnsRecordType {
    /// The name of the type on the wire.
    pub open spec fn wire(self) -> Seq<char> {
        match self {
            DnsRecordType::Mx => "MX"@,
            DnsRecordType::Cname => "CNAME"@,
            DnsRecordType::Txt => "TXT"@,
        }
    }

    /// The type with the given name on the wire.
    pub open spec fn named(name: Seq<char>) -> Option<DnsRecordType> {
        if name == "MX"@ {
            Some(DnsRecordType::Mx)
        } else if name == "CNAME"@ {
            Some(DnsRecordType::Cname)
        } else if name == "TXT"@ {
            Some(DnsRecordType::Txt)
        } else {
            None
        }
    }
}

impl ToJson for DnsRecordType {
    open spec fn encoded(value: DnsRecordType) -> JsonView {
        JsonView::Str(value.wire())
    }

    fn to_json(&self) -> (json: Json) {
        match self {
            DnsRecordType::Mx => Json::string("MX"),
            DnsRecordType::Cname => Json::string("CNAME"),
            DnsRecordType::Txt => Json::string("TXT"),
        }
    }
}

impl FromJson for DnsRecordType {
    open spec fn decoded(json: JsonView) -> Option<DnsRecordType> {
        match json {
            JsonView::Str(name) => DnsRecordType::named(name),
            _ => None,
        }
    }

    fn from_json(json: &Json) -> (value: Option<DnsRecordType>) {
        match json {
            Json::Str(name) => {
                if same_text(name.as_str(), "MX") {
                    Some(DnsRecordType::Mx)
                } else if same_text(name.as_str(), "CNAME") {
                    Some(DnsRecordType::Cname)
                } else if same_text(name.as_str(), "TXT") {
                    Some(DnsRecordType::Txt)
                } else {
                    None
                }
            },
            _ => None,
        }
    }
}

/// The email mechanism that a DNS record serves.
#[derive(Debug, Clone, Copy, PartialEq, Eq)]
pub enum EmailDnsRecord {
    Spf,
    Dkim,
}

impl DeepView for EmailDnsRecord {
    type V = EmailDnsRecord;

    open spec fn deep_view(&self) -> EmailDnsRecord {
        *self
    }
}

impl EmailDnsRecord {
    /// The name of the mechanism on the wire.
    pub open spec fn wire(self) -> Seq<char> {
        match self {
            EmailDnsRecord::Spf => "SPF"@,
            EmailDnsRecord::Dkim => "DKIM"@,
        }
    }

    /// The mechanism with the given name on the wire.
    pub open spec fn named(name: Seq<char>) -> Option<EmailDnsRecord> {
        if name == "SPF"@ {
            Some(EmailDnsRecord::Spf)
        } else if name == "DKIM"@ {
            Some(EmailDnsRecord::Dkim)
        } else {
            None
        }
    }
}

impl ToJson for EmailDnsRecord {
    open spec fn encoded(value: EmailDnsRecord) -> JsonView {
        JsonView::Str(value.wire())
    }

    fn to_json(&self) -> (json: Json) {
        match self {
            EmailDnsRecord::Spf => Json::string("SPF"),
            EmailDnsRecord::Dkim => Json::string("DKIM"),
        }
    }
}

impl FromJson for EmailDnsRecord {
    open spec fn decoded(json: JsonView) -> Option<EmailDnsRecord> {
        match json {
            JsonView::Str(name) => EmailDnsRecord::named(name),
            _ => None,
        }
    }

    fn from_json(json: &Json) -> (value: Option<EmailDnsRecord>) {
        match json {
            Json::Str(name) => {
                if same_text(name.as_str(), "SPF") {
                    Some(EmailDnsRecord::Spf)
                } else if same_text(name.as_str(), "DKIM") {
                    Some(EmailDnsRecord::Dkim)
                } else {
                    None
                }
            },
            _ => None,
        }
    }
}

/// How far the verification of a domain or a record has come.
#[derive(Debug, Clone, Copy, PartialEq, Eq)]
pub enum DomainStatus {
    Pending,
    Verified,
    Failed,
    TemporaryFailure,
    NotStarted,
}

impl DeepView for DomainStatus {
    type V = DomainStatus;

    open spec fn deep_view(&self) -> DomainStatus {
        *self
    }
}

impl DomainStatus {
    /// The name of the status on the wire.
    pub open spec fn wire(self) -> Seq<char> {
        match self {
            DomainStatus::Pending => "pending"@,
            DomainStatus::Verified => "verified"@,
            DomainStatus::Failed => "failed"@,
            DomainStatus::TemporaryFailure => "temporary_failure"@,
            DomainStatus::NotStarted => "not_started"@,
        }
    }

    /// The status with the given name on the wire.
    pub open spec fn named(name: Seq<char>) -> Option<DomainStatus> {
        if name == "pending"@ {
            Some(DomainStatus::Pending)
        } else if name == "verified"@ {
            Some(DomainStatus::Verified)
        } else if name == "failed"@ {
            Some(DomainStatus::Failed)
        } else if name == "temporary_failure"@ {
            Some(DomainStatus::TemporaryFailure)
        } else if name == "not_started"@ {
            Some(DomainStatus::NotStarted)
        } else {
            None
        }
    }
}

impl ToJson for DomainStatus {
    open spec fn encoded(value: DomainStatus) -> JsonView {
        JsonView::Str(value.wire())
    }

    fn to_json(&self) -> (json: Json) {
        match self {
            DomainStatus::Pending => Json::string("pending"),
            DomainStatus::Verified => Json::string("verified"),
            DomainStatus::Failed => Json::string("failed"),
            DomainStatus::TemporaryFailure => Json::string("temporary_failure"),
            DomainStatus::NotStarted => Json::string("not_started"),
        }
    }
}

impl FromJson for DomainStatus {
    open spec fn decoded(json: JsonView) -> Option<DomainStatus> {
        match json {
            JsonView::Str(name) => DomainStatus::named(name),
            _ => None,
        }
    }

    fn from_json(json: &Json) -> (value: Option<DomainStatus>) {
        match json {
            Json::Str(name) => {
                if same_text(name.as_str(), "pending") {
                    Some(DomainStatus::Pending)
                } else if same_text(name.as_str(), "verified") {
                    Some(DomainStatus::Verified)
                } else if same_text(name.as_str(), "failed") {
                    Some(DomainStatus::Failed)
                } else if same_text(name.as_str(), "temporary_failure") {
                    Some(DomainStatus::TemporaryFailure)
                } else if same_text(name.as_str(), "not_started") {
                    Some(DomainStatus::NotStarted)
                } else {
                    None
                }
            },
            _ => None,
        }
    }
}

/// A domain to register.
#[derive(Debug, Clone)]
pub struct CreateDomainRequest {
    pub name: String,
    pub region: Option<String>,
}

/// The mathematical value of a [`CreateDomainRequest`].
pub struct CreateDomainRequestView {
    pub name: Seq<char>,
    pub region: Option<Seq<char>>,
}

impl DeepView for CreateDomainRequest {
    type V = CreateDomainRequestView;

    open spec fn deep_view(&self) -> CreateDomainRequestView {
        CreateDomainRequestView {
            name: self.name@,
            region: self.region.deep_view(),
        }
    }
}

impl ToJson for CreateDomainRequest {
    /// An object with `name`, followed by `region` if there is one.
    open spec fn encoded(value: CreateDomainRequestView) -> JsonView {
        JsonView::Object(
            with_optional(
                Seq::empty().push(("name"@, JsonView::Str(value.name))),
                "region"@,
                match value.region {
                    Some(text) => Some(JsonView::Str(text)),
                    None => None,
                },
            ),
        )
    }

    fn to_json(&self) -> (json: Json) {
        let mut fields = no_fields();
        put(&mut fields, "name", Json::Str(self.name.clone()));
        let region = match &self.region {
            Some(text) => Some(Json::Str(text.clone())),
            None => None,
        };
        put_optional(&mut fields, "region", region);
        Json::object(fields)
    }
}

/// A DNS record that a domain needs.
#[derive(Debug, Clone)]
pub struct DnsRecord {
    pub record: EmailDnsRecord,
    pub record_type: DnsRecordType,
    pub name: String,
    pub ttl: String,
    pub status: DomainStatus,
    pub value: String,
    pub priority: Option<u16>,
}

/// The mathematical value of a [`DnsRecord`].
pub struct DnsRecordView {
    pub record: EmailDnsRecord,
    pub record_type: DnsRecordType,
    pub name: Seq<char>,
    pub ttl: Seq<char>,
    pub status: DomainStatus,
    pub value: Seq<char>,
    pub priority: Option<u16>,
}

impl DeepView for DnsRecord {
    type V = DnsRecordView;

    open spec fn deep_view(&self) -> DnsRecordView {
        DnsRecordView {
            record: self.record,
            record_type: self.record_type,
            name: self.name@,
            ttl: self.ttl@,
            status: self.status,
            value: self.value@,
            priority: self.priority,
        }
    }
}

impl ToJson for DnsRecord {
    open spec fn encoded(value: DnsRecordView) -> JsonView {
        JsonView::Object(
            Seq::empty()
                .push(("record"@, JsonView::Str(value.record.wire())))
                .push(("type"@, JsonView::Str(value.record_type.wire())))
                .push(("name"@, JsonView::Str(value.name)))
                .push(("ttl"@, JsonView::Str(value.ttl)))
                .push(("status"@, JsonView::Str(value.status.wire())))
                .push(("value"@, JsonView::Str(value.value)))
                .push(("priority"@, optional_small(value.priority))),
        )
    }

    fn to_json(&self) -> (json: Json) {
        let mut fields = no_fields();
        put(&mut fields, "record", self.record.to_json());
        put(&mut fields, "type", self.record_type.to_json());
        put(&mut fields, "name", Json::Str(self.name.clone()));
        put(&mut fields, "ttl", Json::Str(self.ttl.clone()));
        put(&mut fields, "status", self.status.to_json());
        put(&mut fields, "value", Json::Str(self.value.clone()));
        put(&mut fields, "priority", Json::optional_small(self.priority));
        Json::object(fields)
    }
}

impl FromJson for DnsRecord {
    /// An object with `record`, `type`, `name`, `ttl`, `status` and `value`,
    /// and `priority`, which may be absent or `null`.
    open spec fn decoded(json: JsonView) -> Option<DnsRecordView> {
        if json.value_at::<EmailDnsRecord>("record"@) is Some
            && json.value_at::<DnsRecordType>("type"@) is Some
            && json.text_at("name"@) is Some
            && json.text_at("ttl"@) is Some
            && json.value_at::<DomainStatus>("status"@) is Some
            && json.text_at("value"@) is Some
            && json.optional_small_at("priority"@) is Some {
            Some(
                DnsRecordView {
                    record: json.value_at::<EmailDnsRecord>("record"@)->0,
                    record_type: json.value_at::<DnsRecordType>("type"@)->0,
                    name: json.text_at("name"@)->0,
                    ttl: json.text_at("ttl"@)->0,
                    status: json.value_at::<DomainStatus>("status"@)->0,
                    value: json.text_at("value"@)->0,
                    priority: json.optional_small_at("priority"@)->0,
                },
            )
        } else {
            None
        }
    }

    fn from_json(json: &Json) -> (value: Option<DnsRecord>) {
        let record = match json.value_at::<EmailDnsRecord>("record") {
            Some(record) => record,
            None => { return None; },
        };
        let record_type = match json.value_at::<DnsRecordType>("type") {
            Some(record_type) => record_type,
            None => { return None; },
        };
        let name = match json.text_at("name") {
            Some(name) => name,
            None => { return None; },
        };
        let ttl = match json.text_at("ttl") {
            Some(ttl) => ttl,
            None => { return None; },
        };
        let status = match json.value_at::<DomainStatus>("status") {
            Some(status) => status,
            None => { return None; },
        };
        let value = match json.text_at("value") {
            Some(value) => value,
            None => { return None; },
        };
        let priority = match json.optional_small_at("priority") {
            Some(priority) => priority,
            None => { return None; },
        };
        Some(DnsRecord { record, record_type, name, ttl, status, value, priority })
    }
}

/// What the API answers when a domain was registered.
#[derive(Debug, Clone)]
#[allow(non_snake_case)]
pub struct CreateDomainResponse {
    pub id: String,
    pub name: String,
    pub created_at: String,
    pub status: DomainStatus,
    pub region: String,
    pub dnsProvider: String,
}

/// The mathematical value of a [`CreateDomainResponse`].
#[allow(non_snake_case)]
pub struct CreateDomainResponseView {
    pub id: Seq<char>,
    pub name: Seq<char>,
    pub created_at: Seq<char>,
    pub status: DomainStatus,
    pub region: Seq<char>,
    pub dnsProvider: Seq<char>,
}

impl DeepView for CreateDomainResponse {
    type V = CreateDomainResponseView;

    open spec fn deep_view(&self) -> CreateDomainResponseView {
        CreateDomainResponseView {
            id: self.id@,
            name: self.name@,
            created_at: self.created_at@,
            status: self.status,
            region: self.region@,
            dnsProvider: self.dnsProvider@,
        }
    }
}

impl ToJson for CreateDomainResponse {
    open spec fn encoded(value: CreateDomainResponseView) -> JsonView {
        JsonView::Object(
            Seq::empty()
                .push(("id"@, JsonView::Str(value.id)))
                .push(("name"@, JsonView::Str(value.name)))
                .push(("created_at"@, JsonView::Str(value.created_at)))
                .push(("status"@, JsonView::Str(value.status.wire())))
                .push(("region"@, JsonView::Str(value.region)))
                .push(("dnsProvider"@, JsonView::Str(value.dnsProvider))),
        )
    }

    fn to_json(&self) -> (json: Json) {
        let mut fields = no_fields();
        put(&mut fields, "id", Json::Str(self.id.clone()));
        put(&mut fields, "name", Json::Str(self.name.clone()));
        put(&mut fields, "created_at", Json::Str(self.created_at.clone()));
        put(&mut fields, "status", self.status.to_json());
        put(&mut fields, "region", Json::Str(self.region.clone()));
        put(&mut fields, "dnsProvider", Json::Str(self.dnsProvider.clone()));
        Json::object(fields)
    }
}

impl FromJson for CreateDomainResponse {
    /// An object with `id`, `name`, `created_at`, `status`, `region` and
    /// `dnsProvider`, the last one spelled so on the wire.
    open spec fn decoded(json: JsonView) -> Option<CreateDomainResponseView> {
        if json.text_at("id"@) is Some
            && json.text_at("name"@) is Some
            && json.text_at("created_at"@) is Some
            && json.value_at::<DomainStatus>("status"@) is Some
            && json.text_at("region"@) is Some
            && json.text_at("dnsProvider"@) is Some {
            Some(
                CreateDomainResponseView {
                    id: json.text_at("id"@)->0,
                    name: json.text_at("name"@)->0,
                    created_at: json.text_at("created_at"@)->0,
                    status: json.value_at::<DomainStatus>("status"@)->0,
                    region: json.text_at("region"@)->0,
                    dnsProvider: json.text_at("dnsProvider"@)->0,
                },
            )
        } else {
            None
        }
    }

    fn from_json(json: &Json) -> (value: Option<CreateDomainResponse>) {
        let id = match json.text_at("id") {
            Some(id) => id,
            None => { return None; },
        };
        let name = match json.text_at("name") {
            Some(name) => name,
            None => { return None; },
        };
        let created_at = match json.text_at("created_at") {
            Some(created_at) => created_at,
            None => { return None; },
        };
        let status = match json.value_at::<DomainStatus>("status") {
            Some(status) => status,
            None => { return None; },
        };
        let region = match json.text_at("region") {
            Some(region) => region,
            None => { return None; },
        };
        let dnsProvider = match json.text_at("dnsProvider") {
            Some(dnsProvider) => dnsProvider,
            None => { return None; },
        };
        Some(CreateDomainResponse { id, name, created_at, status, region, dnsProvider })
    }
}

/// A domain with its DNS records.
#[derive(Debug, Clone)]
pub struct DomainDetails {
    pub id: String,
    pub object: String,
    pub name: String,
    pub created_at: String,
    pub status: DomainStatus,
    pub region: String,
    pub records: Vec<DnsRecord>,
}

/// The mathematical value of a [`DomainDetails`].
pub struct DomainDetailsView {
    pub id: Seq<char>,
    pub object: Seq<char>,
    pub name: Seq<char>,
    pub created_at: Seq<char>,
    pub status: DomainStatus,
    pub region: Seq<char>,
    pub records: Seq<DnsRecordView>,
}

impl DeepView for DomainDetails {
    type V = DomainDetailsView;

    open spec fn deep_view(&self) -> DomainDetailsView {
        DomainDetailsView {
            id: self.id@,
            object: self.object@,
            name: self.name@,
            created_at: self.created_at@,
            status: self.status,
            region: self.region@,
            records: self.records.deep_view(),
        }
    }
}

impl ToJson for DomainDetails {
    open spec fn encoded(value: DomainDetailsView) -> JsonView {
        JsonView::Object(
            Seq::empty()
                .push(("id"@, JsonView::Str(value.id)))
                .push(("object"@, JsonView::Str(value.object)))
                .push(("name"@, JsonView::Str(value.name)))
                .push(("created_at"@, JsonView::Str(value.created_at)))
                .push(("status"@, JsonView::Str(value.status.wire())))
                .push(("region"@, JsonView::Str(value.region)))
                .push(("records"@, value_list::<DnsRecord>(value.records))),
        )
    }

    fn to_json(&self) -> (json: Json) {
        let mut fields = no_fields();
        put(&mut fields, "id", Json::Str(self.id.clone()));
        put(&mut fields, "object", Json::Str(self.object.clone()));
        put(&mut fields, "name", Json::Str(self.name.clone()));
        put(&mut fields, "created_at", Json::Str(self.created_at.clone()));
        put(&mut fields, "status", self.status.to_json());
        put(&mut fields, "region", Json::Str(self.region.clone()));
        put(&mut fields, "records", Json::value_list(&self.records));
        Json::object(fields)
    }
}

impl FromJson for DomainDetails {
    open spec fn decoded(json: JsonView) -> Option<DomainDetailsView> {
        if json.text_at("id"@) is Some
            && json.text_at("object"@) is Some
            && json.text_at("name"@) is Some
            && json.text_at("created_at"@) is Some
            && json.value_at::<DomainStatus>("status"@) is Some
            && json.text_at("region"@) is Some
            && json.values_at::<DnsRecord>("records"@) is Some {
            Some(
                DomainDetailsView {
                    id: json.text_at("id"@)->0,
                    object: json.text_at("object"@)->0,
                    name: json.text_at("name"@)->0,
                    created_at: json.text_at("created_at"@)->0,
                    status: json.value_at::<DomainStatus>("status"@)->0,
                    region: json.text_at("region"@)->0,
                    records: json.values_at::<DnsRecord>("records"@)->0,
                },
            )
        } else {
            None
        }
    }

    fn from_json(json: &Json) -> (value: Option<DomainDetails>) {
        let id = match json.text_at("id") {
            Some(id) => id,
            None => { return None; },
        };
        let object = match json.text_at("object") {
            Some(object) => object,
            None => { return None; },
        };
        let name = match json.text_at("name") {
            Some(name) => name,
            None => { return None; },
        };
        let created_at = match json.text_at("created_at") {
            Some(created_at) => created_at,
            None => { return None; },
        };
        let status = match json.value_at::<DomainStatus>("status") {
            Some(status) => status,
            None => { return None; },
        };
        let region = match json.text_at("region") {
            Some(region) => region,
            None => { return None; },
        };
        let records = match json.values_at::<DnsRecord>("records") {
            Some(records) => records,
            None => { return None; },
        };
        Some(DomainDetails { id, object, name, created_at, status, region, records })
    }
}

/// A domain as it stands in a list.
#[derive(Debug, Clone)]
pub struct DomainSummary {
    pub id: String,
    pub name: String,
    pub created_at: String,
    pub status: DomainStatus,
    pub region: String,
}

/// The mathematical value of a [`DomainSummary`].
pub struct DomainSummaryView {
    pub id: Seq<char>,
    pub name: Seq<char>,
    pub created_at: Seq<char>,
    pub status: DomainStatus,
    pub region: Seq<char>,
}

impl DeepView for DomainSummary {
    type V = DomainSummaryView;

    open spec fn deep_view(&self) -> DomainSummaryView {
        DomainSummaryView {
            id: self.id@,
            name: self.name@,
            created_at: self.created_at@,
            status: self.status,
            region: self.region@,
        }
    }
}

impl ToJson for DomainSummary {
    open spec fn encoded(value: DomainSummaryView) -> JsonView {
        JsonView::Object(
            Seq::empty()
                .push(("id"@, JsonView::Str(value.id)))
                .push(("name"@, JsonView::Str(value.name)))
                .push(("created_at"@, JsonView::Str(value.created_at)))
                .push(("status"@, JsonView::Str(value.status.wire())))
                .push(("region"@, JsonView::Str(value.region))),
        )
    }

    fn to_json(&self) -> (json: Json) {
        let mut fields = no_fields();
        put(&mut fields, "id", Json::Str(self.id.clone()));
        put(&mut fields, "name", Json::Str(self.name.clone()));
        put(&mut fields, "created_at", Json::Str(self.created_at.clone()));
        put(&mut fields, "status", self.status.to_json());
        put(&mut fields, "region", Json::Str(self.region.clone()));
        Json::object(fields)
    }
}

impl FromJson for DomainSummary {
    open spec fn decoded(json: JsonView) -> Option<DomainSummaryView> {
        if json.text_at("id"@) is Some
            && json.text_at("name"@) is Some
            && json.text_at("created_at"@) is Some
            && json.value_at::<DomainStatus>("status"@) is Some
            && json.text_at("region"@) is Some {
            Some(
                DomainSummaryView {
                    id: json.text_at("id"@)->0,
                    name: json.text_at("name"@)->0,
                    created_at: json.text_at("created_at"@)->0,
                    status: json.value_at::<DomainStatus>("status"@)->0,
                    region: json.text_at("region"@)->0,
                },
            )
        } else {
            None
        }
    }

    fn from_json(json: &Json) -> (value: Option<DomainSummary>) {
        let id = match json.text_at("id") {
            Some(id) => id,
            None => { return None; },
        };
        let name = match json.text_at("name") {
            Some(name) => name,
            None => { return None; },
        };
        let created_at = match json.text_at("created_at") {
            Some(created_at) => created_at,
            None => { return None; },
        };
        let status = match json.value_at::<DomainStatus>("status") {
            Some(status) => status,
            None => { return None; },
        };
        let region = match json.text_at("region") {
            Some(region) => region,
            None => { return None; },
        };
        Some(DomainSummary { id, name, created_at, status, region })
    }
}

/// The domains of the account.
#[derive(Debug, Clone)]
pub struct ListDomainsResponse {
    pub data: Vec<DomainSummary>,
}

/// The mathematical value of a [`ListDomainsResponse`].
pub struct ListDomainsResponseView {
    pub data: Seq<DomainSummaryView>,
}

impl DeepView for ListDomainsResponse {
    type V = ListDomainsResponseView;

    open spec fn deep_view(&self) -> ListDomainsResponseView {
        ListDomainsResponseView {
            data: self.data.deep_view(),
        }
    }
}

impl ToJson for ListDomainsResponse {
    open spec fn encoded(value: ListDomainsResponseView) -> JsonView {
        JsonView::Object(
            Seq::empty().push(("data"@, value_list::<DomainSummary>(value.data))),
        )
    }

    fn to_json(&self) -> (json: Json) {
        let mut fields = no_fields();
        put(&mut fields, "data", Json::value_list(&self.data));
        Json::object(fields)
    }
}

impl FromJson for ListDomainsResponse {
    open spec fn decoded(json: JsonView) -> Option<ListDomainsResponseView> {
        if json.values_at::<DomainSummary>("data"@) is Some {
            Some(
                ListDomainsResponseView {
                    data: json.values_at::<DomainSummary>("data"@)->0,
                },
            )
        } else {
            None
        }
    }

    fn from_json(json: &Json) -> (value: Option<ListDomainsResponse>) {
        let data = match json.values_at::<DomainSummary>("data") {
            Some(data) => data,
            None => { return None; },
        };
        Some(ListDomainsResponse { data })
    }
}

/// What the API answers when the verification of a domain was started.
#[derive(Debug, Clone)]
pub struct VerifyDomainResponse {
    pub id: String,
    pub object: String,
}

/// The mathematical value of a [`VerifyDomainResponse`].
pub struct VerifyDomainResponseView {
    pub id: Seq<char>,
    pub object: Seq<char>,
}

impl DeepView for VerifyDomainResponse {
    type V = VerifyDomainResponseView;

    open spec fn deep_view(&self) -> VerifyDomainResponseView {
        VerifyDomainResponseView {
            id: self.id@,
            object: self.object@,
        }
    }
}

impl ToJson for VerifyDomainResponse {
    open spec fn encoded(value: VerifyDomainResponseView) -> JsonView {
        JsonView::Object(
            Seq::empty()
                .push(("id"@, JsonView::Str(value.id)))
                .push(("object"@, JsonView::Str(value.object))),
        )
    }

    fn to_json(&self) -> (json: Json) {
        let mut fields = no_fields();
        put(&mut fields, "id", Json::Str(self.id.clone()));
        put(&mut fields, "object", Json::Str(self.object.clone()));
        Json::object(fields)
    }
}

impl FromJson for VerifyDomainResponse {
    open spec fn decoded(json: JsonView) -> Option<VerifyDomainResponseView> {
        if json.text_at("id"@) is Some && json.text_at("object"@) is Some {
            Some(
                VerifyDomainResponseView {
                    id: json.text_at("id"@)->0,
                    object: json.text_at("object"@)->0,
                },
            )
        } else {
            None
        }
    }

    fn from_json(json: &Json) -> (value: Option<VerifyDomainResponse>) {
        let id = match json.text_at("id") {
            Some(id) => id,
            None => { return None; },
        };
        let object = match json.text_at("object") {
            Some(object) => object,
            None => { return None; },
        };
        Some(VerifyDomainResponse { id, object })
    }
}

/// What the API answers when a domain was deleted.
#[derive(Debug, Clone)]
pub struct DeleteDomainResponse {
    pub id: String,
    pub object: String,
    pub deleted: bool,
}

/// The mathematical value of a [`DeleteDomainResponse`].
pub struct DeleteDomainResponseView {
    pub id: Seq<char>,
    pub object: Seq<char>,
    pub deleted: bool,
}

impl DeepView for DeleteDomainResponse {
    type V = DeleteDomainResponseView;

    open spec fn deep_view(&self) -> DeleteDomainResponseView {
        DeleteDomainResponseView {
            id: self.id@,
            object: self.object@,
            deleted: self.deleted,
        }
    }
}

impl ToJson for DeleteDomainResponse {
    open spec fn encoded(value: DeleteDomainResponseView) -> JsonView {
        JsonView::Object(
            Seq::empty()
                .push(("id"@, JsonView::Str(value.id)))
                .push(("object"@, JsonView::Str(value.object)))
                .push(("deleted"@, JsonView::Bool(value.deleted))),
        )
    }

    fn to_json(&self) -> (json: Json) {
        let mut fields = no_fields();
        put(&mut fields, "id", Json::Str(self.id.clone()));
        put(&mut fields, "object", Json::Str(self.object.clone()));
        put(&mut fields, "deleted", Json::Bool(self.deleted));
        Json::object(fields)
    }
}

impl FromJson for DeleteDomainResponse {
    open spec fn decoded(json: JsonView) -> Option<DeleteDomainResponseView> {
        if json.text_at("id"@) is Some
            && json.text_at("object"@) is Some
            && json.flag_at("deleted"@) is Some {
            Some(
                DeleteDomainResponseView {
                    id: json.text_at("id"@)->0,
                    object: json.text_at("object"@)->0,
                    deleted: json.flag_at("deleted"@)->0,
                },
            )
        } else {
            None
        }
    }

    fn from_json(json: &Json) -> (value: Option<DeleteDomainResponse>) {
        let id = match json.text_at("id") {
            Some(id) => id,
            None => { return None; },
        };
        let object = match json.text_at("object") {
            Some(object) => object,
            None => { return None; },
        };
        let deleted = match json.flag_at("deleted") {
            Some(deleted) => deleted,
            None => { return None; },
        };
        Some(DeleteDomainResponse { id, object, deleted })
    }
}

/// The domain operations of the API.
#[derive(Debug)]
pub struct DomainService {
    pub req_client: ReqClient,
}

impl DomainService {
    /// The service that sends its requests as `req_client` says.
    pub fn new(req_client: ReqClient) -> (service: DomainService)
        ensures
            service.req_client == req_client,
    {
        DomainService { req_client }
    }

    /// The request that registers the domain `params`: a `POST` on
    /// `domains` with the JSON form of `params` as its body.
    pub fn create(&self, params: &CreateDomainRequest) -> (built: Result<Request, BuildError>)
        ensures
            self.req_client@.builds(
                Method::Post,
                "domains"@,
                Some(CreateDomainRequest::encoded(params.deep_view())),
                built,
            ),
    {
        self.req_client.new_body_request(Method::Post, "domains", Some(params))
    }

    /// The outcome of registering a domain, from what the transport reports.
    pub fn create_outcome(&self, exchange: Exchange) -> (result: Result<
        APIResponse<CreateDomainResponse>,
        APIResponse<CreateDomainResponse>,
    >)
        ensures
            response_view(result) == settled::<CreateDomainResponse>(exchange@),
            result is Ok <==> response_view(result) is Success,
    {
        self.req_client.exec(exchange)
    }

    /// The request that starts the verification of the domain `domain_id`: a `POST` on
    /// `domains/` followed by the identifier.
    pub fn verify(&self, domain_id: &str) -> (built: Result<Request, BuildError>)
        ensures
            self.req_client@.builds(Method::Post, "domains/"@ + domain_id@, None, built),
    {
        let path = joined("domains/", domain_id);
        self.req_client.new_request(Method::Post, path.as_str())
    }

    /// The outcome of starting a verification, from what the transport reports.
    pub fn verify_outcome(&self, exchange: Exchange) -> (result: Result<
        APIResponse<VerifyDomainResponse>,
        APIResponse<VerifyDomainResponse>,
    >)
        ensures
            response_view(result) == settled::<VerifyDomainResponse>(exchange@),
            result is Ok <==> response_view(result) is Success,
    {
        self.req_client.exec(exchange)
    }

    /// The request that retrieves the domain `domain_id`: a `GET` on
    /// `domains/` followed by the identifier.
    pub fn get(&self, domain_id: &str) -> (built: Result<Request, BuildError>)
        ensures
            self.req_client@.builds(Method::Get, "domains/"@ + domain_id@, None, built),
    {
        let path = joined("domains/", domain_id);
        self.req_client.new_request(Method::Get, path.as_str())
    }

    /// The outcome of retrieving a domain, from what the transport reports.
    pub fn get_outcome(&self, exchange: Exchange) -> (result: Result<
        APIResponse<DomainDetails>,
        APIResponse<DomainDetails>,
    >)
        ensures
            response_view(result) == settled::<DomainDetails>(exchange@),
            result is Ok <==> response_view(result) is Success,
    {
        self.req_client.exec(exchange)
    }

    /// The request that lists the domains: a `GET` on `domains`.
    pub fn list(&self) -> (built: Result<Request, BuildError>)
        ensures
            self.req_client@.builds(Method::Get, "domains"@, None, built),
    {
        self.req_client.new_request(Method::Get, "domains")
    }

    /// The outcome of listing the domains, from what the transport reports.
    pub fn list_outcome(&self, exchange: Exchange) -> (result: Result<
        APIResponse<ListDomainsResponse>,
        APIResponse<ListDomainsResponse>,
    >)
        ensures
            response_view(result) == settled::<ListDomainsResponse>(exchange@),
            result is Ok <==> response_view(result) is Success,
    {
        self.req_client.exec(exchange)
    }

    /// The request that deletes the domain `domain_id`: a `DELETE` on
    /// `domains/` followed by the identifier.
    pub fn delete(&self, domain_id: &str) -> (built: Result<Request, BuildError>)
        ensures
            self.req_client@.builds(Method::Delete, "domains/"@ + domain_id@, None, built),
    {
        let path = joined("domains/", domain_id);
        self.req_client.new_request(Method::Delete, path.as_str())
    }

    /// The outcome of deleting a domain, from what the transport reports.
    pub fn delete_outcome(&self, exchange: Exchange) -> (result: Result<
        APIResponse<DeleteDomainResponse>,
        APIResponse<DeleteDomainResponse>,
    >)
        ensures
            response_view(result) == settled::<DeleteDomainResponse>(exchange@),
            result is Ok <==> response_view(result) is Success,
    {
        self.req_client.exec(exchange)
    }
}

/// Reading the wire name of a record type gives the type back.
pub proof fn law_dns_record_type_reads_back(value: DnsRecordType)
    ensures
        DnsRecordType::named(value.wire()) == Some(value),
        <DnsRecordType as FromJson>::decoded(
            <DnsRecordType as ToJson>::encoded(value),
        ) == Some(value),
{
    reveal_strlit("MX");
    reveal_strlit("CNAME");
    reveal_strlit("TXT");
    assert("MX"@.len() != "CNAME"@.len());
    assert("MX"@.len() != "TXT"@.len());
    assert("CNAME"@.len() != "TXT"@.len());
}

/// Reading the wire name of a email mechanism gives the mechanism back.
pub proof fn law_email_dns_record_reads_back(value: EmailDnsRecord)
    ensures
        EmailDnsRecord::named(value.wire()) == Some(value),
        <EmailDnsRecord as FromJson>::decoded(
            <EmailDnsRecord as ToJson>::encoded(value),
        ) == Some(value),
{
    reveal_strlit("SPF");
    reveal_strlit("DKIM");
    assert("SPF"@.len() != "DKIM"@.len());
}

/// Reading the wire name of a domain status gives the status back.
pub proof fn law_domain_status_reads_back(value: DomainStatus)
    ensures
        DomainStatus::named(value.wire()) == Some(value),
        <DomainStatus as FromJson>::decoded(
            <DomainStatus as ToJson>::encoded(value),
        ) == Some(value),
{
    reveal_strlit("pending");
    reveal_strlit("verified");
    reveal_strlit("failed");
    reveal_strlit("temporary_failure");
    reveal_strlit("not_started");
    assert("pending"@.len() != "verified"@.len());
    assert("pending"@.len() != "failed"@.len());
    assert("pending"@.len() != "temporary_failure"@.len());
    assert("pending"@.len() != "not_started"@.len());
    assert("verified"@.len() != "failed"@.len());
    assert("verified"@.len() != "temporary_failure"@.len());
    assert("verified"@.len() != "not_started"@.len());
    assert("failed"@.len() != "temporary_failure"@.len());
    assert("failed"@.len() != "not_started"@.len());
    assert("temporary_failure"@.len() != "not_started"@.len());
}

/// Reading the JSON form of a [`DnsRecord`] gives the value back.
pub proof fn law_dns_record_reads_back(value: DnsRecordView)
    ensures
        <DnsRecord as FromJson>::decoded(<DnsRecord as ToJson>::encoded(value)) == Some(value),
{
    reveal_strlit("record");
    reveal_strlit("type");
    reveal_strlit("name");
    reveal_strlit("ttl");
    reveal_strlit("status");
    reveal_strlit("value");
    reveal_strlit("priority");
    assert("record"@[0] != "status"@[0]);
    assert("type"@[0] != "name"@[0]);
    let json = DnsRecord::encoded(value);
    let fields = json->Object_0;
    assert(fields.len() == 7);
    assert(fields[0].0 == "record"@);
    assert(fields[1].0 == "type"@);
    assert(fields[2].0 == "name"@);
    assert(fields[3].0 == "ttl"@);
    assert(fields[4].0 == "status"@);
    assert(fields[5].0 == "value"@);
    assert(fields[6].0 == "priority"@);
    lemma_first_field_at(fields, 0);
    lemma_first_field_at(fields, 1);
    lemma_first_field_at(fields, 2);
    lemma_first_field_at(fields, 3);
    lemma_first_field_at(fields, 4);
    lemma_first_field_at(fields, 5);
    lemma_first_field_at(fields, 6);
    law_email_dns_record_reads_back(value.record);
    law_dns_record_type_reads_back(value.record_type);
    law_domain_status_reads_back(value.status);
}

/// Reading the JSON form of a [`CreateDomainResponse`] gives the value back.
pub proof fn law_create_domain_response_reads_back(value: CreateDomainResponseView)
    ensures
        <CreateDomainResponse as FromJson>::decoded(
            <CreateDomainResponse as ToJson>::encoded(value),
        ) == Some(value),
{
    reveal_strlit("id");
    reveal_strlit("name");
    reveal_strlit("created_at");
    reveal_strlit("status");
    reveal_strlit("region");
    reveal_strlit("dnsProvider");
    assert("status"@[0] != "region"@[0]);
    let json = CreateDomainResponse::encoded(value);
    let fields = json->Object_0;
    assert(fields.len() == 6);
    assert(fields[0].0 == "id"@);
    assert(fields[1].0 == "name"@);
    assert(fields[2].0 == "created_at"@);
    assert(fields[3].0 == "status"@);
    assert(fields[4].0 == "region"@);
    assert(fields[5].0 == "dnsProvider"@);
    lemma_first_field_at(fields, 0);
    lemma_first_field_at(fields, 1);
    lemma_first_field_at(fields, 2);
    lemma_first_field_at(fields, 3);
    lemma_first_field_at(fields, 4);
    lemma_first_field_at(fields, 5);
    law_domain_status_reads_back(value.status);
}

/// Reading the JSON form of a [`DomainDetails`] gives the value back.
pub proof fn law_domain_details_reads_back(value: DomainDetailsView)
    ensures
        <DomainDetails as FromJson>::decoded(
            <DomainDetails as ToJson>::encoded(value),
        ) == Some(value),
{
    reveal_strlit("id");
    reveal_strlit("object");
    reveal_strlit("name");
    reveal_strlit("created_at");
    reveal_strlit("status");
    reveal_strlit("region");
    reveal_strlit("records");
    assert("object"@[0] != "status"@[0]);
    assert("object"@[0] != "region"@[0]);
    assert("status"@[0] != "region"@[0]);
    let json = DomainDetails::encoded(value);
    let fields = json->Object_0;
    assert(fields.len() == 7);
    assert(fields[0].0 == "id"@);
    assert(fields[1].0 == "object"@);
    assert(fields[2].0 == "name"@);
    assert(fields[3].0 == "created_at"@);
    assert(fields[4].0 == "status"@);
    assert(fields[5].0 == "region"@);
    assert(fields[6].0 == "records"@);
    lemma_first_field_at(fields, 0);
    lemma_first_field_at(fields, 1);
    lemma_first_field_at(fields, 2);
    lemma_first_field_at(fields, 3);
    lemma_first_field_at(fields, 4);
    lemma_first_field_at(fields, 5);
    lemma_first_field_at(fields, 6);
    law_domain_status_reads_back(value.status);
    assert forall|i: int| 0 <= i < value.records.len() implies <DnsRecord as FromJson>::decoded(
        <DnsRecord as ToJson>::encoded(#[trigger] value.records[i]),
    ) == Some(value.records[i]) by {
        law_dns_record_reads_back(value.records[i]);
    }
    lemma_value_list_reads_back::<DnsRecord>(value.records);
}

/// Reading the JSON form of a [`DomainSummary`] gives the value back.
pub proof fn law_domain_summary_reads_back(value: DomainSummaryView)
    ensures
        <DomainSummary as FromJson>::decoded(
            <DomainSummary as ToJson>::encoded(value),
        ) == Some(value),
{
    reveal_strlit("id");
    reveal_strlit("name");
    reveal_strlit("created_at");
    reveal_strlit("status");
    reveal_strlit("region");
    assert("status"@[0] != "region"@[0]);
    let json = DomainSummary::encoded(value);
    let fields = json->Object_0;
    assert(fields.len() == 5);
    assert(fields[0].0 == "id"@);
    assert(fields[1].0 == "name"@);
    assert(fields[2].0 == "created_at"@);
    assert(fields[3].0 == "status"@);
    assert(fields[4].0 == "region"@);
    lemma_first_field_at(fields, 0);
    lemma_first_field_at(fields, 1);
    lemma_first_field_at(fields, 2);
    lemma_first_field_at(fields, 3);
    lemma_first_field_at(fields, 4);
    law_domain_status_reads_back(value.status);
}

/// Reading the JSON form of a [`ListDomainsResponse`] gives the value back.
pub proof fn law_list_domains_response_reads_back(value: ListDomainsResponseView)
    ensures
        <ListDomainsResponse as FromJson>::decoded(
            <ListDomainsResponse as ToJson>::encoded(value),
        ) == Some(value),
{
    reveal_strlit("data");
    let json = ListDomainsResponse::encoded(value);
    let fields = json->Object_0;
    assert(fields.len() == 1);
    assert(fields[0].0 == "data"@);
    lemma_first_field_at(fields, 0);
    assert forall|i: int| 0 <= i < value.data.len() implies <DomainSummary as FromJson>::decoded(
        <DomainSummary as ToJson>::encoded(#[trigger] value.data[i]),
    ) == Some(value.data[i]) by {
        law_domain_summary_reads_back(value.data[i]);
    }
    lemma_value_list_reads_back::<DomainSummary>(value.data);
}

/// Reading the JSON form of a [`VerifyDomainResponse`] gives the value back.
pub proof fn law_verify_domain_response_reads_back(value: VerifyDomainResponseView)
    ensures
        <VerifyDomainResponse as FromJson>::decoded(
            <VerifyDomainResponse as ToJson>::encoded(value),
        ) == Some(value),
{
    reveal_strlit("id");
    reveal_strlit("object");
    let json = VerifyDomainResponse::encoded(value);
    let fields = json->Object_0;
    assert(fields.len() == 2);
    assert(fields[0].0 == "id"@);
    assert(fields[1].0 == "object"@);
    lemma_first_field_at(fields, 0);
    lemma_first_field_at(fields, 1);
}

/// Reading the JSON form of a [`DeleteDomainResponse`] gives the value back.
pub proof fn law_delete_domain_response_reads_back(value: DeleteDomainResponseView)
    ensures
        <DeleteDomainResponse as FromJson>::decoded(
            <DeleteDomainResponse as ToJson>::encoded(value),
        ) == Some(value),
{
    reveal_strlit("id");
    reveal_strlit("object");
    reveal_strlit("deleted");
    let json = DeleteDomainResponse::encoded(value);
    let fields = json->Object_0;
    assert(fields.len() == 3);
    assert(fields[0].0 == "id"@);
    assert(fields[1].0 == "object"@);
    assert(fields[2].0 == "deleted"@);
    lemma_first_field_at(fields, 0);
    lemma_first_field_at(fields, 1);
    lemma_first_field_at(fields, 2);
}

} // verus!
