//! Sending and retrieving emails.

use crate::json::{
    byte_list, lemma_first_field_at, lemma_optional_text_list_reads_back,
    lemma_text_list_reads_back, no_fields, optional_text, optional_text_list, put, put_optional,
    text_list, text_object, value_list, with_optional, FromJson, Json, JsonView, ToJson,
};
use crate::reqlib::{
    response_view, settled, APIResponse, BuildError, Exchange, Method, ReqClient, Request,
};
use crate::text::joined;
use vstd::prelude::*;

verus! {

/// A label attached to an email.
#[derive(Debug, Clone)]
pub struct Tag {
    pub name: String,
    pub value: String,
}

/// The mathematical value of a [`Tag`].
pub struct TagView {
    pub name: Seq<char>,
    pub value: Seq<char>,
}

impl DeepView for Tag {
    type V = TagView;

    open spec fn deep_view(&self) -> TagView {
        TagView { name: self.name@, value: self.value@ }
    }
}

impl ToJson for Tag {
    open spec fn encoded(value: TagView) -> JsonView {
        JsonView::Object(
            Seq::empty().push(("name"@, JsonView::Str(value.name))).push(
                ("value"@, JsonView::Str(value.value)),
            ),
        )
    }

    fn to_json(&self) -> (json: Json) {
        let mut fields = no_fields();
        put(&mut fields, "name", Json::Str(self.name.clone()));
        put(&mut fields, "value", Json::Str(self.value.clone()));
        Json::object(fields)
    }
}

/// A file sent along with an email.
#[derive(Debug, Clone)]
pub struct Attachment {
    pub content: Vec<u8>,
    pub filename: String,
    pub path: Option<String>,
}

/// The mathematical value of an [`Attachment`].
pub struct AttachmentView {
    pub content: Seq<u8>,
    pub filename: Seq<char>,
    pub path: Option<Seq<char>>,
}

impl DeepView for Attachment {
    type V = AttachmentView;

    open spec fn deep_view(&self) -> AttachmentView {
        AttachmentView {
            content: self.content@,
            filename: self.filename@,
            path: self.path.deep_view(),
        }
    }
}

impl ToJson for Attachment {
    open spec fn encoded(value: AttachmentView) -> JsonView {
        JsonView::Object(
            Seq::empty().push(("content"@, byte_list(value.content))).push(
                ("filename"@, JsonView::Str(value.filename)),
            ).push(("path"@, optional_text(value.path))),
        )
    }

    fn to_json(&self) -> (json: Json) {
        let mut fields = no_fields();
        put(&mut fields, "content", Json::byte_list(&self.content));
        put(&mut fields, "filename", Json::Str(self.filename.clone()));
        put(&mut fields, "path", Json::optional_text(&self.path));
        Json::object(fields)
    }
}

impl<'a> ToJson for &'a Attachment {
    open spec fn encoded(value: AttachmentView) -> JsonView {
        Attachment::encoded(value)
    }

    fn to_json(&self) -> (json: Json) {
        (*self).to_json()
    }
}

/// An email to send.
#[derive(Debug, Clone)]
pub struct SendEmailRequest<'a> {
    pub subject: String,
    pub from: String,
    pub to: Vec<String>,
    pub cc: Option<Vec<String>>,
    pub bcc: Option<Vec<String>>,
    pub reply_to: Option<String>,
    pub html: Option<String>,
    pub text: Option<String>,
    pub tags: Option<Vec<Tag>>,
    pub attachments: Option<Vec<&'a Attachment>>,
    /// Extra email headers, as pairs of name and value.
    pub headers: Option<Vec<(String, String)>>,
}

/// The mathematical value of a [`SendEmailRequest`].
pub struct SendEmailRequestView {
    pub subject: Seq<char>,
    pub from: Seq<char>,
    pub to: Seq<Seq<char>>,
    pub cc: Option<Seq<Seq<char>>>,
    pub bcc: Option<Seq<Seq<char>>>,
    pub reply_to: Option<Seq<char>>,
    pub html: Option<Seq<char>>,
    pub text: Option<Seq<char>>,
    pub tags: Option<Seq<TagView>>,
    pub attachments: Option<Seq<AttachmentView>>,
    pub headers: Option<Seq<(Seq<char>, Seq<char>)>>,
}

impl<'a> DeepView for SendEmailRequest<'a> {
    type V = SendEmailRequestView;

    open spec fn deep_view(&self) -> SendEmailRequestView {
        SendEmailRequestView {
            subject: self.subject@,
            from: self.from@,
            to: self.to.deep_view(),
            cc: self.cc.deep_view(),
            bcc: self.bcc.deep_view(),
            reply_to: self.reply_to.deep_view(),
            html: self.html.deep_view(),
            text: self.text.deep_view(),
            tags: self.tags.deep_view(),
            attachments: self.attachments.deep_view(),
            headers: self.headers.deep_view(),
        }
    }
}

/// The JSON form of an optional list of strings, if there is a list.
pub open spec fn some_text_list(texts: Option<Seq<Seq<char>>>) -> Option<JsonView> {
    match texts {
        Some(texts) => Some(text_list(texts)),
        None => None,
    }
}

/// The JSON form of an optional string, if there is a string.
pub open spec fn some_text(text: Option<Seq<char>>) -> Option<JsonView> {
    match text {
        Some(text) => Some(JsonView::Str(text)),
        None => None,
    }
}

fn json_of_texts(texts: &Option<Vec<String>>) -> (json: Option<Json>)
    ensures
        json.deep_view() == some_text_list(texts.deep_view()),
{
    match texts {
        Some(texts) => Some(Json::text_list(texts)),
        None => None,
    }
}

fn json_of_text(text: &Option<String>) -> (json: Option<Json>)
    ensures
        json.deep_view() == some_text(text.deep_view()),
{
    match text {
        Some(text) => Some(Json::Str(text.clone())),
        None => None,
    }
}

impl<'a> ToJson for SendEmailRequest<'a> {
    /// An object with `subject`, `from` and `to`, followed by each of the
    /// optional fields that has a value; an absent field is left out.
    open spec fn encoded(value: SendEmailRequestView) -> JsonView {
        let required = Seq::empty().push(("subject"@, JsonView::Str(value.subject))).push(
            ("from"@, JsonView::Str(value.from)),
        ).push(("to"@, text_list(value.to)));
        let cc = with_optional(required, "cc"@, some_text_list(value.cc));
        let bcc = with_optional(cc, "bcc"@, some_text_list(value.bcc));
        let reply_to = with_optional(bcc, "reply_to"@, some_text(value.reply_to));
        let html = with_optional(reply_to, "html"@, some_text(value.html));
        let text = with_optional(html, "text"@, some_text(value.text));
        let tags = with_optional(
            text,
            "tags"@,
            match value.tags {
                Some(tags) => Some(value_list::<Tag>(tags)),
                None => None,
            },
        );
        let attachments = with_optional(
            tags,
            "attachments"@,
            match value.attachments {
                Some(attachments) => Some(value_list::<Attachment>(attachments)),
                None => None,
            },
        );
        JsonView::Object(
            with_optional(
                attachments,
                "headers"@,
                match value.headers {
                    Some(headers) => Some(text_object(headers)),
                    None => None,
                },
            ),
        )
    }

    fn to_json(&self) -> (json: Json) {
        let mut fields = no_fields();
        put(&mut fields, "subject", Json::Str(self.subject.clone()));
        put(&mut fields, "from", Json::Str(self.from.clone()));
        put(&mut fields, "to", Json::text_list(&self.to));
        put_optional(&mut fields, "cc", json_of_texts(&self.cc));
        put_optional(&mut fields, "bcc", json_of_texts(&self.bcc));
        put_optional(&mut fields, "reply_to", json_of_text(&self.reply_to));
        put_optional(&mut fields, "html", json_of_text(&self.html));
        put_optional(&mut fields, "text", json_of_text(&self.text));
        let tags = match &self.tags {
            Some(tags) => Some(Json::value_list(tags)),
            None => None,
        };
        put_optional(&mut fields, "tags", tags);
        let attachments = match &self.attachments {
            Some(attachments) => {
                let list = Json::value_list(attachments);
                assert(value_list::<&Attachment>(attachments.deep_view())->Array_0
                    =~= value_list::<Attachment>(attachments.deep_view())->Array_0);
                Some(list)
            },
            None => None,
        };
        put_optional(&mut fields, "attachments", attachments);
        let headers = match &self.headers {
            Some(headers) => Some(Json::text_object(headers)),
            None => None,
        };
        put_optional(&mut fields, "headers", headers);
        Json::object(fields)
    }
}

/// What the API answers when an email was accepted.
#[derive(Debug, Clone)]
pub struct SendEmailResponse {
    pub id: String,
}

/// The mathematical value of a [`SendEmailResponse`].
pub struct SendEmailResponseView {
    pub id: Seq<char>,
}

impl DeepView for SendEmailResponse {
    type V = SendEmailResponseView;

    open spec fn deep_view(&self) -> SendEmailResponseView {
        SendEmailResponseView { id: self.id@ }
    }
}

impl ToJson for SendEmailResponse {
    open spec fn encoded(value: SendEmailResponseView) -> JsonView {
        JsonView::Object(Seq::empty().push(("id"@, JsonView::Str(value.id))))
    }

    fn to_json(&self) -> (json: Json) {
        let mut fields = no_fields();
        put(&mut fields, "id", Json::Str(self.id.clone()));
        Json::object(fields)
    }
}

impl FromJson for SendEmailResponse {
    /// An object with the string field `id`.
    open spec fn decoded(json: JsonView) -> Option<SendEmailResponseView> {
        match json.text_at("id"@) {
            Some(id) => Some(SendEmailResponseView { id }),
            None => None,
        }
    }

    fn from_json(json: &Json) -> (value: Option<SendEmailResponse>) {
        match json.text_at("id") {
            Some(id) => Some(SendEmailResponse { id }),
            None => None,
        }
    }
}

/// An email as the API reports it.
#[derive(Debug, Clone)]
pub struct Email {
    pub id: String,
    pub object: String,
    pub from: String,
    pub to: Vec<String>,
    pub created_at: String,
    pub subject: String,
    pub html: Option<String>,
    pub text: Option<String>,
    pub bcc: Option<Vec<Option<String>>>,
    pub cc: Option<Vec<Option<String>>>,
    pub reply_to: Option<Vec<Option<String>>>,
    pub last_event: String,
}

/// The mathematical value of an [`Email`].
pub struct EmailView {
    pub id: Seq<char>,
    pub object: Seq<char>,
    pub from: Seq<char>,
    pub to: Seq<Seq<char>>,
    pub created_at: Seq<char>,
    pub subject: Seq<char>,
    pub html: Option<Seq<char>>,
    pub text: Option<Seq<char>>,
    pub bcc: Option<Seq<Option<Seq<char>>>>,
    pub cc: Option<Seq<Option<Seq<char>>>>,
    pub reply_to: Option<Seq<Option<Seq<char>>>>,
    pub last_event: Seq<char>,
}

impl DeepView for Email {
    type V = EmailView;

    open spec fn deep_view(&self) -> EmailView {
        EmailView {
            id: self.id@,
            object: self.object@,
            from: self.from@,
            to: self.to.deep_view(),
            created_at: self.created_at@,
            subject: self.subject@,
            html: self.html.deep_view(),
            text: self.text.deep_view(),
            bcc: self.bcc.deep_view(),
            cc: self.cc.deep_view(),
            reply_to: self.reply_to.deep_view(),
            last_event: self.last_event@,
        }
    }
}

/// The JSON form of an optional list of optional strings: the list, or
/// `null`.
pub open spec fn optional_list(texts: Option<Seq<Option<Seq<char>>>>) -> JsonView {
    match texts {
        Some(texts) => optional_text_list(texts),
        None => JsonView::Null,
    }
}

fn json_of_optional_list(texts: &Option<Vec<Option<String>>>) -> (json: Json)
    ensures
        json@ == optional_list(texts.deep_view()),
{
    match texts {
        Some(texts) => Json::optional_text_list(texts),
        None => Json::Null,
    }
}

impl ToJson for Email {
    /// An object with every field, an absent value written as `null`.
    open spec fn encoded(value: EmailView) -> JsonView {
        JsonView::Object(
            Seq::empty().push(("id"@, JsonView::Str(value.id))).push(
                ("object"@, JsonView::Str(value.object)),
            ).push(("from"@, JsonView::Str(value.from))).push(("to"@, text_list(value.to))).push(
                ("created_at"@, JsonView::Str(value.created_at)),
            ).push(("subject"@, JsonView::Str(value.subject))).push(
                ("html"@, optional_text(value.html)),
            ).push(("text"@, optional_text(value.text))).push(
                ("bcc"@, optional_list(value.bcc)),
            ).push(("cc"@, optional_list(value.cc))).push(
                ("reply_to"@, optional_list(value.reply_to)),
            ).push(("last_event"@, JsonView::Str(value.last_event))),
        )
    }

    fn to_json(&self) -> (json: Json) {
        let mut fields = no_fields();
        put(&mut fields, "id", Json::Str(self.id.clone()));
        put(&mut fields, "object", Json::Str(self.object.clone()));
        put(&mut fields, "from", Json::Str(self.from.clone()));
        put(&mut fields, "to", Json::text_list(&self.to));
        put(&mut fields, "created_at", Json::Str(self.created_at.clone()));
        put(&mut fields, "subject", Json::Str(self.subject.clone()));
        put(&mut fields, "html", Json::optional_text(&self.html));
        put(&mut fields, "text", Json::optional_text(&self.text));
        put(&mut fields, "bcc", json_of_optional_list(&self.bcc));
        put(&mut fields, "cc", json_of_optional_list(&self.cc));
        put(&mut fields, "reply_to", json_of_optional_list(&self.reply_to));
        put(&mut fields, "last_event", Json::Str(self.last_event.clone()));
        Json::object(fields)
    }
}

impl FromJson for Email {
    /// An object with the string fields `id`, `object`, `from`,
    /// `created_at`, `subject` and `last_event`, the string list `to`, and
    /// the optional fields `html`, `text`, `bcc`, `cc` and `reply_to`,
    /// each of which may be absent or `null`.
    open spec fn decoded(json: JsonView) -> Option<EmailView> {
        if json.text_at("id"@) is Some && json.text_at("object"@) is Some && json.text_at("from"@) is Some
            && json.texts_at("to"@) is Some && json.text_at("created_at"@) is Some && json.text_at(
            "subject"@,
        ) is Some && json.optional_text_at("html"@) is Some && json.optional_text_at("text"@) is Some
            && json.optional_texts_at("bcc"@) is Some && json.optional_texts_at("cc"@) is Some
            && json.optional_texts_at("reply_to"@) is Some && json.text_at("last_event"@) is Some {
            Some(
                EmailView {
                    id: json.text_at("id"@)->0,
                    object: json.text_at("object"@)->0,
                    from: json.text_at("from"@)->0,
                    to: json.texts_at("to"@)->0,
                    created_at: json.text_at("created_at"@)->0,
                    subject: json.text_at("subject"@)->0,
                    html: json.optional_text_at("html"@)->0,
                    text: json.optional_text_at("text"@)->0,
                    bcc: json.optional_texts_at("bcc"@)->0,
                    cc: json.optional_texts_at("cc"@)->0,
                    reply_to: json.optional_texts_at("reply_to"@)->0,
                    last_event: json.text_at("last_event"@)->0,
                },
            )
        } else {
            None
        }
    }

    fn from_json(json: &Json) -> (value: Option<Email>) {
        let id = match json.text_at("id") {
            Some(id) => id,
            None => { return None; },
        };
        let object = match json.text_at("object") {
            Some(object) => object,
            None => { return None; },
        };
        let from = match json.text_at("from") {
            Some(from) => from,
            None => { return None; },
        };
        let to = match json.texts_at("to") {
            Some(to) => to,
            None => { return None; },
        };
        let created_at = match json.text_at("created_at") {
            Some(created_at) => created_at,
            None => { return None; },
        };
        let subject = match json.text_at("subject") {
            Some(subject) => subject,
            None => { return None; },
        };
        let html = match json.optional_text_at("html") {
            Some(html) => html,
            None => { return None; },
        };
        let text = match json.optional_text_at("text") {
            Some(text) => text,
            None => { return None; },
        };
        let bcc = match json.optional_texts_at("bcc") {
            Some(bcc) => bcc,
            None => { return None; },
        };
        let cc = match json.optional_texts_at("cc") {
            Some(cc) => cc,
            None => { return None; },
        };
        let reply_to = match json.optional_texts_at("reply_to") {
            Some(reply_to) => reply_to,
            None => { return None; },
        };
        let last_event = match json.text_at("last_event") {
            Some(last_event) => last_event,
            None => { return None; },
        };
        Some(
            Email {
                id,
                object,
                from,
                to,
                created_at,
                subject,
                html,
                text,
                bcc,
                cc,
                reply_to,
                last_event,
            },
        )
    }
}

/// The email operations of the API.
#[derive(Debug)]
pub struct EmailService {
    pub req_client: ReqClient,
}

impl EmailService {
    /// The service that sends its requests as `req_client` says.
    pub fn new(req_client: ReqClient) -> (service: EmailService)
        ensures
            service.req_client == req_client,
    {
        EmailService { req_client }
    }

    /// The request that sends the email `params`: a `POST` on `emails`
    /// with the JSON form of `params` as its body.
    pub fn send<'a>(&self, params: &'a SendEmailRequest<'a>) -> (built: Result<Request, BuildError>)
        ensures
            self.req_client@.builds(
                Method::Post,
                "emails"@,
                Some(SendEmailRequest::encoded(params.deep_view())),
                built,
            ),
    {
        self.req_client.new_body_request(Method::Post, "emails", Some(params))
    }

    /// The outcome of sending an email, from what the transport reports.
    pub fn send_outcome(&self, exchange: Exchange) -> (result: Result<
        APIResponse<SendEmailResponse>,
        APIResponse<SendEmailResponse>,
    >)
        ensures
            response_view(result) == settled::<SendEmailResponse>(exchange@),
            result is Ok <==> response_view(result) is Success,
    {
        self.req_client.exec(exchange)
    }

    /// The request that retrieves the email `email_id`: a `GET` on
    /// `emails/` followed by the identifier.
    pub fn get(&self, email_id: &str) -> (built: Result<Request, BuildError>)
        ensures
            self.req_client@.builds(Method::Get, "emails/"@ + email_id@, None, built),
    {
        let path = joined("emails/", email_id);
        self.req_client.new_request(Method::Get, path.as_str())
    }

    /// The outcome of retrieving an email, from what the transport reports.
    pub fn get_outcome(&self, exchange: Exchange) -> (result: Result<
        APIResponse<Email>,
        APIResponse<Email>,
    >)
        ensures
            response_view(result) == settled::<Email>(exchange@),
            result is Ok <==> response_view(result) is Success,
    {
        self.req_client.exec(exchange)
    }
}

/// Reading the JSON form of a [`SendEmailResponse`] gives the value back.
pub proof fn law_send_email_response_reads_back(value: SendEmailResponseView)
    ensures
        SendEmailResponse::decoded(SendEmailResponse::encoded(value)) == Some(value),
{
    let fields = SendEmailResponse::encoded(value)->Object_0;
    lemma_first_field_at(fields, 0);
}

/// Reading the JSON form of an [`Email`] gives the value back.
pub proof fn law_email_reads_back(value: EmailView)
    ensures
        Email::decoded(Email::encoded(value)) == Some(value),
{
    reveal_strlit("id");
    reveal_strlit("object");
    reveal_strlit("from");
    reveal_strlit("to");
    reveal_strlit("created_at");
    reveal_strlit("subject");
    reveal_strlit("html");
    reveal_strlit("text");
    reveal_strlit("bcc");
    reveal_strlit("cc");
    reveal_strlit("reply_to");
    reveal_strlit("last_event");
    assert("id"@[0] != "to"@[0]);
    assert("id"@[0] != "cc"@[0]);
    assert("from"@[0] != "html"@[0]);
    assert("from"@[0] != "text"@[0]);
    assert("to"@[0] != "cc"@[0]);
    assert("created_at"@[0] != "last_event"@[0]);
    assert("html"@[0] != "text"@[0]);
    let json = Email::encoded(value);
    let fields = json->Object_0;
    assert(fields.len() == 12);
    assert(fields[0].0 == "id"@);
    assert(fields[1].0 == "object"@);
    assert(fields[2].0 == "from"@);
    assert(fields[3].0 == "to"@);
    assert(fields[4].0 == "created_at"@);
    assert(fields[5].0 == "subject"@);
    assert(fields[6].0 == "html"@);
    assert(fields[7].0 == "text"@);
    assert(fields[8].0 == "bcc"@);
    assert(fields[9].0 == "cc"@);
    assert(fields[10].0 == "reply_to"@);
    assert(fields[11].0 == "last_event"@);
    lemma_first_field_at(fields, 0);
    lemma_first_field_at(fields, 1);
    lemma_first_field_at(fields, 2);
    lemma_first_field_at(fields, 3);
    lemma_first_field_at(fields, 4);
    lemma_first_field_at(fields, 5);
    lemma_first_field_at(fields, 6);
    lemma_first_field_at(fields, 7);
    lemma_first_field_at(fields, 8);
    lemma_first_field_at(fields, 9);
    lemma_first_field_at(fields, 10);
    lemma_first_field_at(fields, 11);
    lemma_text_list_reads_back(value.to);
    if value.bcc is Some {
        lemma_optional_text_list_reads_back(value.bcc->0);
    }
    if value.cc is Some {
        lemma_optional_text_list_reads_back(value.cc->0);
    }
    if value.reply_to is Some {
        lemma_optional_text_list_reads_back(value.reply_to->0);
    }
}

} // verus!
