//! The client: the encoding of a message into the mail-send form body, and
//! the request that carries it to the endpoint.

use crate::error::SendgridError;
use crate::form::{bracket_key, form_text, FormBody, FormPairs};
use crate::mail::{entries, texts, EntriesView, Mail};
use crate::json::json_object_text;
use crate::mail::MailView;
use vstd::prelude::*;

verus! {

/// The key of each `to` item: `to[]`.
pub open spec fn key_to() -> Seq<char> {
    seq!['t', 'o', '[', ']']
}

/// The key of each `to_names` item: `toname[]`.
pub open spec fn key_to_name() -> Seq<char> {
    seq!['t', 'o', 'n', 'a', 'm', 'e', '[', ']']
}

/// The key of each `cc` item: `cc[]`.
pub open spec fn key_cc() -> Seq<char> {
    seq!['c', 'c', '[', ']']
}

/// The key of each `bcc` item: `bcc[]`.
pub open spec fn key_bcc() -> Seq<char> {
    seq!['b', 'c', 'c', '[', ']']
}

/// The form name of attachments: `files`.
pub open spec fn form_files() -> Seq<char> {
    seq!['f', 'i', 'l', 'e', 's']
}

/// The form name of inline content: `content`.
pub open spec fn form_content() -> Seq<char> {
    seq!['c', 'o', 'n', 't', 'e', 'n', 't']
}

/// The keys of the single-valued fields, in emission order: `from`,
/// `subject`, `html`, `text`, `fromname`, `replyto`, `date`, `headers`,
/// `x-smtpapi`.
pub open spec fn scalar_keys() -> Seq<Seq<char>> {
    seq![
        seq!['f', 'r', 'o', 'm'],
        seq!['s', 'u', 'b', 'j', 'e', 'c', 't'],
        seq!['h', 't', 'm', 'l'],
        seq!['t', 'e', 'x', 't'],
        seq!['f', 'r', 'o', 'm', 'n', 'a', 'm', 'e'],
        seq!['r', 'e', 'p', 'l', 'y', 't', 'o'],
        seq!['d', 'a', 't', 'e'],
        seq!['h', 'e', 'a', 'd', 'e', 'r', 's'],
        seq!['x', '-', 's', 'm', 't', 'p', 'a', 'p', 'i'],
    ]
}

/// One pair `key=item` for each item, in order.
pub open spec fn list_pairs(key: Seq<char>, items: Seq<Seq<char>>) -> FormPairs {
    items.map_values(|v: Seq<char>| (key, v))
}

/// One pair `form[key]=value` for each entry, in order.
pub open spec fn keyed_pairs(form: Seq<char>, e: EntriesView) -> FormPairs {
    e.map_values(|p: (Seq<char>, Seq<char>)| (bracket_key(form, p.0), p.1))
}

/// The values of the single-valued fields, in the order of `scalar_keys`.
pub open spec fn scalar_values(m: MailView, header_text: Seq<char>) -> Seq<Seq<char>> {
    seq![
        m.from,
        m.subject,
        m.html,
        m.text,
        m.from_name,
        m.reply_to,
        m.date,
        header_text,
        m.x_smtpapi,
    ]
}

/// The single-valued pairs.
pub open spec fn scalar_pairs(m: MailView, header_text: Seq<char>) -> FormPairs {
    Seq::new(9, |i: int| (scalar_keys()[i], scalar_values(m, header_text)[i]))
}

/// Every pair of the body of `m`, with `header_text` as the headers' value.
pub open spec fn post_pairs(m: MailView, header_text: Seq<char>) -> FormPairs {
    list_pairs(key_to(), m.to) + list_pairs(key_to_name(), m.to_names) + list_pairs(
        key_cc(),
        m.cc,
    ) + list_pairs(key_bcc(), m.bcc) + keyed_pairs(form_files(), m.attachments) + keyed_pairs(
        form_content(),
        m.content,
    ) + scalar_pairs(m, header_text)
}

/// The body text of `m`, with `header_text` as the headers' value.
pub open spec fn post_body(m: MailView, header_text: Seq<char>) -> Seq<char> {
    form_text(post_pairs(m, header_text))
}

/// Appends `key=item` for each item.
fn append_list(body: &mut FormBody, key: &str, items: &Vec<String>)
    requires
        old(body).wf(),
    ensures
        final(body).wf(),
        final(body)@ == old(body)@ + list_pairs(key@, texts(items@)),
{
    let ghost start = body@;
    let mut i: usize = 0;
    while i < items.len()
        invariant
            0 <= i <= items@.len(),
            body.wf(),
            body@ == start + list_pairs(key@, texts(items@.subrange(0, i as int))),
        decreases items@.len() - i,
    {
        body.append_pair(key, items[i].as_str());
        assert(texts(items@.subrange(0, i + 1)) =~= texts(items@.subrange(0, i as int)).push(
            items@[i as int]@,
        ));
        assert(body@ =~= start + list_pairs(key@, texts(items@.subrange(0, i + 1))));
        i = i + 1;
    }
    assert(items@.subrange(0, items@.len() as int) =~= items@);
}

/// Appends `form[key]=value` for each entry.
fn append_keyed(body: &mut FormBody, form: &str, e: &Vec<(String, String)>)
    requires
        old(body).wf(),
    ensures
        final(body).wf(),
        final(body)@ == old(body)@ + keyed_pairs(form@, entries(e@)),
{
    let ghost start = body@;
    let mut i: usize = 0;
    while i < e.len()
        invariant
            0 <= i <= e@.len(),
            body.wf(),
            body@ == start + keyed_pairs(form@, entries(e@.subrange(0, i as int))),
        decreases e@.len() - i,
    {
        let key = crate::form::make_form_key(form, e[i].0.as_str());
        body.append_pair(key.as_str(), e[i].1.as_str());
        assert(entries(e@.subrange(0, i + 1)) =~= entries(e@.subrange(0, i as int)).push(
            (e@[i as int].0@, e@[i as int].1@),
        ));
        assert(body@ =~= start + keyed_pairs(form@, entries(e@.subrange(0, i + 1))));
        i = i + 1;
    }
    assert(e@.subrange(0, e@.len() as int) =~= e@);
}

/// The form body of `mail` with `header_text` as the value of `headers`.
pub fn encode_post_body(mail: &Mail, header_text: &str) -> (r: String)
    ensures
        r@ == post_body(mail@, header_text@),
{
    let mut body = FormBody::new();
    append_list(&mut body, "to[]", &mail.to);
    append_list(&mut body, "toname[]", &mail.to_names);
    append_list(&mut body, "cc[]", &mail.cc);
    append_list(&mut body, "bcc[]", &mail.bcc);
    append_keyed(&mut body, "files", &mail.attachments);
    append_keyed(&mut body, "content", &mail.content);
    body.append_pair("from", mail.from.as_str());
    body.append_pair("subject", mail.subject.as_str());
    body.append_pair("html", mail.html.as_str());
    body.append_pair("text", mail.text.as_str());
    body.append_pair("fromname", mail.from_name.as_str());
    body.append_pair("replyto", mail.reply_to.as_str());
    body.append_pair("date", mail.date.as_str());
    body.append_pair("headers", header_text);
    body.append_pair("x-smtpapi", mail.x_smtpapi.as_str());
    proof {
        reveal_strlit("to[]");
        reveal_strlit("toname[]");
        reveal_strlit("cc[]");
        reveal_strlit("bcc[]");
        reveal_strlit("files");
        reveal_strlit("content");
        reveal_strlit("from");
        reveal_strlit("subject");
        reveal_strlit("html");
        reveal_strlit("text");
        reveal_strlit("fromname");
        reveal_strlit("replyto");
        reveal_strlit("date");
        reveal_strlit("headers");
        reveal_strlit("x-smtpapi");
        assert("to[]"@ =~= key_to());
        assert("toname[]"@ =~= key_to_name());
        assert("cc[]"@ =~= key_cc());
        assert("bcc[]"@ =~= key_bcc());
        assert("files"@ =~= form_files());
        assert("content"@ =~= form_content());
        assert("from"@ =~= scalar_keys()[0]);
        assert("subject"@ =~= scalar_keys()[1]);
        assert("html"@ =~= scalar_keys()[2]);
        assert("text"@ =~= scalar_keys()[3]);
        assert("fromname"@ =~= scalar_keys()[4]);
        assert("replyto"@ =~= scalar_keys()[5]);
        assert("date"@ =~= scalar_keys()[6]);
        assert("headers"@ =~= scalar_keys()[7]);
        assert("x-smtpapi"@ =~= scalar_keys()[8]);
        assert(body@ =~= post_pairs(mail@, header_text@));
    }
    body.finish()
}

/// The body of `mail` given the outcome of rendering its headers: a failure
/// passes through unchanged and no body is produced; a header text becomes
/// the value of `headers`.
pub fn post_body_with_headers(mail: &Mail, headers: Result<String, SendgridError>) -> (r: Result<
    String,
    SendgridError,
>)
    ensures
        headers matches Err(e) ==> r == Err::<String, SendgridError>(e),
        headers matches Ok(h) ==> (r matches Ok(b) && b@ == post_body(mail@, h@)),
{
    match headers {
        Ok(h) => Ok(encode_post_body(mail, h.as_str())),
        Err(e) => Err(e),
    }
}

/// Encodes a message as the mail-send form body, with the headers rendered
/// as a JSON object. Always succeeds: the only failure of the encoding, a
/// header rendering that fails, cannot happen on text (see
/// `post_body_with_headers` for how such a failure would pass through).
pub fn make_post_body(mail: Mail) -> (r: Result<String, SendgridError>)
    ensures
        r matches Ok(b) && b@ == post_body(mail@, json_object_text(mail@.headers)),
{
    let headers = mail.make_header_string();
    post_body_with_headers(&mail, headers)
}

/// The endpoint that receives mail-send requests by default.
pub const API_URL: &'static str = "https://api.sendgrid.com/api/mail.send.json?";

/// The user agent sent by default.
pub const USER_AGENT: &'static str = "sendgrid-rs";

/// The media type of the request body.
pub const FORM_CONTENT_TYPE: &'static str = "application/x-www-form-urlencoded";

/// The HTTP header names of a request.
pub open spec fn header_authorization() -> Seq<char> {
    seq!['A', 'u', 't', 'h', 'o', 'r', 'i', 'z', 'a', 't', 'i', 'o', 'n']
}

pub open spec fn header_content_type() -> Seq<char> {
    seq!['C', 'o', 'n', 't', 'e', 'n', 't', '-', 'T', 'y', 'p', 'e']
}

pub open spec fn header_user_agent() -> Seq<char> {
    seq!['U', 's', 'e', 'r', '-', 'A', 'g', 'e', 'n', 't']
}

/// `Bearer ` followed by the key.
pub open spec fn bearer(key: Seq<char>) -> Seq<char> {
    seq!['B', 'e', 'a', 'r', 'e', 'r', ' '] + key
}

/// One mail-send request: a POST of `body` to `url` with `headers`.
pub struct SendRequest {
    pub url: String,
    pub headers: Vec<(String, String)>,
    pub body: String,
}

/// Authenticates to the SendGrid API with an API key, and says where and
/// as whom requests go.
pub struct SGClient {
    api_key: String,
    endpoint: String,
    user_agent: String,
}

impl SGClient {
    pub closed spec fn spec_api_key(&self) -> Seq<char> {
        self.api_key@
    }

    pub closed spec fn spec_endpoint(&self) -> Seq<char> {
        self.endpoint@
    }

    pub closed spec fn spec_user_agent(&self) -> Seq<char> {
        self.user_agent@
    }

    /// The headers of every request that this client sends.
    pub open spec fn spec_request_headers(&self) -> EntriesView {
        seq![
            (header_authorization(), bearer(self.spec_api_key())),
            (header_content_type(), FORM_CONTENT_TYPE@),
            (header_user_agent(), self.spec_user_agent()),
        ]
    }

    /// Makes a new client with the given API key, the default endpoint and
    /// the default user agent.
    pub fn new(key: String) -> (r: SGClient)
        ensures
            r.spec_api_key() == key@,
            r.spec_endpoint() == API_URL@,
            r.spec_user_agent() == USER_AGENT@,
    {
        SGClient {
            api_key: key,
            endpoint: String::from_str(API_URL),
            user_agent: String::from_str(USER_AGENT),
        }
    }

    /// The same client, sending to `endpoint`.
    pub fn with_endpoint(self, endpoint: &str) -> (r: SGClient)
        ensures
            r.spec_api_key() == self.spec_api_key(),
            r.spec_endpoint() == endpoint@,
            r.spec_user_agent() == self.spec_user_agent(),
    {
        SGClient { endpoint: String::from_str(endpoint), ..self }
    }

    /// The same client, sending as `user_agent`.
    pub fn with_user_agent(self, user_agent: &str) -> (r: SGClient)
        ensures
            r.spec_api_key() == self.spec_api_key(),
            r.spec_endpoint() == self.spec_endpoint(),
            r.spec_user_agent() == user_agent@,
    {
        SGClient { user_agent: String::from_str(user_agent), ..self }
    }

    /// The endpoint that requests go to.
    pub fn endpoint(&self) -> (r: &str)
        ensures
            r@ == self.spec_endpoint(),
    {
        self.endpoint.as_str()
    }

    /// The value of the `Authorization` header: `Bearer <key>`.
    pub fn authorization(&self) -> (r: String)
        ensures
            r@ == bearer(self.spec_api_key()),
    {
        let mut r = String::from_str("Bearer ");
        r.append(self.api_key.as_str());
        proof {
            reveal_strlit("Bearer ");
            assert(r@ =~= bearer(self.spec_api_key()));
        }
        r
    }

    /// The request that sends `mail`: its encoded body, posted to the
    /// endpoint with the bearer credential, the form media type and the user
    /// agent. Always succeeds, as the encoding does; an encoding failure
    /// would be returned unchanged and no request made.
    pub fn prepare_send(&self, mail: Mail) -> (r: Result<SendRequest, SendgridError>)
        ensures
            r matches Ok(q) && {
                &&& q.url@ == self.spec_endpoint()
                &&& entries(q.headers@) == self.spec_request_headers()
                &&& q.body@ == post_body(mail@, json_object_text(mail@.headers))
            },
    {
        let ghost m = mail@;
        let body = match make_post_body(mail) {
            Ok(b) => b,
            Err(e) => {
                return Err(e);
            },
        };
        let mut headers: Vec<(String, String)> = Vec::new();
        headers.push((String::from_str("Authorization"), self.authorization()));
        headers.push((String::from_str("Content-Type"), String::from_str(FORM_CONTENT_TYPE)));
        headers.push((String::from_str("User-Agent"), self.user_agent.clone()));
        proof {
            reveal_strlit("Authorization");
            reveal_strlit("Content-Type");
            reveal_strlit("User-Agent");
            assert("Authorization"@ =~= header_authorization());
            assert("Content-Type"@ =~= header_content_type());
            assert("User-Agent"@ =~= header_user_agent());
            assert(entries(headers@) =~= self.spec_request_headers());
        }
        Ok(SendRequest { url: self.endpoint.clone(), headers, body })
    }
}

} // verus!
