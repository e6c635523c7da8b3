use sendgrid::{
    encode_post_body, make_form_key, make_post_body, post_body_with_headers, Mail, SGClient,
    SendgridError,
};

#[test]
fn basic_message_body() {
    let mut m = Mail::new();
    m.add_to("test@example.com");
    m.add_from("me@example.com");
    m.add_subject("Test");
    m.add_text("It works");

    let body = make_post_body(m);
    let want = "to%5B%5D=test%40example.com&from=me%40example.com&subject=Test&\
                html=&text=It+works&fromname=&replyto=&date=&headers=%7B%7D&x-smtpapi=";
    assert_eq!(body.unwrap(), want);
}

#[test]
fn test_proper_key() {
    let want = "files[test.jpg]";
    let got = make_form_key("files", "test.jpg");
    assert_eq!(want, got);
}

#[test]
fn empty_message_body() {
    let body = make_post_body(Mail::new()).unwrap();
    assert_eq!(
        body,
        "from=&subject=&html=&text=&fromname=&replyto=&date=&headers=%7B%7D&x-smtpapi="
    );
    assert!(!body.contains("to%5B%5D"));
}

#[test]
fn bracket_key_is_percent_encoded_on_the_wire() {
    let mut m = Mail::new();
    m.add_attachment("test.jpg", "data");
    let body = make_post_body(m).unwrap();
    assert_eq!(
        body,
        "files%5Btest.jpg%5D=data&from=&subject=&html=&text=&fromname=&replyto=&date=\
         &headers=%7B%7D&x-smtpapi="
    );
}

#[test]
fn recipient_lists_keep_order_and_count() {
    let mut m = Mail::new();
    m.add_to("a@x.io");
    m.add_to("b@x.io");
    m.add_to("a@x.io");
    m.add_to_name("A");
    m.add_to_name("B");
    m.add_cc("c@x.io");
    m.add_bcc("d@x.io");
    m.add_bcc("e@x.io");
    let body = make_post_body(m).unwrap();
    assert_eq!(
        body,
        "to%5B%5D=a%40x.io&to%5B%5D=b%40x.io&to%5B%5D=a%40x.io&toname%5B%5D=A&toname%5B%5D=B\
         &cc%5B%5D=c%40x.io&bcc%5B%5D=d%40x.io&bcc%5B%5D=e%40x.io\
         &from=&subject=&html=&text=&fromname=&replyto=&date=&headers=%7B%7D&x-smtpapi="
    );
    assert_eq!(body.matches("to%5B%5D=").count(), 3);
    assert_eq!(body.matches("bcc%5B%5D=").count(), 2);
}

#[test]
fn every_keyed_entry_is_emitted_once() {
    let mut m = Mail::new();
    m.add_attachment("a.txt", "one");
    m.add_attachment("b.txt", "two");
    m.add_attachment("a.txt", "three");
    m.add_content("logo", "cid");
    let body = make_post_body(m).unwrap();
    assert_eq!(
        body,
        "files%5Ba.txt%5D=three&files%5Bb.txt%5D=two&content%5Blogo%5D=cid\
         &from=&subject=&html=&text=&fromname=&replyto=&date=&headers=%7B%7D&x-smtpapi="
    );
    assert_eq!(body.matches("files%5Ba.txt%5D=").count(), 1);
}

fn sample() -> Mail {
    let mut m = Mail::new();
    m.add_to("test@example.com");
    m.add_header("X-Tag", "one");
    m.add_attachment("f.bin", "bytes");
    m.add_x_smtpapi("{\"category\":\"x\"}");
    m
}

#[test]
fn encoding_is_deterministic() {
    let first = make_post_body(sample()).unwrap();
    let second = make_post_body(sample()).unwrap();
    assert_eq!(first, second);
}

#[test]
fn header_failure_yields_encoding_error_and_no_body() {
    let m = sample();
    let r = post_body_with_headers(&m, Err(SendgridError::Encoding));
    assert_eq!(r, Err(SendgridError::Encoding));
}

#[test]
fn header_text_is_placed_verbatim_before_encoding() {
    let m = Mail::new();
    let r = post_body_with_headers(&m, Ok("{\"a\":\"b\"}".to_string()));
    assert_eq!(
        r.unwrap(),
        "from=&subject=&html=&text=&fromname=&replyto=&date=\
         &headers=%7B%22a%22%3A%22b%22%7D&x-smtpapi="
    );
}

#[test]
fn header_string_is_a_json_object() {
    let mut m = Mail::new();
    assert_eq!(m.make_header_string().unwrap(), "{}");
    m.add_header("X-One", "1");
    m.add_header("X-Quote", "say \"hi\"\n");
    assert_eq!(
        m.make_header_string().unwrap(),
        "{\"X-One\":\"1\",\"X-Quote\":\"say \\\"hi\\\"\\n\"}"
    );
    m.add_header("X-One", "2");
    assert_eq!(
        m.make_header_string().unwrap(),
        "{\"X-One\":\"2\",\"X-Quote\":\"say \\\"hi\\\"\\n\"}"
    );
}

#[test]
fn scalar_fields_in_fixed_order() {
    let mut m = Mail::new();
    m.add_date("Mon, 1 Jan 2024");
    m.add_reply_to("r@x.io");
    m.add_from_name("Me Too");
    m.add_text("t");
    m.add_html("<p>hi</p>");
    m.add_subject("Hello world");
    m.add_from("f@x.io");
    m.add_x_smtpapi("opt");
    let body = make_post_body(m).unwrap();
    assert_eq!(
        body,
        "from=f%40x.io&subject=Hello+world&html=%3Cp%3Ehi%3C%2Fp%3E&text=t&fromname=Me+Too\
         &replyto=r%40x.io&date=Mon%2C+1+Jan+2024&headers=%7B%7D&x-smtpapi=opt"
    );
}

#[test]
fn non_ascii_and_unreserved_bytes() {
    let m = Mail::new();
    let body = encode_post_body(&m, "é*-._~&=+");
    assert!(body.contains("&headers=%C3%A9*-._%7E%26%3D%2B&"));
}

#[test]
fn client_defaults_and_authorization() {
    let c = SGClient::new("SECRET-REDACTED".to_string());
    assert_eq!(c.endpoint(), "https://api.sendgrid.com/api/mail.send.json?");
    assert_eq!(c.authorization(), "Bearer SECRET-REDACTED");
    let c = c.with_endpoint("http://localhost:8080/send");
    assert_eq!(c.endpoint(), "http://localhost:8080/send");
}

#[test]
fn prepared_request_carries_body_and_headers() {
    let c = SGClient::new("key".to_string()).with_user_agent("agent/1");
    let mut m = Mail::new();
    m.add_to("test@example.com");
    let q = c.prepare_send(m).unwrap();
    assert_eq!(q.url, "https://api.sendgrid.com/api/mail.send.json?");
    assert_eq!(
        q.headers,
        vec![
            ("Authorization".to_string(), "Bearer key".to_string()),
            (
                "Content-Type".to_string(),
                "application/x-www-form-urlencoded".to_string()
            ),
            ("User-Agent".to_string(), "agent/1".to_string()),
        ]
    );
    assert_eq!(
        q.body,
        "to%5B%5D=test%40example.com&from=&subject=&html=&text=&fromname=&replyto=&date=\
         &headers=%7B%7D&x-smtpapi="
    );
}

#[test]
fn header_control_characters_use_short_or_unicode_escapes() {
    let mut m = Mail::new();
    m.add_header("K\\", "\u{1}\u{1f}\t\r\u{8}\u{c}é");
    assert_eq!(
        m.make_header_string().unwrap(),
        "{\"K\\\\\":\"\\u0001\\u001f\\t\\r\\b\\fé\"}"
    );
}
