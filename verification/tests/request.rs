use armature_http_client::{HttpClient, HttpClientConfig, HttpClientError, Prepared, RequestBuilder};
use http::header::{HeaderMap, HeaderName, HeaderValue};
use std::collections::BTreeMap;
use std::time::Duration;

fn plain_client() -> HttpClient {
    HttpClient::new(HttpClientConfig::default())
}

fn prepared(builder: RequestBuilder<'_>) -> Prepared {
    builder.prepare().expect("within limits").expect("valid URL")
}

#[test]
fn malformed_request_header_is_warned_not_silently_dropped() {
    let client = plain_client();
    let builder = client
        .get("http://127.0.0.1:1/unreachable")
        .bearer_auth("tok\nen");

    assert!(
        builder.header_value("authorization").is_none(),
        "an invalid header value must not be sent"
    );
    assert_eq!(
        builder.skipped_headers(),
        &vec!["Authorization".to_string()],
        "the malformed request header must be noted"
    );
}

#[test]
fn malformed_default_header_is_warned_not_silently_dropped() {
    let config = HttpClientConfig::builder()
        // A header value containing a raw newline is not a valid
        // `HeaderValue`, forcing the malformed path.
        .default_header("X-Bad", "bad\nvalue")
        .build();
    let client: HttpClient = HttpClient::new(config);

    let prepared = prepared(client.get("http://127.0.0.1:1/unreachable"));

    assert_eq!(
        prepared.skipped_defaults,
        vec![("X-Bad".to_string(), "bad\nvalue".to_string())],
        "the malformed default header must be reported"
    );
    assert!(prepared.spec.headers.get("x-bad").is_none());
}

/// A type that cannot be serialized.
struct AlwaysFails;

impl serde::Serialize for AlwaysFails {
    fn serialize<S>(&self, _serializer: S) -> Result<S::Ok, S::Error>
    where
        S: serde::Serializer,
    {
        Err(<S::Error as serde::ser::Error>::custom(
            "intentional serialization failure",
        ))
    }
}

#[test]
fn json_serialization_failure_is_surfaced() {
    let client = plain_client();
    let result = client
        .post("http://127.0.0.1:1/unreachable")
        .json(serde_json::to_vec(&AlwaysFails).map_err(|e| e.to_string()));

    assert!(
        result.is_err(),
        "expected .json() to return an error on serialization failure"
    );
    assert!(matches!(
        result,
        Err(HttpClientError::Json(m)) if m == "intentional serialization failure"
    ));
}

/// A form with a field that cannot be encoded.
struct BadForm;

impl serde::Serialize for BadForm {
    fn serialize<S>(&self, _serializer: S) -> Result<S::Ok, S::Error>
    where
        S: serde::Serializer,
    {
        Err(<S::Error as serde::ser::Error>::custom("intentional form failure"))
    }
}

#[test]
fn form_encoding_failure_is_surfaced() {
    let client = plain_client();
    let result = client
        .post("http://127.0.0.1:1/unreachable")
        .form(serde_urlencoded::to_string(BadForm).map_err(|e| e.to_string()));

    assert!(
        result.is_err(),
        "expected .form() to return an error on encoding failure"
    );
    assert!(matches!(result, Err(HttpClientError::RequestBuild(_))));

    // Sanity: a well-formed map still succeeds.
    let mut ok_form = BTreeMap::new();
    ok_form.insert("a", "b");
    let ok = client
        .post("http://127.0.0.1:1/unreachable")
        .form(serde_urlencoded::to_string(&ok_form).map_err(|e| e.to_string()));
    assert!(ok.is_ok());
}

#[test]
fn each_method_has_its_builder() {
    let client = plain_client();
    let url = "http://localhost/";
    let cases = vec![
        (client.get(url), "GET"),
        (client.post(url), "POST"),
        (client.put(url), "PUT"),
        (client.patch(url), "PATCH"),
        (client.delete(url), "DELETE"),
        (client.head(url), "HEAD"),
        (client.request(http::Method::OPTIONS, url), "OPTIONS"),
        (
            client.request(http::Method::from_bytes(b"PURGE").expect("token"), url),
            "PURGE",
        ),
    ];
    for (builder, method) in cases {
        let spec = prepared(builder).spec;
        assert_eq!(spec.method.as_str(), method);
        assert_eq!(spec.to_request().method.as_str(), method);
        assert_eq!(spec.url.as_str(), url);
        assert!(spec.headers.is_empty());
        assert_eq!(spec.body, None);
        assert_eq!(spec.timeout, None);
    }
}

#[test]
fn query_parameters_are_appended_in_order() {
    let client = plain_client();
    let builder = client
        .get("http://localhost/search?x=0")
        .query("q", "a b&c")
        .queries(vec![
            ("page".to_string(), "2".to_string()),
            ("page".to_string(), "3".to_string()),
        ])
        .query("last", "");
    assert_eq!(
        builder.build_url().expect("fits").expect("valid").as_str(),
        "http://localhost/search?x=0&q=a+b%26c&page=2&page=3&last="
    );
}

#[test]
fn without_query_the_url_stays() {
    let client = plain_client();
    let builder = client.get("http://localhost/a?b=c#d");
    assert_eq!(builder.build_url().expect("fits").expect("valid").as_str(), "http://localhost/a?b=c#d");
}

#[test]
fn a_base_url_is_joined() {
    let config = HttpClientConfig::builder().base_url("https://api.example.com/v1/").build();
    let client: HttpClient = HttpClient::new(config);
    assert_eq!(
        client.get("users?id=1").build_url().expect("fits").expect("valid").as_str(),
        "https://api.example.com/v1/users?id=1"
    );
    assert_eq!(
        client.get("/users").build_url().expect("fits").expect("valid").as_str(),
        "https://api.example.com/users"
    );
    assert_eq!(
        client.get("http://other.example/").build_url().expect("fits").expect("valid").as_str(),
        "http://other.example/"
    );
}

#[test]
fn an_invalid_url_is_an_error() {
    let client = plain_client();
    let result = client.get("not a url").prepare().expect("within limits");
    assert!(matches!(
        result,
        Err(HttpClientError::InvalidUrl(m)) if m == "relative URL without a base"
    ));
    let config = HttpClientConfig::builder().base_url("http://").build();
    let client: HttpClient = HttpClient::new(config);
    assert!(matches!(
        client.get("http://localhost/").build_url(),
        Some(Err(HttpClientError::InvalidUrl(m))) if m == "empty host"
    ));
}

#[test]
fn request_headers_override_defaults() {
    let config = HttpClientConfig::builder()
        .default_header("X-Mode", "first")
        .default_header("x-mode", "default")
        .default_header("X-Kept", "kept")
        .default_header("X-Kept", "dropped\r\n")
        .build();
    let client: HttpClient = HttpClient::new(config);
    let sent = prepared(client.get("http://localhost/").header("X-MODE", "own"));
    assert_eq!(sent.spec.headers.get("x-mode").map(|v| v.as_bytes()), Some(&b"own"[..]));
    assert_eq!(sent.spec.headers.get_all("x-mode").iter().count(), 1);
    assert_eq!(sent.spec.headers.get("x-kept").map(|v| v.as_bytes()), Some(&b"kept"[..]));
    assert_eq!(sent.skipped_defaults.len(), 1);
    let sent = prepared(client.get("http://localhost/"));
    assert_eq!(sent.spec.headers.get("x-mode").map(|v| v.as_bytes()), Some(&b"default"[..]));
}

#[test]
fn a_map_of_headers_replaces_those_of_the_same_name() {
    let client = plain_client();
    let mut more = HeaderMap::new();
    more.append(HeaderName::from_static("x-a"), HeaderValue::from_static("1"));
    more.append(HeaderName::from_static("x-a"), HeaderValue::from_static("2"));
    let builder = client
        .get("http://localhost/")
        .header("X-A", "0")
        .header("X-B", "b")
        .headers(more);
    assert!(!builder.is_full());
    assert_eq!(builder.header_count(), 2);
    let sent = prepared(builder).spec;
    let values: Vec<&[u8]> = sent.headers.get_all("x-a").iter().map(|v| v.as_bytes()).collect();
    assert_eq!(values, vec![&b"1"[..], &b"2"[..]]);
    assert_eq!(sent.headers.get("x-b").map(|v| v.as_bytes()), Some(&b"b"[..]));
}

/// Headers `x-0`, `x-1` and so on, the first of them with two values.
fn many_headers(count: usize) -> HeaderMap {
    let mut many = HeaderMap::new();
    for i in 0..count {
        let name = HeaderName::from_bytes(format!("x-{i}").as_bytes()).expect("token");
        many.insert(name, HeaderValue::from_static("v"));
        if i == 0 {
            many.append(HeaderName::from_static("x-0"), HeaderValue::from_static("w"));
        }
    }
    many
}

#[test]
fn many_headers_are_taken() {
    let client = plain_client();
    let builder = client
        .get("http://localhost/")
        .header("x-own", "1")
        .header("x-1", "own")
        .headers(many_headers(8000))
        .header("x-2", "last")
        .text("hi");
    assert!(!builder.is_full());
    assert_eq!(builder.header_count(), 8002);
    let sent = prepared(builder).spec;
    let values: Vec<&[u8]> = sent.headers.get_all("x-0").iter().map(|v| v.as_bytes()).collect();
    assert_eq!(values, vec![&b"v"[..], &b"w"[..]]);
    assert_eq!(sent.headers.get("x-own").map(|v| v.as_bytes()), Some(&b"1"[..]));
    assert_eq!(sent.headers.get("x-1").map(|v| v.as_bytes()), Some(&b"v"[..]));
    assert_eq!(sent.headers.get("x-2").map(|v| v.as_bytes()), Some(&b"last"[..]));
    assert_eq!(sent.headers.get("x-7999").map(|v| v.as_bytes()), Some(&b"v"[..]));
}

#[test]
fn headers_that_find_no_room_are_left_out_and_noted() {
    let client = plain_client();
    // The header map holds 24576 names at most.
    let builder = client.get("http://localhost/").headers(many_headers(24576));
    assert!(!builder.is_full());
    let builder = builder.header("x-one-more", "1");
    assert!(builder.is_full());
    assert_eq!(builder.header_count(), 24576);
    assert!(builder.skipped_headers().is_empty());
    assert!(builder.prepare().is_none());

    let builder = client
        .get("http://localhost/")
        .header("x-own", "1")
        .headers(many_headers(24576));
    assert!(builder.is_full());
    assert_eq!(builder.header_count(), 1, "either all of them are taken or none");

    let builder = client.get("http://localhost/").headers(many_headers(24576)).text("hi");
    assert!(builder.is_full());
}

#[test]
fn default_and_own_headers_that_share_names_count_once() {
    let mut config = HttpClientConfig::default();
    for i in 0..4000 {
        config.default_headers.push((format!("X-{i}"), "default".to_string()));
        config.default_headers.push((format!("x-{i}"), "again".to_string()));
    }
    let client: HttpClient = HttpClient::new(config);
    let sent = prepared(client.get("http://localhost/").headers(many_headers(4000))).spec;
    assert_eq!(sent.headers.keys_len(), 4000);
    assert_eq!(sent.headers.get("x-3999").map(|v| v.as_bytes()), Some(&b"v"[..]));
    let sent = prepared(client.get("http://localhost/")).spec;
    assert_eq!(sent.headers.get("x-3999").map(|v| v.as_bytes()), Some(&b"again"[..]));
}

#[test]
fn too_many_default_headers_cannot_be_sent() {
    let mut config = HttpClientConfig::default();
    for i in 0..24577 {
        config.default_headers.push((format!("x-{i}"), "v".to_string()));
    }
    let client: HttpClient = HttpClient::new(config);
    assert!(client.get("http://localhost/").prepare().is_none());
    assert!(matches!(
        client.get("no url").prepare(),
        Some(Err(HttpClientError::InvalidUrl(_)))
    ));
}

#[test]
fn a_query_goes_before_the_fragment() {
    let client = plain_client();
    for (url, extended) in [
        ("http://localhost/a#end", "http://localhost/a?k=%C3%A9+-&l=#end"),
        ("http://localhost/a?#end", "http://localhost/a?k=%C3%A9+-&l=#end"),
        ("http://localhost/a?x=1#end", "http://localhost/a?x=1&k=%C3%A9+-&l=#end"),
        ("http://localhost/a?", "http://localhost/a?k=%C3%A9+-&l="),
    ] {
        let builder = client.get(url).query("k", "\u{e9} -").query("l", "");
        assert_eq!(builder.build_url().expect("fits").expect("valid").as_str(), extended);
    }
}

#[test]
fn a_header_is_set_once_and_read_in_any_case() {
    let client = plain_client();
    let builder = client
        .get("http://localhost/")
        .header("X-Tag", "one")
        .header("x-tag", "two\twords");
    assert_eq!(builder.header_value("X-TAG"), Some("two\twords"));
    assert_eq!(builder.header_count(), 1);
    assert_eq!(builder.header_value("no such name"), None);
    let builder = builder.header("bad name", "v").header("x-utf", "caf\u{e9}");
    assert_eq!(builder.skipped_headers(), &vec!["bad name".to_string()]);
    assert_eq!(builder.header_value("x-utf"), None, "not printable ASCII");
    let sent = prepared(builder).spec;
    assert_eq!(sent.headers.get("x-utf").map(|v| v.as_bytes()), Some("caf\u{e9}".as_bytes()));
}

#[test]
fn bodies_and_content_types() {
    let client = plain_client();
    let raw = prepared(client.post("http://localhost/").body(vec![0, 159, 255])).spec;
    assert_eq!(raw.body, Some(vec![0, 159, 255]));
    assert!(raw.headers.is_empty());

    let text = prepared(client.post("http://localhost/").text("h\u{e9}llo")).spec;
    assert_eq!(text.body, Some("h\u{e9}llo".as_bytes().to_vec()));
    assert_eq!(
        text.headers.get("content-type").map(|v| v.as_bytes()),
        Some(&b"text/plain; charset=utf-8"[..])
    );

    let json = client
        .post("http://localhost/")
        .json(serde_json::to_vec(&vec![1, 2, 3]).map_err(|e| e.to_string()))
        .expect("serialized");
    let json = prepared(json).spec;
    assert_eq!(json.body, Some(b"[1,2,3]".to_vec()));
    assert_eq!(
        json.headers.get("content-type").map(|v| v.as_bytes()),
        Some(&b"application/json"[..])
    );

    let form = client
        .post("http://localhost/")
        .form(serde_urlencoded::to_string([("a", "b c")]).map_err(|e| e.to_string()))
        .expect("encoded");
    let form = prepared(form).spec;
    assert_eq!(form.body, Some(b"a=b+c".to_vec()));
    assert_eq!(
        form.headers.get("content-type").map(|v| v.as_bytes()),
        Some(&b"application/x-www-form-urlencoded"[..])
    );
}

#[test]
fn credentials_are_set() {
    let client = plain_client();
    let builder = client.get("http://localhost/").bearer_auth("abc");
    assert_eq!(builder.header_value("authorization"), Some("Bearer abc"));
    let builder = client.get("http://localhost/").basic_auth("Aladdin", Some("open sesame"));
    assert_eq!(
        builder.header_value("authorization"),
        Some("Basic QWxhZGRpbjpvcGVuIHNlc2FtZQ==")
    );
    let builder = client.get("http://localhost/").basic_auth("user", None);
    assert_eq!(builder.header_value("authorization"), Some("Basic dXNlcjo="));
    let builder = client.get("http://localhost/").basic_auth("line\nbreak", Some("\u{1F600}"));
    assert!(builder.skipped_headers().is_empty());
}

#[test]
fn every_request_built_from_a_spec_is_complete() {
    let client = plain_client();
    let spec = prepared(
        client
            .put("http://localhost/item")
            .header("x-a", "1")
            .body(b"payload".to_vec())
            .timeout(Duration::from_millis(250)),
    )
    .spec;
    for _ in 0..2 {
        let request = spec.to_request();
        assert_eq!(request.method, http::Method::PUT);
        assert_eq!(request.url.as_str(), "http://localhost/item");
        assert_eq!(request.headers.get("x-a").map(|v| v.as_bytes()), Some(&b"1"[..]));
        assert_eq!(request.body, Some(b"payload".to_vec()));
        assert_eq!(request.timeout, Some(Duration::from_millis(250)));
        assert_eq!(request.header_count(), 1);
    }
}
