use bitlink_client::command::CommandRequest;
use bitlink_client::credentials::ApiToken;
use bitlink_client::error::ErrorKind;
use bitlink_client::request::{
    body, build_request, headers, method, split_tags, url, Header, HttpRequest, Member,
    MemberValue, Method, RequestBody, BASE_URL,
};

fn token() -> ApiToken {
    ApiToken::new("secret-token")
}

fn standard_headers() -> Vec<Header> {
    vec![
        Header { name: "Authorization".to_string(), value: "Bearer secret-token".to_string() },
        Header { name: "Content-Type".to_string(), value: "application/json".to_string() },
    ]
}

fn shorten() -> CommandRequest {
    CommandRequest::Shorten { long_url: "https://example.com/a/long/path".to_string(), verbose: false }
}

fn create(title: Option<&str>, tags: Option<&str>) -> CommandRequest {
    CommandRequest::Create {
        long_url: "https://example.com".to_string(),
        title: title.map(|t| t.to_string()),
        tags: tags.map(|t| t.to_string()),
        verbose: false,
    }
}

fn update(title: Option<&str>, tags: Option<&str>) -> CommandRequest {
    CommandRequest::Update {
        bitlink: "bit.ly/3x".to_string(),
        title: title.map(|t| t.to_string()),
        tags: tags.map(|t| t.to_string()),
        verbose: false,
    }
}

fn to_json(body: &RequestBody) -> serde_json::Value {
    let mut object = serde_json::Map::new();
    for Member { name, value } in body.members() {
        let value = match value {
            MemberValue::Text(text) => serde_json::Value::String(text),
            MemberValue::List(items) => {
                serde_json::Value::Array(items.into_iter().map(serde_json::Value::String).collect())
            }
        };
        object.insert(name, value);
    }
    serde_json::Value::Object(object)
}

#[test]
fn shorten_posts_the_long_url() {
    let request = build_request(&shorten(), &token()).unwrap();
    assert_eq!(
        request,
        HttpRequest {
            method: Method::Post,
            url: "https://api-ssl.bitly.com/v4/shorten".to_string(),
            headers: standard_headers(),
            body: Some(RequestBody {
                long_url: Some("https://example.com/a/long/path".to_string()),
                title: None,
                tags: None,
            }),
        }
    );
}

#[test]
fn create_posts_to_the_collection() {
    let request = build_request(&create(None, None), &token()).unwrap();
    assert_eq!(request.method, Method::Post);
    assert_eq!(request.url, format!("{}/bitlinks", BASE_URL));
    assert_eq!(request.headers, standard_headers());
    assert_eq!(
        request.body,
        Some(RequestBody { long_url: Some("https://example.com".to_string()), title: None, tags: None })
    );
}

#[test]
fn create_splits_the_tags_in_order() {
    let request = build_request(&create(None, Some("a,b,c")), &token()).unwrap();
    let body = request.body.unwrap();
    assert_eq!(body.tags, Some(vec!["a".to_string(), "b".to_string(), "c".to_string()]));
    let json = to_json(&body);
    assert_eq!(
        json.get("tags"),
        Some(&serde_json::Value::Array(vec![
            serde_json::Value::String("a".to_string()),
            serde_json::Value::String("b".to_string()),
            serde_json::Value::String("c".to_string()),
        ]))
    );
    assert_eq!(
        serde_json::to_string(&json).unwrap(),
        "{\"long_url\":\"https://example.com\",\"tags\":[\"a\",\"b\",\"c\"]}"
    );
}

#[test]
fn create_carries_title_and_tags_where_given() {
    let request = build_request(&create(Some("My title"), Some("x, y")), &token()).unwrap();
    let body = request.body.unwrap();
    assert_eq!(body.long_url.as_deref(), Some("https://example.com"));
    assert_eq!(body.title.as_deref(), Some("My title"));
    assert_eq!(body.tags, Some(vec!["x".to_string(), " y".to_string()]));
    assert_eq!(
        serde_json::to_string(&to_json(&body)).unwrap(),
        "{\"long_url\":\"https://example.com\",\"tags\":[\"x\",\" y\"],\"title\":\"My title\"}"
    );
}

#[test]
fn tags_keep_white_space_and_empty_pieces() {
    assert_eq!(split_tags("a, b,"), vec!["a".to_string(), " b".to_string(), "".to_string()]);
    assert_eq!(split_tags(""), vec!["".to_string()]);
    assert_eq!(split_tags("a,a"), vec!["a".to_string(), "a".to_string()]);
}

#[test]
fn delete_has_no_body() {
    let command = CommandRequest::Delete { bitlink: "bit.ly/3x".to_string(), verbose: true };
    let request = build_request(&command, &token()).unwrap();
    assert_eq!(request.method, Method::Delete);
    assert_eq!(request.url, "https://api-ssl.bitly.com/v4/bitlinks/bit.ly/3x");
    assert_eq!(request.headers, standard_headers());
    assert_eq!(request.body, None);
}

#[test]
fn retrieve_has_no_body() {
    let command = CommandRequest::Retrieve { bitlink: "bit.ly/3x".to_string(), verbose: false };
    let request = build_request(&command, &token()).unwrap();
    assert_eq!(request.method, Method::Get);
    assert_eq!(request.url, "https://api-ssl.bitly.com/v4/bitlinks/bit.ly/3x");
    assert_eq!(request.headers, standard_headers());
    assert_eq!(request.body, None);
}

#[test]
fn update_without_title_and_tags_sends_the_empty_object() {
    let request = build_request(&update(None, None), &token()).unwrap();
    assert_eq!(request.method, Method::Patch);
    assert_eq!(request.url, "https://api-ssl.bitly.com/v4/bitlinks/bit.ly/3x");
    let body = request.body.unwrap();
    assert_eq!(body, RequestBody { long_url: None, title: None, tags: None });
    assert!(body.members().is_empty());
    assert_eq!(to_json(&body), serde_json::Value::Object(serde_json::Map::new()));
    assert_eq!(serde_json::to_string(&to_json(&body)).unwrap(), "{}");
}

#[test]
fn update_sends_only_what_is_given() {
    let with_title = build_request(&update(Some("T"), None), &token()).unwrap().body.unwrap();
    assert_eq!(serde_json::to_string(&to_json(&with_title)).unwrap(), "{\"title\":\"T\"}");
    let with_tags = build_request(&update(None, Some("a,b")), &token()).unwrap().body.unwrap();
    assert_eq!(serde_json::to_string(&to_json(&with_tags)).unwrap(), "{\"tags\":[\"a\",\"b\"]}");
    let with_both = build_request(&update(Some("T"), Some("a")), &token()).unwrap().body.unwrap();
    assert_eq!(
        with_both.members(),
        vec![
            Member { name: "tags".to_string(), value: MemberValue::List(vec!["a".to_string()]) },
            Member { name: "title".to_string(), value: MemberValue::Text("T".to_string()) },
        ]
    );
}

#[test]
fn the_link_is_appended_as_it_is() {
    let command = CommandRequest::Retrieve { bitlink: "bit.ly/a b?c#d".to_string(), verbose: false };
    assert_eq!(url(&command), "https://api-ssl.bitly.com/v4/bitlinks/bit.ly/a b?c#d");
}

#[test]
fn the_parts_agree_with_the_request() {
    let command = update(Some("T"), Some("a,b"));
    let request = build_request(&command, &token()).unwrap();
    assert_eq!(method(&command), request.method);
    assert_eq!(url(&command), request.url);
    assert_eq!(body(&command), request.body);
    assert_eq!(headers(&token()).ok(), Some(request.headers));
}

#[test]
fn a_credential_with_a_control_character_is_refused() {
    let bad = ApiToken::new("abc\ndef");
    let e = build_request(&shorten(), &bad).err().unwrap();
    assert_eq!(e.kind, ErrorKind::Header);
    assert_eq!(e.status, None);
    assert_eq!(e.message, "failed to parse header value");
    assert!(headers(&ApiToken::new("a\u{7f}b")).is_err());
    assert!(headers(&ApiToken::new("a\u{0}b")).is_err());
}

#[test]
fn a_credential_with_a_tab_or_other_scripts_is_accepted() {
    assert!(headers(&ApiToken::new("a\tb")).is_ok());
    assert!(headers(&ApiToken::new("clé-ключ")).is_ok());
    assert!(headers(&ApiToken::new("")).is_ok());
    let value = &headers(&ApiToken::new("")).ok().unwrap()[0].value;
    assert_eq!(value, "Bearer ");
}

#[test]
fn the_header_check_is_that_of_the_http_library() {
    for raw in ["plain", "with space", "tab\there", "nul\u{0}", "bell\u{7}", "del\u{7f}", "é", "x\u{85}y"] {
        let token = ApiToken::new(raw);
        let value = format!("Bearer {}", token.as_str());
        let expected = reqwest::header::HeaderValue::from_str(&value).is_ok();
        assert_eq!(headers(&token).is_ok(), expected);
    }
}
