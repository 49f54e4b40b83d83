use bitlink_client::command::CommandRequest;
use bitlink_client::error::ErrorKind;
use bitlink_client::resource::BitlinkResource;
use bitlink_client::response::{
    describe_option, describe_status, handle, is_success, refused, render, show_create_context,
    show_link, show_link_context, show_option, show_retrieved, show_shorten_context, show_status,
    show_updated, undecodable, unsent,
};

fn resource() -> BitlinkResource {
    BitlinkResource {
        references: serde_json::Value::Object(serde_json::Map::new()),
        link: "https://bit.ly/3x".to_string(),
        id: "bit.ly/3x".to_string(),
        long_url: "https://example.com".to_string(),
        archived: false,
        created_at: "2024-05-01T12:00:00+0000".to_string(),
        custom_bitlinks: vec![],
        tags: vec![],
        deeplinks: vec![],
    }
}

fn shorten(verbose: bool) -> CommandRequest {
    CommandRequest::Shorten { long_url: "https://example.com".to_string(), verbose }
}

fn create(verbose: bool) -> CommandRequest {
    CommandRequest::Create {
        long_url: "https://example.com".to_string(),
        title: Some("My \"best\" link".to_string()),
        tags: None,
        verbose,
    }
}

fn delete(verbose: bool) -> CommandRequest {
    CommandRequest::Delete { bitlink: "bit.ly/3x".to_string(), verbose }
}

fn update(verbose: bool) -> CommandRequest {
    CommandRequest::Update {
        bitlink: "bit.ly/3x".to_string(),
        title: Some("New title".to_string()),
        tags: Some("a,b".to_string()),
        verbose,
    }
}

fn retrieve(verbose: bool) -> CommandRequest {
    CommandRequest::Retrieve { bitlink: "bit.ly/3x".to_string(), verbose }
}

fn all(verbose: bool) -> Vec<CommandRequest> {
    vec![shorten(verbose), create(verbose), delete(verbose), update(verbose), retrieve(verbose)]
}

#[test]
fn success_is_the_range_from_200_to_299() {
    assert!(!is_success(0));
    assert!(!is_success(199));
    assert!(is_success(200));
    assert!(is_success(204));
    assert!(is_success(299));
    assert!(!is_success(300));
    assert!(!is_success(404));
    assert!(!is_success(65535));
}

#[test]
fn success_agrees_with_the_http_library() {
    for n in 100u16..1000 {
        assert_eq!(is_success(n), reqwest::StatusCode::from_u16(n).unwrap().is_success());
    }
}

#[test]
fn a_status_is_shown_with_its_phrase() {
    assert_eq!(describe_status(200), "200 OK");
    assert_eq!(describe_status(404), "404 Not Found");
    assert_eq!(describe_status(500), "500 Internal Server Error");
    assert_eq!(describe_status(403), "403 Forbidden");
}

#[test]
fn a_status_without_a_phrase_says_so() {
    assert_eq!(describe_status(599), "599 <unknown status code>");
    assert_eq!(describe_status(42), "42 <unknown status code>");
    assert_eq!(describe_status(1000), "1000 <unknown status code>");
}

#[test]
fn a_status_is_shown_as_the_http_library_shows_it() {
    for n in 100u16..1000 {
        assert_eq!(describe_status(n), reqwest::StatusCode::from_u16(n).unwrap().to_string());
    }
}

#[test]
fn a_status_is_shown_with_the_phrase_that_is_given() {
    assert_eq!(show_status(404, Some("Not Found")), "404 Not Found");
    assert_eq!(show_status(7, None), "7 <unknown status code>");
    assert_eq!(show_status(200, Some("")), "200 ");
}

#[test]
fn an_optional_value_is_shown_as_some_or_none() {
    assert_eq!(show_option(Some("\"a\"")), "Some(\"a\")");
    assert_eq!(show_option(None), "None");
    assert_eq!(describe_option(&Some("a,b".to_string())), "Some(\"a,b\")");
    assert_eq!(describe_option(&Some("say \"hi\"\n".to_string())), "Some(\"say \\\"hi\\\"\\n\")");
    assert_eq!(describe_option(&None), "None");
}

#[test]
fn the_lines_are_put_together_from_their_parts() {
    assert_eq!(show_link("https://bit.ly/3x"), "Bitlink: https://bit.ly/3x");
    assert_eq!(show_retrieved("\"https://bit.ly/3x\""), "Retrieved Bitlink: \"https://bit.ly/3x\"");
    assert_eq!(
        show_updated("bit.ly/3x", "None", "Some(\"a\")"),
        "Bitlink 'bit.ly/3x' updated successfully with title 'None' and tags 'Some(\"a\")'!"
    );
    assert_eq!(show_shorten_context("u"), "Failed to shorten link at u: ");
    assert_eq!(
        show_create_context("\"u\"", "None", "Some(\"t\")"),
        "Failed to create Bitlink from link '\"u\"', with tags 'None', and title 'Some(\"t\")': "
    );
    assert_eq!(show_link_context("delete", "bit.ly/3x"), "Failed to delete Bitlink (bit.ly/3x): ");
}

#[test]
fn shorten_prints_the_link_alone() {
    assert_eq!(render(&shorten(false), &resource()), "Bitlink: https://bit.ly/3x");
    assert_eq!(handle(&shorten(false), 200, Ok(resource())).unwrap(), "Bitlink: https://bit.ly/3x");
}

#[test]
fn create_and_delete_print_the_link_alone() {
    assert_eq!(handle(&create(false), 201, Ok(resource())).unwrap(), "Bitlink: https://bit.ly/3x");
    assert_eq!(handle(&delete(false), 200, Ok(resource())).unwrap(), "Bitlink: https://bit.ly/3x");
}

#[test]
fn retrieve_prints_the_link_in_quotes() {
    assert_eq!(
        handle(&retrieve(false), 200, Ok(resource())).unwrap(),
        "Retrieved Bitlink: \"https://bit.ly/3x\""
    );
}

#[test]
fn update_confirms_with_the_link_the_title_and_the_tags() {
    assert_eq!(
        handle(&update(false), 200, Ok(resource())).unwrap(),
        "Bitlink 'bit.ly/3x' updated successfully with title 'Some(\"New title\")' and tags 'Some(\"a,b\")'!"
    );
    let bare = CommandRequest::Update {
        bitlink: "bit.ly/3x".to_string(),
        title: None,
        tags: None,
        verbose: false,
    };
    assert_eq!(
        handle(&bare, 200, Ok(resource())).unwrap(),
        "Bitlink 'bit.ly/3x' updated successfully with title 'None' and tags 'None'!"
    );
}

#[test]
fn verbose_prints_the_dump_for_every_operation() {
    let dump = resource().dump();
    for command in all(true) {
        assert_eq!(handle(&command, 200, Ok(resource())).unwrap(), dump);
    }
}

#[test]
fn a_refusal_names_the_operation_and_the_status() {
    assert_eq!(
        refused(&shorten(false), 404).message,
        "Failed to shorten link at https://example.com: 404 Not Found"
    );
    assert_eq!(
        refused(&create(false), 400).message,
        "Failed to create Bitlink from link '\"https://example.com\"', with tags 'None', and title 'Some(\"My \\\"best\\\" link\")': 400 Bad Request"
    );
    assert_eq!(
        refused(&delete(false), 403).message,
        "Failed to delete Bitlink (bit.ly/3x): 403 Forbidden"
    );
    assert_eq!(
        refused(&update(false), 500).message,
        "Failed to update Bitlink (bit.ly/3x): 500 Internal Server Error"
    );
    assert_eq!(
        refused(&retrieve(true), 404).message,
        "Failed to retrieve Bitlink (bit.ly/3x): 404 Not Found"
    );
}

#[test]
fn a_refusal_carries_the_status() {
    for status in [100u16, 199, 300, 301, 400, 404, 429, 500, 503, 999] {
        for verbose in [false, true] {
            for command in all(verbose) {
                let e = handle(&command, status, Ok(resource())).err().unwrap();
                assert_eq!(e.kind, ErrorKind::Api);
                assert_eq!(e.status, Some(status));
                assert!(e.message.contains(&status.to_string()));
                assert!(e.message.starts_with("Failed to "));
            }
        }
    }
}

#[test]
fn a_refusal_does_not_look_at_the_body() {
    let with_resource = handle(&retrieve(false), 404, Ok(resource())).err().unwrap();
    let without = handle(&retrieve(false), 404, Err("EOF while parsing".to_string())).err().unwrap();
    assert_eq!(with_resource, without);
}

#[test]
fn a_success_without_a_resource_is_a_decode_failure() {
    let detail = "missing field `link` at line 1 column 2";
    for command in all(false) {
        let e = handle(&command, 200, Err(detail.to_string())).err().unwrap();
        assert_eq!(e.kind, ErrorKind::Decode);
        assert_eq!(e.status, None);
        assert_eq!(
            e.message,
            "error decoding response body\n\nCaused by:\n    missing field `link` at line 1 column 2"
        );
        assert_eq!(e, undecodable(detail));
    }
}

#[test]
fn a_request_that_was_not_sent_names_its_target() {
    let e = unsent("https://api-ssl.bitly.com/v4/shorten", "connection refused");
    assert_eq!(e.kind, ErrorKind::Transport);
    assert_eq!(e.status, None);
    assert_eq!(
        e.message,
        "error sending request for url (https://api-ssl.bitly.com/v4/shorten)\n\nCaused by:\n    connection refused"
    );
}
