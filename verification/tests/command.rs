use bitlink_client::command::CommandRequest;
use bitlink_client::error::{Error, ErrorKind};
use bitlink_client::session::{finish, Outcome};

#[test]
fn every_operation_knows_whether_it_is_verbose() {
    for verbose in [false, true] {
        let commands = vec![
            CommandRequest::Shorten { long_url: "u".to_string(), verbose },
            CommandRequest::Create { long_url: "u".to_string(), title: None, tags: None, verbose },
            CommandRequest::Delete { bitlink: "b".to_string(), verbose },
            CommandRequest::Update { bitlink: "b".to_string(), title: None, tags: None, verbose },
            CommandRequest::Retrieve { bitlink: "b".to_string(), verbose },
        ];
        for command in commands {
            assert_eq!(command.verbose(), verbose);
        }
    }
}

#[test]
fn a_failure_carries_its_kind_its_status_and_its_message() {
    let plain = Error::new(ErrorKind::Transport, "no route".to_string());
    assert_eq!(plain.kind, ErrorKind::Transport);
    assert_eq!(plain.status, None);
    assert_eq!(plain.message, "no route");
    let caused = Error::caused(ErrorKind::Decode, "what failed", "why");
    assert_eq!(caused.kind, ErrorKind::Decode);
    assert_eq!(caused.status, None);
    assert_eq!(caused.message, "what failed\n\nCaused by:\n    why");
    let refused = Error::api(418, "teapot".to_string());
    assert_eq!(refused.kind, ErrorKind::Api);
    assert_eq!(refused.status, Some(418));
    assert_eq!(refused.message, "teapot");
}

#[test]
fn a_failure_ends_the_run_with_one_and_a_complaint() {
    assert_eq!(
        finish(Err(Error::api(404, "Failed: 404 Not Found".to_string()))),
        Outcome {
            exit_code: 1,
            output: None,
            complaint: Some("Error: Failed: 404 Not Found".to_string()),
        }
    );
}
