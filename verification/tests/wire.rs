use std::sync::{Arc, Mutex};

use devand_mailer::mailer::{Mailer, Message};
use devand_mailer::rpc::{Action, Event, SendEmailCall, SendOutcome};
use jsonrpc_core::serde_json;
use jsonrpc_core::{IoHandler, Params, Value};

/// A mailer over a transport that records every message and fails the sends
/// whose position, counted from one over the life of the mailer, is listed.
struct RecordingMailer {
    mailer: Mailer,
    failing: Vec<usize>,
    sent: Vec<(Message, SendOutcome)>,
}

impl RecordingMailer {
    fn new(failing: Vec<usize>) -> RecordingMailer {
        RecordingMailer {
            mailer: Mailer::new(
                "smtp.example.org".to_string(),
                "robot".to_string(),
                "SECRET-REDACTED".to_string(),
                "DevAndDev".to_string(),
            ),
            failing,
            sent: Vec::new(),
        }
    }
}

fn send_email(
    shared: &Mutex<RecordingMailer>,
    recipients: Vec<String>,
    subject: String,
    text: String,
) -> jsonrpc_core::Result<()> {
    let mut call = SendEmailCall::new(recipients, subject, text);
    let mut guard = match shared.lock() {
        Ok(guard) => guard,
        Err(_) => {
            call.advance(Event::GuardPoisoned);
            panic!("the mailer guard is poisoned");
        }
    };
    let mut action = call.advance(Event::GuardAcquired);
    loop {
        match action {
            Action::Send(delivery) => {
                let message = guard.mailer.compose(&delivery);
                let position = guard.sent.len() + 1;
                let outcome = if guard.failing.contains(&position) {
                    SendOutcome::Failed
                } else {
                    SendOutcome::Delivered
                };
                guard.sent.push((message, outcome));
                action = call.advance(Event::SendReturned(outcome));
            }
            Action::ReleaseAndReply => return Ok(()),
            Action::Abort | Action::Ignore => unreachable!(),
        }
    }
}

fn service(shared: Arc<Mutex<RecordingMailer>>) -> IoHandler {
    let mut io = IoHandler::new();
    io.add_sync_method("send_email", move |params: Params| {
        let (recipients, subject, text) = params.parse::<(Vec<String>, String, String)>()?;
        send_email(&shared, recipients, subject, text).map(|()| Value::Null)
    });
    io
}

fn message(recipient: &str, subject: &str, text: &str) -> Message {
    Message {
        from_name: "DevAndDev".to_string(),
        recipient: recipient.to_string(),
        subject: subject.to_string(),
        text: text.to_string(),
    }
}

fn parsed(response: Option<String>) -> Value {
    serde_json::from_str(&response.expect("a call with an id is answered")).expect("valid JSON")
}

const REQUEST: &str = "{\"jsonrpc\":\"2.0\",\"method\":\"send_email\",\
                       \"params\":[[\"a@x.com\",\"b@x.com\"],\"Hi\",\"Body\"],\"id\":7}";

#[test]
fn request_with_two_recipients_is_answered_with_success() {
    let shared = Arc::new(Mutex::new(RecordingMailer::new(Vec::new())));
    let response = parsed(service(shared.clone()).handle_request_sync(REQUEST));
    assert_eq!(response["jsonrpc"], "2.0");
    assert_eq!(response["id"], 7);
    assert_eq!(response["result"], Value::Null);
    assert!(response.get("result").is_some());
    assert!(response.get("error").is_none());
    assert_eq!(
        shared.lock().unwrap().sent,
        vec![
            (message("a@x.com", "Hi", "Body"), SendOutcome::Delivered),
            (message("b@x.com", "Hi", "Body"), SendOutcome::Delivered),
        ]
    );
}

#[test]
fn request_whose_second_send_fails_is_answered_with_success() {
    let shared = Arc::new(Mutex::new(RecordingMailer::new(vec![2])));
    let response = parsed(service(shared.clone()).handle_request_sync(REQUEST));
    assert_eq!(response["jsonrpc"], "2.0");
    assert_eq!(response["id"], 7);
    assert!(response.get("result").is_some());
    assert_eq!(response["result"], Value::Null);
    assert!(response.get("error").is_none());
    assert_eq!(
        shared.lock().unwrap().sent,
        vec![
            (message("a@x.com", "Hi", "Body"), SendOutcome::Delivered),
            (message("b@x.com", "Hi", "Body"), SendOutcome::Failed),
        ]
    );
}

#[test]
fn request_without_recipients_is_answered_with_success() {
    let shared = Arc::new(Mutex::new(RecordingMailer::new(Vec::new())));
    let request = "{\"jsonrpc\":\"2.0\",\"method\":\"send_email\",\
                   \"params\":[[],\"Hi\",\"Body\"],\"id\":\"first\"}";
    let response = parsed(service(shared.clone()).handle_request_sync(request));
    assert_eq!(response["id"], "first");
    assert_eq!(response["result"], Value::Null);
    assert!(response.get("error").is_none());
    assert!(shared.lock().unwrap().sent.is_empty());
}

#[test]
fn malformed_params_never_reach_the_mailer() {
    let shared = Arc::new(Mutex::new(RecordingMailer::new(Vec::new())));
    let request = "{\"jsonrpc\":\"2.0\",\"method\":\"send_email\",\
                   \"params\":[\"a@x.com\",\"Hi\"],\"id\":3}";
    let response = parsed(service(shared.clone()).handle_request_sync(request));
    assert_eq!(response["id"], 3);
    assert!(response.get("error").is_some());
    assert!(response.get("result").is_none());
    assert!(shared.lock().unwrap().sent.is_empty());
}

#[test]
fn successive_requests_share_the_one_mailer() {
    let shared = Arc::new(Mutex::new(RecordingMailer::new(vec![1, 3])));
    let io = service(shared.clone());
    let first = parsed(io.handle_request_sync(REQUEST));
    let second = parsed(io.handle_request_sync(REQUEST));
    assert_eq!(first["result"], Value::Null);
    assert_eq!(second["result"], Value::Null);
    let sent = shared.lock().unwrap();
    let seen: Vec<(&str, SendOutcome)> =
        sent.sent.iter().map(|(m, o)| (m.recipient.as_str(), *o)).collect();
    assert_eq!(
        seen,
        vec![
            ("a@x.com", SendOutcome::Failed),
            ("b@x.com", SendOutcome::Delivered),
            ("a@x.com", SendOutcome::Failed),
            ("b@x.com", SendOutcome::Delivered),
        ]
    );
}
