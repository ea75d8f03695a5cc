use devand_mailer::mailer::MailerConfig;
use devand_mailer::server::{BindAddress, BindOutcome, Lifecycle, Server, ServerConf, StartError};

fn conf() -> ServerConf {
    ServerConf {
        smtp_server: "smtp.example.org".to_string(),
        smtp_username: "robot".to_string(),
        smtp_password: "SECRET-REDACTED".to_string(),
        rpc_http_addr: BindAddress::V4 { octets: [127, 0, 0, 1], port: 3030 },
        from_name: "DevAndDev".to_string(),
    }
}

#[test]
fn new_server_is_unbound_and_keeps_the_address() {
    let (server, _) = Server::new(conf());
    assert_eq!(server.state(), Lifecycle::Unbound);
    assert_eq!(
        server.bind_address(),
        BindAddress::V4 { octets: [127, 0, 0, 1], port: 3030 }
    );
}

#[test]
fn new_server_keeps_a_version_six_address() {
    let addr = BindAddress::V6 {
        segments: [0, 0, 0, 0, 0, 0, 0, 1],
        port: 8080,
        flowinfo: 0,
        scope_id: 0,
    };
    let (server, _) = Server::new(ServerConf { rpc_http_addr: addr, ..conf() });
    assert_eq!(server.bind_address(), addr);
}

#[test]
fn mailer_is_made_of_the_configuration() {
    let (_, mailer) = Server::new(conf());
    assert_eq!(
        *mailer.config(),
        MailerConfig {
            smtp_server: "smtp.example.org".to_string(),
            smtp_username: "robot".to_string(),
            smtp_password: "SECRET-REDACTED".to_string(),
            from_name: "DevAndDev".to_string(),
        }
    );
}

#[test]
fn bound_listener_means_listening() {
    let (server, _) = Server::new(conf());
    let server = server.listen(BindOutcome::Bound).expect("the bind went through");
    assert_eq!(server.state(), Lifecycle::Listening);
    assert_eq!(
        server.bind_address(),
        BindAddress::V4 { octets: [127, 0, 0, 1], port: 3030 }
    );
}

#[test]
fn failed_bind_leaves_no_server() {
    let (server, _) = Server::new(conf());
    match server.listen(BindOutcome::Failed) {
        Err(error) => assert_eq!(error, StartError::BindFailed),
        Ok(_) => panic!("a server whose bind failed must not exist"),
    }
}

#[test]
fn shutdown_stops_a_listening_server() {
    let (server, _) = Server::new(conf());
    let server = server.listen(BindOutcome::Bound).expect("the bind went through");
    let server = server.wait();
    assert_eq!(server.state(), Lifecycle::Stopped);
    assert_eq!(
        server.bind_address(),
        BindAddress::V4 { octets: [127, 0, 0, 1], port: 3030 }
    );
}

#[test]
fn failed_start_has_a_diagnostic() {
    assert_eq!(StartError::BindFailed.diagnostic(), "Unable to start RPC server");
}
