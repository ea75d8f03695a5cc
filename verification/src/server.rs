//! The transport server: its configuration and its life cycle.
//!
//! Binding the listener and serving connections is the host's work. The
//! server here is what the host consults: where to bind, and what state the
//! service is in once the host reports how the bind went and when the
//! listener has shut down. Which requests the listener lets through is laid
//! down in [`crate::cors`].

use vstd::prelude::*;
use crate::mailer::{Mailer, MailerConfigView};

verus! {

/// The socket address of the HTTP listener, in version 4 or 6 of the
/// internet protocol.
#[derive(Debug, Clone, Copy, PartialEq, Eq)]
pub enum BindAddress {
    V4 { octets: [u8; 4], port: u16 },
    V6 { segments: [u16; 8], port: u16, flowinfo: u32, scope_id: u32 },
}

/// Everything the service is started with. None of it is changed afterwards.
#[derive(Debug)]
pub struct ServerConf {
    pub smtp_server: String,
    pub smtp_username: String,
    pub smtp_password: String,
    pub rpc_http_addr: BindAddress,
    pub from_name: String,
}

/// The states of the transport server.
#[derive(Debug, Clone, Copy, PartialEq, Eq, Structural)]
pub enum Lifecycle {
    /// Configured; the listener is not bound yet.
    Unbound,
    /// Bound and serving requests.
    Listening,
    /// Shut down.
    Stopped,
}

/// What the host reports of its one attempt to bind the listener.
#[derive(Debug, Clone, Copy, PartialEq, Eq, Structural)]
pub enum BindOutcome {
    Bound,
    Failed,
}

/// Why the service did not start.
#[derive(Debug, Clone, Copy, PartialEq, Eq, Structural)]
pub enum StartError {
    /// The listener could not be bound, for one because the address is in use.
    BindFailed,
}

impl StartError {
    /// The diagnostic that the process is to end with.
    pub fn diagnostic(&self) -> (text: String)
        ensures
            text@ == "Unable to start RPC server"@,
    {
        "Unable to start RPC server".to_owned()
    }
}

/// Mathematical model of a [`Server`].
pub struct ServerView {
    pub addr: BindAddress,
    pub state: Lifecycle,
}

/// The transport server of the service.
#[derive(Debug)]
pub struct Server {
    addr: BindAddress,
    state: Lifecycle,
}

impl View for Server {
    type V = ServerView;

    closed spec fn view(&self) -> ServerView {
        ServerView { addr: self.addr, state: self.state }
    }
}

impl Server {
    /// Builds the service from its configuration: the transport server, not
    /// yet bound, and the one mailer of the process, made of the SMTP
    /// parameters and the sender name.
    pub fn new(conf: ServerConf) -> (service: (Server, Mailer))
        ensures
            service.0@ == (ServerView { addr: conf.rpc_http_addr, state: Lifecycle::Unbound }),
            service.1@ == (MailerConfigView {
                smtp_server: conf.smtp_server@,
                smtp_username: conf.smtp_username@,
                smtp_password: conf.smtp_password@,
                from_name: conf.from_name@,
            }),
    {
        let ServerConf { from_name, smtp_server, smtp_username, smtp_password, rpc_http_addr } =
            conf;
        let mailer = Mailer::new(smtp_server, smtp_username, smtp_password, from_name);
        let server = Server { addr: rpc_http_addr, state: Lifecycle::Unbound };
        (server, mailer)
    }

    /// The address that the listener is to be bound to.
    pub fn bind_address(&self) -> (addr: BindAddress)
        ensures
            addr == self@.addr,
    {
        self.addr
    }

    /// The state that the server is in.
    pub fn state(&self) -> (state: Lifecycle)
        ensures
            state == self@.state,
    {
        self.state
    }

    /// Takes the outcome of the bind attempt. A server whose listener is
    /// bound is listening; one whose bind failed is given up for good: no
    /// server is left to retry with.
    pub fn listen(self, outcome: BindOutcome) -> (started: Result<Server, StartError>)
        requires
            self@.state == Lifecycle::Unbound,
        ensures
            outcome == BindOutcome::Bound ==> started is Ok && started->Ok_0@ == (ServerView {
                state: Lifecycle::Listening,
                ..self@
            }),
            outcome == BindOutcome::Failed ==> started == Err::<Server, StartError>(
                StartError::BindFailed,
            ),
    {
        match outcome {
            BindOutcome::Bound => Ok(Server { addr: self.addr, state: Lifecycle::Listening }),
            BindOutcome::Failed => Err(StartError::BindFailed),
        }
    }

    /// Ends the life of a listening server: the host calls this when its
    /// blocking wait on the listener has returned, that is, on shutdown.
    pub fn wait(self) -> (stopped: Server)
        requires
            self@.state == Lifecycle::Listening,
        ensures
            stopped@ == (ServerView { state: Lifecycle::Stopped, ..self@ }),
    {
        Server { addr: self.addr, state: Lifecycle::Stopped }
    }
}

} // verus!
