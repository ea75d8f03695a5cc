//! Core of a mail-dispatch RPC service.
//!
//! The service accepts `send_email` calls, fans each call out into one
//! single-recipient send per recipient, and serialises all use of the one
//! shared [`mailer::Mailer`] behind an exclusive guard. This crate holds the
//! decisions of that service as verified, I/O-free code: the hosting process
//! performs the sends, owns the lock and the listener, and feeds the outcomes
//! back in.

pub mod cors;
pub mod exclusion;
pub mod mailer;
pub mod rpc;
pub mod server;
pub mod text;
