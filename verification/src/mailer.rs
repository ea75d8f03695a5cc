//! The mailer façade: the sender identity and SMTP parameters of the service,
//! and the translation of one `(recipient, subject, text)` triple into the
//! message that is handed to the mail transport.

use vstd::prelude::*;

verus! {

/// One single-recipient send as the RPC layer requests it.
#[derive(Debug, PartialEq, Eq)]
pub struct Delivery {
    pub recipient: String,
    pub subject: String,
    pub text: String,
}

/// Mathematical model of a [`Delivery`].
pub struct DeliveryView {
    pub recipient: Seq<char>,
    pub subject: Seq<char>,
    pub text: Seq<char>,
}

impl View for Delivery {
    type V = DeliveryView;

    open spec fn view(&self) -> DeliveryView {
        DeliveryView { recipient: self.recipient@, subject: self.subject@, text: self.text@ }
    }
}

/// SMTP connection parameters and the display name that mail is sent under.
#[derive(Debug, PartialEq, Eq)]
pub struct MailerConfig {
    pub smtp_server: String,
    pub smtp_username: String,
    pub smtp_password: String,
    pub from_name: String,
}

/// Mathematical model of a [`MailerConfig`].
pub struct MailerConfigView {
    pub smtp_server: Seq<char>,
    pub smtp_username: Seq<char>,
    pub smtp_password: Seq<char>,
    pub from_name: Seq<char>,
}

impl View for MailerConfig {
    type V = MailerConfigView;

    open spec fn view(&self) -> MailerConfigView {
        MailerConfigView {
            smtp_server: self.smtp_server@,
            smtp_username: self.smtp_username@,
            smtp_password: self.smtp_password@,
            from_name: self.from_name@,
        }
    }
}

/// A fully formed message for one recipient, ready for the mail transport.
#[derive(Debug, PartialEq, Eq)]
pub struct Message {
    pub from_name: String,
    pub recipient: String,
    pub subject: String,
    pub text: String,
}

/// Mathematical model of a [`Message`].
pub struct MessageView {
    pub from_name: Seq<char>,
    pub recipient: Seq<char>,
    pub subject: Seq<char>,
    pub text: Seq<char>,
}

impl View for Message {
    type V = MessageView;

    open spec fn view(&self) -> MessageView {
        MessageView {
            from_name: self.from_name@,
            recipient: self.recipient@,
            subject: self.subject@,
            text: self.text@,
        }
    }
}

/// The message that a mailer configured as `config` sends for `delivery`:
/// the triple as given, under the configured sender name.
pub open spec fn message_for(config: MailerConfigView, delivery: DeliveryView) -> MessageView {
    MessageView {
        from_name: config.from_name,
        recipient: delivery.recipient,
        subject: delivery.subject,
        text: delivery.text,
    }
}

/// Façade over the mail transport. Its configuration is fixed at construction.
#[derive(Debug)]
pub struct Mailer {
    config: MailerConfig,
}

impl View for Mailer {
    type V = MailerConfigView;

    closed spec fn view(&self) -> MailerConfigView {
        self.config@
    }
}

impl Mailer {
    /// Builds the mailer from the SMTP endpoint, its credentials and the
    /// sender's display name.
    pub fn new(
        smtp_server: String,
        smtp_username: String,
        smtp_password: String,
        from_name: String,
    ) -> (mailer: Mailer)
        ensures
            mailer@ == (MailerConfigView {
                smtp_server: smtp_server@,
                smtp_username: smtp_username@,
                smtp_password: smtp_password@,
                from_name: from_name@,
            }),
    {
        Mailer { config: MailerConfig { smtp_server, smtp_username, smtp_password, from_name } }
    }

    /// The connection parameters that the transport is to use.
    pub fn config(&self) -> (config: &MailerConfig)
        ensures
            config@ == self@,
    {
        &self.config
    }

    /// Translates one delivery into the message for the transport. Nothing
    /// of the triple is inspected or altered: a malformed address goes
    /// through as it is.
    pub fn compose(&self, delivery: &Delivery) -> (message: Message)
        ensures
            message@ == message_for(self@, delivery@),
    {
        Message {
            from_name: self.config.from_name.clone(),
            recipient: delivery.recipient.clone(),
            subject: delivery.subject.clone(),
            text: delivery.text.clone(),
        }
    }
}

} // verus!
