use devand_mailer::mailer::{Delivery, Mailer, MailerConfig, Message};

fn mailer() -> Mailer {
    Mailer::new(
        "smtp.example.org".to_string(),
        "robot".to_string(),
        "SECRET-REDACTED".to_string(),
        "DevAndDev".to_string(),
    )
}

#[test]
fn mailer_keeps_its_configuration() {
    assert_eq!(
        *mailer().config(),
        MailerConfig {
            smtp_server: "smtp.example.org".to_string(),
            smtp_username: "robot".to_string(),
            smtp_password: "SECRET-REDACTED".to_string(),
            from_name: "DevAndDev".to_string(),
        }
    );
}

#[test]
fn message_carries_the_triple_under_the_sender_name() {
    let delivery = Delivery {
        recipient: "a@x.com".to_string(),
        subject: "Hi".to_string(),
        text: "Body".to_string(),
    };
    assert_eq!(
        mailer().compose(&delivery),
        Message {
            from_name: "DevAndDev".to_string(),
            recipient: "a@x.com".to_string(),
            subject: "Hi".to_string(),
            text: "Body".to_string(),
        }
    );
}

#[test]
fn composing_inspects_nothing() {
    let delivery = Delivery {
        recipient: "<<not an address>>".to_string(),
        subject: String::new(),
        text: String::new(),
    };
    let message = mailer().compose(&delivery);
    assert_eq!(message.recipient, "<<not an address>>");
    assert_eq!(message.subject, "");
    assert_eq!(message.text, "");
    assert_eq!(message.from_name, "DevAndDev");
}

#[test]
fn composing_twice_gives_the_same_message() {
    let mailer = mailer();
    let delivery = Delivery {
        recipient: "a@x.com".to_string(),
        subject: "Hi".to_string(),
        text: "Body".to_string(),
    };
    assert_eq!(mailer.compose(&delivery), mailer.compose(&delivery));
}
