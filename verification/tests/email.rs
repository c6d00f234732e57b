use lettre::SendableEmail;
use static_contact::config::{Config, EndpointConfig, ServerConfig, TargetConfig};
use static_contact::email::{compose, first_unmailable, relays_mail};
use static_contact::form::FormData;

fn my_site() -> EndpointConfig {
    EndpointConfig {
        identifier: "mysiteidentifier".to_string(),
        name: "My Site".to_string(),
        domain: "http://mysite.domain".to_string(),
        from_email: "relay@example.org".to_string(),
        max_message_length: 1000,
        max_name_length: 100,
        target: TargetConfig {
            email: "owner@example.org".to_string(),
            email_name: "Owner".to_string(),
        },
    }
}

fn from_mr_foo(phone: &str, message: &str) -> FormData {
    FormData {
        name: "Mr. Foo Bar".to_string(),
        email: "mrfoo@bar.com".to_string(),
        phone: phone.to_string(),
        message: message.to_string(),
        identifier: "mysiteidentifier".to_string(),
    }
}

#[test]
fn the_mail_goes_to_the_target_of_the_endpoint() {
    let message = compose(&from_mr_foo("+49012345678", "Media is the massage"), &my_site());
    assert_eq!(message.to, "owner@example.org");
    assert_eq!(message.to_name, "Owner");
    assert_eq!(message.from, "relay@example.org");
    assert_eq!(message.reply_to, "mrfoo@bar.com");
}

#[test]
fn the_subject_names_endpoint_and_sender() {
    let message = compose(&from_mr_foo("+49012345678", "Media is the massage"), &my_site());
    assert_eq!(message.subject, "[My Site] Contact from Mr. Foo Bar");
}

#[test]
fn the_bodies_with_a_phone_number() {
    let message = compose(&from_mr_foo("+49012345678", "Media is the massage"), &my_site());
    assert_eq!(
        message.html,
        "<p>Mr. Foo Bar wrote:</p><br><i>Media is the massage</i><br><br><p>Reply to \
         <a href=\"mailto:mrfoo@bar.com\">mrfoo@bar.com</a> or  or call +49012345678</p>"
    );
    assert_eq!(
        message.text,
        "Mr. Foo Bar wrote:\n\n> Media is the massage\n\nReply to <mrfoo@bar.com> or  or call \
         +49012345678"
    );
}

#[test]
fn the_bodies_without_a_phone_number() {
    let message = compose(&from_mr_foo("", "Media is the massage"), &my_site());
    assert_eq!(
        message.html,
        "<p>Mr. Foo Bar wrote:</p><br><i>Media is the massage</i><br><br><p>Reply to \
         <a href=\"mailto:mrfoo@bar.com\">mrfoo@bar.com</a> or </p>"
    );
    assert_eq!(
        message.text,
        "Mr. Foo Bar wrote:\n\n> Media is the massage\n\nReply to <mrfoo@bar.com> or "
    );
}

#[test]
fn line_feeds_of_the_message_are_breaks_in_html_only() {
    let message = compose(&from_mr_foo("", "one\ntwo\n"), &my_site());
    assert_eq!(
        message.html,
        "<p>Mr. Foo Bar wrote:</p><br><i>one<br>two<br></i><br><br><p>Reply to \
         <a href=\"mailto:mrfoo@bar.com\">mrfoo@bar.com</a> or </p>"
    );
    assert_eq!(
        message.text,
        "Mr. Foo Bar wrote:\n\n> one\ntwo\n\n\nReply to <mrfoo@bar.com> or "
    );
}

#[test]
fn a_message_with_valid_addresses_is_assembled() {
    let message = compose(&from_mr_foo("", "Media is the massage"), &my_site());
    let mail = match message.assemble() {
        Ok(mail) => mail,
        Err(error) => panic!("the assembly failed: {}", error.detail),
    };
    let sendable: SendableEmail = mail.into();
    assert_eq!(sendable.envelope().to().len(), 1);
    assert_eq!(sendable.envelope().to()[0].to_string(), "owner@example.org");
    assert_eq!(sendable.envelope().from().unwrap().to_string(), "relay@example.org");
    let written = sendable.message_to_string().unwrap();
    assert!(written.contains("Subject: [My Site] Contact from Mr. Foo Bar"));
    assert!(written.contains("Media is the massage"));
}

#[test]
fn a_message_without_a_valid_sender_is_not_assembled() {
    let mut endpoint = my_site();
    endpoint.from_email = "".to_string();
    let message = compose(&from_mr_foo("", "Media is the massage"), &endpoint);
    match message.assemble() {
        Ok(_) => panic!("a mail without a sender was assembled"),
        Err(error) => assert!(!error.detail.is_empty()),
    }
}

#[test]
fn a_message_without_a_valid_recipient_is_not_assembled() {
    let mut endpoint = my_site();
    endpoint.target.email = "owner at example".to_string();
    let message = compose(&from_mr_foo("", "Media is the massage"), &endpoint);
    match message.assemble() {
        Ok(_) => panic!("a mail without a recipient was assembled"),
        Err(error) => assert_eq!(error.detail, "invalid email address"),
    }
}

#[test]
fn the_same_message_is_always_assembled_or_never() {
    let good = compose(&from_mr_foo("+49012345678", "one\ntwo"), &my_site());
    assert!(good.assemble().is_ok());
    assert!(good.assemble().is_ok());
    let mut endpoint = my_site();
    endpoint.from_email = "relay".to_string();
    let bad = compose(&from_mr_foo("+49012345678", "one\ntwo"), &endpoint);
    assert!(bad.assemble().is_err());
    assert!(bad.assemble().is_err());
}

#[test]
fn the_reply_address_does_not_stop_the_assembly() {
    let mut data = from_mr_foo("", "Media is the massage");
    data.email = "not an address".to_string();
    let message = compose(&data, &my_site());
    assert!(message.assemble().is_ok());
}

fn sites(endpoints: Vec<EndpointConfig>) -> Config {
    Config {
        server: ServerConfig {
            ip: "127.0.0.1".to_string(),
            port: 8088,
            max_payload: 4096,
            smtp_server: "smtp.example.org".to_string(),
            smtp_user: "relay".to_string(),
            smtp_password: "SECRET-REDACTED".to_string(),
        },
        endpoints,
    }
}

fn site_with(target: &str, sender: &str) -> EndpointConfig {
    let mut endpoint = my_site();
    endpoint.target.email = target.to_string();
    endpoint.from_email = sender.to_string();
    endpoint
}

#[test]
fn an_endpoint_with_two_addresses_relays_mail() {
    assert!(relays_mail(&my_site()));
    assert!(relays_mail(&site_with("a@b.cd", "x.y@example.org")));
}

#[test]
fn an_endpoint_without_two_addresses_relays_no_mail() {
    assert!(!relays_mail(&site_with("owner", "relay@example.org")));
    assert!(!relays_mail(&site_with("owner@example.org", "relay@")));
    assert!(!relays_mail(&site_with("", "")));
    assert!(!relays_mail(&site_with("owner@example.org", "re lay@example.org")));
}

#[test]
fn an_endpoint_relays_mail_exactly_where_its_mail_is_assembled() {
    let endpoints = vec![
        my_site(),
        site_with("owner", "relay@example.org"),
        site_with("owner@example.org", "relay"),
        site_with("@", "@"),
        site_with("owner@localhost", "relay@localhost"),
    ];
    for endpoint in endpoints {
        let message = compose(&from_mr_foo("+49012345678", "one\ntwo"), &endpoint);
        assert_eq!(message.assemble().is_ok(), relays_mail(&endpoint));
    }
}

#[test]
fn the_first_endpoint_that_relays_no_mail_is_found() {
    assert_eq!(first_unmailable(&sites(vec![])), None);
    assert_eq!(first_unmailable(&sites(vec![my_site(), my_site()])), None);
    let config = sites(vec![
        my_site(),
        site_with("owner@example.org", "nobody"),
        site_with("nobody", "relay@example.org"),
    ]);
    assert_eq!(first_unmailable(&config), Some(1));
}
