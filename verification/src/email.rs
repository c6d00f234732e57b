//! The message that relays a submission to the target of its endpoint: what
//! it says, and its assembly into a mail that a transport can send.

use crate::config::{Config, EndpointConfig};
use crate::form::FormData;
use crate::text::{break_lines, with_breaks};
use vstd::prelude::*;
use vstd::string::*;

verus! {

/// A mail as `lettre_email` assembles it: headers, body and envelope.
#[verifier::external_type_specification]
#[verifier::external_body]
pub struct ExEmail(lettre_email::Email);

/// The error with which `lettre_email` refuses to assemble a mail.
#[verifier::external_type_specification]
#[verifier::external_body]
pub struct ExAssemblyError(lettre_email::error::Error);

/// What the relayed mail says, and to whom.
#[derive(Debug, PartialEq, Eq)]
pub struct OutboundMessage {
    /// The address of the recipient.
    pub to: String,
    /// The name that the recipient is shown by.
    pub to_name: String,
    /// The address of the sender.
    pub from: String,
    /// The address that answers go to.
    pub reply_to: String,
    pub subject: String,
    /// The body as HTML.
    pub html: String,
    /// The body as plain text.
    pub text: String,
}

/// Why a message could not be sent.
#[derive(Debug, PartialEq, Eq)]
pub struct MailError {
    pub detail: String,
}

/// The words that offer the phone number, where the submission has one.
pub open spec fn phone_clause(phone: Seq<char>) -> Seq<char> {
    if phone.len() == 0 {
        Seq::empty()
    } else {
        " or call "@ + phone
    }
}

/// The subject of the mail that relays a submission by `name` to the
/// endpoint called `endpoint_name`.
pub open spec fn subject_text(endpoint_name: Seq<char>, name: Seq<char>) -> Seq<char> {
    "["@ + endpoint_name + "] Contact from "@ + name
}

/// The body of the mail as HTML.
pub open spec fn html_text(
    name: Seq<char>,
    message: Seq<char>,
    email: Seq<char>,
    phone: Seq<char>,
) -> Seq<char> {
    "<p>"@ + name + " wrote:</p><br><i>"@ + with_breaks(message)
        + "</i><br><br><p>Reply to <a href=\"mailto:"@ + email + "\">"@ + email + "</a> or "@
        + phone_clause(phone) + "</p>"@
}

/// The body of the mail as plain text.
pub open spec fn plain_text(
    name: Seq<char>,
    message: Seq<char>,
    email: Seq<char>,
    phone: Seq<char>,
) -> Seq<char> {
    name + " wrote:\n\n> "@ + message + "\n\nReply to <"@ + email + "> or "@ + phone_clause(phone)
}

/// Whether a mail of `endpoint` can be assembled: whether `lettre` takes
/// both the address of its target and that of its sender for an address.
/// Nothing that a submission holds bears on it.
pub open spec fn can_relay(endpoint: EndpointConfig) -> bool {
    is_address(endpoint.target.email@) && is_address(endpoint.from_email@)
}

/// Whether `message` is the mail that relays `data` to the target of
/// `endpoint`.
pub open spec fn relays(message: OutboundMessage, data: FormData, endpoint: EndpointConfig) -> bool {
    &&& message.to@ == endpoint.target.email@
    &&& message.to_name@ == endpoint.target.email_name@
    &&& message.from@ == endpoint.from_email@
    &&& message.reply_to@ == data.email@
    &&& message.subject@ == subject_text(endpoint.name@, data.name@)
    &&& message.html@ == html_text(data.name@, data.message@, data.email@, data.phone@)
    &&& message.text@ == plain_text(data.name@, data.message@, data.email@, data.phone@)
}

/// Appends to `text` the words that offer `phone`, where there is one.
fn push_phone_clause(text: &mut String, phone: &str)
    ensures
        final(text)@ == old(text)@ + phone_clause(phone@),
{
    if !phone.is_empty() {
        text.append(" or call ");
        text.append(phone);
    }
    assert(text@ =~= old(text)@ + phone_clause(phone@));
}

/// Writes the mail that relays `data` to the target of `endpoint_config`.
pub fn compose(data: &FormData, endpoint_config: &EndpointConfig) -> (message: OutboundMessage)
    ensures
        relays(message, *data, *endpoint_config),
{
    let name = data.name.as_str();
    let email = data.email.as_str();
    let phone = data.phone.as_str();

    let mut subject = String::from_str("[");
    subject.append(endpoint_config.name.as_str());
    subject.append("] Contact from ");
    subject.append(name);

    let marked = break_lines(data.message.as_str());
    let mut html = String::from_str("<p>");
    html.append(name);
    html.append(" wrote:</p><br><i>");
    html.append(marked.as_str());
    html.append("</i><br><br><p>Reply to <a href=\"mailto:");
    html.append(email);
    html.append("\">");
    html.append(email);
    html.append("</a> or ");
    push_phone_clause(&mut html, phone);
    html.append("</p>");

    let mut text = String::from_str(name);
    text.append(" wrote:\n\n> ");
    text.append(data.message.as_str());
    text.append("\n\nReply to <");
    text.append(email);
    text.append("> or ");
    push_phone_clause(&mut text, phone);

    OutboundMessage {
        to: endpoint_config.target.email.clone(),
        to_name: endpoint_config.target.email_name.clone(),
        from: endpoint_config.from_email.clone(),
        reply_to: data.email.clone(),
        subject,
        html,
        text,
    }
}

/// Whether `lettre` takes `text` for an e-mail address.
pub uninterp spec fn is_address(text: Seq<char>) -> bool;

/// Asks `lettre` whether it takes `text` for an e-mail address.
///
/// Trusted: the body is `lettre::EmailAddress::new`, which reads nothing but
/// the text it is given. The contract gives its answer the name `is_address`
/// and claims no more.
#[verifier::external_body]
fn address_accepted(text: &str) -> (accepted: bool)
    ensures
        accepted == is_address(text@),
{
    lettre::EmailAddress::new(text.to_string()).is_ok()
}

/// Hands the parts of a message to the builder of `lettre_email`.
///
/// Trusted: the body is one chain on `lettre_email::EmailBuilder` that ends in
/// `build`. The mail that comes back carries the time of the call and a
/// random message identifier, so nothing is claimed of what it holds. The
/// contract claims when one comes back: `build` fails only where
/// `lettre::EmailAddress` refuses the address of the recipient or that of
/// the sender, which it reads as they were handed in; the reply address,
/// the names, the subject and the bodies are never refused.
#[verifier::external_body]
fn build_email(message: &OutboundMessage) -> (built: Result<
    lettre_email::Email,
    lettre_email::error::Error,
>)
    ensures
        built.is_ok() == (is_address(message.to@) && is_address(message.from@)),
{
    lettre_email::EmailBuilder::new()
        .to((message.to.as_str(), message.to_name.as_str()))
        .from(message.from.as_str())
        .reply_to(message.reply_to.as_str())
        .subject(message.subject.as_str())
        .alternative(message.html.as_str(), message.text.as_str())
        .build()
}

/// The text of an error of `lettre_email`.
///
/// Trusted: the body writes the error as its `Display` shows it. Nothing is
/// claimed of the text.
#[verifier::external_body]
fn assembly_error_text(error: &lettre_email::error::Error) -> (text: String) {
    format!("{}", error)
}

impl OutboundMessage {
    /// Whether `lettre_email` assembles a mail from this message: whether
    /// `lettre` takes both its recipient and its sender for an address.
    pub open spec fn spec_assembles(&self) -> bool {
        is_address(self.to@) && is_address(self.from@)
    }

    /// Assembles the message into a mail for a transport. There is a mail
    /// exactly where `lettre_email` assembles one from the parts of the
    /// message; where it refuses them, the error holds its reason.
    pub fn assemble(&self) -> (mail: Result<lettre_email::Email, MailError>)
        ensures
            mail.is_ok() == self.spec_assembles(),
    {
        match build_email(self) {
            Ok(mail) => Ok(mail),
            Err(error) => Err(MailError { detail: assembly_error_text(&error) }),
        }
    }
}

/// Whether a mail of `endpoint` can be assembled.
pub fn relays_mail(endpoint: &EndpointConfig) -> (yes: bool)
    ensures
        yes == can_relay(*endpoint),
{
    address_accepted(endpoint.target.email.as_str()) && address_accepted(
        endpoint.from_email.as_str(),
    )
}

/// Finds the first endpoint of `config` no mail of which can be assembled:
/// every submission to it would end in a transport failure.
pub fn first_unmailable(config: &Config) -> (place: Option<usize>)
    ensures
        match place {
            Some(p) => {
                &&& p < config.endpoints@.len()
                &&& !can_relay(config.endpoints@[p as int])
                &&& forall|i: int| 0 <= i < p ==> can_relay(#[trigger] config.endpoints@[i])
            },
            None => forall|i: int|
                0 <= i < config.endpoints@.len() ==> can_relay(#[trigger] config.endpoints@[i]),
        },
{
    let n: usize = config.endpoints.len();
    let mut i: usize = 0;
    while i < n
        invariant
            n == config.endpoints@.len(),
            i <= n,
            forall|j: int| 0 <= j < i ==> can_relay(#[trigger] config.endpoints@[j]),
        decreases n - i,
    {
        if !relays_mail(&config.endpoints[i]) {
            return Some(i);
        }
        i += 1;
    }
    None
}

/// What `compose` writes for an endpoint is assembled exactly where a mail of
/// that endpoint can be, whatever the submission holds.
pub proof fn lemma_relay_assembles(message: OutboundMessage, data: FormData, endpoint: EndpointConfig)
    requires
        relays(message, data, endpoint),
    ensures
        message.spec_assembles() == can_relay(endpoint),
{
}

} // verus!
