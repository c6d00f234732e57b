//! The course of one request: resolve the endpoint, check the lengths, have
//! the address probed, send the mail, answer. The work that is done
//! elsewhere, the probe and the sending, is asked for as an action and comes
//! back as an event.

use crate::config::{lemma_lookup_of_unknown, Config, EndpointConfig};
use crate::email::{can_relay, compose, relays, MailError, OutboundMessage};
use crate::form::{
    deliverability_violations, lemma_conclusive_finding_is_a_violation, length_violations, FormData,
};
use crate::probe::{Level, Note, ProbeReport};
use crate::text::{joined, trimmed};
use crate::verdict::ValidationError;
use vstd::prelude::*;
use vstd::string::*;

verus! {

/// The address that the probe introduces itself with.
pub const PROBE_SENDER: &'static str = "dh@atoav.com";

/// The domain that the transport introduces itself with.
pub const CLIENT_DOMAIN: &'static str = "atoav.com";

/// How a request ended.
#[derive(Clone, Copy, Debug, PartialEq, Eq, Structural)]
pub enum Outcome {
    /// The mail was sent.
    Success,
    /// No endpoint has the identifier of the submission.
    UnregisteredEndpoint,
    /// A field is too long or too short.
    InvalidLength,
    /// The probe of the address found against it.
    Undeliverable,
    /// The mail could not be assembled or sent.
    TransportFailure,
}

/// The answer to a request.
#[derive(Debug, PartialEq, Eq)]
pub struct Response {
    pub outcome: Outcome,
    pub status: String,
}

/// Where a request stands.
#[derive(Clone, Copy, Debug, PartialEq, Eq, Structural)]
pub enum State {
    /// Nothing was done yet.
    Received,
    /// The probe of the address was asked for.
    Probing,
    /// The sending of the mail was asked for.
    Sending,
    /// The answer was given.
    Answered,
}

/// What came back from outside.
pub enum Event {
    /// The submission came in.
    Submitted,
    /// The probe of the address ended with this report.
    Probed(ProbeReport),
    /// The transport took the mail.
    Delivered,
    /// The transport failed, with this text of its error.
    Refused(String),
}

/// What is to be done outside.
pub enum Action {
    /// Probe `address`, introducing the probe as `sender`.
    Probe { address: String, sender: String },
    /// Send `mail`, which is `message` assembled.
    Send { message: OutboundMessage, mail: lettre_email::Email },
    /// Give this answer: the request is over.
    Answer(Response),
}

/// One move of a request: its new state and what is to be done.
pub struct Step {
    pub state: State,
    pub action: Action,
}

impl Outcome {
    /// The HTTP status that stands for the outcome.
    pub open spec fn spec_code(self) -> u16 {
        match self {
            Outcome::Success => 200,
            Outcome::UnregisteredEndpoint => 406,
            Outcome::InvalidLength => 413,
            Outcome::Undeliverable => 406,
            Outcome::TransportFailure => 500,
        }
    }

    /// The HTTP status that stands for the outcome.
    pub fn code(&self) -> (code: u16)
        ensures
            code == self.spec_code(),
    {
        match self {
            Outcome::Success => 200,
            Outcome::UnregisteredEndpoint => 406,
            Outcome::InvalidLength => 413,
            Outcome::Undeliverable => 406,
            Outcome::TransportFailure => 500,
        }
    }
}

/// Whether `step` ends the request with `outcome` and the status `status`.
pub open spec fn answers(step: Step, outcome: Outcome, status: Seq<char>) -> bool {
    &&& step.state == State::Answered
    &&& step.action matches Action::Answer(response)
    &&& response.outcome == outcome
    &&& response.status@ == status
}

/// Whether `step` asks for the probe of `address`.
pub open spec fn asks_probe(step: Step, address: Seq<char>) -> bool {
    &&& step.state == State::Probing
    &&& step.action matches Action::Probe { address: probed, sender }
    &&& probed@ == address
    &&& sender@ == PROBE_SENDER@
}

/// Whether `step` asks for the sending of the mail that relays `data` to the
/// target of `endpoint`.
pub open spec fn asks_send(step: Step, data: FormData, endpoint: EndpointConfig) -> bool {
    &&& step.state == State::Sending
    &&& step.action matches Action::Send { message, mail }
    &&& relays(message, data, endpoint)
}

/// The status of a request whose submission names no endpoint.
pub open spec fn unregistered_status() -> Seq<char> {
    "Error: unregistered origin"@
}

/// The status of a request that violates the length rules so.
pub open spec fn length_status(violations: Seq<Seq<char>>) -> Seq<char> {
    "Error while checking form data: "@ + trimmed(joined(violations))
}

/// The status of a request whose address the probe found against so.
pub open spec fn deliverability_status(violations: Seq<Seq<char>>) -> Seq<char> {
    "Error while checking mail validity: "@ + trimmed(joined(violations))
}

/// The status of a request whose mail could not be sent, for the reason
/// `detail`.
pub open spec fn transport_status(detail: Seq<char>) -> Seq<char> {
    "Error while sending mail: "@ + detail
}

/// The status of a request whose mail was sent.
pub open spec fn success_status() -> Seq<char> {
    "success"@
}

/// What the first move owes: the answer that no endpoint was found, else the
/// answer that lists every length violation, else the call for the probe.
pub open spec fn received_rightly(config: Config, data: FormData, step: Step) -> bool {
    match config.spec_lookup(data.identifier@) {
        None => answers(step, Outcome::UnregisteredEndpoint, unregistered_status()),
        Some(endpoint) => if length_violations(data, endpoint).len() == 0 {
            asks_probe(step, data.email@)
        } else {
            answers(
                step,
                Outcome::InvalidLength,
                length_status(length_violations(data, endpoint)),
            )
        },
    }
}

/// What the move after an assembly owes: the call to send the mail, or the
/// answer that gives the reason for which there is none.
pub open spec fn dispatched_rightly(
    message: OutboundMessage,
    assembled: Result<lettre_email::Email, MailError>,
    step: Step,
) -> bool {
    match assembled {
        Ok(mail) => step.state == State::Sending && step.action == (Action::Send {
            message,
            mail,
        }),
        Err(error) => answers(step, Outcome::TransportFailure, transport_status(error.detail@)),
    }
}

/// What the move after the probe owes. It holds every earlier check again,
/// so that no mail is sent for a submission that fails one: the answer that
/// no endpoint was found, else the answer that lists every length violation,
/// else the answer that lists every violation that the report gives, else,
/// where a mail of the endpoint can be assembled, the call to send the one
/// that relays the submission, and where none can, the answer that gives the
/// reason.
pub open spec fn judged_rightly(
    config: Config,
    data: FormData,
    report: ProbeReport,
    step: Step,
) -> bool {
    match config.spec_lookup(data.identifier@) {
        None => answers(step, Outcome::UnregisteredEndpoint, unregistered_status()),
        Some(endpoint) => if length_violations(data, endpoint).len() > 0 {
            answers(
                step,
                Outcome::InvalidLength,
                length_status(length_violations(data, endpoint)),
            )
        } else if deliverability_violations(report, data.email@).len() > 0 {
            answers(
                step,
                Outcome::Undeliverable,
                deliverability_status(deliverability_violations(report, data.email@)),
            )
        } else if can_relay(endpoint) {
            asks_send(step, data, endpoint)
        } else {
            exists|detail: Seq<char>| #[trigger]
                answers(step, Outcome::TransportFailure, transport_status(detail))
        },
    }
}

/// The move that ends a request with `outcome`: `lead` and then `rest` make
/// the status.
fn answer(outcome: Outcome, lead: &str, rest: &str) -> (step: Step)
    ensures
        answers(step, outcome, lead@ + rest@),
{
    let mut status = String::from_str(lead);
    status.append(rest);
    Step { state: State::Answered, action: Action::Answer(Response { outcome, status }) }
}

/// The move that ends a request with `outcome` and the status `status`.
fn answer_plainly(outcome: Outcome, status: &str) -> (step: Step)
    ensures
        answers(step, outcome, status@),
{
    Step {
        state: State::Answered,
        action: Action::Answer(Response { outcome, status: String::from_str(status) }),
    }
}

/// The line that tells the operator which identifier no endpoint has.
pub open spec fn unknown_identifier_text(identifier: Seq<char>) -> Seq<char> {
    "Error: The Endpoint with the identifier-value \""@ + identifier
        + "\" was not named in the config"@
}

/// The note for the operator's log on a submission whose identifier no
/// endpoint has.
pub fn unknown_identifier_note(identifier: &str) -> (note: Note)
    ensures
        note.level == Level::Warning,
        note.text@ == unknown_identifier_text(identifier@),
{
    let mut text = String::from_str("Error: The Endpoint with the identifier-value \"");
    text.append(identifier);
    text.append("\" was not named in the config");
    Note { level: Level::Warning, text }
}

/// The first move of a request: resolves the endpoint and checks the
/// lengths.
pub fn receive(config: &Config, data: &mut FormData) -> (step: Step)
    ensures
        *final(data) == *old(data),
        received_rightly(*config, *old(data), step),
{
    match config.lookup(data.identifier.as_str()) {
        None => answer_plainly(Outcome::UnregisteredEndpoint, "Error: unregistered origin"),
        Some(endpoint) => match data.check_length(endpoint) {
            Err(error) => answer(
                Outcome::InvalidLength,
                "Error while checking form data: ",
                error.message().as_str(),
            ),
            Ok(()) => Step {
                state: State::Probing,
                action: Action::Probe {
                    address: data.email.clone(),
                    sender: String::from_str(PROBE_SENDER),
                },
            },
        },
    }
}

/// The move after an assembly: sends the mail, or answers that there is
/// none.
pub fn dispatch(message: OutboundMessage, assembled: Result<lettre_email::Email, MailError>) -> (step:
    Step)
    ensures
        dispatched_rightly(message, assembled, step),
{
    match assembled {
        Ok(mail) => Step { state: State::Sending, action: Action::Send { message, mail } },
        Err(error) => answer(
            Outcome::TransportFailure,
            "Error while sending mail: ",
            error.detail.as_str(),
        ),
    }
}

/// The move after the probe: holds the earlier checks again, judges the
/// address by the report, and where nothing is found against the submission,
/// writes and assembles the mail.
pub fn judge(config: &Config, data: &mut FormData, report: &ProbeReport) -> (step: Step)
    ensures
        *final(data) == *old(data),
        judged_rightly(*config, *old(data), *report, step),
{
    let endpoint = match config.lookup(data.identifier.as_str()) {
        None => {
            return answer_plainly(Outcome::UnregisteredEndpoint, "Error: unregistered origin");
        },
        Some(endpoint) => endpoint,
    };
    if let Err(error) = data.check_length(endpoint) {
        return answer(
            Outcome::InvalidLength,
            "Error while checking form data: ",
            error.message().as_str(),
        );
    }
    if let Err(error) = data.check_existence(endpoint, report) {
        return answer(
            Outcome::Undeliverable,
            "Error while checking mail validity: ",
            error.message().as_str(),
        );
    }
    let message = compose(data, endpoint);
    let assembled = message.assemble();
    let ghost outcome = assembled;
    let step = dispatch(message, assembled);
    proof {
        if let Err(error) = outcome {
            assert(answers(step, Outcome::TransportFailure, transport_status(error.detail@)));
        }
    }
    step
}

/// The last move: answers by what became of the mail.
pub fn finish(sent: Result<(), MailError>) -> (step: Step)
    ensures
        match sent {
            Ok(_) => answers(step, Outcome::Success, success_status()),
            Err(error) => answers(
                step,
                Outcome::TransportFailure,
                transport_status(error.detail@),
            ),
        },
{
    match sent {
        Ok(_) => answer_plainly(Outcome::Success, "success"),
        Err(error) => answer(
            Outcome::TransportFailure,
            "Error while sending mail: ",
            error.detail.as_str(),
        ),
    }
}

/// How far a request in `state` has come.
pub open spec fn progress(state: State) -> nat {
    match state {
        State::Received => 0,
        State::Probing => 1,
        State::Sending => 2,
        State::Answered => 3,
    }
}

/// Whether the action of `step` is the one that its state goes with: the
/// probe is asked for on the way to `Probing`, the mail is sent on the way to
/// `Sending`, and the answer is given on the way to `Answered`.
pub open spec fn acts_for_its_state(step: Step) -> bool {
    match step.state {
        State::Received => false,
        State::Probing => step.action is Probe,
        State::Sending => step.action is Send,
        State::Answered => step.action is Answer,
    }
}

/// Whether `event` is what a request in `state` waits for.
pub open spec fn awaited(state: State, event: Event) -> bool {
    match (state, event) {
        (State::Received, Event::Submitted) => true,
        (State::Probing, Event::Probed(_)) => true,
        (State::Sending, Event::Delivered) => true,
        (State::Sending, Event::Refused(_)) => true,
        _ => false,
    }
}

/// Moves a request in `state` on by `event`. An event that the state does not
/// wait for moves nothing; an answered request waits for none.
pub fn step(config: &Config, data: &mut FormData, state: State, event: Event) -> (moved: Option<
    Step,
>)
    ensures
        *final(data) == *old(data),
        moved.is_some() <==> awaited(state, event),
        moved matches Some(step) ==> progress(state) < progress(step.state)
            && acts_for_its_state(step),
        moved matches Some(step) ==> match (state, event) {
            (State::Received, Event::Submitted) => received_rightly(*config, *old(data), step),
            (State::Probing, Event::Probed(report)) => judged_rightly(
                *config,
                *old(data),
                report,
                step,
            ),
            (State::Sending, Event::Delivered) => answers(
                step,
                Outcome::Success,
                success_status(),
            ),
            (State::Sending, Event::Refused(detail)) => answers(
                step,
                Outcome::TransportFailure,
                transport_status(detail@),
            ),
            _ => false,
        },
{
    match (state, event) {
        (State::Received, Event::Submitted) => Some(receive(config, data)),
        (State::Probing, Event::Probed(report)) => Some(judge(config, data, &report)),
        (State::Sending, Event::Delivered) => Some(finish(Ok(()))),
        (State::Sending, Event::Refused(detail)) => Some(finish(Err(MailError { detail }))),
        _ => None,
    }
}

/// A submission whose identifier no endpoint has is answered as unregistered
/// at the first move, whatever its other fields hold.
pub proof fn lemma_unknown_identifier_is_refused(config: Config, data: FormData, step: Step)
    requires
        forall|i: int|
            0 <= i < config.endpoints@.len() ==> config.endpoints@[i].identifier@
                != data.identifier@,
        received_rightly(config, data, step),
    ensures
        answers(step, Outcome::UnregisteredEndpoint, unregistered_status()),
{
    lemma_lookup_of_unknown(config, data.identifier@);
}

/// The first move never sends a mail: it answers, or it asks for the probe.
pub proof fn lemma_first_move_sends_nothing(config: Config, data: FormData, step: Step)
    requires
        received_rightly(config, data, step),
    ensures
        !(step.action is Send),
        step.action is Probe ==> (config.spec_lookup(data.identifier@) matches Some(endpoint)
            && length_violations(data, endpoint).len() == 0),
{
}

/// A conclusive finding of the probe against the address ends the request
/// with an answer, and no mail is sent; where the lengths are in order, the
/// answer lists what the probe found.
pub proof fn lemma_conclusive_finding_ends_the_request(
    config: Config,
    data: FormData,
    report: ProbeReport,
    step: Step,
)
    requires
        ({
            ||| report.syntax matches Ok(details) && !details.valid_format
            ||| report.smtp matches Ok(details) && (details.has_full_inbox
                || !details.is_deliverable || details.is_disabled)
            ||| report.misc matches Ok(details) && details.is_disposable
        }),
        judged_rightly(config, data, report, step),
    ensures
        step.state == State::Answered,
        step.action is Answer,
        config.spec_lookup(data.identifier@) matches Some(endpoint) ==> (length_violations(
            data,
            endpoint,
        ).len() == 0 ==> answers(
            step,
            Outcome::Undeliverable,
            deliverability_status(deliverability_violations(report, data.email@)),
        )),
{
    lemma_conclusive_finding_is_a_violation(report, data.email@);
}

/// A mail is sent only for a submission that passes every check: it names an
/// endpoint, its lengths are in order, and the probe found nothing against
/// its address. This holds of the move after the probe however the request
/// came to it.
pub proof fn lemma_mail_is_sent_after_the_checks(
    config: Config,
    data: FormData,
    report: ProbeReport,
    step: Step,
)
    requires
        judged_rightly(config, data, report, step),
        step.action is Send,
    ensures
        config.spec_lookup(data.identifier@) matches Some(endpoint) && asks_send(
            step,
            data,
            endpoint,
        ) && can_relay(endpoint) && length_violations(data, endpoint).len() == 0,
        deliverability_violations(report, data.email@).len() == 0,
{
}

/// A submission that passes every check is sent wherever a mail of its
/// endpoint can be assembled: nothing that a submission holds can keep its
/// mail from being assembled.
pub proof fn lemma_checked_submission_is_sent(
    config: Config,
    data: FormData,
    report: ProbeReport,
    step: Step,
)
    requires
        config.spec_lookup(data.identifier@) matches Some(endpoint) && can_relay(endpoint)
            && length_violations(data, endpoint).len() == 0,
        deliverability_violations(report, data.email@).len() == 0,
        judged_rightly(config, data, report, step),
    ensures
        config.spec_lookup(data.identifier@) matches Some(endpoint) && asks_send(
            step,
            data,
            endpoint,
        ),
{
}

} // verus!
