//! A submission and the two stages that validate it: the lengths of its
//! fields, and what a deliverability probe reported of its address.

use crate::config::EndpointConfig;
use crate::probe::{MiscDetails, ProbeReport, SmtpDetails, SyntaxDetails};
use crate::text::{
    decimal, is_blank, is_solid, joined, lemma_joined_holds_line, lemma_solid_lines_stay_whole,
    length_of, occurs, push_decimal, trimmed, views,
};
use crate::verdict::{conclude, ValidationError};
use vstd::prelude::*;
use vstd::string::*;

verus! {

/// What one request submits.
#[derive(Debug, PartialEq, Eq)]
pub struct FormData {
    pub name: String,
    pub email: String,
    pub phone: String,
    pub message: String,
    pub identifier: String,
}

impl Clone for FormData {
    fn clone(&self) -> (copy: Self)
        ensures
            copy == *self,
    {
        FormData {
            name: self.name.clone(),
            email: self.email.clone(),
            phone: self.phone.clone(),
            message: self.message.clone(),
            identifier: self.identifier.clone(),
        }
    }
}

/// The most characters that an address may have.
pub const EMAIL_MAXIMUM: usize = 254;

/// The fewest characters that an address may have.
pub const EMAIL_MINIMUM: usize = 3;

/// The most characters that a phone number may have.
pub const PHONE_MAXIMUM: usize = 32;

/// The fewest characters that a phone number may have, where there is one.
pub const PHONE_MINIMUM: usize = 4;

/// The violation of a field of `length` characters where `maximum` is the
/// most.
pub open spec fn too_long_line(field: Seq<char>, length: nat, maximum: nat) -> Seq<char> {
    "Field \""@ + field + "\" was too long: "@ + decimal(length) + " characters ("@ + decimal(
        maximum,
    ) + " is maximum)"@
}

/// The violation of a field of `length` characters where `minimum` is the
/// fewest.
pub open spec fn too_short_line(field: Seq<char>, length: nat, minimum: nat) -> Seq<char> {
    "Field \""@ + field + "\" was too short: "@ + decimal(length) + " characters ("@ + decimal(
        minimum,
    ) + " is minimum)"@
}

/// The rule on the name: no longer than the endpoint allows.
pub open spec fn name_violations(length: nat, maximum: nat) -> Seq<Seq<char>> {
    line_if(length > maximum, too_long_line("name"@, length, maximum))
}

/// The rules on the address: neither too long nor too short.
pub open spec fn email_violations(length: nat) -> Seq<Seq<char>> {
    line_if(length > EMAIL_MAXIMUM, too_long_line("email"@, length, EMAIL_MAXIMUM as nat))
        + line_if(length < EMAIL_MINIMUM, too_short_line("email"@, length, EMAIL_MINIMUM as nat))
}

/// The rules on the phone number: not too long, and where there is one, not
/// too short.
pub open spec fn phone_violations(length: nat) -> Seq<Seq<char>> {
    line_if(length > PHONE_MAXIMUM, too_long_line("phone"@, length, PHONE_MAXIMUM as nat))
        + line_if(
        0 < length < PHONE_MINIMUM,
        too_short_line("phone"@, length, PHONE_MINIMUM as nat),
    )
}

/// The rule on the message: no longer than the endpoint allows.
pub open spec fn message_violations(length: nat, maximum: nat) -> Seq<Seq<char>> {
    line_if(length > maximum, too_long_line("message"@, length, maximum))
}

/// Every violation of a length rule by `data` under the limits of
/// `endpoint`, in the order name, address, phone number, message.
pub open spec fn length_violations(data: FormData, endpoint: EndpointConfig) -> Seq<Seq<char>> {
    name_violations(data.name@.len(), endpoint.max_name_length as nat) + email_violations(
        data.email@.len(),
    ) + phone_violations(data.phone@.len()) + message_violations(
        data.message@.len(),
        endpoint.max_message_length as nat,
    )
}

/// The violation of an address that is not in a valid format.
pub open spec fn invalid_format_line(email: Seq<char>) -> Seq<char> {
    "The provided email adress \""@ + email + "\" seems to be invalid."@
}

/// The violation of a syntax check that ended with the error `detail`.
pub open spec fn syntax_error_line(detail: Seq<char>) -> Seq<char> {
    "Error while checking email syntax: "@ + detail
}

/// The violation of an address whose inbox is full.
pub open spec fn full_inbox_line(email: Seq<char>) -> Seq<char> {
    "The provided email adress \""@ + email
        + "\" has a full inbox and can't receive new emails."@
}

/// The violation of an address that mail cannot be delivered to.
pub open spec fn undeliverable_line(email: Seq<char>) -> Seq<char> {
    "Email can't be delivered to adress \""@ + email + "\"."@
}

/// The violation of an address that its provider has disabled.
pub open spec fn disabled_line(email: Seq<char>) -> Seq<char> {
    "Your Mailserver provider blocked/disabled the email adress \""@ + email + "\"."@
}

/// The violation of a disposable address.
pub open spec fn disposable_line(email: Seq<char>) -> Seq<char> {
    "The provided email adress \""@ + email + "\" seems to be disposable/invalid adress."@
}

/// `line` alone where `violated`, else nothing.
pub open spec fn line_if(violated: bool, line: Seq<char>) -> Seq<Seq<char>> {
    if violated {
        seq![line]
    } else {
        Seq::empty()
    }
}

/// The violations that the syntax check gives: one where the format is not
/// valid, and one where the check itself failed.
pub open spec fn syntax_violations(
    syntax: Result<SyntaxDetails, String>,
    email: Seq<char>,
) -> Seq<Seq<char>> {
    match syntax {
        Ok(details) => line_if(!details.valid_format, invalid_format_line(email)),
        Err(detail) => seq![syntax_error_line(detail@)],
    }
}

/// The violations that the SMTP check gives: a full inbox, an address that
/// cannot be delivered to, a disabled address, each on its own. A check that
/// did not complete gives none.
pub open spec fn smtp_violations(smtp: Result<SmtpDetails, String>, email: Seq<char>) -> Seq<
    Seq<char>,
> {
    match smtp {
        Ok(details) => line_if(details.has_full_inbox, full_inbox_line(email)) + line_if(
            !details.is_deliverable,
            undeliverable_line(email),
        ) + line_if(details.is_disabled, disabled_line(email)),
        Err(_) => Seq::empty(),
    }
}

/// The violations that the disposable-address check gives. A check that did
/// not complete gives none.
pub open spec fn misc_violations(misc: Result<MiscDetails, String>, email: Seq<char>) -> Seq<
    Seq<char>,
> {
    match misc {
        Ok(details) => line_if(details.is_disposable, disposable_line(email)),
        Err(_) => Seq::empty(),
    }
}

/// Every violation that `report` gives for the address `email`, in the order
/// of the checks.
pub open spec fn deliverability_violations(report: ProbeReport, email: Seq<char>) -> Seq<
    Seq<char>,
> {
    syntax_violations(report.syntax, email) + smtp_violations(report.smtp, email)
        + misc_violations(report.misc, email)
}

/// `middle` between `before` and `after`.
fn framed(before: &str, middle: &str, after: &str) -> (text: String)
    ensures
        text@ == before@ + middle@ + after@,
{
    let mut text = String::from_str(before);
    text.append(middle);
    text.append(after);
    text
}

/// Writes the violation of a field that is too long.
fn too_long(field: &str, length: usize, maximum: usize) -> (line: String)
    ensures
        line@ == too_long_line(field@, length as nat, maximum as nat),
{
    let mut line = String::from_str("Field \"");
    line.append(field);
    line.append("\" was too long: ");
    push_decimal(&mut line, length);
    line.append(" characters (");
    push_decimal(&mut line, maximum);
    line.append(" is maximum)");
    line
}

/// Writes the violation of a field that is too short.
fn too_short(field: &str, length: usize, minimum: usize) -> (line: String)
    ensures
        line@ == too_short_line(field@, length as nat, minimum as nat),
{
    let mut line = String::from_str("Field \"");
    line.append(field);
    line.append("\" was too short: ");
    push_decimal(&mut line, length);
    line.append(" characters (");
    push_decimal(&mut line, minimum);
    line.append(" is minimum)");
    line
}

/// Adds `line` to the violations found.
fn record(found: &mut Vec<String>, line: String)
    ensures
        views(final(found)@) == views(old(found)@).push(line@),
{
    found.push(line);
    assert(views(found@) =~= views(old(found)@).push(line@));
}

impl FormData {
    /// Holds the lengths of the fields against the fixed limits and those of
    /// the endpoint. Every rule is judged on its own and every violation is
    /// collected.
    pub fn check_length(&mut self, endpoint_config: &EndpointConfig) -> (verdict: Result<
        (),
        ValidationError,
    >)
        ensures
            *final(self) == *old(self),
            verdict.is_ok() <==> length_violations(*old(self), *endpoint_config).len() == 0,
            verdict matches Err(e) ==> e@ == length_violations(*old(self), *endpoint_config),
    {
        let name: usize = length_of(self.name.as_str());
        let email: usize = length_of(self.email.as_str());
        let phone: usize = length_of(self.phone.as_str());
        let message: usize = length_of(self.message.as_str());
        let mut found: Vec<String> = Vec::new();
        assert(views(found@) =~= Seq::empty());
        if name > endpoint_config.max_name_length {
            record(&mut found, too_long("name", name, endpoint_config.max_name_length));
        }
        if email > EMAIL_MAXIMUM {
            record(&mut found, too_long("email", email, EMAIL_MAXIMUM));
        } else if email < EMAIL_MINIMUM {
            record(&mut found, too_short("email", email, EMAIL_MINIMUM));
        }
        if phone > PHONE_MAXIMUM {
            record(&mut found, too_long("phone", phone, PHONE_MAXIMUM));
        } else if phone != 0 && phone < PHONE_MINIMUM {
            record(&mut found, too_short("phone", phone, PHONE_MINIMUM));
        }
        if message > endpoint_config.max_message_length {
            record(&mut found, too_long("message", message, endpoint_config.max_message_length));
        }
        assert(views(found@) =~= length_violations(*self, *endpoint_config));
        conclude(found)
    }

    /// Judges the address of the submission by what a probe reported of it.
    /// Every violation is collected; a check that did not complete blocks
    /// nothing, but for the syntax check.
    pub fn check_existence(
        &mut self,
        _endpoint_config: &EndpointConfig,
        checked: &ProbeReport,
    ) -> (verdict: Result<(), ValidationError>)
        ensures
            *final(self) == *old(self),
            verdict.is_ok() <==> deliverability_violations(*checked, old(self).email@).len() == 0,
            verdict matches Err(e) ==> e@ == deliverability_violations(
                *checked,
                old(self).email@,
            ),
    {
        let email = self.email.as_str();
        let mut found: Vec<String> = Vec::new();
        assert(views(found@) =~= Seq::empty());
        match &checked.syntax {
            Ok(details) => {
                if !details.valid_format {
                    record(
                        &mut found,
                        framed("The provided email adress \"", email, "\" seems to be invalid."),
                    );
                }
            },
            Err(detail) => {
                let mut line = String::from_str("Error while checking email syntax: ");
                line.append(detail.as_str());
                record(&mut found, line);
            },
        }
        assert(views(found@) =~= syntax_violations(checked.syntax, email@));
        match &checked.smtp {
            Ok(details) => {
                if details.has_full_inbox {
                    record(
                        &mut found,
                        framed(
                            "The provided email adress \"",
                            email,
                            "\" has a full inbox and can't receive new emails.",
                        ),
                    );
                }
                if !details.is_deliverable {
                    record(
                        &mut found,
                        framed("Email can't be delivered to adress \"", email, "\"."),
                    );
                }
                if details.is_disabled {
                    record(
                        &mut found,
                        framed(
                            "Your Mailserver provider blocked/disabled the email adress \"",
                            email,
                            "\".",
                        ),
                    );
                }
            },
            Err(_) => {},
        }
        assert(views(found@) =~= syntax_violations(checked.syntax, email@) + smtp_violations(
            checked.smtp,
            email@,
        ));
        match &checked.misc {
            Ok(details) => {
                if details.is_disposable {
                    record(
                        &mut found,
                        framed(
                            "The provided email adress \"",
                            email,
                            "\" seems to be disposable/invalid adress.",
                        ),
                    );
                }
            },
            Err(_) => {},
        }
        assert(views(found@) =~= deliverability_violations(*checked, email@));
        conclude(found)
    }
}

/// One where `violated`, else nothing.
pub open spec fn one_if(violated: bool) -> nat {
    if violated {
        1
    } else {
        0
    }
}

/// The line of a violated rule stands among the violations, whatever the
/// rules before and after it gave.
pub proof fn lemma_line_is_listed(
    before: Seq<Seq<char>>,
    violated: bool,
    line: Seq<char>,
    after: Seq<Seq<char>>,
)
    requires
        violated,
    ensures
        (before + line_if(violated, line) + after).contains(line),
{
    let all = before + line_if(violated, line) + after;
    assert(all[before.len() as int] == line);
}

/// The length check reports all at once: each rule that the submission
/// violates has its line among the violations, whichever other rules are
/// violated too, and there are as many lines as violated rules.
pub proof fn lemma_length_violations_are_complete(data: FormData, endpoint: EndpointConfig)
    ensures
        ({
            let name = data.name@.len();
            let email = data.email@.len();
            let phone = data.phone@.len();
            let message = data.message@.len();
            let name_most = endpoint.max_name_length as nat;
            let message_most = endpoint.max_message_length as nat;
            let found = length_violations(data, endpoint);
            &&& name > name_most ==> found.contains(too_long_line("name"@, name, name_most))
            &&& email > EMAIL_MAXIMUM ==> found.contains(
                too_long_line("email"@, email, EMAIL_MAXIMUM as nat),
            )
            &&& email < EMAIL_MINIMUM ==> found.contains(
                too_short_line("email"@, email, EMAIL_MINIMUM as nat),
            )
            &&& phone > PHONE_MAXIMUM ==> found.contains(
                too_long_line("phone"@, phone, PHONE_MAXIMUM as nat),
            )
            &&& 0 < phone < PHONE_MINIMUM ==> found.contains(
                too_short_line("phone"@, phone, PHONE_MINIMUM as nat),
            )
            &&& message > message_most ==> found.contains(
                too_long_line("message"@, message, message_most),
            )
            &&& found.len() == one_if(name > name_most) + one_if(email > EMAIL_MAXIMUM) + one_if(
                email < EMAIL_MINIMUM,
            ) + one_if(phone > PHONE_MAXIMUM) + one_if(0 < phone < PHONE_MINIMUM) + one_if(
                message > message_most,
            )
        }),
{
    let name = data.name@.len();
    let email = data.email@.len();
    let phone = data.phone@.len();
    let message = data.message@.len();
    let name_most = endpoint.max_name_length as nat;
    let message_most = endpoint.max_message_length as nat;
    let of_name = name_violations(name, name_most);
    let email_long = line_if(
        email > EMAIL_MAXIMUM,
        too_long_line("email"@, email, EMAIL_MAXIMUM as nat),
    );
    let email_short = line_if(
        email < EMAIL_MINIMUM,
        too_short_line("email"@, email, EMAIL_MINIMUM as nat),
    );
    let phone_long = line_if(
        phone > PHONE_MAXIMUM,
        too_long_line("phone"@, phone, PHONE_MAXIMUM as nat),
    );
    let phone_short = line_if(
        0 < phone < PHONE_MINIMUM,
        too_short_line("phone"@, phone, PHONE_MINIMUM as nat),
    );
    let of_message = message_violations(message, message_most);
    let found = length_violations(data, endpoint);
    let none = Seq::<Seq<char>>::empty();
    if name > name_most {
        lemma_line_is_listed(
            none,
            true,
            too_long_line("name"@, name, name_most),
            email_long + email_short + phone_long + phone_short + of_message,
        );
        assert(found =~= none + of_name + (email_long + email_short + phone_long + phone_short
            + of_message));
    }
    if email > EMAIL_MAXIMUM {
        lemma_line_is_listed(
            of_name,
            true,
            too_long_line("email"@, email, EMAIL_MAXIMUM as nat),
            email_short + phone_long + phone_short + of_message,
        );
        assert(found =~= of_name + email_long + (email_short + phone_long + phone_short
            + of_message));
    }
    if email < EMAIL_MINIMUM {
        lemma_line_is_listed(
            of_name + email_long,
            true,
            too_short_line("email"@, email, EMAIL_MINIMUM as nat),
            phone_long + phone_short + of_message,
        );
        assert(found =~= of_name + email_long + email_short + (phone_long + phone_short
            + of_message));
    }
    if phone > PHONE_MAXIMUM {
        lemma_line_is_listed(
            of_name + email_long + email_short,
            true,
            too_long_line("phone"@, phone, PHONE_MAXIMUM as nat),
            phone_short + of_message,
        );
        assert(found =~= of_name + email_long + email_short + phone_long + (phone_short
            + of_message));
    }
    if 0 < phone < PHONE_MINIMUM {
        lemma_line_is_listed(
            of_name + email_long + email_short + phone_long,
            true,
            too_short_line("phone"@, phone, PHONE_MINIMUM as nat),
            of_message,
        );
        assert(found =~= of_name + email_long + email_short + phone_long + phone_short
            + of_message);
    }
    if message > message_most {
        lemma_line_is_listed(
            of_name + email_long + email_short + phone_long + phone_short,
            true,
            too_long_line("message"@, message, message_most),
            none,
        );
        assert(found =~= of_name + email_long + email_short + phone_long + phone_short
            + of_message + none);
    }
}

/// A line of the length check begins with a letter and ends with a bracket.
pub proof fn lemma_length_lines_are_solid(field: Seq<char>, length: nat, bound: nat)
    ensures
        is_solid(too_long_line(field, length, bound)),
        is_solid(too_short_line(field, length, bound)),
{
    reveal_strlit("Field \"");
    reveal_strlit(" is maximum)");
    reveal_strlit(" is minimum)");
    let long = too_long_line(field, length, bound);
    let short = too_short_line(field, length, bound);
    assert(long[0] == 'F');
    assert(long.last() == ')');
    assert(short[0] == 'F');
    assert(short.last() == ')');
}

/// The text that shows the violations of the length rules is their lines,
/// joined: trimming takes nothing from it.
pub proof fn lemma_length_message_is_joined(data: FormData, endpoint: EndpointConfig)
    ensures
        trimmed(joined(length_violations(data, endpoint))) == joined(
            length_violations(data, endpoint),
        ),
{
    let found = length_violations(data, endpoint);
    let name = data.name@.len();
    let email = data.email@.len();
    let phone = data.phone@.len();
    let message = data.message@.len();
    lemma_length_lines_are_solid("name"@, name, endpoint.max_name_length as nat);
    lemma_length_lines_are_solid("email"@, email, EMAIL_MAXIMUM as nat);
    lemma_length_lines_are_solid("email"@, email, EMAIL_MINIMUM as nat);
    lemma_length_lines_are_solid("phone"@, phone, PHONE_MAXIMUM as nat);
    lemma_length_lines_are_solid("phone"@, phone, PHONE_MINIMUM as nat);
    lemma_length_lines_are_solid("message"@, message, endpoint.max_message_length as nat);
    assert forall|i: int| 0 <= i < found.len() implies is_solid(#[trigger] found[i]) by {}
    lemma_solid_lines_stay_whole(found);
}

/// Each violation of a length rule stands whole in the text that shows them
/// all.
pub proof fn lemma_length_message_holds_each_line(
    data: FormData,
    endpoint: EndpointConfig,
    i: int,
)
    requires
        0 <= i < length_violations(data, endpoint).len(),
    ensures
        occurs(
            trimmed(joined(length_violations(data, endpoint))),
            length_violations(data, endpoint)[i],
        ),
{
    lemma_length_message_is_joined(data, endpoint);
    lemma_joined_holds_line(length_violations(data, endpoint), i);
}

/// The phone number is optional: an empty one violates nothing, one of one
/// to three characters is too short, and one of exactly four characters is
/// not.
pub proof fn lemma_phone_rule(data: FormData, endpoint: EndpointConfig)
    ensures
        data.phone@.len() == 0 ==> phone_violations(data.phone@.len()).len() == 0,
        0 < data.phone@.len() < 4 ==> length_violations(data, endpoint).contains(
            too_short_line("phone"@, data.phone@.len(), PHONE_MINIMUM as nat),
        ),
        data.phone@.len() == 4 ==> phone_violations(data.phone@.len()).len() == 0,
{
    lemma_length_violations_are_complete(data, endpoint);
}

/// A conclusive finding against the address is a violation, whatever else
/// the probe reports: a format that is not valid, a full inbox, an address
/// that cannot be delivered to, a disabled or a disposable one.
pub proof fn lemma_conclusive_finding_is_a_violation(report: ProbeReport, email: Seq<char>)
    requires
        ({
            ||| report.syntax matches Ok(details) && !details.valid_format
            ||| report.smtp matches Ok(details) && (details.has_full_inbox
                || !details.is_deliverable || details.is_disabled)
            ||| report.misc matches Ok(details) && details.is_disposable
        }),
    ensures
        deliverability_violations(report, email).len() > 0,
{
    let of_syntax = syntax_violations(report.syntax, email);
    let of_smtp = smtp_violations(report.smtp, email);
    let of_misc = misc_violations(report.misc, email);
    assert(deliverability_violations(report, email).len() == of_syntax.len() + of_smtp.len()
        + of_misc.len());
    if let Ok(details) = report.smtp {
        let full = line_if(details.has_full_inbox, full_inbox_line(email));
        let undeliverable = line_if(!details.is_deliverable, undeliverable_line(email));
        let disabled = line_if(details.is_disabled, disabled_line(email));
        assert(of_smtp.len() == full.len() + undeliverable.len() + disabled.len());
    }
}

/// An address that cannot be delivered to has the line that says so among
/// the violations.
pub proof fn lemma_undeliverable_is_listed(report: ProbeReport, email: Seq<char>)
    requires
        report.smtp matches Ok(details) && !details.is_deliverable,
    ensures
        deliverability_violations(report, email).contains(undeliverable_line(email)),
{
    let details = report.smtp->Ok_0;
    let before = syntax_violations(report.syntax, email) + line_if(
        details.has_full_inbox,
        full_inbox_line(email),
    );
    let after = line_if(details.is_disabled, disabled_line(email)) + misc_violations(
        report.misc,
        email,
    );
    lemma_line_is_listed(before, true, undeliverable_line(email), after);
    assert(deliverability_violations(report, email) =~= before + line_if(
        true,
        undeliverable_line(email),
    ) + after);
}

/// A probe whose SMTP check and disposable-address check did not complete
/// finds nothing against an address in a valid format, whatever the address
/// is.
pub proof fn lemma_inconclusive_probe_passes(report: ProbeReport, email: Seq<char>)
    requires
        report.syntax matches Ok(details) && details.valid_format,
        report.smtp is Err,
        report.misc is Err,
    ensures
        deliverability_violations(report, email).len() == 0,
{
}

/// The text that shows what the probe found against an address is the
/// lines of the violations, joined: trimming takes nothing from it, unless
/// the syntax check failed with an error whose text is empty or ends with
/// white space.
pub proof fn lemma_deliverability_message_is_joined(report: ProbeReport, email: Seq<char>)
    requires
        report.syntax matches Err(detail) ==> detail@.len() > 0 && !is_blank(detail@.last()),
    ensures
        trimmed(joined(deliverability_violations(report, email))) == joined(
            deliverability_violations(report, email),
        ),
{
    reveal_strlit("The provided email adress \"");
    reveal_strlit("\" seems to be invalid.");
    reveal_strlit("Error while checking email syntax: ");
    reveal_strlit("\" has a full inbox and can't receive new emails.");
    reveal_strlit("Email can't be delivered to adress \"");
    reveal_strlit("\".");
    reveal_strlit("Your Mailserver provider blocked/disabled the email adress \"");
    reveal_strlit("\" seems to be disposable/invalid adress.");
    let found = deliverability_violations(report, email);
    assert(invalid_format_line(email)[0] == 'T' && invalid_format_line(email).last() == '.');
    assert(full_inbox_line(email)[0] == 'T' && full_inbox_line(email).last() == '.');
    assert(undeliverable_line(email)[0] == 'E' && undeliverable_line(email).last() == '.');
    assert(disabled_line(email)[0] == 'Y' && disabled_line(email).last() == '.');
    assert(disposable_line(email)[0] == 'T' && disposable_line(email).last() == '.');
    if let Err(detail) = report.syntax {
        let line = syntax_error_line(detail@);
        assert(line[0] == 'E' && line.last() == detail@.last());
    }
    assert forall|i: int| 0 <= i < found.len() implies is_solid(#[trigger] found[i]) by {}
    lemma_solid_lines_stay_whole(found);
}

} // verus!
