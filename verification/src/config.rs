//! Server and endpoint settings, and the lookup of an endpoint by the
//! identifier that a submission carries.

use crate::text::{octal, push_octal, views};
use vstd::prelude::*;
use vstd::string::*;

verus! {

/// Network and SMTP settings of the server.
#[derive(Debug, PartialEq)]
pub struct ServerConfig {
    pub ip: String,
    pub port: usize,
    pub max_payload: usize,
    pub smtp_server: String,
    pub smtp_user: String,
    pub smtp_password: String,
}

impl Clone for ServerConfig {
    fn clone(&self) -> (copy: Self)
        ensures
            copy == *self,
    {
        ServerConfig {
            ip: self.ip.clone(),
            port: self.port,
            max_payload: self.max_payload,
            smtp_server: self.smtp_server.clone(),
            smtp_user: self.smtp_user.clone(),
            smtp_password: self.smtp_password.clone(),
        }
    }
}

/// The mailbox that receives what one endpoint relays.
#[derive(Debug, PartialEq)]
pub struct TargetConfig {
    pub email: String,
    pub email_name: String,
}

impl Clone for TargetConfig {
    fn clone(&self) -> (copy: Self)
        ensures
            copy == *self,
    {
        TargetConfig { email: self.email.clone(), email_name: self.email_name.clone() }
    }
}

/// One site that may submit messages.
#[derive(Debug, PartialEq)]
pub struct EndpointConfig {
    pub identifier: String,
    pub name: String,
    pub domain: String,
    pub from_email: String,
    pub max_message_length: usize,
    pub max_name_length: usize,
    pub target: TargetConfig,
}

impl Clone for EndpointConfig {
    fn clone(&self) -> (copy: Self)
        ensures
            copy == *self,
    {
        EndpointConfig {
            identifier: self.identifier.clone(),
            name: self.name.clone(),
            domain: self.domain.clone(),
            from_email: self.from_email.clone(),
            max_message_length: self.max_message_length,
            max_name_length: self.max_name_length,
            target: self.target.clone(),
        }
    }
}

/// The server settings and the endpoints in the order of their declaration.
#[derive(Debug, PartialEq)]
pub struct Config {
    pub server: ServerConfig,
    pub endpoints: Vec<EndpointConfig>,
}

impl Clone for Config {
    fn clone(&self) -> (copy: Self)
        ensures
            copy.server == self.server,
            copy.endpoints@ == self.endpoints@,
    {
        let mut endpoints: Vec<EndpointConfig> = Vec::new();
        let n: usize = self.endpoints.len();
        let mut i: usize = 0;
        while i < n
            invariant
                n == self.endpoints@.len(),
                i <= n,
                endpoints@ == self.endpoints@.take(i as int),
            decreases n - i,
        {
            endpoints.push(self.endpoints[i].clone());
            assert(endpoints@ =~= self.endpoints@.take(i + 1));
            i += 1;
        }
        assert(self.endpoints@.take(n as int) =~= self.endpoints@);
        Config { server: self.server.clone(), endpoints }
    }
}

/// The identifiers of `endpoints`, in order.
pub open spec fn identifiers(endpoints: Seq<EndpointConfig>) -> Seq<Seq<char>> {
    Seq::new(endpoints.len(), |i: int| endpoints[i].identifier@)
}

/// Whether `position` is the first place in `identifiers` that holds `wanted`.
pub open spec fn is_first_match(identifiers: Seq<Seq<char>>, wanted: Seq<char>, position: int) -> bool {
    &&& 0 <= position < identifiers.len()
    &&& identifiers[position] == wanted
    &&& forall|j: int| 0 <= j < position ==> identifiers[j] != wanted
}

/// The first place in `identifiers` that holds `wanted`, if there is one.
pub open spec fn first_match(identifiers: Seq<Seq<char>>, wanted: Seq<char>) -> Option<int>
    decreases identifiers.len(),
{
    if identifiers.len() == 0 {
        None
    } else if identifiers[0] == wanted {
        Some(0int)
    } else {
        match first_match(identifiers.drop_first(), wanted) {
            Some(p) => Some(p + 1),
            None => None,
        }
    }
}

/// The domains of `endpoints`, in order.
pub open spec fn domains(endpoints: Seq<EndpointConfig>) -> Seq<Seq<char>> {
    Seq::new(endpoints.len(), |i: int| endpoints[i].domain@)
}

impl Config {
    /// The origins that may submit across sites: the domain of each
    /// endpoint, in the order of their declaration.
    pub fn allowed_origins(&self) -> (origins: Vec<String>)
        ensures
            views(origins@) == domains(self.endpoints@),
    {
        let mut origins: Vec<String> = Vec::new();
        let n: usize = self.endpoints.len();
        let mut i: usize = 0;
        while i < n
            invariant
                n == self.endpoints@.len(),
                i <= n,
                views(origins@) == domains(self.endpoints@).take(i as int),
            decreases n - i,
        {
            let ghost before = views(origins@);
            let domain = self.endpoints[i].domain.clone();
            origins.push(domain);
            assert(views(origins@) =~= before.push(domain@));
            assert(before.push(domain@) =~= domains(self.endpoints@).take(i + 1));
            i += 1;
        }
        assert(domains(self.endpoints@).take(n as int) =~= domains(self.endpoints@));
        origins
    }

    /// Whether no two endpoints have the same identifier.
    pub open spec fn has_unique_identifiers(&self) -> bool {
        forall|i: int, j: int|
            0 <= i < j < self.endpoints@.len() ==> self.endpoints@[i].identifier@
                != self.endpoints@[j].identifier@
    }

    /// Whether the endpoint at `place` has the identifier of an earlier one,
    /// and no endpoint before it has that of one still earlier.
    pub open spec fn is_first_duplicate(&self, place: int) -> bool {
        &&& 0 <= place < self.endpoints@.len()
        &&& exists|i: int|
            0 <= i < place && self.endpoints@[i].identifier@ == self.endpoints@[place].identifier@
        &&& forall|i: int, j: int|
            0 <= i < j < place ==> self.endpoints@[i].identifier@
                != self.endpoints@[j].identifier@
    }

    /// Finds the first endpoint that repeats the identifier of an earlier
    /// one. Such an endpoint is never selected: the earlier one is.
    pub fn first_duplicate(&self) -> (place: Option<usize>)
        ensures
            place.is_none() <==> self.has_unique_identifiers(),
            place matches Some(p) ==> self.is_first_duplicate(p as int),
    {
        let n: usize = self.endpoints.len();
        let mut i: usize = 0;
        while i < n
            invariant
                n == self.endpoints@.len(),
                i <= n,
                forall|a: int, b: int|
                    0 <= a < b < i ==> self.endpoints@[a].identifier@
                        != self.endpoints@[b].identifier@,
            decreases n - i,
        {
            let found = self.position(self.endpoints[i].identifier.as_str());
            proof {
                let all = identifiers(self.endpoints@);
                assert(all[i as int] == self.endpoints@[i as int].identifier@);
                lemma_first_match_sound(all, self.endpoints@[i as int].identifier@);
            }
            match found {
                Some(p) => {
                    if p < i {
                        assert(identifiers(self.endpoints@)[p as int]
                            == self.endpoints@[p as int].identifier@);
                        return Some(i);
                    }
                    assert forall|a: int| 0 <= a < i implies self.endpoints@[a].identifier@
                        != self.endpoints@[i as int].identifier@ by {
                        assert(identifiers(self.endpoints@)[a] == self.endpoints@[a].identifier@);
                    }
                },
                None => {},
            }
            i += 1;
        }
        None
    }

    /// The place of the endpoint that `identifier` selects.
    pub open spec fn spec_position(&self, identifier: Seq<char>) -> Option<int> {
        first_match(identifiers(self.endpoints@), identifier)
    }

    /// The endpoint that `identifier` selects.
    pub open spec fn spec_lookup(&self, identifier: Seq<char>) -> Option<EndpointConfig> {
        match self.spec_position(identifier) {
            Some(p) => Some(self.endpoints@[p]),
            None => None,
        }
    }

    /// Finds the place of the first endpoint whose identifier is `identifier`.
    pub fn position(&self, identifier: &str) -> (found: Option<usize>)
        ensures
            match found {
                Some(p) => p < self.endpoints@.len() && self.spec_position(identifier@) == Some(
                    p as int,
                ),
                None => self.spec_position(identifier@).is_none(),
            },
    {
        let wanted = String::from_str(identifier);
        let n: usize = self.endpoints.len();
        let mut i: usize = 0;
        while i < n
            invariant
                n == self.endpoints@.len(),
                i <= n,
                wanted@ == identifier@,
                forall|j: int| 0 <= j < i ==> identifiers(self.endpoints@)[j] != identifier@,
            decreases n - i,
        {
            if self.endpoints[i].identifier == wanted {
                proof {
                    lemma_first_match_is(identifiers(self.endpoints@), identifier@, i as int);
                }
                return Some(i);
            }
            i += 1;
        }
        proof {
            lemma_first_match_none(identifiers(self.endpoints@), identifier@);
        }
        None
    }

    /// Whether `found` is what a lookup of `identifier` returns.
    pub open spec fn found(&self, identifier: Seq<char>, found: Option<EndpointConfig>) -> bool {
        found == self.spec_lookup(identifier)
    }

    /// Finds the first endpoint whose identifier is `identifier`.
    pub fn lookup(&self, identifier: &str) -> (found: Option<&EndpointConfig>)
        ensures
            self.found(
                identifier@,
                match found {
                    Some(endpoint) => Some(*endpoint),
                    None => None,
                },
            ),
    {
        match self.position(identifier) {
            Some(p) => Some(&self.endpoints[p]),
            None => None,
        }
    }
}

/// What `first_match` finds is the first place that holds `wanted`, and it
/// finds nothing only where no place holds it.
pub proof fn lemma_first_match_sound(identifiers: Seq<Seq<char>>, wanted: Seq<char>)
    ensures
        match first_match(identifiers, wanted) {
            Some(position) => is_first_match(identifiers, wanted, position),
            None => forall|j: int| 0 <= j < identifiers.len() ==> identifiers[j] != wanted,
        },
    decreases identifiers.len(),
{
    if identifiers.len() > 0 && identifiers[0] != wanted {
        let rest = identifiers.drop_first();
        lemma_first_match_sound(rest, wanted);
        match first_match(rest, wanted) {
            Some(position) => {
                assert forall|j: int| 0 <= j < position + 1 implies identifiers[j] != wanted by {
                    if j > 0 {
                        assert(identifiers[j] == rest[j - 1]);
                    }
                }
                assert(identifiers[position + 1] == rest[position]);
            },
            None => {
                assert forall|j: int| 0 <= j < identifiers.len() implies identifiers[j]
                    != wanted by {
                    if j > 0 {
                        assert(identifiers[j] == rest[j - 1]);
                    }
                }
            },
        }
    }
}

/// The first place that holds `wanted` is what `first_match` finds.
pub proof fn lemma_first_match_is(identifiers: Seq<Seq<char>>, wanted: Seq<char>, position: int)
    requires
        is_first_match(identifiers, wanted, position),
    ensures
        first_match(identifiers, wanted) == Some(position),
{
    lemma_first_match_sound(identifiers, wanted);
}

/// Where no place holds `wanted`, `first_match` finds nothing.
pub proof fn lemma_first_match_none(identifiers: Seq<Seq<char>>, wanted: Seq<char>)
    requires
        forall|j: int| 0 <= j < identifiers.len() ==> identifiers[j] != wanted,
    ensures
        first_match(identifiers, wanted).is_none(),
{
    lemma_first_match_sound(identifiers, wanted);
}

/// An identifier that no endpoint of the configuration has selects none.
pub proof fn lemma_lookup_of_unknown(config: Config, identifier: Seq<char>)
    requires
        forall|i: int|
            0 <= i < config.endpoints@.len() ==> config.endpoints@[i].identifier@ != identifier,
    ensures
        config.spec_lookup(identifier).is_none(),
{
    lemma_first_match_none(identifiers(config.endpoints@), identifier);
}

/// The endpoint that an identifier selects is the first in the order of
/// declaration that has it.
pub proof fn lemma_lookup_finds_first(config: Config, identifier: Seq<char>, position: int)
    requires
        0 <= position < config.endpoints@.len(),
        config.endpoints@[position].identifier@ == identifier,
        forall|i: int| 0 <= i < position ==> config.endpoints@[i].identifier@ != identifier,
    ensures
        config.spec_lookup(identifier) == Some(config.endpoints@[position]),
{
    lemma_first_match_is(identifiers(config.endpoints@), identifier, position);
}

/// Where no two endpoints have the same identifier, each endpoint is the
/// one that its identifier selects.
pub proof fn lemma_unique_identifier_selects(config: Config, position: int)
    requires
        config.has_unique_identifiers(),
        0 <= position < config.endpoints@.len(),
    ensures
        config.spec_lookup(config.endpoints@[position].identifier@) == Some(
            config.endpoints@[position],
        ),
{
    lemma_lookup_finds_first(config, config.endpoints@[position].identifier@, position);
}

/// Two lookups of one identifier in one configuration find the same: what
/// `lookup` returns depends on nothing but the configuration and the
/// identifier.
pub proof fn lemma_lookup_repeats(
    config: Config,
    identifier: Seq<char>,
    first: Option<EndpointConfig>,
    second: Option<EndpointConfig>,
)
    requires
        config.found(identifier, first),
        config.found(identifier, second),
    ensures
        first == second,
{
}

/// What is known of a file that could not be read for want of permission.
#[derive(Debug, PartialEq, Eq)]
pub enum Denied {
    /// It is a directory.
    Directory,
    /// It is a file with these permission bits.
    Mode(u32),
    /// It is a file, and this says whether it is read-only.
    Readonly(bool),
    /// Nothing could be learnt of it.
    Unknown,
}

/// Why the configuration could not be loaded.
#[derive(Debug, PartialEq, Eq)]
pub enum ReadFailure {
    NotFound,
    PermissionDenied(Denied),
    /// Any other error of reading, with its text.
    Other(String),
    /// The file was read, but what it holds is no configuration; with the
    /// text of the parser's error.
    Unparsable(String),
}

/// How a truth value is written.
pub open spec fn truth(value: bool) -> Seq<char> {
    if value {
        "true"@
    } else {
        "false"@
    }
}

/// The line that tells the operator why the configuration at `location`
/// could not be loaded.
pub open spec fn diagnostic_text(location: Seq<char>, failure: ReadFailure) -> Seq<char> {
    match failure {
        ReadFailure::NotFound => "Error: No config.toml found at "@ + location,
        ReadFailure::PermissionDenied(Denied::Directory) => "Error: cannot read the config at "@
            + location + " it seems to be a dir not a file..."@,
        ReadFailure::PermissionDenied(Denied::Mode(bits)) =>
            "Error: insufficient permissions to read the config at "@ + location + " ("@ + octal(
                bits as nat,
            ) + ")"@,
        ReadFailure::PermissionDenied(Denied::Readonly(only)) =>
            "Error: insufficient permissions to read the config at "@ + location
                + " (Readonly: "@ + truth(only) + ")"@,
        ReadFailure::PermissionDenied(Denied::Unknown) =>
            "Error: insufficient permissions to read the config at "@ + location,
        ReadFailure::Other(detail) => "Error while attempting to read config from path "@
            + location + ": "@ + detail@,
        ReadFailure::Unparsable(detail) => "Error: cannot parse the config at "@ + location
            + ": "@ + detail@,
    }
}

impl ReadFailure {
    /// Writes the line that tells the operator why the configuration at
    /// `location` could not be loaded.
    pub fn diagnostic(&self, location: &str) -> (line: String)
        ensures
            line@ == diagnostic_text(location@, *self),
    {
        match self {
            ReadFailure::NotFound => {
                let mut line = String::from_str("Error: No config.toml found at ");
                line.append(location);
                line
            },
            ReadFailure::PermissionDenied(Denied::Directory) => {
                let mut line = String::from_str("Error: cannot read the config at ");
                line.append(location);
                line.append(" it seems to be a dir not a file...");
                line
            },
            ReadFailure::PermissionDenied(Denied::Mode(bits)) => {
                let mut line = String::from_str(
                    "Error: insufficient permissions to read the config at ",
                );
                line.append(location);
                line.append(" (");
                push_octal(&mut line, *bits as usize);
                line.append(")");
                line
            },
            ReadFailure::PermissionDenied(Denied::Readonly(only)) => {
                let mut line = String::from_str(
                    "Error: insufficient permissions to read the config at ",
                );
                line.append(location);
                line.append(" (Readonly: ");
                if *only {
                    line.append("true");
                } else {
                    line.append("false");
                }
                line.append(")");
                line
            },
            ReadFailure::PermissionDenied(Denied::Unknown) => {
                let mut line = String::from_str(
                    "Error: insufficient permissions to read the config at ",
                );
                line.append(location);
                line
            },
            ReadFailure::Other(detail) => {
                let mut line = String::from_str(
                    "Error while attempting to read config from path ",
                );
                line.append(location);
                line.append(": ");
                line.append(detail.as_str());
                line
            },
            ReadFailure::Unparsable(detail) => {
                let mut line = String::from_str("Error: cannot parse the config at ");
                line.append(location);
                line.append(": ");
                line.append(detail.as_str());
                line
            },
        }
    }
}

} // verus!
