use static_contact::config::{
    Config, Denied, EndpointConfig, ReadFailure, ServerConfig, TargetConfig,
};

fn site(identifier: &str, name: &str) -> EndpointConfig {
    EndpointConfig {
        identifier: identifier.to_string(),
        name: name.to_string(),
        domain: format!("http://{}.example", identifier),
        from_email: "relay@example.org".to_string(),
        max_message_length: 1000,
        max_name_length: 100,
        target: TargetConfig {
            email: "owner@example.org".to_string(),
            email_name: "Owner".to_string(),
        },
    }
}

fn settings(endpoints: Vec<EndpointConfig>) -> Config {
    Config {
        server: ServerConfig {
            ip: "127.0.0.1".to_string(),
            port: 8088,
            max_payload: 4096,
            smtp_server: "smtp.example.org".to_string(),
            smtp_user: "relay".to_string(),
            smtp_password: "SECRET-REDACTED".to_string(),
        },
        endpoints,
    }
}

#[test]
fn lookup_finds_the_endpoint_with_the_identifier() {
    let config = settings(vec![site("first", "First"), site("second", "Second")]);
    let found = config.lookup("second").expect("the identifier is configured");
    assert_eq!(found.name, "Second");
    assert_eq!(config.position("second"), Some(1));
}

#[test]
fn lookup_of_an_unknown_identifier_finds_nothing() {
    let config = settings(vec![site("first", "First"), site("second", "Second")]);
    assert!(config.lookup("unknown").is_none());
    assert_eq!(config.position("unknown"), None);
}

#[test]
fn lookup_in_an_empty_configuration_finds_nothing() {
    let config = settings(vec![]);
    assert!(config.lookup("first").is_none());
    assert!(config.lookup("").is_none());
}

#[test]
fn lookup_among_duplicates_finds_the_first() {
    let config = settings(vec![
        site("other", "Other"),
        site("twice", "Earlier"),
        site("twice", "Later"),
    ]);
    assert_eq!(config.lookup("twice").unwrap().name, "Earlier");
    assert_eq!(config.position("twice"), Some(1));
}

#[test]
fn lookup_needs_the_whole_identifier() {
    let config = settings(vec![site("mysiteidentifier", "My Site")]);
    assert!(config.lookup("mysite").is_none());
    assert!(config.lookup("mysiteidentifier2").is_none());
    assert!(config.lookup("MySiteIdentifier").is_none());
    assert!(config.lookup("mysiteidentifier").is_some());
}

#[test]
fn lookup_twice_finds_the_same_endpoint() {
    let config = settings(vec![site("first", "First"), site("second", "Second")]);
    let once = config.lookup("second");
    let again = config.lookup("second");
    assert_eq!(once, again);
    assert!(std::ptr::eq(once.unwrap(), again.unwrap()));
    assert_eq!(config.lookup("unknown"), config.lookup("unknown"));
}

#[test]
fn diagnostic_of_a_missing_file() {
    let line = ReadFailure::NotFound.diagnostic("\"/etc/static_contact/config.toml\"");
    assert_eq!(line, "Error: No config.toml found at \"/etc/static_contact/config.toml\"");
}

#[test]
fn diagnostic_of_a_directory() {
    let line = ReadFailure::PermissionDenied(Denied::Directory).diagnostic("\"/tmp/c\"");
    assert_eq!(
        line,
        "Error: cannot read the config at \"/tmp/c\" it seems to be a dir not a file..."
    );
}

#[test]
fn diagnostic_of_permission_bits_is_octal() {
    let line = ReadFailure::PermissionDenied(Denied::Mode(0o100600)).diagnostic("\"/tmp/c\"");
    assert_eq!(
        line,
        "Error: insufficient permissions to read the config at \"/tmp/c\" (100600)"
    );
    let none = ReadFailure::PermissionDenied(Denied::Mode(0)).diagnostic("p");
    assert_eq!(none, "Error: insufficient permissions to read the config at p (0)");
    let seven = ReadFailure::PermissionDenied(Denied::Mode(7)).diagnostic("p");
    assert_eq!(seven, "Error: insufficient permissions to read the config at p (7)");
    let eight = ReadFailure::PermissionDenied(Denied::Mode(8)).diagnostic("p");
    assert_eq!(eight, "Error: insufficient permissions to read the config at p (10)");
    let all = ReadFailure::PermissionDenied(Denied::Mode(u32::MAX)).diagnostic("p");
    assert_eq!(
        all,
        format!("Error: insufficient permissions to read the config at p ({:o})", u32::MAX)
    );
}

#[test]
fn diagnostic_of_a_read_only_flag() {
    let yes = ReadFailure::PermissionDenied(Denied::Readonly(true)).diagnostic("\"c\"");
    assert_eq!(
        yes,
        "Error: insufficient permissions to read the config at \"c\" (Readonly: true)"
    );
    let no = ReadFailure::PermissionDenied(Denied::Readonly(false)).diagnostic("\"c\"");
    assert_eq!(
        no,
        "Error: insufficient permissions to read the config at \"c\" (Readonly: false)"
    );
}

#[test]
fn diagnostic_without_metadata() {
    let line = ReadFailure::PermissionDenied(Denied::Unknown).diagnostic("\"c\"");
    assert_eq!(line, "Error: insufficient permissions to read the config at \"c\"");
}

#[test]
fn diagnostic_of_another_error() {
    let line = ReadFailure::Other("Kind(InvalidData)".to_string()).diagnostic("\"c\"");
    assert_eq!(
        line,
        "Error while attempting to read config from path \"c\": Kind(InvalidData)"
    );
}

#[test]
fn allowed_origins_are_the_domains_in_order() {
    let config = settings(vec![site("first", "First"), site("second", "Second")]);
    assert_eq!(
        config.allowed_origins(),
        vec!["http://first.example".to_string(), "http://second.example".to_string()]
    );
    assert_eq!(settings(vec![]).allowed_origins(), Vec::<String>::new());
}

#[test]
fn unique_identifiers_have_no_duplicate() {
    assert_eq!(settings(vec![]).first_duplicate(), None);
    assert_eq!(settings(vec![site("only", "Only")]).first_duplicate(), None);
    let config = settings(vec![site("a", "A"), site("b", "B"), site("c", "C")]);
    assert_eq!(config.first_duplicate(), None);
}

#[test]
fn the_first_repeated_identifier_is_found() {
    let config = settings(vec![
        site("a", "A"),
        site("b", "B"),
        site("a", "A again"),
        site("b", "B again"),
    ]);
    assert_eq!(config.first_duplicate(), Some(2));
    let neighbours = settings(vec![site("a", "A"), site("a", "A again")]);
    assert_eq!(neighbours.first_duplicate(), Some(1));
}

#[test]
fn diagnostic_of_a_file_that_cannot_be_parsed() {
    let failure = ReadFailure::Unparsable("missing field `server` at line 1 column 1".to_string());
    assert_eq!(
        failure.diagnostic("\"/etc/static_contact/config.toml\""),
        "Error: cannot parse the config at \"/etc/static_contact/config.toml\": missing field \
         `server` at line 1 column 1"
    );
}
