use chat_client::address::{is_valid_host_port, parse_arguments, Endpoint, StartupError, ADDRESS_PATTERN};

fn strings(items: &[&str]) -> Vec<String> {
    items.iter().map(|s| s.to_string()).collect()
}

#[test]
fn accepts_host_and_port() {
    assert!(is_valid_host_port("localhost:8080"));
    assert!(is_valid_host_port("127.0.0.1:1"));
    assert!(is_valid_host_port("my-host.example.com:65535"));
    assert!(is_valid_host_port("A:9"));
    assert!(is_valid_host_port("-.-:00000"));
}

#[test]
fn accepts_any_port_of_up_to_five_digits() {
    assert!(is_valid_host_port("host:0"));
    assert!(is_valid_host_port("host:99999"));
    assert!(is_valid_host_port("host:12345"));
}

#[test]
fn accepts_unreachable_host() {
    assert!(is_valid_host_port("no.such.host.invalid:4000"));
}

#[test]
fn rejects_empty_string() {
    assert!(!is_valid_host_port(""));
}

#[test]
fn rejects_empty_host() {
    assert!(!is_valid_host_port(":8080"));
}

#[test]
fn rejects_missing_port() {
    assert!(!is_valid_host_port("localhost"));
    assert!(!is_valid_host_port("localhost:"));
}

#[test]
fn rejects_port_that_is_not_a_number() {
    assert!(!is_valid_host_port("localhost:http"));
    assert!(!is_valid_host_port("localhost:80a"));
    assert!(!is_valid_host_port("localhost:-1"));
    assert!(!is_valid_host_port("localhost:8 0"));
}

#[test]
fn rejects_port_of_six_digits() {
    assert!(!is_valid_host_port("localhost:123456"));
    assert!(!is_valid_host_port("localhost:000000"));
}

#[test]
fn rejects_extra_colons() {
    assert!(!is_valid_host_port("a:b:80"));
    assert!(!is_valid_host_port("host::80"));
    assert!(!is_valid_host_port("host:80:"));
    assert!(!is_valid_host_port("::1:80"));
}

#[test]
fn rejects_characters_outside_the_host_alphabet() {
    assert!(!is_valid_host_port("my_host:80"));
    assert!(!is_valid_host_port("my host:80"));
    assert!(!is_valid_host_port("host/path:80"));
    assert!(!is_valid_host_port("h\u{f6}st:80"));
}

#[test]
fn rejects_digits_outside_ascii() {
    assert!(!is_valid_host_port("host:\u{663}\u{664}"));
}

#[test]
fn rejects_anything_around_the_address() {
    assert!(!is_valid_host_port(" host:80"));
    assert!(!is_valid_host_port("host:80 "));
    assert!(!is_valid_host_port("host:80\n"));
    assert!(!is_valid_host_port("\nhost:80"));
    assert!(!is_valid_host_port("x\nhost:80"));
}

#[test]
fn pattern_is_anchored() {
    assert!(ADDRESS_PATTERN.starts_with('^'));
    assert!(ADDRESS_PATTERN.ends_with('$'));
    assert_eq!(ADDRESS_PATTERN, "^([a-zA-Z0-9\\.\\-]+):([0-9]{1,5})$");
}

#[test]
fn endpoint_keeps_the_address() {
    let endpoint = Endpoint::parse("example.org:7000").unwrap();
    assert_eq!(endpoint.as_str(), "example.org:7000");
}

#[test]
fn endpoint_refuses_malformed_address() {
    assert_eq!(Endpoint::parse("example.org"), None);
    assert_eq!(Endpoint::parse(":7000"), None);
    assert_eq!(Endpoint::parse(""), None);
}

#[test]
fn arguments_with_one_address() {
    let outcome = parse_arguments(&strings(&["client", "localhost:9000"]));
    assert_eq!(outcome.unwrap().as_str(), "localhost:9000");
}

#[test]
fn arguments_without_address() {
    assert_eq!(parse_arguments(&strings(&["client"])), Err(StartupError::Usage));
    assert_eq!(parse_arguments(&strings(&[])), Err(StartupError::Usage));
}

#[test]
fn arguments_with_too_many() {
    assert_eq!(
        parse_arguments(&strings(&["client", "localhost:9000", "extra"])),
        Err(StartupError::Usage)
    );
    assert_eq!(
        parse_arguments(&strings(&["client", "bad", "worse"])),
        Err(StartupError::Usage)
    );
}

#[test]
fn arguments_with_malformed_address() {
    assert_eq!(
        parse_arguments(&strings(&["client", "localhost"])),
        Err(StartupError::InvalidAddress)
    );
    assert_eq!(
        parse_arguments(&strings(&["localhost:9000", "nine thousand"])),
        Err(StartupError::InvalidAddress)
    );
}
