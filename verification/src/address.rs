//! Peer addresses of the form `host:port`, and the command line that names one.

use regex::Regex;
use vstd::prelude::*;
use vstd::string::StringExecFns;

verus! {

/// The pattern that an address has to match from its first character to its
/// last.
pub const ADDRESS_PATTERN: &'static str = "^([a-zA-Z0-9\\.\\-]+):([0-9]{1,5})$";

/// A character that may stand in a host name: an ASCII letter or digit, a
/// dot or a hyphen.
pub open spec fn is_host_char(c: char) -> bool {
    ||| 'a' <= c <= 'z'
    ||| 'A' <= c <= 'Z'
    ||| '0' <= c <= '9'
    ||| c == '.'
    ||| c == '-'
}

/// An ASCII decimal digit.
pub open spec fn is_port_digit(c: char) -> bool {
    '0' <= c <= '9'
}

/// `s` is a non-empty host name, then the colon at `colon`, then a port of
/// one to five digits, and nothing else.
pub open spec fn splits_at(s: Seq<char>, colon: int) -> bool {
    &&& 0 < colon < s.len()
    &&& s[colon] == ':'
    &&& forall|k: int| 0 <= k < colon ==> is_host_char(#[trigger] s[k])
    &&& 1 <= s.len() - colon - 1 <= 5
    &&& forall|k: int| colon < k < s.len() ==> is_port_digit(#[trigger] s[k])
}

/// `s` has the form `host:port`.
pub open spec fn is_host_port(s: Seq<char>) -> bool {
    exists|colon: int| splits_at(s, colon)
}

/// What is wrong with an address: no host before the colon, no colon at all
/// or more than one, a port that does not end in a digit (an empty port
/// among them), or a port of more than five characters. None of these has
/// the form `host:port`.
pub proof fn lemma_malformed_addresses(s: Seq<char>)
    ensures
        s.len() > 0 && s.first() == ':' ==> !is_host_port(s),
        (forall|k: int| 0 <= k < s.len() ==> #[trigger] s[k] != ':') ==> !is_host_port(s),
        (exists|i: int, j: int| 0 <= i < j < s.len() && s[i] == ':' && s[j] == ':')
            ==> !is_host_port(s),
        s.len() > 0 && !is_port_digit(s.last()) ==> !is_host_port(s),
        (exists|i: int| 0 <= i < s.len() && s[i] == ':' && s.len() - i > 6) ==> !is_host_port(s),
{
    if is_host_port(s) {
        let colon = choose|colon: int| splits_at(s, colon);
        assert(is_host_char(s[0]));
        assert(is_port_digit(s[s.len() - 1]));
        assert forall|i: int| 0 <= i < s.len() && s[i] == ':' implies i == colon by {
            if i < colon {
                assert(is_host_char(s[i]));
            } else if i > colon {
                assert(is_port_digit(s[i]));
            }
        }
    }
}

/// Compiles `pattern` with `regex::Regex::new` and asks `Regex::is_match`
/// whether `haystack` holds a match. The contract speaks of the address
/// pattern only, which is anchored at both ends: by the crate's syntax it
/// matches exactly the strings made of one or more host characters, a colon,
/// and one to five ASCII digits. That reading of the pattern is taken on
/// trust, as is that the pattern compiles.
#[verifier::external_body]
fn regex_is_match(pattern: &str, haystack: &str) -> (found: bool)
    requires
        pattern@ == ADDRESS_PATTERN@,
    ensures
        found == is_host_port(haystack@),
{
    Regex::new(pattern).unwrap().is_match(haystack)
}

/// Whether `addr` has the form `host:port`. Nothing is resolved or
/// connected: a well-formed address of a host that does not exist passes.
pub fn is_valid_host_port(addr: &str) -> (valid: bool)
    ensures
        valid == is_host_port(addr@),
{
    regex_is_match(ADDRESS_PATTERN, addr)
}

/// The address of the peer, checked once and not changed afterwards.
#[derive(Debug, PartialEq, Eq)]
pub struct Endpoint {
    address: String,
}

impl View for Endpoint {
    type V = Seq<char>;

    closed spec fn view(&self) -> Seq<char> {
        self.address@
    }
}

impl Endpoint {
    #[verifier::type_invariant]
    spec fn well_formed(&self) -> bool {
        is_host_port(self.address@)
    }

    /// The endpoint that `addr` names, if `addr` has the form `host:port`.
    pub fn parse(addr: &str) -> (endpoint: Option<Endpoint>)
        ensures
            endpoint is Some == is_host_port(addr@),
            endpoint matches Some(e) ==> e@ == addr@,
    {
        if is_valid_host_port(addr) {
            Some(Endpoint { address: String::from_str(addr) })
        } else {
            None
        }
    }

    /// The address as it was given, which has the form `host:port`.
    pub fn as_str(&self) -> (addr: &str)
        ensures
            addr@ == self@,
            is_host_port(addr@),
    {
        proof {
            use_type_invariant(self);
        }
        self.address.as_str()
    }
}

/// Why the client did not start.
#[derive(Clone, Copy, Debug, PartialEq, Eq)]
pub enum StartupError {
    /// The command line does not hold exactly one argument.
    Usage,
    /// The argument does not have the form `host:port`.
    InvalidAddress,
}

/// What the command line `args` asks for, where `args` starts with the
/// program's own name.
pub open spec fn arguments_outcome(args: Seq<Seq<char>>) -> Result<Seq<char>, StartupError> {
    if args.len() != 2 {
        Err(StartupError::Usage)
    } else if !is_host_port(args[1]) {
        Err(StartupError::InvalidAddress)
    } else {
        Ok(args[1])
    }
}

/// Reads the command line: the program's name and one address. Anything else
/// is an error, and then no connection is to be attempted.
pub fn parse_arguments(args: &Vec<String>) -> (outcome: Result<Endpoint, StartupError>)
    ensures
        match arguments_outcome(args@.map_values(|a: String| a@)) {
            Ok(addr) => outcome matches Ok(e) && e@ == addr,
            Err(why) => outcome == Err::<Endpoint, StartupError>(why),
        },
{
    if args.len() != 2 {
        return Err(StartupError::Usage);
    }
    match Endpoint::parse(args[1].as_str()) {
        Some(endpoint) => Ok(endpoint),
        None => Err(StartupError::InvalidAddress),
    }
}

} // verus!
