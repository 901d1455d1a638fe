//! The transport protocols an endpoint can speak, and how they are named.
use vstd::prelude::*;
use vstd::string::*;

verus! {

/// The transport protocol of an endpoint.
#[derive(Clone, Copy, Debug, PartialEq, Eq, Structural)]
pub enum SocketType {
    /// A reliable, reconnecting, newline-delimited stream.
    Tcp,
    /// Connectionless datagrams.
    Udp,
    /// Publish/subscribe with discrete multi-part messages.
    Zmq,
}

/// A protocol name that names none of the known protocols.
#[derive(Debug)]
pub struct UnknownSocketType {
    /// The name as it was given.
    pub name: String,
}

/// The protocol that a name in lower case stands for.
pub open spec fn socket_type_of(name: Seq<char>) -> Option<SocketType> {
    if name == seq!['t', 'c', 'p'] {
        Some(SocketType::Tcp)
    } else if name == seq!['u', 'd', 'p'] {
        Some(SocketType::Udp)
    } else if name == seq!['z', 'm', 'q'] {
        Some(SocketType::Zmq)
    } else {
        None
    }
}

/// What `str::to_lowercase` makes of a text.
pub uninterp spec fn lower_of(s: Seq<char>) -> Seq<char>;

/// Relies on `str::to_lowercase`: the lower-case form of a text, which depends on
/// its characters alone.
#[verifier::external_body]
fn lowercase(s: &str) -> (r: String)
    ensures
        r@ == lower_of(s@),
{
    s.to_lowercase()
}

/// The text that precedes the offending name in the message of `UnknownSocketType`.
pub open spec fn unknown_prefix() -> Seq<char> {
    seq![
        'U', 'n', 'k', 'n', 'o', 'w', 'n', ' ', 'S', 'o', 'c', 'k', 'e', 't', ' ', 'T', 'y', 'p',
        'e', ':', ' ',
    ]
}

impl UnknownSocketType {
    /// The human-readable message: `Unknown Socket Type: <name>`.
    pub fn message(&self) -> (r: String)
        ensures
            r@ == unknown_prefix() + self.name@,
    {
        proof {
            reveal_strlit("Unknown Socket Type: ");
        }
        let r = String::from_str("Unknown Socket Type: ").concat(self.name.as_str());
        assert(r@ =~= unknown_prefix() + self.name@);
        r
    }
}

impl SocketType {
    /// The protocol named by `name`, which is compared as it stands: the names are
    /// `tcp`, `udp` and `zmq`.
    pub fn from_lowercase(name: &str) -> (r: Option<SocketType>)
        ensures
            r == socket_type_of(name@),
    {
        proof {
            reveal_strlit("tcp");
            reveal_strlit("udp");
            reveal_strlit("zmq");
        }
        let n = String::from_str(name);
        if n == String::from_str("tcp") {
            assert(name@ =~= seq!['t', 'c', 'p']);
            Some(SocketType::Tcp)
        } else if n == String::from_str("udp") {
            assert(name@ =~= seq!['u', 'd', 'p']);
            Some(SocketType::Udp)
        } else if n == String::from_str("zmq") {
            assert(name@ =~= seq!['z', 'm', 'q']);
            Some(SocketType::Zmq)
        } else {
            assert(name@ != seq!['t', 'c', 'p'] && name@ != seq!['u', 'd', 'p'] && name@ != seq![
                'z',
                'm',
                'q',
            ]) by {
                assert(seq!['t', 'c', 'p'] =~= "tcp"@);
                assert(seq!['u', 'd', 'p'] =~= "udp"@);
                assert(seq!['z', 'm', 'q'] =~= "zmq"@);
            }
            None
        }
    }
}

impl<'a> TryFrom<&'a str> for SocketType {
    type Error = UnknownSocketType;

    /// The protocol named by `s`, in any mix of upper and lower case.
    fn try_from(s: &'a str) -> (r: Result<SocketType, UnknownSocketType>)
        ensures
            r is Ok <==> socket_type_of(lower_of(s@)) is Some,
            r matches Ok(t) ==> socket_type_of(lower_of(s@)) == Some(t),
            r matches Err(e) ==> e.name@ == s@,
    {
        let folded = lowercase(s);
        match SocketType::from_lowercase(folded.as_str()) {
            Some(t) => Ok(t),
            None => Err(UnknownSocketType { name: String::from_str(s) }),
        }
    }
}

impl TryFrom<String> for SocketType {
    type Error = UnknownSocketType;

    /// The protocol named by `s`, in any mix of upper and lower case.
    fn try_from(s: String) -> (r: Result<SocketType, UnknownSocketType>)
        ensures
            r is Ok <==> socket_type_of(lower_of(s@)) is Some,
            r matches Ok(t) ==> socket_type_of(lower_of(s@)) == Some(t),
            r matches Err(e) ==> e.name@ == s@,
    {
        <SocketType as TryFrom<&str>>::try_from(s.as_str())
    }
}

impl vstd::std_specs::convert::TryFromSpecImpl<String> for SocketType {
    /// The outcome is stated on `try_from` itself, over the lower-case form of the name.
    open spec fn obeys_try_from_spec() -> bool {
        false
    }

    open spec fn try_from_spec(s: String) -> Result<SocketType, UnknownSocketType> {
        arbitrary()
    }
}

impl<'a> vstd::std_specs::convert::TryFromSpecImpl<&'a str> for SocketType {
    /// The outcome is stated on `try_from` itself, over the lower-case form of the name.
    open spec fn obeys_try_from_spec() -> bool {
        false
    }

    open spec fn try_from_spec(s: &'a str) -> Result<SocketType, UnknownSocketType> {
        arbitrary()
    }
}

} // verus!
