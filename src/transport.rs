//! What an ingress does with each received unit and what an egress puts on the
//! wire for each message, for every protocol; the sockets themselves are driven
//! by the caller, which performs the actions these rules return.
use vstd::prelude::*;
use vstd::string::*;
use vstd::utf8::*;
use crate::framing::{
    lemma_datagram_chunks_reassemble,
    compose_parts, datagram_chunks, decode_datagram, lossy_utf8, ensure_trailing_newline,
    joined_parts, split_datagrams, strip_line_terminator, strip_terminator, with_newline,
};
use crate::protocol::SocketType;
use crate::text::{decimal, decimal_string};

verus! {

/// Capacity of the queue between the ingress and the egress: a producer that finds
/// it full waits until the consumer has taken a message.
pub const RELAY_QUEUE_CAPACITY: usize = 32;

/// Capacity of the queue that carries one signal per observed message to the counters.
pub const STATS_QUEUE_CAPACITY: usize = 32;

/// One step an ingress takes for a received message, in the order given.
#[derive(Debug)]
pub enum IngressAction {
    /// Hand the message to the relay queue.
    Forward(String),
    /// Signal the counters that one message was observed.
    CountMessage,
}

/// What an egress does when sending a unit fails.
#[derive(Clone, Copy, Debug, PartialEq, Eq, Structural)]
pub enum SendFailure {
    /// Give up the rest of this message and go on with the next one.
    AbandonMessage,
    /// Stop the relay: the connection was meant to be kept alive beneath the sender.
    Fatal,
}

/// The receiving side of a relay.
pub struct Ingress {
    pub protocol: SocketType,
    pub host: String,
    pub port: u16,
    /// Whether received messages are forwarded: only when a destination is configured.
    pub forwards: bool,
}

/// The sending side of a relay.
pub struct Egress {
    pub protocol: SocketType,
    pub host: String,
    pub port: u16,
}

/// The steps for one received message `text`: forward it without its line terminator
/// when there is a queue to forward to, then count it.
pub open spec fn is_ingress_plan(r: Seq<IngressAction>, text: Seq<char>, forwards: bool) -> bool {
    if forwards {
        &&& r.len() == 2
        &&& r[0] matches IngressAction::Forward(m) && m@ == strip_terminator(text)
        &&& r[1] is CountMessage
    } else {
        &&& r.len() == 1
        &&& r[0] is CountMessage
    }
}

/// The upper-case tag of a protocol in names.
pub open spec fn protocol_tag(p: SocketType) -> Seq<char> {
    match p {
        SocketType::Tcp => "TCP"@,
        SocketType::Udp => "UDP"@,
        SocketType::Zmq => "ZMQ"@,
    }
}

/// `host:port`.
pub open spec fn host_port(host: Seq<char>, port: u16) -> Seq<char> {
    host + ":"@ + decimal(port as nat)
}

/// The address to bind or connect to: `host:port`, with `tcp://` in front for publish/subscribe.
pub open spec fn address_of(p: SocketType, host: Seq<char>, port: u16) -> Seq<char> {
    match p {
        SocketType::Zmq => "tcp://"@ + host_port(host, port),
        _ => host_port(host, port),
    }
}

/// The units an egress of protocol `p` sends for message `m`, in order: on a stream, the
/// line with its newline; on datagrams, that line cut into datagram-sized chunks; on
/// publish/subscribe, the message as it is.
pub open spec fn egress_units(p: SocketType, m: Seq<char>) -> Seq<Seq<u8>> {
    match p {
        SocketType::Tcp => seq![encode_utf8(with_newline(m))],
        SocketType::Udp => datagram_chunks(encode_utf8(with_newline(m))),
        SocketType::Zmq => seq![encode_utf8(m)],
    }
}

fn tag_str(p: SocketType) -> (r: &'static str)
    ensures
        r@ == protocol_tag(p),
{
    match p {
        SocketType::Tcp => "TCP",
        SocketType::Udp => "UDP",
        SocketType::Zmq => "ZMQ",
    }
}

fn host_port_string(host: &str, port: u16) -> (r: String)
    ensures
        r@ == host_port(host@, port),
{
    String::from_str(host).concat(":").concat(decimal_string(port as u64).as_str())
}

/// The address for `host` and `port` under protocol `p`.
pub fn endpoint_address(p: SocketType, host: &str, port: u16) -> (r: String)
    ensures
        r@ == address_of(p, host@, port),
{
    let hp = host_port_string(host, port);
    match p {
        SocketType::Zmq => {
            let r = String::from_str("tcp://").concat(hp.as_str());
            assert(r@ =~= address_of(p, host@, port));
            r
        },
        _ => hp,
    }
}

fn ingress_plan(text: &str, forwards: bool) -> (r: Vec<IngressAction>)
    ensures
        is_ingress_plan(r@, text@, forwards),
{
    let mut r: Vec<IngressAction> = Vec::new();
    if forwards {
        r.push(IngressAction::Forward(strip_line_terminator(text)));
    }
    r.push(IngressAction::CountMessage);
    r
}

impl Ingress {
    /// An ingress on `host:port`; it forwards only when `forwards` holds.
    pub fn new(protocol: SocketType, host: &str, port: u16, forwards: bool) -> (r: Ingress)
        ensures
            r.protocol == protocol,
            r.host@ == host@,
            r.port == port,
            r.forwards == forwards,
    {
        Ingress { protocol, host: String::from_str(host), port, forwards }
    }

    /// The prefix of this ingress's log lines: `[TCP Input host:port] `,
    /// `[UDP Input port] ` or `[ZMQ Input host:port] `.
    pub fn format_name(&self) -> (r: String)
        ensures
            r@ == "["@ + protocol_tag(self.protocol) + " Input "@ + (match self.protocol {
                SocketType::Udp => decimal(self.port as nat),
                _ => host_port(self.host@, self.port),
            }) + "] "@,
    {
        let place = match self.protocol {
            SocketType::Udp => decimal_string(self.port as u64),
            _ => host_port_string(self.host.as_str(), self.port),
        };
        String::from_str("[").concat(tag_str(self.protocol)).concat(" Input ").concat(
            place.as_str(),
        ).concat("] ")
    }

    /// The address this ingress binds (datagrams) or connects to.
    pub fn address(&self) -> (r: String)
        ensures
            r@ == address_of(self.protocol, self.host@, self.port),
    {
        endpoint_address(self.protocol, self.host.as_str(), self.port)
    }

    /// The steps for one line read from a stream.
    pub fn on_line(&self, line: &str) -> (r: Vec<IngressAction>)
        ensures
            is_ingress_plan(r@, line@, self.forwards),
    {
        ingress_plan(line, self.forwards)
    }

    /// The steps for one received datagram: none for an empty one; otherwise its text,
    /// decoded with invalid UTF-8 replaced, is forwarded and counted.
    pub fn on_datagram(&self, payload: &[u8]) -> (r: Vec<IngressAction>)
        ensures
            payload@.len() == 0 ==> r@.len() == 0,
            payload@.len() > 0 ==> is_ingress_plan(r@, lossy_utf8(payload@), self.forwards),
    {
        match decode_datagram(payload) {
            None => Vec::new(),
            Some(text) => ingress_plan(text.as_str(), self.forwards),
        }
    }

    /// The steps for one multi-part message: its parts joined with single spaces
    /// are forwarded and counted.
    pub fn on_parts(&self, parts: &Vec<Option<String>>) -> (r: Vec<IngressAction>)
        ensures
            is_ingress_plan(r@, joined_parts(parts@), self.forwards),
    {
        let text = compose_parts(parts);
        ingress_plan(text.as_str(), self.forwards)
    }
}

impl Egress {
    /// An egress to `host:port`.
    pub fn new(protocol: SocketType, host: &str, port: u16) -> (r: Egress)
        ensures
            r.protocol == protocol,
            r.host@ == host@,
            r.port == port,
    {
        Egress { protocol, host: String::from_str(host), port }
    }

    /// The prefix of this egress's log lines: `[TCP Output host:port] ` and the like.
    pub fn format_name(&self) -> (r: String)
        ensures
            r@ == "["@ + protocol_tag(self.protocol) + " Output "@ + host_port(self.host@, self.port)
                + "] "@,
    {
        String::from_str("[").concat(tag_str(self.protocol)).concat(" Output ").concat(
            host_port_string(self.host.as_str(), self.port).as_str(),
        ).concat("] ")
    }

    /// The address this egress sends to.
    pub fn address(&self) -> (r: String)
        ensures
            r@ == address_of(self.protocol, self.host@, self.port),
    {
        endpoint_address(self.protocol, self.host.as_str(), self.port)
    }

    /// The units to send, in order, for one message taken off the relay queue.
    pub fn outgoing_units(&self, message: String) -> (r: Vec<Vec<u8>>)
        ensures
            r@.map_values(|u: Vec<u8>| u@) == egress_units(self.protocol, message@),
    {
        match self.protocol {
            SocketType::Zmq => {
                let unit = message.as_str().as_bytes_vec();
                let mut r: Vec<Vec<u8>> = Vec::new();
                r.push(unit);
                assert(r@.map_values(|u: Vec<u8>| u@) =~= egress_units(self.protocol, message@));
                r
            },
            SocketType::Tcp => {
                let line = ensure_trailing_newline(message);
                let unit = line.as_str().as_bytes_vec();
                let mut r: Vec<Vec<u8>> = Vec::new();
                r.push(unit);
                assert(r@.map_values(|u: Vec<u8>| u@) =~= egress_units(self.protocol, message@));
                r
            },
            SocketType::Udp => {
                let line = ensure_trailing_newline(message);
                split_datagrams(line.as_str().as_bytes())
            },
        }
    }

    /// What to do when sending a unit fails: datagrams are best effort, so only the
    /// rest of that message is given up; on the other protocols it is fatal.
    pub fn on_send_failure(&self) -> (r: SendFailure)
        ensures
            r == (if self.protocol == SocketType::Udp {
                SendFailure::AbandonMessage
            } else {
                SendFailure::Fatal
            }),
    {
        match self.protocol {
            SocketType::Udp => SendFailure::AbandonMessage,
            _ => SendFailure::Fatal,
        }
    }
}

/// On a stream or on datagrams, the bytes sent for a message, taken together, are the
/// message with one newline appended when it has none at its end, and the message
/// unchanged when it has; on publish/subscribe the message goes out as one unit, unchanged.
pub proof fn lemma_egress_newline(p: SocketType, m: Seq<char>)
    ensures
        p != SocketType::Zmq && !(m.len() > 0 && m.last() == '\n') ==> egress_units(p, m).flatten()
            == encode_utf8(m.push('\n')),
        p != SocketType::Zmq && m.len() > 0 && m.last() == '\n' ==> egress_units(p, m).flatten()
            == encode_utf8(m),
        p == SocketType::Zmq ==> egress_units(p, m) == seq![encode_utf8(m)],
{
    let line = encode_utf8(with_newline(m));
    match p {
        SocketType::Tcp => {
            let u = egress_units(p, m);
            assert(u.drop_first() =~= Seq::<Seq<u8>>::empty());
            assert(u.drop_first().flatten() =~= Seq::<u8>::empty());
            assert(u.flatten() =~= line);
        },
        SocketType::Udp => {
            lemma_datagram_chunks_reassemble(line);
        },
        SocketType::Zmq => {},
    }
}

/// On datagrams a message goes out as chunks of at most `MAX_DATAGRAM_BYTES` bytes, none
/// empty and all but the last full, that put the line back together in order.
pub proof fn lemma_datagram_egress_chunks(m: Seq<char>)
    ensures
        egress_units(SocketType::Udp, m).flatten() == encode_utf8(with_newline(m)),
        forall|i: int|
            0 <= i < egress_units(SocketType::Udp, m).len() ==> 0 < #[trigger] egress_units(
                SocketType::Udp,
                m,
            )[i].len() <= 8192,
        forall|i: int|
            0 <= i < egress_units(SocketType::Udp, m).len() - 1 ==> #[trigger] egress_units(
                SocketType::Udp,
                m,
            )[i].len() == 8192,
{
    lemma_datagram_chunks_reassemble(encode_utf8(with_newline(m)));
}

} // verus!
