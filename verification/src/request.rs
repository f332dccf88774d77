//! The requests that clients and daemons make of each other.

use crate::bus::ServiceId;
use crate::messages::{Messages, OpenChannel};
use internet2::{NodeAddr, RemoteSocketAddr};
use vstd::prelude::*;

verus! {

/// The socket that a node listens on, `internet2::RemoteSocketAddr`: it is carried, and
/// never looked into.
#[verifier::external_type_specification]
#[verifier::external_body]
pub struct ExRemoteSocketAddr(RemoteSocketAddr);

/// `Clone::clone` of `internet2::RemoteSocketAddr`, which the crate derives. The contract
/// claims that the copy is the address itself.
pub assume_specification[ <RemoteSocketAddr as Clone>::clone ](
    socket: &RemoteSocketAddr,
) -> (r: RemoteSocketAddr)
    ensures
        r == *socket,
;

/// A proposed channel, and the daemon of the connection on which it is proposed.
#[derive(Clone, Debug, PartialEq, Eq)]
pub struct ChannelParams {
    pub channel_req: OpenChannel,
    pub connectiond: ServiceId,
}

/// A request.
#[derive(Clone, Debug)]
#[non_exhaustive]
pub enum Request {
    Hello,
    LnpwpMessage(Messages),
    /// From a client to `lnpd`
    Listen(RemoteSocketAddr),
    /// From a client to `lnpd`
    ConnectPeer(NodeAddr),
    /// From a client to the daemon of a connection
    PingPeer,
    /// From a client to `lnpd`
    OpenChannelWith(ChannelParams),
    AcceptChannelFrom(ChannelParams),
}

impl Request {
    /// The number by which a request is told on the wire.
    pub open spec fn spec_type(self) -> u16 {
        match self {
            Request::Hello => 0,
            Request::LnpwpMessage(_) => 1,
            Request::Listen(_) => 2,
            Request::ConnectPeer(_) => 3,
            Request::PingPeer => 4,
            Request::OpenChannelWith(_) => 5,
            Request::AcceptChannelFrom(_) => 6,
        }
    }

    /// The request in words. `message` is how the peer message that it holds is printed.
    pub open spec fn spec_text(self, message: Seq<char>) -> Seq<char> {
        match self {
            Request::Hello => "hello()"@,
            Request::LnpwpMessage(_) => "lnpwp("@ + message + ")"@,
            Request::Listen(_) => "connect()"@,
            Request::ConnectPeer(_) => "connect()"@,
            Request::PingPeer => "ping_peer()"@,
            Request::OpenChannelWith(_) => "create_channel_with(...)"@,
            Request::AcceptChannelFrom(_) => "accept_channel_from(...)"@,
        }
    }

    /// The number by which a request is told on the wire.
    pub fn get_type(&self) -> (r: u16)
        ensures
            r == self.spec_type(),
    {
        match self {
            Request::Hello => 0,
            Request::LnpwpMessage(_) => 1,
            Request::Listen(_) => 2,
            Request::ConnectPeer(_) => 3,
            Request::PingPeer => 4,
            Request::OpenChannelWith(_) => 5,
            Request::AcceptChannelFrom(_) => 6,
        }
    }

    /// The request in words. `message` is how the peer message that it holds is printed.
    pub fn text(&self, message: &str) -> (r: String)
        ensures
            r@ == self.spec_text(message@),
    {
        let mut r: String = String::new();
        match self {
            Request::Hello => {
                r.append("hello()");
            },
            Request::LnpwpMessage(_) => {
                r.append("lnpwp(");
                r.append(message);
                r.append(")");
            },
            Request::Listen(_) => {
                r.append("connect()");
            },
            Request::ConnectPeer(_) => {
                r.append("connect()");
            },
            Request::PingPeer => {
                r.append("ping_peer()");
            },
            Request::OpenChannelWith(_) => {
                r.append("create_channel_with(...)");
            },
            Request::AcceptChannelFrom(_) => {
                r.append("accept_channel_from(...)");
            },
        }
        assert(r@ =~= self.spec_text(message@));
        r
    }
}

/// Requests of one number are of one kind.
pub proof fn type_tells_requests_apart(a: Request, b: Request)
    requires
        a.spec_type() == b.spec_type(),
    ensures
        a is Hello <==> b is Hello,
        a is LnpwpMessage <==> b is LnpwpMessage,
        a is Listen <==> b is Listen,
        a is ConnectPeer <==> b is ConnectPeer,
        a is PingPeer <==> b is PingPeer,
        a is OpenChannelWith <==> b is OpenChannelWith,
        a is AcceptChannelFrom <==> b is AcceptChannelFrom,
{
}

} // verus!
