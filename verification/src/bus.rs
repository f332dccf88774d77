//! The buses that join the daemons of a node: addresses, messages, and what a daemon
//! asks of the bus.

use crate::ids::ChannelId;
use crate::messages::{FundingCreated, FundingSigned, Messages, OpenChannel};
use crate::notices::Report;
use internet2::NodeAddr;
use vstd::prelude::*;

verus! {

/// The address of a node, `internet2::NodeAddr`: it is carried, and never looked into.
#[verifier::external_type_specification]
#[verifier::external_body]
pub struct ExNodeAddr(NodeAddr);

/// The failure to read an address, `internet2::AddrError`: nothing here returns it, but
/// the address type names it.
#[verifier::external_type_specification]
#[verifier::external_body]
pub struct ExAddrError(internet2::AddrError);

/// `Clone::clone` of `internet2::NodeAddr`, which the crate derives. The contract claims
/// that the copy is the address itself.
pub assume_specification[ <NodeAddr as Clone>::clone ](node: &NodeAddr) -> (r: NodeAddr)
    ensures
        r == *node,
;

/// A daemon, or a client, of the node.
#[derive(Clone, Debug, PartialEq, Eq, Hash)]
pub enum ServiceId {
    /// The daemon itself
    Loopback,
    /// The daemon that starts and knows all others
    Lnpd,
    /// The daemon that talks to the given peer
    Peer(NodeAddr),
    /// The daemon that runs the given channel
    Channel(ChannelId),
    Client(u64),
    Other([u8; 32]),
}

impl ServiceId {
    /// A copy of the address.
    pub fn copied(&self) -> (r: ServiceId)
        ensures
            r == *self,
    {
        match self {
            ServiceId::Loopback => ServiceId::Loopback,
            ServiceId::Lnpd => ServiceId::Lnpd,
            ServiceId::Peer(address) => ServiceId::Peer(address.clone()),
            ServiceId::Channel(id) => ServiceId::Channel(*id),
            ServiceId::Client(id) => ServiceId::Client(*id),
            ServiceId::Other(name) => ServiceId::Other(*name),
        }
    }
}

/// The buses of the node.
#[derive(Clone, Copy, Debug, PartialEq, Eq, Hash)]
pub enum ServiceBus {
    /// Messages to and from peers
    Msg,
    /// Control messages between daemons
    Ctl,
    /// Requests of clients
    Rpc,
}

/// A request to propose a channel to a peer.
#[derive(Clone, Debug, PartialEq, Eq, Hash)]
pub struct OpenChannelWith {
    pub remote_peer: NodeAddr,
    /// Who is told how the channel fares
    pub report_to: Option<ServiceId>,
    /// The terms of the channel, in the form in which daemons exchange them
    pub terms: Vec<u8>,
}

/// A request to answer a channel that a peer proposes.
#[derive(Clone, Debug, PartialEq, Eq, Hash)]
pub struct AcceptChannelFrom {
    pub remote_peer: NodeAddr,
    pub channel_req: OpenChannel,
}

/// Control messages. Those that a channel does not know hold their payload as it came.
#[derive(Clone, Debug, PartialEq, Eq, Hash)]
pub enum CtlMsg {
    OpenChannelWith(OpenChannelWith),
    AcceptChannelFrom(AcceptChannelFrom),
    UpdateChannelId(ChannelId),
    Other(Vec<u8>),
}

/// What goes over a bus.
#[derive(Clone, Debug, PartialEq, Eq, Hash)]
pub enum BusMsg {
    Ln(Messages),
    Ctl(CtlMsg),
    Rpc(Vec<u8>),
}

/// A message on its way.
#[derive(Debug, PartialEq, Eq, Hash)]
pub struct Envelope {
    pub bus: ServiceBus,
    pub source: ServiceId,
    pub dest: ServiceId,
    pub message: BusMsg,
}

/// Why the handling of a message failed. `E` is the failure of the bus, or of another
/// part of the node that was asked to act.
#[derive(Debug, PartialEq, Eq, Hash)]
pub enum Error<E> {
    /// The message does not belong on the bus
    WrongRpcMsg { bus: ServiceBus, message: BusMsg },
    Service(E),
}

/// Which funding step a signature or a notification belongs to.
#[derive(Clone, Copy, Debug, PartialEq, Eq, Hash)]
pub enum FundingStep {
    /// The local node funds the channel
    FundChannel,
    /// The peer funds the channel
    FundingCreated,
    /// The peer funds the channel, and waits for the answer
    PeerFundingCreated,
}

/// Where to go on once a message is sent.
#[derive(Clone, Copy, Debug, PartialEq, Eq, Hash)]
pub enum SendStage {
    /// `lnpd` was told the new channel id
    LnpdNotified(Option<FundingStep>),
    /// The daemon of the peer was told the new channel id
    PeerNotified(Option<FundingStep>),
    /// The peer was sent `funding_signed`
    FundingSignedSent,
    /// The peer was sent `funding_locked`
    FundingLockedSent,
}

/// What a completed operation hands back.
#[derive(Clone, Copy, Debug, PartialEq, Eq, Hash)]
pub enum Output {
    Nothing,
    FundingCreated(FundingCreated),
    FundingSigned(FundingSigned),
}

/// What has to happen before an operation can go on.
#[derive(Debug, PartialEq, Eq, Hash)]
pub enum Next<E> {
    /// Send the message; go on with `Runtime::sent`
    Send { envelope: Envelope, stage: SendStage },
    /// Sign the first commitment transaction; go on with `Runtime::funding_signature`
    Sign { step: FundingStep },
    /// Propose the channel to the peer; go on with `Runtime::channel_proposed`
    Propose { proposal: OpenChannelWith, remote_peer: NodeAddr },
    /// Hand the request to the state machine of the channel; go on with
    /// `Runtime::request_processed`
    Process { source: ServiceId, request: CtlMsg, remote_peer: NodeAddr },
    /// The operation is over
    Done(Result<Output, Error<E>>),
}

/// One step of an operation: reports to make, in this order and whether or not they reach
/// anyone, and after them what the operation waits for.
#[derive(Debug, PartialEq, Eq, Hash)]
pub struct Step<E> {
    pub reports: Vec<Report>,
    pub next: Next<E>,
}

impl<E> Step<E> {
    /// The step makes these reports and waits for `next`.
    pub open spec fn gives(self, reports: Seq<Report>, next: Next<E>) -> bool {
        &&& self.reports@ == reports
        &&& self.next == next
    }
}

} // verus!
