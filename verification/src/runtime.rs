//! The state of a channel daemon.

use crate::bus::{BusMsg, CtlMsg, Envelope, ServiceBus, ServiceId};
use crate::funding::Chain;
use crate::ids::{ChannelId, OutPoint, TempChannelId};
use crate::messages::Messages;
use crate::notices::{Notice, Recipient, Report};
use crate::params::{Keyset, PeerParams};
use crate::transitions::log;
use internet2::NodeAddr;
use vstd::prelude::*;

verus! {

/// How far the life of a channel has come.
#[derive(Clone, Copy, Debug, PartialEq, Eq, Hash)]
pub enum Lifecycle {
    Initial,
    /// `open_channel` was sent or received
    Proposed,
    /// `accept_channel` was sent or received
    Accepted,
    Signing,
    /// One side has signed the funding transaction
    Funding,
    Signed,
    /// Both sides have signed
    Funded,
    /// One side has confirmed the funding transaction
    Locked,
    /// Both sides have confirmed it
    Active,
    Reestablishing,
    Shutdown,
    Closing { round: usize },
    Aborting,
    Penalize,
    Closed,
}

/// The amounts of the two sides, as the commitment transaction of the channel has them.
#[derive(Clone, Copy, Debug, PartialEq, Eq, Hash)]
pub struct ChannelAmounts {
    pub local_amount: u64,
    pub remote_amount: u64,
}

/// The state of a channel daemon.
#[derive(Debug)]
pub struct Runtime {
    pub identity: ServiceId,
    /// The daemon that talks to the remote peer
    pub peer_service: ServiceId,
    pub chain: Chain,
    pub channel: ChannelAmounts,
    pub channel_id: ChannelId,
    pub temporary_channel_id: TempChannelId,
    pub state: Lifecycle,
    pub local_capacity: u64,
    pub remote_capacity: u64,
    pub funding_outpoint: OutPoint,
    pub remote_peer: Option<NodeAddr>,
    pub commitment_number: u64,
    pub total_payments: u64,
    pub pending_payments: u16,
    pub local_params: PeerParams,
    pub remote_params: PeerParams,
    pub local_keys: Keyset,
    pub remote_keys: Keyset,
    /// Whether the local node proposed the channel
    pub is_originator: bool,
    /// What hides the commitment number in a commitment transaction
    pub obscuring_factor: u64,
    /// Who is told how the channel fares
    pub enquirer: Option<ServiceId>,
}

/// A copy of a service address, where there is one.
pub(crate) fn copied(service: &Option<ServiceId>) -> (r: Option<ServiceId>)
    ensures
        r == *service,
{
    match service {
        Some(id) => Some(id.copied()),
        None => None,
    }
}

/// No reports.
pub(crate) fn nothing() -> (r: Vec<Report>)
    ensures
        r@ == Seq::<Report>::empty(),
{
    Vec::new()
}

/// A single report.
pub(crate) fn only(report: Report) -> (r: Vec<Report>)
    ensures
        r@ == seq![report],
{
    let mut r: Vec<Report> = Vec::new();
    r.push(report);
    assert(r@ =~= seq![report]);
    r
}

/// Two reports.
pub(crate) fn both(first: Report, second: Report) -> (r: Vec<Report>)
    ensures
        r@ == seq![first, second],
{
    let mut r: Vec<Report> = Vec::new();
    r.push(first);
    r.push(second);
    assert(r@ =~= seq![first, second]);
    r
}

/// A report for the log.
pub(crate) fn log_line(notice: Notice) -> (r: Report)
    ensures
        r == log(notice),
{
    Report { recipient: Recipient::Log, notice }
}

impl Runtime {
    /// The daemon of a channel of which nothing has happened yet.
    pub open spec fn is_new(self, chain: Chain, channel_id: ChannelId) -> bool {
        &&& self.identity == ServiceId::Channel(channel_id)
        &&& self.peer_service == ServiceId::Loopback
        &&& self.chain == chain
        &&& self.channel == ChannelAmounts { local_amount: 0, remote_amount: 0 }
        &&& self.channel_id.is_zero()
        &&& self.temporary_channel_id.bytes == channel_id.bytes
        &&& self.state == Lifecycle::Initial
        &&& self.local_capacity == 0
        &&& self.remote_capacity == 0
        &&& self.funding_outpoint.is_null()
        &&& self.remote_peer is None
        &&& self.commitment_number == 0
        &&& self.total_payments == 0
        &&& self.pending_payments == 0
        &&& self.local_params == PeerParams::spec_default()
        &&& self.remote_params == PeerParams::spec_default()
        &&& self.local_keys.is_dumb()
        &&& self.remote_keys.is_dumb()
        &&& !self.is_originator
        &&& self.obscuring_factor == 0
        &&& self.enquirer is None
    }

    /// The daemon of a channel of which nothing has happened yet. Until the channel is
    /// funded, `channel_id` serves as its temporary id.
    pub fn new(chain: Chain, channel_id: ChannelId) -> (r: Runtime)
        ensures
            r.is_new(chain, channel_id),
    {
        Runtime {
            identity: ServiceId::Channel(channel_id),
            peer_service: ServiceId::Loopback,
            chain,
            channel: ChannelAmounts { local_amount: 0, remote_amount: 0 },
            channel_id: ChannelId::zero(),
            temporary_channel_id: channel_id.to_temporary(),
            state: Lifecycle::Initial,
            local_capacity: 0,
            remote_capacity: 0,
            funding_outpoint: OutPoint::null(),
            remote_peer: None,
            commitment_number: 0,
            total_payments: 0,
            pending_payments: 0,
            local_params: PeerParams::default(),
            remote_params: PeerParams::default(),
            local_keys: Keyset::dumb(),
            remote_keys: Keyset::dumb(),
            is_originator: false,
            obscuring_factor: 0,
            enquirer: None,
        }
    }

    /// What both sides together hold in the channel.
    pub fn channel_capacity(&self) -> (r: u64)
        requires
            self.local_capacity + self.remote_capacity <= u64::MAX,
        ensures
            r == self.local_capacity + self.remote_capacity,
    {
        self.local_capacity + self.remote_capacity
    }

    /// Under which address the daemon is known.
    pub fn identity(&self) -> (r: ServiceId)
        ensures
            r == self.identity,
    {
        self.identity.copied()
    }

    /// Who is told how the channel fares.
    pub fn enquirer(&self) -> (r: Option<ServiceId>)
        ensures
            r == self.enquirer,
    {
        copied(&self.enquirer)
    }

    /// A progress report.
    pub open spec fn spec_progress(self, notice: Notice) -> Report {
        Report { recipient: Recipient::Progress(self.enquirer), notice }
    }

    /// A report of success.
    pub open spec fn spec_success(self, notice: Notice) -> Report {
        Report { recipient: Recipient::Success(self.enquirer), notice }
    }

    pub(crate) fn progress(&self, notice: Notice) -> (r: Report)
        ensures
            r == self.spec_progress(notice),
    {
        Report { recipient: Recipient::Progress(self.enquirer()), notice }
    }

    pub(crate) fn success(&self, notice: Notice) -> (r: Report)
        ensures
            r == self.spec_success(notice),
    {
        Report { recipient: Recipient::Success(self.enquirer()), notice }
    }

    /// A message to the remote peer.
    pub open spec fn spec_p2p(self, message: Messages) -> Envelope {
        Envelope {
            bus: ServiceBus::Msg,
            source: self.identity,
            dest: self.peer_service,
            message: BusMsg::Ln(message),
        }
    }

    /// A control message to another daemon.
    pub open spec fn spec_ctl(self, dest: ServiceId, message: CtlMsg) -> Envelope {
        Envelope {
            bus: ServiceBus::Ctl,
            source: self.identity,
            dest,
            message: BusMsg::Ctl(message),
        }
    }

    /// A message to the remote peer: it goes to the daemon that talks to the peer.
    pub fn send_p2p(&self, message: Messages) -> (r: Envelope)
        ensures
            r == self.spec_p2p(message),
    {
        Envelope {
            bus: ServiceBus::Msg,
            source: self.identity(),
            dest: self.peer_service.copied(),
            message: BusMsg::Ln(message),
        }
    }

    pub(crate) fn send_ctl(&self, dest: ServiceId, message: CtlMsg) -> (r: Envelope)
        ensures
            r == self.spec_ctl(dest, message),
    {
        Envelope {
            bus: ServiceBus::Ctl,
            source: self.identity(),
            dest,
            message: BusMsg::Ctl(message),
        }
    }
}

} // verus!
