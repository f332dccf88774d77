//! What a channel daemon has to say to those who follow it.

use crate::bus::ServiceId;
use crate::bytes::{
    append_hex, append_padded_hex, append_short_hex, hex_text, padded_hex_text, short_hex_text,
};
use crate::funding::{print_script, script_text};
use crate::ids::{ChannelId, TempChannelId};
use crate::keys::PublicKey;
use crate::messages::{FundingCreated, FundingSigned};
use internet2::NodeAddr;
use vstd::prelude::*;

verus! {

/// How much a line of the log matters.
#[derive(Clone, Copy, Debug, PartialEq, Eq, Hash)]
pub enum Level {
    Error,
    Warn,
    Info,
    Debug,
    /// Intermediate values
    Trace,
}

/// Something worth telling.
#[derive(Debug, PartialEq, Eq, Hash)]
pub enum Notice {
    AcceptingChannel { temporary_channel_id: TempChannelId, peer: ServiceId },
    ChannelAccepted { temporary_channel_id: TempChannelId, peer: ServiceId },
    AcceptedByPeer,
    VerifyingParams(TempChannelId),
    ReadyForFunding(TempChannelId),
    FundingStarted(TempChannelId),
    FundingChannel(TempChannelId),
    PreparedFundingCreated(FundingCreated),
    FundingCreated(ChannelId),
    PeerFundingStarted(TempChannelId),
    AcceptingFunding(TempChannelId),
    PreparedFundingSigned(FundingSigned),
    FundingSigned(ChannelId),
    ObscuringHash([u8; 32]),
    ObscuringFactor(u64),
    UpdatingChannelId(ChannelId),
    ChannelIdSet(ChannelId),
    ChannelFunded,
    ChannelActive,
    UnexpectedOpenChannel(NodeAddr),
    GeneratingScript { local: PublicKey, remote: PublicKey },
    FundingScript(Vec<u8>),
    FundingAddress(String),
    NoFundingAddress,
    UnsupportedRequest,
}

impl Notice {
    /// The notice in words. `name` is how the peer, the chain or the message that it speaks
    /// of is printed.
    pub open spec fn spec_text(self, name: Seq<char>) -> Seq<char> {
        match self {
            Notice::AcceptingChannel { temporary_channel_id, .. } =>
                "Accepting channel with temp id "@ + hex_text(temporary_channel_id.bytes@)
                    + " from remote peer "@ + name,
            Notice::ChannelAccepted { temporary_channel_id, .. } => "Channel "@ + hex_text(
                temporary_channel_id.bytes@,
            ) + " was accepted by the remote peer "@ + name,
            Notice::AcceptedByPeer => "Channel was accepted by the remote peer"@,
            Notice::VerifyingParams(id) => "Verifying returned parameters for the channel "@
                + hex_text(id.bytes@),
            Notice::ReadyForFunding(id) => "Channel "@ + hex_text(id.bytes@)
                + " is ready for funding"@,
            Notice::FundingStarted(id) => "Funding channel "@ + hex_text(id.bytes@),
            Notice::FundingChannel(id) => "Funding channel "@ + short_hex_text(id.bytes@),
            Notice::PreparedFundingCreated(_) => "Prepared funding_created: "@ + name,
            Notice::FundingCreated(id) => "Funding created for channel "@ + hex_text(id.bytes@)
                + ". Awaiting for remote node signature."@,
            Notice::PeerFundingStarted(id) => "Accepting channel funding "@ + hex_text(id.bytes@),
            Notice::AcceptingFunding(id) => "Accepting channel funding "@ + short_hex_text(
                id.bytes@,
            ),
            Notice::PreparedFundingSigned(_) => "Prepared funding_signed: "@ + name,
            Notice::FundingSigned(id) => "Funding signed for channel "@ + hex_text(id.bytes@)
                + ". Awaiting for funding tx mining."@,
            Notice::ObscuringHash(hash) => "Obscuring hash: "@ + hex_text(hash@),
            Notice::ObscuringFactor(factor) => "Obscuring factor: "@ + padded_hex_text(factor),
            Notice::UpdatingChannelId(id) => "Updating channel id to "@ + hex_text(id.bytes@),
            Notice::ChannelIdSet(id) => "Channel ID set to "@ + hex_text(id.bytes@),
            Notice::ChannelFunded => "Channel funded: both signatures present"@,
            Notice::ChannelActive => "Channel active: transaction confirmed"@,
            Notice::UnexpectedOpenChannel(_) => "Got `open_channel` P2P message from "@ + name
                + ", which is unexpected: the channel creation was already requested before"@,
            Notice::GeneratingScript { local, remote } =>
                "Generating script pubkey from local "@ + hex_text(local@) + " and remote "@
                    + hex_text(remote@),
            Notice::FundingScript(script) => "Funding script: "@ + script_text(script@),
            Notice::FundingAddress(address) => "Funding address: "@ + address@,
            Notice::NoFundingAddress =>
                "Unable to generate funding address for the current network  "@ + name,
            Notice::UnsupportedRequest => "Request is not supported by the CTL interface"@,
        }
    }

    /// The notice in words. `name` is how the peer, the chain or the message that it speaks
    /// of is printed.
    pub fn text(&self, name: &str) -> (r: String)
        ensures
            r@ == self.spec_text(name@),
    {
        let mut r: String = String::new();
        match self {
            Notice::AcceptingChannel { temporary_channel_id, .. } => {
                r.append("Accepting channel with temp id ");
                append_hex(&mut r, temporary_channel_id.bytes.as_slice());
                r.append(" from remote peer ");
                r.append(name);
            },
            Notice::ChannelAccepted { temporary_channel_id, .. } => {
                r.append("Channel ");
                append_hex(&mut r, temporary_channel_id.bytes.as_slice());
                r.append(" was accepted by the remote peer ");
                r.append(name);
            },
            Notice::AcceptedByPeer => {
                r.append("Channel was accepted by the remote peer");
            },
            Notice::VerifyingParams(id) => {
                r.append("Verifying returned parameters for the channel ");
                append_hex(&mut r, id.bytes.as_slice());
            },
            Notice::ReadyForFunding(id) => {
                r.append("Channel ");
                append_hex(&mut r, id.bytes.as_slice());
                r.append(" is ready for funding");
            },
            Notice::FundingStarted(id) => {
                r.append("Funding channel ");
                append_hex(&mut r, id.bytes.as_slice());
            },
            Notice::FundingChannel(id) => {
                r.append("Funding channel ");
                append_short_hex(&mut r, &id.bytes);
            },
            Notice::PreparedFundingCreated(_) => {
                r.append("Prepared funding_created: ");
                r.append(name);
            },
            Notice::FundingCreated(id) => {
                r.append("Funding created for channel ");
                append_hex(&mut r, id.bytes.as_slice());
                r.append(". Awaiting for remote node signature.");
            },
            Notice::PeerFundingStarted(id) => {
                r.append("Accepting channel funding ");
                append_hex(&mut r, id.bytes.as_slice());
            },
            Notice::AcceptingFunding(id) => {
                r.append("Accepting channel funding ");
                append_short_hex(&mut r, &id.bytes);
            },
            Notice::PreparedFundingSigned(_) => {
                r.append("Prepared funding_signed: ");
                r.append(name);
            },
            Notice::FundingSigned(id) => {
                r.append("Funding signed for channel ");
                append_hex(&mut r, id.bytes.as_slice());
                r.append(". Awaiting for funding tx mining.");
            },
            Notice::ObscuringHash(hash) => {
                r.append("Obscuring hash: ");
                append_hex(&mut r, hash.as_slice());
            },
            Notice::ObscuringFactor(factor) => {
                r.append("Obscuring factor: ");
                append_padded_hex(&mut r, *factor);
            },
            Notice::UpdatingChannelId(id) => {
                r.append("Updating channel id to ");
                append_hex(&mut r, id.bytes.as_slice());
            },
            Notice::ChannelIdSet(id) => {
                r.append("Channel ID set to ");
                append_hex(&mut r, id.bytes.as_slice());
            },
            Notice::ChannelFunded => {
                r.append("Channel funded: both signatures present");
            },
            Notice::ChannelActive => {
                r.append("Channel active: transaction confirmed");
            },
            Notice::UnexpectedOpenChannel(_) => {
                r.append("Got `open_channel` P2P message from ");
                r.append(name);
                r.append(
                    ", which is unexpected: the channel creation was already requested before",
                );
            },
            Notice::GeneratingScript { local, remote } => {
                let local_bytes: [u8; 33] = local.serialize();
                let remote_bytes: [u8; 33] = remote.serialize();
                r.append("Generating script pubkey from local ");
                append_hex(&mut r, local_bytes.as_slice());
                r.append(" and remote ");
                append_hex(&mut r, remote_bytes.as_slice());
            },
            Notice::FundingScript(script) => {
                r.append("Funding script: ");
                r.append(print_script(script.as_slice()).as_str());
            },
            Notice::FundingAddress(address) => {
                r.append("Funding address: ");
                r.append(address.as_str());
            },
            Notice::NoFundingAddress => {
                r.append("Unable to generate funding address for the current network  ");
                r.append(name);
            },
            Notice::UnsupportedRequest => {
                r.append("Request is not supported by the CTL interface");
            },
        }
        assert(r@ =~= self.spec_text(name@));
        r
    }

    /// The level at which the notice is logged, whoever else it is for. Some notices are
    /// for the one who asked for the channel alone.
    pub open spec fn spec_level(self) -> Option<Level> {
        match self {
            Notice::AcceptedByPeer => None,
            Notice::FundingChannel(_) => None,
            Notice::AcceptingFunding(_) => None,
            Notice::UnexpectedOpenChannel(_) => Some(Level::Warn),
            Notice::UpdatingChannelId(_) => Some(Level::Debug),
            Notice::FundingAddress(_) => Some(Level::Debug),
            Notice::PreparedFundingCreated(_) => Some(Level::Trace),
            Notice::PreparedFundingSigned(_) => Some(Level::Trace),
            Notice::ObscuringHash(_) => Some(Level::Trace),
            Notice::ObscuringFactor(_) => Some(Level::Trace),
            Notice::GeneratingScript { .. } => Some(Level::Trace),
            Notice::FundingScript(_) => Some(Level::Trace),
            Notice::NoFundingAddress => Some(Level::Error),
            Notice::UnsupportedRequest => Some(Level::Error),
            _ => Some(Level::Info),
        }
    }

    /// The level at which the notice is logged, where it is.
    pub fn level(&self) -> (r: Option<Level>)
        ensures
            r == self.spec_level(),
    {
        match self {
            Notice::AcceptedByPeer => None,
            Notice::FundingChannel(_) => None,
            Notice::AcceptingFunding(_) => None,
            Notice::UnexpectedOpenChannel(_) => Some(Level::Warn),
            Notice::UpdatingChannelId(_) => Some(Level::Debug),
            Notice::FundingAddress(_) => Some(Level::Debug),
            Notice::PreparedFundingCreated(_) => Some(Level::Trace),
            Notice::PreparedFundingSigned(_) => Some(Level::Trace),
            Notice::ObscuringHash(_) => Some(Level::Trace),
            Notice::ObscuringFactor(_) => Some(Level::Trace),
            Notice::GeneratingScript { .. } => Some(Level::Trace),
            Notice::FundingScript(_) => Some(Level::Trace),
            Notice::NoFundingAddress => Some(Level::Error),
            Notice::UnsupportedRequest => Some(Level::Error),
            _ => Some(Level::Info),
        }
    }
}

/// How a notice is given, and to whom. A report to nobody is not made.
#[derive(Debug, PartialEq, Eq, Hash)]
pub enum Recipient {
    /// Progress, to the one who asked for the channel
    Progress(Option<ServiceId>),
    /// Success, to the one who asked for the channel
    Success(Option<ServiceId>),
    /// Nobody but the log of the daemon
    Log,
}

/// A notice for someone.
#[derive(Debug, PartialEq, Eq, Hash)]
pub struct Report {
    pub recipient: Recipient,
    pub notice: Notice,
}

} // verus!
