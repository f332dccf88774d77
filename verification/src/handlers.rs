//! Answering what comes over the buses of the node.
//!
//! An operation runs in steps. Each step changes the state, lists the reports to make, and
//! says what the operation waits for; whoever runs the daemon does that, and hands the
//! outcome to the method that the step names.

use crate::bus::{
    BusMsg, CtlMsg, Error, FundingStep, Next, Output, SendStage, ServiceBus, ServiceId, Step,
};
use crate::funding::{address, funding_script_pubkey};
use crate::keys::{PublicKey, Signature};
use crate::messages::{FundingCreated, FundingLocked, FundingSigned, Messages};
use crate::notices::{Notice, Report};
use crate::runtime::{both, copied, log_line, nothing, only, Lifecycle, Runtime};
use crate::transitions::{
    bus_handled, ctl_handled, funding_signed, log, p2p_handled, peer_known, processing_outcome,
    proposal_outcome, reports_address, reports_script, send_outcome,
};
use internet2::NodeAddr;
use vstd::prelude::*;

verus! {

impl Runtime {
    fn report_funding_output(&self, remote_pk: &PublicKey, reports: &mut Vec<Report>)
        requires
            self.local_capacity + self.remote_capacity <= u64::MAX,
        ensures
            final(reports)@.len() == old(reports)@.len() + 3,
            final(reports)@.take(old(reports)@.len() as int) == old(reports)@,
            final(reports)@[old(reports)@.len() as int] == log(
                Notice::GeneratingScript {
                    local: self.local_keys.funding_pubkey,
                    remote: *remote_pk,
                },
            ),
            reports_script(
                final(reports)@[old(reports)@.len() as int + 1],
                self.local_keys.funding_pubkey@,
                remote_pk@,
            ),
            reports_address(
                final(reports)@[old(reports)@.len() as int + 2],
                self.chain,
                self.local_keys.funding_pubkey@,
                remote_pk@,
            ),
    {
        let local_pk = self.local_keys.funding_pubkey;
        reports.push(log_line(Notice::GeneratingScript { local: local_pk, remote: *remote_pk }));
        let capacity: u64 = self.channel_capacity();
        let script = funding_script_pubkey(capacity, &local_pk, remote_pk);
        let notice = match address(&script, &self.chain) {
            Some(text) => Notice::FundingAddress(text),
            None => Notice::NoFundingAddress,
        };
        reports.push(log_line(Notice::FundingScript(script)));
        reports.push(log_line(notice));
        assert(reports@.take(old(reports)@.len() as int) =~= old(reports)@);
    }

    /// Answers a message of the remote peer. The capacity of the channel is asked for when
    /// the peer accepts it, so it has to be a number of sixty-four bits there.
    pub fn handle_p2p<E>(&mut self, remote_peer: NodeAddr, message: Messages) -> (step: Step<E>)
        requires
            message is AcceptChannel ==> old(self).local_capacity + old(self).remote_capacity
                <= u64::MAX,
        ensures
            p2p_handled(*old(self), remote_peer, message, *final(self), step),
    {
        let done: Next<E> = Next::Done(Ok(Output::Nothing));
        match message {
            Messages::OpenChannel(_) => {
                let report = log_line(Notice::UnexpectedOpenChannel(remote_peer));
                Step { reports: only(report), next: done }
            },
            Messages::AcceptChannel(accept_channel) => {
                self.state = Lifecycle::Accepted;
                let peerd = ServiceId::Peer(remote_peer);
                let mut reports = self.channel_accepted(&accept_channel, &peerd);
                self.report_funding_output(&accept_channel.funding_pubkey, &mut reports);
                Step { reports, next: done }
            },
            Messages::FundingCreated(funding_created) => {
                self.state = Lifecycle::Funding;
                self.start_peer_funding(funding_created, FundingStep::PeerFundingCreated)
            },
            Messages::FundingSigned(_) => {
                self.state = Lifecycle::Funded;
                let reports = only(self.progress(Notice::ChannelFunded));
                let funding_locked = FundingLocked {
                    channel_id: self.channel_id,
                    next_per_commitment_point: self.local_keys.first_per_commitment_point,
                };
                let envelope = self.send_p2p(Messages::FundingLocked(funding_locked));
                Step {
                    reports,
                    next: Next::Send { envelope, stage: SendStage::FundingLockedSent },
                }
            },
            Messages::FundingLocked(_) => {
                self.state = Lifecycle::Active;
                self.remote_capacity = self.channel.remote_amount;
                let reports = only(self.success(Notice::ChannelActive));
                Step { reports, next: done }
            },
            Messages::UpdateAddHtlc(_) => Step { reports: nothing(), next: done },
            Messages::CommitmentSigned(_) => Step { reports: nothing(), next: done },
            Messages::RevokeAndAck(_) => Step { reports: nothing(), next: done },
            Messages::Other(_) => Step { reports: nothing(), next: done },
        }
    }
}

impl Runtime {
    /// Goes on once a message of the given stage was sent, or could not be sent.
    pub fn sent<E>(&mut self, stage: SendStage, outcome: Result<(), E>) -> (step: Step<E>)
        ensures
            send_outcome(*old(self), stage, outcome, *final(self), step),
    {
        if let Err(error) = outcome {
            return Step { reports: nothing(), next: Next::Done(Err(Error::Service(error))) };
        }
        match stage {
            SendStage::LnpdNotified(after) => {
                let dest = self.peer_service.copied();
                let envelope = self.send_ctl(dest, CtlMsg::UpdateChannelId(self.channel_id));
                Step {
                    reports: nothing(),
                    next: Next::Send { envelope, stage: SendStage::PeerNotified(after) },
                }
            },
            SendStage::PeerNotified(after) => {
                let reports = only(self.progress(Notice::ChannelIdSet(self.channel_id)));
                match after {
                    Some(funding) => Step { reports, next: Next::Sign { step: funding } },
                    None => Step { reports, next: Next::Done(Ok(Output::Nothing)) },
                }
            },
            SendStage::FundingSignedSent => {
                self.state = Lifecycle::Funded;
                let reports = only(self.progress(Notice::ChannelFunded));
                Step { reports, next: Next::Done(Ok(Output::Nothing)) }
            },
            SendStage::FundingLockedSent => {
                self.state = Lifecycle::Active;
                self.local_capacity = self.channel.local_amount;
                let reports = only(self.success(Notice::ChannelActive));
                Step { reports, next: Next::Done(Ok(Output::Nothing)) }
            },
        }
    }

    /// Goes on once the first commitment transaction is signed.
    pub fn funding_signature<E>(
        &self,
        funding: FundingStep,
        signature: Signature,
    ) -> (step: Step<E>)
        ensures
            funding_signed(*self, funding, signature, step),
    {
        match funding {
            FundingStep::FundChannel => {
                let funding_created = FundingCreated {
                    temporary_channel_id: self.temporary_channel_id,
                    funding_txid: self.funding_outpoint.txid,
                    funding_output_index: self.funding_outpoint.output_index(),
                    signature,
                };
                let reports = both(
                    log_line(Notice::PreparedFundingCreated(funding_created)),
                    self.progress(Notice::FundingCreated(self.channel_id)),
                );
                Step { reports, next: Next::Done(Ok(Output::FundingCreated(funding_created))) }
            },
            FundingStep::FundingCreated => {
                let funding_signed = FundingSigned { channel_id: self.channel_id, signature };
                let reports = both(
                    log_line(Notice::PreparedFundingSigned(funding_signed)),
                    self.progress(Notice::FundingSigned(self.channel_id)),
                );
                Step { reports, next: Next::Done(Ok(Output::FundingSigned(funding_signed))) }
            },
            FundingStep::PeerFundingCreated => {
                let funding_signed = FundingSigned { channel_id: self.channel_id, signature };
                let reports = both(
                    log_line(Notice::PreparedFundingSigned(funding_signed)),
                    self.progress(Notice::FundingSigned(self.channel_id)),
                );
                let envelope = self.send_p2p(Messages::FundingSigned(funding_signed));
                Step {
                    reports,
                    next: Next::Send { envelope, stage: SendStage::FundingSignedSent },
                }
            },
        }
    }

    /// Answers a control message: a client or `lnpd` starts one of the workflows of the
    /// channel.
    pub fn handle_ctl<E>(&mut self, source: ServiceId, request: CtlMsg) -> (step: Step<E>)
        ensures
            ctl_handled(*old(self), source, request, *final(self), step),
    {
        match request {
            CtlMsg::OpenChannelWith(proposal) => {
                let remote_peer = proposal.remote_peer.clone();
                self.enquirer = copied(&proposal.report_to);
                Step { reports: nothing(), next: Next::Propose { proposal, remote_peer } }
            },
            CtlMsg::AcceptChannelFrom(proposal) => {
                self.enquirer = None;
                let remote_peer = proposal.remote_peer.clone();
                let request = CtlMsg::AcceptChannelFrom(proposal);
                Step { reports: nothing(), next: Next::Process { source, request, remote_peer } }
            },
            other => {
                let report = log_line(Notice::UnsupportedRequest);
                let error = Error::WrongRpcMsg {
                    bus: ServiceBus::Ctl,
                    message: BusMsg::Ctl(other),
                };
                Step { reports: only(report), next: Next::Done(Err(error)) }
            },
        }
    }

    fn set_peer(&mut self, remote_peer: NodeAddr)
        ensures
            peer_known(*old(self), remote_peer, *final(self)),
    {
        self.peer_service = ServiceId::Peer(remote_peer.clone());
        self.remote_peer = Some(remote_peer);
    }

    /// Goes on once a channel was proposed to the peer, or could not be proposed. Only a
    /// proposal that was made gives the channel its peer.
    pub fn channel_proposed<E>(
        &mut self,
        remote_peer: NodeAddr,
        outcome: Result<(), E>,
    ) -> (step: Step<E>)
        ensures
            proposal_outcome(*old(self), remote_peer, outcome, *final(self), step),
    {
        match outcome {
            Ok(_) => {
                self.set_peer(remote_peer);
                Step { reports: nothing(), next: Next::Done(Ok(Output::Nothing)) }
            },
            Err(error) => {
                Step { reports: nothing(), next: Next::Done(Err(Error::Service(error))) }
            },
        }
    }

    /// Goes on once the state machine of the channel has seen a request. Only a request that
    /// it has processed gives the channel its peer.
    pub fn request_processed<E>(
        &mut self,
        remote_peer: NodeAddr,
        outcome: Result<bool, E>,
    ) -> (step: Step<E>)
        ensures
            processing_outcome(*old(self), remote_peer, outcome, *final(self), step),
    {
        match outcome {
            Ok(processed) => {
                if processed {
                    self.set_peer(remote_peer);
                }
                Step { reports: nothing(), next: Next::Done(Ok(Output::Nothing)) }
            },
            Err(error) => {
                Step { reports: nothing(), next: Next::Done(Err(Error::Service(error))) }
            },
        }
    }

    /// Answers whatever comes over a bus. Peer messages come from the daemons of peers only,
    /// and the daemon is not on the bus of the clients.
    pub fn handle<E>(
        &mut self,
        bus: ServiceBus,
        source: ServiceId,
        message: BusMsg,
    ) -> (step: Step<E>)
        requires
            bus != ServiceBus::Rpc,
            bus == ServiceBus::Msg && message is Ln ==> source is Peer,
            (bus == ServiceBus::Msg && (message matches BusMsg::Ln(msg) && msg is AcceptChannel))
                ==> old(self).local_capacity + old(self).remote_capacity <= u64::MAX,
        ensures
            bus_handled(*old(self), bus, source, message, *final(self), step),
    {
        match (bus, message, source) {
            (ServiceBus::Msg, BusMsg::Ln(msg), ServiceId::Peer(remote_peer)) => {
                self.handle_p2p(remote_peer, msg)
            },
            (ServiceBus::Ctl, BusMsg::Ctl(msg), source) => self.handle_ctl(source, msg),
            (bus, message, _) => {
                let error = Error::WrongRpcMsg { bus, message };
                Step { reports: nothing(), next: Next::Done(Err(error)) }
            },
        }
    }

    /// Failures of the bus are reported by whoever runs it: they do not stop the daemon.
    pub fn handle_err<E>(&mut self, _error: E) -> (r: Result<(), E>)
        ensures
            r is Ok,
            *final(self) == *old(self),
    {
        Ok(())
    }
}

} // verus!
