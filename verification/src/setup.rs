//! Setting up a channel: accepting it, funding it and giving it its id.

use crate::bus::{CtlMsg, FundingStep, Next, SendStage, ServiceId, Step};
use crate::bytes::{joined, last_u64};
use crate::ids::{ChannelId, OutPoint};
use crate::keys::{sha256_hash, PublicKey};
use crate::messages::{AcceptChannel, FundingCreated, OpenChannel, Tlv};
use crate::notices::{Notice, Report};
use crate::params::{Keyset, PeerParams};
use crate::runtime::{both, log_line, nothing, only, Runtime};
use crate::transitions::{
    acceptance_noted, funded_by, funding_reported, funding_update_begun, funding_updated,
    id_update_begun, id_updated, local_funding_begun, log, outpoint_of, peer_funding_begun,
    proposal_answered,
};
use vstd::prelude::*;

verus! {

impl Runtime {
    fn start_id_update<E>(
        &mut self,
        reports: Vec<Report>,
        after: Option<FundingStep>,
    ) -> (step: Step<E>)
        ensures
            id_updated(*old(self), *final(self)),
            step.gives(
                reports@.push(log(Notice::UpdatingChannelId(final(self).channel_id))),
                final(self).notify_lnpd::<E>(after),
            ),
    {
        let index: u16 = self.funding_outpoint.output_index();
        self.channel_id = ChannelId::with(self.funding_outpoint.txid, index);
        let mut reports = reports;
        reports.push(log_line(Notice::UpdatingChannelId(self.channel_id)));
        let envelope = self.send_ctl(ServiceId::Lnpd, CtlMsg::UpdateChannelId(self.channel_id));
        Step { reports, next: Next::Send { envelope, stage: SendStage::LnpdNotified(after) } }
    }

    fn start_funding<E>(
        &mut self,
        reports: Vec<Report>,
        after: Option<FundingStep>,
    ) -> (step: Step<E>)
        ensures
            funding_updated(*old(self), *final(self)),
            funding_reported(*old(self), reports@, *final(self), step.reports@),
            step.next == final(self).notify_lnpd::<E>(after),
    {
        let ghost before = reports@;
        let local: [u8; 33] = self.local_keys.payment_basepoint.serialize();
        let remote: [u8; 33] = self.remote_keys.payment_basepoint.serialize();
        let points: Vec<u8> = if self.is_originator {
            joined(&local, &remote)
        } else {
            joined(&remote, &local)
        };
        let digest: [u8; 32] = sha256_hash(points.as_slice());
        let mut reports = reports;
        reports.push(log_line(Notice::ObscuringHash(digest)));
        self.obscuring_factor = last_u64(&digest);
        reports.push(log_line(Notice::ObscuringFactor(self.obscuring_factor)));
        self.commitment_number = 0;
        let step = self.start_id_update(reports, after);
        assert(step.reports@ =~= before + seq![
            log(Notice::ObscuringHash(digest)),
            log(Notice::ObscuringFactor(self.obscuring_factor)),
            log(Notice::UpdatingChannelId(self.channel_id)),
        ]);
        step
    }

    /// Gives the channel the id that follows from its funding outpoint, and tells `lnpd`
    /// and the daemon that talks to the peer.
    pub fn update_channel_id<E>(&mut self) -> (step: Step<E>)
        ensures
            id_update_begun(*old(self), *final(self), step),
    {
        self.start_id_update(nothing(), None)
    }

    /// Draws the consequences of the funding outpoint: the obscuring factor, the count of
    /// commitments and the channel id.
    pub fn funding_update<E>(&mut self) -> (step: Step<E>)
        ensures
            funding_update_begun(*old(self), *final(self), step),
    {
        self.start_funding(nothing(), None)
    }

    /// Funds the channel by an output that the local node made. The operation ends with the
    /// `funding_created` message for the peer.
    pub fn fund_channel<E>(&mut self, funding_outpoint: OutPoint) -> (step: Step<E>)
        ensures
            local_funding_begun(*old(self), funding_outpoint, *final(self), step),
    {
        let reports = both(
            log_line(Notice::FundingStarted(self.temporary_channel_id)),
            self.progress(Notice::FundingChannel(self.temporary_channel_id)),
        );
        self.funding_outpoint = funding_outpoint;
        self.start_funding(reports, Some(FundingStep::FundChannel))
    }

    pub(crate) fn start_peer_funding<E>(
        &mut self,
        funding_created: FundingCreated,
        after: FundingStep,
    ) -> (step: Step<E>)
        ensures
            funded_by(*old(self), outpoint_of(funding_created), *final(self)),
            funding_reported(
                *old(self),
                old(self).peer_funding_reports(),
                *final(self),
                step.reports@,
            ),
            step.next == final(self).notify_lnpd::<E>(Some(after)),
    {
        let reports = both(
            log_line(Notice::PeerFundingStarted(self.temporary_channel_id)),
            self.progress(Notice::AcceptingFunding(self.temporary_channel_id)),
        );
        self.funding_outpoint = OutPoint {
            txid: funding_created.funding_txid,
            vout: funding_created.funding_output_index as u32,
        };
        self.start_funding(reports, Some(after))
    }

    /// Funds the channel by an output that the peer made. The operation ends with the
    /// `funding_signed` message for the peer. The signature of the peer is not kept.
    pub fn funding_created<E>(&mut self, funding_created: FundingCreated) -> (step: Step<E>)
        ensures
            peer_funding_begun(*old(self), funding_created, *final(self), step),
    {
        self.start_peer_funding(funding_created, FundingStep::FundingCreated)
    }

    /// Accepts the channel that a peer proposes, on the terms that the peer asks for. The
    /// report comes before the message.
    pub fn accept_channel(
        &mut self,
        channel_req: &OpenChannel,
        peerd: &ServiceId,
    ) -> (r: (Report, AcceptChannel))
        ensures
            proposal_answered(*old(self), *channel_req, *peerd, *final(self), r.0, r.1),
    {
        let report = self.progress(
            Notice::AcceptingChannel {
                temporary_channel_id: channel_req.temporary_channel_id,
                peer: peerd.copied(),
            },
        );
        self.is_originator = false;
        self.local_params = PeerParams::of_open_channel(channel_req);
        self.remote_keys = Keyset::of_open_channel(channel_req);
        let dumb_key = PublicKey::dumb();
        let unknown_tlvs: Vec<Tlv> = Vec::new();
        let accept_channel = AcceptChannel {
            temporary_channel_id: channel_req.temporary_channel_id,
            dust_limit_satoshis: channel_req.dust_limit_satoshis,
            max_htlc_value_in_flight_msat: channel_req.max_htlc_value_in_flight_msat,
            channel_reserve_satoshis: channel_req.channel_reserve_satoshis,
            htlc_minimum_msat: channel_req.htlc_minimum_msat,
            minimum_depth: 3,
            to_self_delay: channel_req.to_self_delay,
            max_accepted_htlcs: channel_req.max_accepted_htlcs,
            funding_pubkey: dumb_key,
            revocation_basepoint: dumb_key,
            payment_point: dumb_key,
            delayed_payment_basepoint: dumb_key,
            htlc_basepoint: dumb_key,
            first_per_commitment_point: dumb_key,
            shutdown_scriptpubkey: None,
            channel_type: None,
            unknown_tlvs,
        };
        self.local_keys = Keyset::of_accept_channel(&accept_channel);
        (report, accept_channel)
    }

    /// Takes note of the terms and the keys with which the peer, through the daemon
    /// `peerd`, accepts the channel.
    pub fn channel_accepted(
        &mut self,
        accept_channel: &AcceptChannel,
        peerd: &ServiceId,
    ) -> (reports: Vec<Report>)
        ensures
            acceptance_noted(*old(self), *accept_channel, *final(self)),
            reports@ == old(self).acceptance_reports(*accept_channel, *peerd),
    {
        let temporary_channel_id = accept_channel.temporary_channel_id;
        let accepted = Notice::ChannelAccepted { temporary_channel_id, peer: peerd.copied() };
        let mut reports = only(log_line(accepted));
        reports.push(self.progress(Notice::AcceptedByPeer));
        reports.push(log_line(Notice::VerifyingParams(temporary_channel_id)));
        self.remote_params = PeerParams::of_accept_channel(accept_channel);
        self.remote_keys = Keyset::of_accept_channel(accept_channel);
        reports.push(self.success(Notice::ReadyForFunding(temporary_channel_id)));
        assert(reports@ =~= old(self).acceptance_reports(*accept_channel, *peerd));
        reports
    }
}

} // verus!
