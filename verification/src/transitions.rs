//! What each step of an operation does: relations between the state before a step, the
//! state after it, and what the step asks for.

use crate::bus::{
    BusMsg, CtlMsg, Error, FundingStep, Next, Output, SendStage, ServiceBus, ServiceId, Step,
};
use crate::bytes::be_value;
use crate::funding::{address_on, funding_script, Chain};
use crate::ids::{channel_id_bytes, OutPoint};
use crate::keys::{generator, sha256_digest, Signature};
use crate::messages::{
    AcceptChannel, FundingCreated, FundingLocked, FundingSigned, Messages, OpenChannel,
};
use crate::notices::{Notice, Recipient, Report};
use crate::params::PeerParams;
use crate::runtime::{Lifecycle, Runtime};
use internet2::NodeAddr;
use vstd::prelude::*;

verus! {

/// `post` is `pre` with the channel id that its funding outpoint gives.
pub open spec fn id_updated(pre: Runtime, post: Runtime) -> bool {
    &&& post == (Runtime { channel_id: post.channel_id, ..pre })
    &&& post.channel_id.bytes@ == channel_id_bytes(
        pre.funding_outpoint.txid.bytes@,
        pre.funding_outpoint.index(),
    )
}

/// The digest of both payment basepoints, that of the side that proposed the channel first.
pub open spec fn obscuring_hash(
    is_originator: bool,
    local: Seq<u8>,
    remote: Seq<u8>,
) -> Seq<u8> {
    if is_originator {
        sha256_digest(local + remote)
    } else {
        sha256_digest(remote + local)
    }
}

/// The number in the last eight bytes of the digest of both payment basepoints.
pub open spec fn obscuring_factor(is_originator: bool, local: Seq<u8>, remote: Seq<u8>) -> nat {
    be_value(obscuring_hash(is_originator, local, remote).subrange(24, 32))
}

/// `post` is `pre` with all that follows from its funding outpoint: the obscuring factor,
/// the count of commitments, which starts anew, and the channel id.
pub open spec fn funding_updated(pre: Runtime, post: Runtime) -> bool {
    &&& post == (Runtime {
        obscuring_factor: post.obscuring_factor,
        commitment_number: 0,
        channel_id: post.channel_id,
        ..pre
    })
    &&& post.obscuring_factor == obscuring_factor(
        pre.is_originator,
        pre.local_keys.payment_basepoint@,
        pre.remote_keys.payment_basepoint@,
    )
    &&& post.channel_id.bytes@ == channel_id_bytes(
        pre.funding_outpoint.txid.bytes@,
        pre.funding_outpoint.index(),
    )
}

/// `post` is `pre` once it is funded by the given outpoint.
pub open spec fn funded_by(pre: Runtime, funding_outpoint: OutPoint, post: Runtime) -> bool {
    funding_updated(Runtime { funding_outpoint, ..pre }, post)
}

/// A line for the log of the daemon.
pub open spec fn log(notice: Notice) -> Report {
    Report { recipient: Recipient::Log, notice }
}

impl Runtime {
    /// The first notification of a new channel id, which goes to `lnpd`.
    pub open spec fn notify_lnpd<E>(self, after: Option<FundingStep>) -> Next<E> {
        Next::Send {
            envelope: self.spec_ctl(ServiceId::Lnpd, CtlMsg::UpdateChannelId(self.channel_id)),
            stage: SendStage::LnpdNotified(after),
        }
    }

    /// The second notification, which goes to the daemon that talks to the peer.
    pub open spec fn notify_peer<E>(self, after: Option<FundingStep>) -> Next<E> {
        Next::Send {
            envelope: self.spec_ctl(self.peer_service, CtlMsg::UpdateChannelId(self.channel_id)),
            stage: SendStage::PeerNotified(after),
        }
    }

    /// The reports on a channel that was accepted through the given daemon.
    pub open spec fn acceptance_reports(
        self,
        message: AcceptChannel,
        peerd: ServiceId,
    ) -> Seq<Report> {
        seq![
            log(
                Notice::ChannelAccepted {
                    temporary_channel_id: message.temporary_channel_id,
                    peer: peerd,
                },
            ),
            self.spec_progress(Notice::AcceptedByPeer),
            log(Notice::VerifyingParams(message.temporary_channel_id)),
            self.spec_success(Notice::ReadyForFunding(message.temporary_channel_id)),
        ]
    }

    /// The first reports on a channel that the local node funds.
    pub open spec fn local_funding_reports(self) -> Seq<Report> {
        seq![
            log(Notice::FundingStarted(self.temporary_channel_id)),
            self.spec_progress(Notice::FundingChannel(self.temporary_channel_id)),
        ]
    }

    /// The first reports on a channel that the peer funds.
    pub open spec fn peer_funding_reports(self) -> Seq<Report> {
        seq![
            log(Notice::PeerFundingStarted(self.temporary_channel_id)),
            self.spec_progress(Notice::AcceptingFunding(self.temporary_channel_id)),
        ]
    }
}

/// `report` is a line for the log that gives the digest.
pub open spec fn reports_hash(report: Report, digest: Seq<u8>) -> bool {
    &&& report.recipient == Recipient::Log
    &&& report.notice matches Notice::ObscuringHash(hash) && hash@ == digest
}

/// The reports on drawing the consequences of a funding outpoint: those made `before`, and
/// after them the digest and the number that hide commitments, and the channel id.
pub open spec fn funding_reported(
    pre: Runtime,
    before: Seq<Report>,
    post: Runtime,
    reports: Seq<Report>,
) -> bool {
    let hash = reports[before.len() as int];
    &&& reports == before + seq![
        hash,
        log(Notice::ObscuringFactor(post.obscuring_factor)),
        log(Notice::UpdatingChannelId(post.channel_id)),
    ]
    &&& reports_hash(
        hash,
        obscuring_hash(
            pre.is_originator,
            pre.local_keys.payment_basepoint@,
            pre.remote_keys.payment_basepoint@,
        ),
    )
}

/// The outpoint that a `funding_created` message names.
pub open spec fn outpoint_of(message: FundingCreated) -> OutPoint {
    OutPoint { txid: message.funding_txid, vout: message.funding_output_index as u32 }
}

/// `accept` accepts the proposal on its own terms, with stand-ins for all keys and three
/// confirmations of the funding transaction.
pub open spec fn accepts(accept: AcceptChannel, proposal: OpenChannel) -> bool {
    &&& accept.temporary_channel_id == proposal.temporary_channel_id
    &&& accept.dust_limit_satoshis == proposal.dust_limit_satoshis
    &&& accept.max_htlc_value_in_flight_msat == proposal.max_htlc_value_in_flight_msat
    &&& accept.channel_reserve_satoshis == proposal.channel_reserve_satoshis
    &&& accept.htlc_minimum_msat == proposal.htlc_minimum_msat
    &&& accept.minimum_depth == 3
    &&& accept.to_self_delay == proposal.to_self_delay
    &&& accept.max_accepted_htlcs == proposal.max_accepted_htlcs
    &&& accept.funding_pubkey@ == generator()
    &&& accept.revocation_basepoint@ == generator()
    &&& accept.payment_point@ == generator()
    &&& accept.delayed_payment_basepoint@ == generator()
    &&& accept.htlc_basepoint@ == generator()
    &&& accept.first_per_commitment_point@ == generator()
    &&& accept.shutdown_scriptpubkey is None
    &&& accept.channel_type is None
    &&& accept.unknown_tlvs@.len() == 0
}

/// How a proposed channel is accepted: the daemon did not propose it, keeps the terms that
/// the peer asks for, the keys of the peer, and those that it answers with.
pub open spec fn channel_acceptance(
    pre: Runtime,
    proposal: OpenChannel,
    post: Runtime,
    accept: AcceptChannel,
) -> bool {
    &&& post == (Runtime {
        is_originator: false,
        local_params: PeerParams::spec_of_open_channel(proposal),
        remote_keys: post.remote_keys,
        local_keys: post.local_keys,
        ..pre
    })
    &&& post.remote_keys.is_of_open_channel(proposal)
    &&& post.local_keys.is_of_accept_channel(accept)
    &&& accepts(accept, proposal)
}

/// `post` is `pre` with the terms and the keys with which the peer accepts the channel.
pub open spec fn acceptance_noted(pre: Runtime, accept: AcceptChannel, post: Runtime) -> bool {
    &&& post == (Runtime {
        remote_params: PeerParams::spec_of_accept_channel(accept),
        remote_keys: post.remote_keys,
        ..pre
    })
    &&& post.remote_keys.is_of_accept_channel(accept)
}

/// `report` is a line for the log that gives the script of the funding output between the
/// two keys.
pub open spec fn reports_script(report: Report, local: Seq<u8>, remote: Seq<u8>) -> bool {
    &&& report.recipient == Recipient::Log
    &&& report.notice matches Notice::FundingScript(script) && script@ == funding_script(
        local,
        remote,
    )
}

/// `report` gives the address of the funding output between the two keys, or says that
/// there is none on the chain.
pub open spec fn reports_address(
    report: Report,
    chain: Chain,
    local: Seq<u8>,
    remote: Seq<u8>,
) -> bool {
    &&& report.recipient == Recipient::Log
    &&& match address_on(funding_script(local, remote), chain) {
        Some(text) => report.notice matches Notice::FundingAddress(address) && address@ == text,
        None => report.notice == Notice::NoFundingAddress,
    }
}

/// How an `accept_channel` message is answered.
pub open spec fn acceptance_handled<E>(
    pre: Runtime,
    remote_peer: NodeAddr,
    message: AcceptChannel,
    post: Runtime,
    step: Step<E>,
) -> bool {
    &&& acceptance_noted(Runtime { state: Lifecycle::Accepted, ..pre }, message, post)
    &&& step.reports@.len() == 7
    &&& step.reports@.take(4) == pre.acceptance_reports(message, ServiceId::Peer(remote_peer))
    &&& step.reports@[4] == log(
        Notice::GeneratingScript {
            local: pre.local_keys.funding_pubkey,
            remote: message.funding_pubkey,
        },
    )
    &&& reports_script(
        step.reports@[5],
        pre.local_keys.funding_pubkey@,
        message.funding_pubkey@,
    )
    &&& reports_address(
        step.reports@[6],
        pre.chain,
        pre.local_keys.funding_pubkey@,
        message.funding_pubkey@,
    )
    &&& step.next == Next::<E>::Done(Ok(Output::Nothing))
}

/// How a `funding_created` message is answered: the operation begins in the state
/// `Funding`.
pub open spec fn peer_funding_handled<E>(
    pre: Runtime,
    message: FundingCreated,
    post: Runtime,
    step: Step<E>,
) -> bool {
    &&& funded_by(Runtime { state: Lifecycle::Funding, ..pre }, outpoint_of(message), post)
    &&& funding_reported(pre, pre.peer_funding_reports(), post, step.reports@)
    &&& step.next == post.notify_lnpd::<E>(Some(FundingStep::PeerFundingCreated))
}

/// How a `funding_signed` message is answered: the channel is funded, and the peer is told
/// that the funding is locked.
pub open spec fn signature_handled<E>(pre: Runtime, post: Runtime, step: Step<E>) -> bool {
    &&& post == (Runtime { state: Lifecycle::Funded, ..pre })
    &&& step.gives(
        seq![pre.spec_progress(Notice::ChannelFunded)],
        Next::Send {
            envelope: pre.spec_p2p(
                Messages::FundingLocked(
                    FundingLocked {
                        channel_id: pre.channel_id,
                        next_per_commitment_point: pre.local_keys.first_per_commitment_point,
                    },
                ),
            ),
            stage: SendStage::FundingLockedSent,
        },
    )
}

/// How a `funding_locked` message is answered: the channel is active, and what the peer
/// holds in it is known.
pub open spec fn lock_handled<E>(pre: Runtime, post: Runtime, step: Step<E>) -> bool {
    &&& post == (Runtime {
        state: Lifecycle::Active,
        remote_capacity: pre.channel.remote_amount,
        ..pre
    })
    &&& step.gives(
        seq![pre.spec_success(Notice::ChannelActive)],
        Next::Done(Ok(Output::Nothing)),
    )
}

/// How a peer message is answered.
pub open spec fn p2p_handled<E>(
    pre: Runtime,
    remote_peer: NodeAddr,
    message: Messages,
    post: Runtime,
    step: Step<E>,
) -> bool {
    match message {
        Messages::OpenChannel(_) => {
            &&& post == pre
            &&& step.gives(
                seq![log(Notice::UnexpectedOpenChannel(remote_peer))],
                Next::Done(Ok(Output::Nothing)),
            )
        },
        Messages::AcceptChannel(accept) => acceptance_handled(
            pre,
            remote_peer,
            accept,
            post,
            step,
        ),
        Messages::FundingCreated(created) => peer_funding_handled(pre, created, post, step),
        Messages::FundingSigned(_) => signature_handled(pre, post, step),
        Messages::FundingLocked(_) => lock_handled(pre, post, step),
        _ => {
            &&& post == pre
            &&& step.gives(Seq::empty(), Next::Done(Ok(Output::Nothing)))
        },
    }
}

/// An operation of which a part failed is over: the state stays as it is, nothing more is
/// reported or sent, and the failure is handed on.
pub open spec fn failed<E>(pre: Runtime, error: E, post: Runtime, step: Step<E>) -> bool {
    &&& post == pre
    &&& step.gives(Seq::empty(), Next::Done(Err(Error::Service(error))))
}

/// How an operation goes on once a message is sent.
pub open spec fn sent_handled<E>(
    pre: Runtime,
    stage: SendStage,
    post: Runtime,
    step: Step<E>,
) -> bool {
    match stage {
        SendStage::LnpdNotified(after) => {
            &&& post == pre
            &&& step.gives(Seq::empty(), pre.notify_peer::<E>(after))
        },
        SendStage::PeerNotified(after) => {
            &&& post == pre
            &&& step.gives(
                seq![pre.spec_progress(Notice::ChannelIdSet(pre.channel_id))],
                match after {
                    Some(funding) => Next::Sign { step: funding },
                    None => Next::Done(Ok(Output::Nothing)),
                },
            )
        },
        SendStage::FundingSignedSent => {
            &&& post == (Runtime { state: Lifecycle::Funded, ..pre })
            &&& step.gives(
                seq![pre.spec_progress(Notice::ChannelFunded)],
                Next::Done(Ok(Output::Nothing)),
            )
        },
        SendStage::FundingLockedSent => {
            &&& post == (Runtime {
                state: Lifecycle::Active,
                local_capacity: pre.channel.local_amount,
                ..pre
            })
            &&& step.gives(
                seq![pre.spec_success(Notice::ChannelActive)],
                Next::Done(Ok(Output::Nothing)),
            )
        },
    }
}

/// The `funding_created` message of a funded channel.
pub open spec fn created_message(runtime: Runtime, signature: Signature) -> FundingCreated {
    FundingCreated {
        temporary_channel_id: runtime.temporary_channel_id,
        funding_txid: runtime.funding_outpoint.txid,
        funding_output_index: runtime.funding_outpoint.index(),
        signature,
    }
}

/// The `funding_signed` message of a funded channel.
pub open spec fn signed_message(runtime: Runtime, signature: Signature) -> FundingSigned {
    FundingSigned { channel_id: runtime.channel_id, signature }
}

/// How a funding operation goes on once its transaction is signed.
pub open spec fn funding_signed<E>(
    runtime: Runtime,
    funding: FundingStep,
    signature: Signature,
    step: Step<E>,
) -> bool {
    match funding {
        FundingStep::FundChannel => step.gives(
            seq![
                log(Notice::PreparedFundingCreated(created_message(runtime, signature))),
                runtime.spec_progress(Notice::FundingCreated(runtime.channel_id)),
            ],
            Next::Done(Ok(Output::FundingCreated(created_message(runtime, signature)))),
        ),
        FundingStep::FundingCreated => step.gives(
            seq![
                log(Notice::PreparedFundingSigned(signed_message(runtime, signature))),
                runtime.spec_progress(Notice::FundingSigned(runtime.channel_id)),
            ],
            Next::Done(Ok(Output::FundingSigned(signed_message(runtime, signature)))),
        ),
        FundingStep::PeerFundingCreated => step.gives(
            seq![
                log(Notice::PreparedFundingSigned(signed_message(runtime, signature))),
                runtime.spec_progress(Notice::FundingSigned(runtime.channel_id)),
            ],
            Next::Send {
                envelope: runtime.spec_p2p(
                    Messages::FundingSigned(signed_message(runtime, signature)),
                ),
                stage: SendStage::FundingSignedSent,
            },
        ),
    }
}

/// `post` is `pre` once it has a remote peer.
pub open spec fn peer_known(pre: Runtime, remote_peer: NodeAddr, post: Runtime) -> bool {
    post == (Runtime {
        peer_service: ServiceId::Peer(remote_peer),
        remote_peer: Some(remote_peer),
        ..pre
    })
}

/// How a control message is answered.
pub open spec fn ctl_handled<E>(
    pre: Runtime,
    source: ServiceId,
    request: CtlMsg,
    post: Runtime,
    step: Step<E>,
) -> bool {
    match request {
        CtlMsg::OpenChannelWith(proposal) => {
            &&& post == (Runtime { enquirer: proposal.report_to, ..pre })
            &&& step.gives(
                Seq::empty(),
                Next::Propose { proposal, remote_peer: proposal.remote_peer },
            )
        },
        CtlMsg::AcceptChannelFrom(proposal) => {
            &&& post == (Runtime { enquirer: None, ..pre })
            &&& step.gives(
                Seq::empty(),
                Next::Process { source, request, remote_peer: proposal.remote_peer },
            )
        },
        _ => {
            &&& post == pre
            &&& step.gives(
                seq![log(Notice::UnsupportedRequest)],
                Next::Done(
                    Err(
                        Error::WrongRpcMsg {
                            bus: ServiceBus::Ctl,
                            message: BusMsg::Ctl(request),
                        },
                    ),
                ),
            )
        },
    }
}

/// How whatever comes over a bus is answered. What does not belong on its bus is refused.
pub open spec fn bus_handled<E>(
    pre: Runtime,
    bus: ServiceBus,
    source: ServiceId,
    message: BusMsg,
    post: Runtime,
    step: Step<E>,
) -> bool {
    match (bus, message, source) {
        (ServiceBus::Msg, BusMsg::Ln(msg), ServiceId::Peer(remote_peer)) => p2p_handled(
            pre,
            remote_peer,
            msg,
            post,
            step,
        ),
        (ServiceBus::Ctl, BusMsg::Ctl(msg), _) => ctl_handled(pre, source, msg, post, step),
        _ => {
            &&& post == pre
            &&& step.gives(
                Seq::empty(),
                Next::Done(Err(Error::WrongRpcMsg { bus, message })),
            )
        },
    }
}

/// How an operation goes on once a message was sent, or could not be sent.
pub open spec fn send_outcome<E>(
    pre: Runtime,
    stage: SendStage,
    outcome: Result<(), E>,
    post: Runtime,
    step: Step<E>,
) -> bool {
    match outcome {
        Ok(_) => sent_handled(pre, stage, post, step),
        Err(error) => failed(pre, error, post, step),
    }
}

/// How a request to propose a channel ends.
pub open spec fn proposal_outcome<E>(
    pre: Runtime,
    remote_peer: NodeAddr,
    outcome: Result<(), E>,
    post: Runtime,
    step: Step<E>,
) -> bool {
    match outcome {
        Ok(_) => {
            &&& peer_known(pre, remote_peer, post)
            &&& step.gives(Seq::empty(), Next::Done(Ok(Output::Nothing)))
        },
        Err(error) => failed(pre, error, post, step),
    }
}

/// How a request to answer a proposal ends.
pub open spec fn processing_outcome<E>(
    pre: Runtime,
    remote_peer: NodeAddr,
    outcome: Result<bool, E>,
    post: Runtime,
    step: Step<E>,
) -> bool {
    match outcome {
        Ok(processed) => {
            &&& processed ==> peer_known(pre, remote_peer, post)
            &&& !processed ==> post == pre
            &&& step.gives(Seq::empty(), Next::Done(Ok(Output::Nothing)))
        },
        Err(error) => failed(pre, error, post, step),
    }
}

/// How a channel begins to take the id that its funding outpoint gives.
pub open spec fn id_update_begun<E>(pre: Runtime, post: Runtime, step: Step<E>) -> bool {
    &&& id_updated(pre, post)
    &&& step.gives(
        seq![log(Notice::UpdatingChannelId(post.channel_id))],
        post.notify_lnpd::<E>(None),
    )
}

/// How the consequences of a funding outpoint begin to be drawn.
pub open spec fn funding_update_begun<E>(pre: Runtime, post: Runtime, step: Step<E>) -> bool {
    &&& funding_updated(pre, post)
    &&& funding_reported(pre, Seq::empty(), post, step.reports@)
    &&& step.next == post.notify_lnpd::<E>(None)
}

/// How funding from the local node begins.
pub open spec fn local_funding_begun<E>(
    pre: Runtime,
    funding_outpoint: OutPoint,
    post: Runtime,
    step: Step<E>,
) -> bool {
    &&& funded_by(pre, funding_outpoint, post)
    &&& funding_reported(pre, pre.local_funding_reports(), post, step.reports@)
    &&& step.next == post.notify_lnpd::<E>(Some(FundingStep::FundChannel))
}

/// How funding by the peer, asked for directly, begins.
pub open spec fn peer_funding_begun<E>(
    pre: Runtime,
    message: FundingCreated,
    post: Runtime,
    step: Step<E>,
) -> bool {
    &&& funded_by(pre, outpoint_of(message), post)
    &&& funding_reported(pre, pre.peer_funding_reports(), post, step.reports@)
    &&& step.next == post.notify_lnpd::<E>(Some(FundingStep::FundingCreated))
}

/// How a proposal that came through the daemon `peerd` is answered.
pub open spec fn proposal_answered(
    pre: Runtime,
    proposal: OpenChannel,
    peerd: ServiceId,
    post: Runtime,
    report: Report,
    accept: AcceptChannel,
) -> bool {
    &&& channel_acceptance(pre, proposal, post, accept)
    &&& report == pre.spec_progress(
        Notice::AcceptingChannel {
            temporary_channel_id: proposal.temporary_channel_id,
            peer: peerd,
        },
    )
}

} // verus!
