//! What holds of a channel as a whole, whichever steps it takes.

use crate::bus::{
    AcceptChannelFrom, BusMsg, CtlMsg, FundingStep, Next, OpenChannelWith, Output, SendStage,
    ServiceBus, ServiceId, Step,
};
use crate::funding::{funding_script, funding_script_is_symmetric};
use crate::ids::OutPoint;
use crate::keys::Signature;
use crate::messages::{AcceptChannel, FundingCreated, Messages, OpenChannel};
use crate::notices::{Notice, Recipient, Report};
use crate::params::PeerParams;
use crate::runtime::{Lifecycle, Runtime};
use crate::transitions::{
    acceptance_handled, bus_handled, channel_acceptance, created_message, ctl_handled, funded_by,
    funding_signed, funding_updated, id_updated, lock_handled, outpoint_of, p2p_handled,
    peer_funding_handled, peer_known, sent_handled, signature_handled, signed_message,
};
use internet2::NodeAddr;
use vstd::prelude::*;

verus! {

/// Two daemons hold each other's keys, and one of them proposed the channel.
pub open spec fn mirrored(originator: Runtime, other: Runtime) -> bool {
    &&& originator.is_originator
    &&& !other.is_originator
    &&& originator.local_keys.same_as(other.remote_keys)
    &&& originator.remote_keys.same_as(other.local_keys)
}

/// Once a proposal is accepted, and the proposer has learned of it, both daemons hold each
/// other's keys.
pub proof fn acceptance_mirrors_the_ends<E>(
    proposer: Runtime,
    proposal: OpenChannel,
    acceptor: Runtime,
    accepted: Runtime,
    remote_peer: NodeAddr,
    acceptance: AcceptChannel,
    informed: Runtime,
    step: Step<E>,
)
    requires
        proposer.is_originator,
        proposer.local_keys.is_of_open_channel(proposal),
        channel_acceptance(acceptor, proposal, accepted, acceptance),
        acceptance_handled(proposer, remote_peer, acceptance, informed, step),
    ensures
        mirrored(informed, accepted),
{
}

/// Both ends of a channel find the same script for the output that funds it.
pub proof fn ends_agree_on_funding_script(originator: Runtime, other: Runtime)
    requires
        originator.local_keys.funding_pubkey == other.remote_keys.funding_pubkey,
        originator.remote_keys.funding_pubkey == other.local_keys.funding_pubkey,
    ensures
        funding_script(
            originator.local_keys.funding_pubkey@,
            originator.remote_keys.funding_pubkey@,
        ) == funding_script(
            other.local_keys.funding_pubkey@,
            other.remote_keys.funding_pubkey@,
        ),
{
    funding_script_is_symmetric(
        originator.local_keys.funding_pubkey@,
        originator.remote_keys.funding_pubkey@,
    );
}

/// Both ends of a channel hide commitment numbers by the same factor.
pub proof fn ends_agree_on_obscuring_factor(
    originator: Runtime,
    funded_originator: Runtime,
    other: Runtime,
    funded_other: Runtime,
)
    requires
        originator.is_originator,
        !other.is_originator,
        originator.local_keys.payment_basepoint == other.remote_keys.payment_basepoint,
        originator.remote_keys.payment_basepoint == other.local_keys.payment_basepoint,
        funding_updated(originator, funded_originator),
        funding_updated(other, funded_other),
    ensures
        funded_originator.obscuring_factor == funded_other.obscuring_factor,
{
}

/// The message that the funder sends leads the peer to the channel id that the funder has.
pub proof fn ends_agree_on_channel_id(
    funder: Runtime,
    funding_outpoint: OutPoint,
    funded: Runtime,
    signature: Signature,
    peer: Runtime,
    funded_peer: Runtime,
)
    requires
        funded_by(funder, funding_outpoint, funded),
        funded_by(peer, outpoint_of(created_message(funded, signature)), funded_peer),
    ensures
        funded_peer.channel_id == funded.channel_id,
{
    let message = created_message(funded, signature);
    assert(outpoint_of(message).index() == funding_outpoint.index());
    assert(funded_peer.channel_id.bytes =~= funded.channel_id.bytes) by {
        assert(funded_peer.channel_id.bytes@ == funded.channel_id.bytes@);
    }
}

/// The message that the funder sends names the outpoint that the funder has, where the
/// index of the output fits into the message.
pub proof fn ends_agree_on_outpoint(
    funder: Runtime,
    funding_outpoint: OutPoint,
    funded: Runtime,
    signature: Signature,
    peer: Runtime,
    funded_peer: Runtime,
)
    requires
        funding_outpoint.vout <= 0xffff,
        funded_by(funder, funding_outpoint, funded),
        funded_by(peer, outpoint_of(created_message(funded, signature)), funded_peer),
    ensures
        funded_peer.funding_outpoint == funded.funding_outpoint,
{
}

/// A channel is accepted on the terms on which it was proposed: they are what the acceptor
/// keeps as its own, and what the proposer learns of the acceptor.
pub proof fn acceptance_keeps_the_terms<E>(
    proposer: Runtime,
    proposal: OpenChannel,
    acceptor: Runtime,
    accepted: Runtime,
    remote_peer: NodeAddr,
    acceptance: AcceptChannel,
    informed: Runtime,
    step: Step<E>,
)
    requires
        channel_acceptance(acceptor, proposal, accepted, acceptance),
        acceptance_handled(proposer, remote_peer, acceptance, informed, step),
    ensures
        accepted.local_params == PeerParams::spec_of_open_channel(proposal),
        informed.remote_params == PeerParams::spec_of_open_channel(proposal),
{
}

/// What stays as it is through all steps of all operations.
pub open spec fn same_channel(pre: Runtime, post: Runtime) -> bool {
    &&& post.identity == pre.identity
    &&& post.chain == pre.chain
    &&& post.temporary_channel_id == pre.temporary_channel_id
    &&& post.channel == pre.channel
    &&& post.total_payments == pre.total_payments
    &&& post.pending_payments == pre.pending_payments
}

/// No message of a peer changes the address of the daemon, its chain or its temporary id,
/// nor who the peer is and who follows the channel.
pub proof fn p2p_keeps_the_channel<E>(
    pre: Runtime,
    remote_peer: NodeAddr,
    message: Messages,
    post: Runtime,
    step: Step<E>,
)
    requires
        p2p_handled(pre, remote_peer, message, post, step),
    ensures
        same_channel(pre, post),
        post.peer_service == pre.peer_service,
        post.remote_peer == pre.remote_peer,
        post.enquirer == pre.enquirer,
{
}

/// No later step of an operation changes the address of the daemon, its chain or its
/// temporary id, nor who the peer is and who follows the channel.
pub proof fn sending_keeps_the_channel<E>(
    pre: Runtime,
    stage: SendStage,
    post: Runtime,
    step: Step<E>,
)
    requires
        sent_handled(pre, stage, post, step),
    ensures
        same_channel(pre, post),
        post.channel_id == pre.channel_id,
        post.funding_outpoint == pre.funding_outpoint,
        post.peer_service == pre.peer_service,
        post.remote_peer == pre.remote_peer,
        post.enquirer == pre.enquirer,
{
}

/// A control request changes who follows the channel, and nothing else. What the channel
/// knows of its peer changes only once the request was carried out.
pub proof fn ctl_changes_only_the_enquirer<E>(
    pre: Runtime,
    source: ServiceId,
    request: CtlMsg,
    post: Runtime,
    step: Step<E>,
)
    requires
        ctl_handled(pre, source, request, post, step),
    ensures
        post == (Runtime { enquirer: post.enquirer, ..pre }),
        !(request is OpenChannelWith) && !(request is AcceptChannelFrom) ==> post == pre,
{
}

/// The peer that a request to propose a channel names is the one that the channel has, and
/// writes to, once the proposal was made, whatever else the proposal changed.
pub proof fn proposal_names_the_peer<E>(
    pre: Runtime,
    source: ServiceId,
    proposal: OpenChannelWith,
    asked: Runtime,
    step: Step<E>,
    proposed: Runtime,
    post: Runtime,
    message: Messages,
)
    requires
        ctl_handled(pre, source, CtlMsg::OpenChannelWith(proposal), asked, step),
        step.next matches Next::Propose { remote_peer, .. } && peer_known(
            proposed,
            remote_peer,
            post,
        ),
    ensures
        post.remote_peer == Some(proposal.remote_peer),
        post.spec_p2p(message).dest == ServiceId::Peer(proposal.remote_peer),
{
}

/// The same holds of the peer whose proposal the channel is asked to answer.
pub proof fn acceptance_names_the_peer<E>(
    pre: Runtime,
    source: ServiceId,
    proposal: AcceptChannelFrom,
    asked: Runtime,
    step: Step<E>,
    processed: Runtime,
    post: Runtime,
    message: Messages,
)
    requires
        ctl_handled(pre, source, CtlMsg::AcceptChannelFrom(proposal), asked, step),
        step.next matches Next::Process { remote_peer, .. } && peer_known(
            processed,
            remote_peer,
            post,
        ),
    ensures
        post.remote_peer == Some(proposal.remote_peer),
        post.spec_p2p(message).dest == ServiceId::Peer(proposal.remote_peer),
{
}

/// Drawing the consequences of one funding outpoint again changes nothing.
pub proof fn funding_update_is_idempotent(pre: Runtime, once: Runtime, twice: Runtime)
    requires
        funding_updated(pre, once),
        funding_updated(once, twice),
    ensures
        twice == once,
{
    assert(twice.channel_id.bytes@ == once.channel_id.bytes@);
    assert(twice.channel_id.bytes =~= once.channel_id.bytes);
}

/// A peer message that comes over its bus, from the daemon of a peer, is answered as the
/// handler of peer messages answers it.
pub proof fn dispatch_is_the_peer_handler<E>(
    pre: Runtime,
    remote_peer: NodeAddr,
    message: Messages,
    post: Runtime,
    step: Step<E>,
)
    ensures
        bus_handled(
            pre,
            ServiceBus::Msg,
            ServiceId::Peer(remote_peer),
            BusMsg::Ln(message),
            post,
            step,
        ) <==> p2p_handled(pre, remote_peer, message, post, step),
{
}

/// A control message that comes over its bus is answered as the handler of control messages
/// answers it.
pub proof fn dispatch_is_the_control_handler<E>(
    pre: Runtime,
    source: ServiceId,
    request: CtlMsg,
    post: Runtime,
    step: Step<E>,
)
    ensures
        bus_handled(pre, ServiceBus::Ctl, source, BusMsg::Ctl(request), post, step)
            <==> ctl_handled(pre, source, request, post, step),
{
}

/// Two states that nothing tells apart.
pub open spec fn same_state(a: Runtime, b: Runtime) -> bool {
    &&& a == (Runtime { local_keys: a.local_keys, remote_keys: a.remote_keys, ..b })
    &&& a.local_keys.same_as(b.local_keys)
    &&& a.remote_keys.same_as(b.remote_keys)
}

/// Two lists of reports differ in lines of the log at most.
pub open spec fn same_but_log(a: Seq<Report>, b: Seq<Report>) -> bool {
    &&& a.len() == b.len()
    &&& forall|i: int|
        0 <= i < a.len() ==> {
            ||| #[trigger] a[i] == #[trigger] b[i]
            ||| a[i].recipient == Recipient::Log && b[i].recipient == Recipient::Log
        }
}

/// Which peer a message came from changes the log, and nothing else: what the channel
/// becomes, whom it tells and what it sends are the same. Where the operation goes on, it
/// goes on from one and the same state.
pub proof fn sender_changes_only_the_log<E>(
    pre: Runtime,
    message: Messages,
    peer1: NodeAddr,
    post1: Runtime,
    step1: Step<E>,
    peer2: NodeAddr,
    post2: Runtime,
    step2: Step<E>,
)
    requires
        bus_handled(
            pre,
            ServiceBus::Msg,
            ServiceId::Peer(peer1),
            BusMsg::Ln(message),
            post1,
            step1,
        ),
        bus_handled(
            pre,
            ServiceBus::Msg,
            ServiceId::Peer(peer2),
            BusMsg::Ln(message),
            post2,
            step2,
        ),
    ensures
        same_state(post1, post2),
        same_but_log(step1.reports@, step2.reports@),
        step1.next == step2.next,
        !(step1.next is Done) ==> post1 == post2,
{
    match message {
        Messages::AcceptChannel(_) => {
            assert forall|i: int| 0 <= i < 4 implies {
                &&& step1.reports@[i] == step1.reports@.take(4)[i]
                &&& step2.reports@[i] == step2.reports@.take(4)[i]
            } by {}
        },
        Messages::FundingCreated(_) => {
            assert(post1.channel_id.bytes@ == post2.channel_id.bytes@);
            assert(post1.channel_id.bytes =~= post2.channel_id.bytes);
        },
        _ => {},
    }
}

/// How an operation goes on is settled by the state, by what it waited for and by the
/// outcome.
pub proof fn outcomes_settle_the_rest<E>(
    pre: Runtime,
    stage: SendStage,
    post1: Runtime,
    sent1: Step<E>,
    post2: Runtime,
    sent2: Step<E>,
    funding: FundingStep,
    signature: Signature,
    signed1: Step<E>,
    signed2: Step<E>,
)
    requires
        sent_handled(pre, stage, post1, sent1),
        sent_handled(pre, stage, post2, sent2),
        funding_signed(pre, funding, signature, signed1),
        funding_signed(pre, funding, signature, signed2),
    ensures
        post1 == post2,
        sent1.gives(sent2.reports@, sent2.next),
        signed1.gives(signed2.reports@, signed2.next),
{
}

/// No message of a peer is refused.
pub proof fn peer_messages_are_not_refused<E>(
    pre: Runtime,
    remote_peer: NodeAddr,
    message: Messages,
    post: Runtime,
    step: Step<E>,
)
    requires
        p2p_handled(pre, remote_peer, message, post, step),
    ensures
        !(step.next matches Next::Done(Err(_))),
{
}

/// Every report goes to the log, or to the one who follows the channel.
pub open spec fn told_to_enquirer(runtime: Runtime, reports: Seq<Report>) -> bool {
    forall|i: int|
        0 <= i < reports.len() ==> {
            ||| (#[trigger] reports[i]).recipient == Recipient::Log
            ||| reports[i].recipient == Recipient::Progress(runtime.enquirer)
            ||| reports[i].recipient == Recipient::Success(runtime.enquirer)
        }
}

/// Whatever a peer message is answered with, only the one who follows the channel is told.
pub proof fn p2p_tells_the_enquirer<E>(
    pre: Runtime,
    remote_peer: NodeAddr,
    message: Messages,
    post: Runtime,
    step: Step<E>,
)
    requires
        p2p_handled(pre, remote_peer, message, post, step),
    ensures
        told_to_enquirer(pre, step.reports@),
{
    if message is AcceptChannel {
        assert(step.reports@[0] == step.reports@.take(4)[0]);
        assert(step.reports@[1] == step.reports@.take(4)[1]);
        assert(step.reports@[2] == step.reports@.take(4)[2]);
        assert(step.reports@[3] == step.reports@.take(4)[3]);
    }
}

/// However an operation goes on, only the one who follows the channel is told.
pub proof fn outcomes_tell_the_enquirer<E>(
    pre: Runtime,
    stage: SendStage,
    post: Runtime,
    after_send: Step<E>,
    funding: FundingStep,
    signature: Signature,
    after_signature: Step<E>,
)
    requires
        sent_handled(pre, stage, post, after_send),
        funding_signed(pre, funding, signature, after_signature),
    ensures
        told_to_enquirer(pre, after_send.reports@),
        told_to_enquirer(pre, after_signature.reports@),
{
}

/// How many outcomes an operation still waits for, at most.
pub open spec fn outcomes_left<E>(next: Next<E>) -> nat {
    match next {
        Next::Send { stage, .. } => sends_left(stage),
        Next::Sign { .. } => 2,
        Next::Propose { .. } => 1,
        Next::Process { .. } => 1,
        Next::Done(_) => 0,
    }
}

/// How many outcomes an operation at the given stage still waits for, at most.
pub open spec fn sends_left(stage: SendStage) -> nat {
    match stage {
        SendStage::LnpdNotified(_) => 4,
        SendStage::PeerNotified(_) => 3,
        SendStage::FundingSignedSent => 1,
        SendStage::FundingLockedSent => 1,
    }
}

/// Every message sent brings an operation nearer to its end.
pub proof fn sending_makes_progress<E>(pre: Runtime, stage: SendStage, post: Runtime, step: Step<E>)
    requires
        sent_handled(pre, stage, post, step),
    ensures
        outcomes_left(step.next) < sends_left(stage),
{
}

/// Every signature brings an operation nearer to its end.
pub proof fn signing_makes_progress<E>(
    runtime: Runtime,
    funding: FundingStep,
    signature: Signature,
    step: Step<E>,
)
    requires
        funding_signed(runtime, funding, signature, step),
    ensures
        outcomes_left(step.next) < outcomes_left(Next::<E>::Sign { step: funding }),
{
}

/// The daemons that are told the new id of a channel, in this order: `lnpd`, and the one
/// that talks to the peer.
pub proof fn id_update_tells_both_daemons<E>(
    pre: Runtime,
    updated: Runtime,
    told_lnpd: Runtime,
    second: Step<E>,
    told_peer: Runtime,
    last: Step<E>,
)
    requires
        id_updated(pre, updated),
        sent_handled(updated, SendStage::LnpdNotified(None), told_lnpd, second),
        sent_handled(told_lnpd, SendStage::PeerNotified(None), told_peer, last),
    ensures
        updated.notify_lnpd::<E>(None) matches Next::Send { envelope: first, .. } && first
            == updated.spec_ctl(ServiceId::Lnpd, CtlMsg::UpdateChannelId(updated.channel_id)),
        second.next matches Next::Send { envelope, stage } && envelope == updated.spec_ctl(
            pre.peer_service,
            CtlMsg::UpdateChannelId(updated.channel_id),
        ) && stage == SendStage::PeerNotified(None),
        last.gives(
            seq![updated.spec_progress(Notice::ChannelIdSet(updated.channel_id))],
            Next::Done(Ok(Output::Nothing)),
        ),
        told_peer == updated,
{
}

/// A `funding_created` message of the peer, where every message can be sent: until the
/// answer is sent the channel is being funded, and then it is funded by the output that
/// the message names; the answer carries the id of the channel.
pub proof fn peer_funding_completes<E>(
    pre: Runtime,
    message: FundingCreated,
    begun: Runtime,
    first: Step<E>,
    told_lnpd: Runtime,
    second: Step<E>,
    told_peer: Runtime,
    third: Step<E>,
    signature: Signature,
    fourth: Step<E>,
    answered: Runtime,
    last: Step<E>,
)
    requires
        peer_funding_handled(pre, message, begun, first),
        first.next matches Next::Send { stage, .. } && sent_handled(
            begun,
            stage,
            told_lnpd,
            second,
        ),
        second.next matches Next::Send { stage, .. } && sent_handled(
            told_lnpd,
            stage,
            told_peer,
            third,
        ),
        third.next matches Next::Sign { step } && funding_signed(
            told_peer,
            step,
            signature,
            fourth,
        ),
        fourth.next matches Next::Send { stage, .. } && sent_handled(
            told_peer,
            stage,
            answered,
            last,
        ),
    ensures
        begun.state == Lifecycle::Funding,
        told_lnpd == begun,
        told_peer == begun,
        answered == (Runtime { state: Lifecycle::Funded, ..begun }),
        funded_by(Runtime { state: Lifecycle::Funded, ..pre }, outpoint_of(message), answered),
        fourth.next matches Next::Send { envelope, .. } && envelope == pre.spec_p2p(
            Messages::FundingSigned(signed_message(answered, signature)),
        ),
        last.next == Next::<E>::Done(Ok(Output::Nothing)),
{
}

/// Funding a channel from the local node, where every message can be sent: the operation
/// ends with the message that names the outpoint.
pub proof fn local_funding_completes<E>(
    pre: Runtime,
    funding_outpoint: OutPoint,
    begun: Runtime,
    told_lnpd: Runtime,
    second: Step<E>,
    told_peer: Runtime,
    third: Step<E>,
    signature: Signature,
    last: Step<E>,
)
    requires
        funded_by(pre, funding_outpoint, begun),
        sent_handled(
            begun,
            SendStage::LnpdNotified(Some(FundingStep::FundChannel)),
            told_lnpd,
            second,
        ),
        second.next matches Next::Send { stage, .. } && sent_handled(
            told_lnpd,
            stage,
            told_peer,
            third,
        ),
        third.next matches Next::Sign { step } && funding_signed(told_peer, step, signature, last),
    ensures
        told_peer == begun,
        told_peer.state == pre.state,
        last.next matches Next::Done(Ok(Output::FundingCreated(message))) && {
            &&& message.temporary_channel_id == pre.temporary_channel_id
            &&& message.funding_txid == funding_outpoint.txid
            &&& message.funding_output_index == funding_outpoint.index()
            &&& message.signature == signature
        },
{
}

/// A channel that has seen both `funding_signed` and `funding_locked`, in this order, is
/// active and holds what both sides have in it.
pub proof fn signed_and_locked_is_active<E>(
    pre: Runtime,
    signed: Runtime,
    first: Step<E>,
    locked: Runtime,
    second: Step<E>,
    post: Runtime,
    last: Step<E>,
)
    requires
        signature_handled(pre, signed, first),
        first.next matches Next::Send { stage, .. } && sent_handled(signed, stage, locked, second),
        lock_handled(locked, post, last),
    ensures
        post == (Runtime {
            state: Lifecycle::Active,
            local_capacity: pre.channel.local_amount,
            remote_capacity: pre.channel.remote_amount,
            ..pre
        }),
{
}

/// The same holds where the peer locks the funding before it signs.
pub proof fn locked_and_signed_is_active<E>(
    pre: Runtime,
    locked: Runtime,
    first: Step<E>,
    signed: Runtime,
    second: Step<E>,
    post: Runtime,
    last: Step<E>,
)
    requires
        lock_handled(pre, locked, first),
        signature_handled(locked, signed, second),
        second.next matches Next::Send { stage, .. } && sent_handled(signed, stage, post, last),
    ensures
        post == (Runtime {
            state: Lifecycle::Active,
            local_capacity: pre.channel.local_amount,
            remote_capacity: pre.channel.remote_amount,
            ..pre
        }),
{
}

} // verus!
