//! What operations do to a channel, said of the messages that come in and of the state,
//! the reports and the messages that come out.

use crate::bus::{
    AcceptChannelFrom, BusMsg, CtlMsg, Envelope, Error, FundingStep, Next, OpenChannelWith, Output,
    SendStage, ServiceBus, ServiceId, Step,
};
use crate::funding::{address_text, funding_script, Chain, Network};
use crate::ids::{ChannelId, OutPoint, TempChannelId};
use crate::keys::{generator, sha256_digest, Signature};
use crate::messages::{
    AcceptChannel, ChannelType, FundingCreated, FundingLocked, FundingSigned, Messages, OpenChannel,
};
use crate::notices::{Notice, Recipient, Report};
use crate::params::Keyset;
use crate::runtime::{Lifecycle, Runtime};
use crate::transitions::{
    acceptance_noted, bus_handled, channel_acceptance, ctl_handled, failed, funded_by,
    funding_reported, funding_signed, funding_update_begun, funding_updated, id_update_begun,
    id_updated, local_funding_begun, outpoint_of, p2p_handled, peer_funding_begun, peer_known,
    processing_outcome, proposal_answered, proposal_outcome, send_outcome, sent_handled,
};
use internet2::NodeAddr;
use vstd::prelude::*;

verus! {

/// Nothing is known of a new channel but its chain and the id under which it was started:
/// that id is the address of the daemon and the temporary id of the channel.
pub proof fn new_channel_is_blank(chain: Chain, channel_id: ChannelId, r: Runtime)
    requires
        r.is_new(chain, channel_id),
    ensures
        r.identity == ServiceId::Channel(channel_id),
        r.temporary_channel_id.bytes == channel_id.bytes,
        r.chain == chain,
        r.peer_service == ServiceId::Loopback,
        r.remote_peer is None,
        r.enquirer is None,
        r.state == Lifecycle::Initial,
        !r.is_originator,
        r.local_capacity == 0 && r.remote_capacity == 0,
        r.channel.local_amount == 0 && r.channel.remote_amount == 0,
        r.commitment_number == 0 && r.obscuring_factor == 0,
        r.total_payments == 0 && r.pending_payments == 0,
        forall|i: int| 0 <= i < 32 ==> #[trigger] r.channel_id.bytes@[i] == 0,
        forall|i: int| 0 <= i < 32 ==> #[trigger] r.funding_outpoint.txid.bytes@[i] == 0,
        r.funding_outpoint.vout == 0xffff_ffff,
        r.local_params == r.remote_params,
        r.local_params.dust_limit_satoshis == 354,
        r.local_params.to_self_delay == 3,
        r.local_params.htlc_minimum_msat == 1,
        r.local_params.max_htlc_value_in_flight_msat == 1_000_000_000,
        r.local_params.channel_reserve_satoshis == 10_000,
        r.local_params.max_accepted_htlcs == 483,
        r.local_keys.funding_pubkey@ == generator(),
        r.local_keys.revocation_basepoint@ == generator(),
        r.local_keys.payment_basepoint@ == generator(),
        r.local_keys.delayed_payment_basepoint@ == generator(),
        r.local_keys.htlc_basepoint@ == generator(),
        r.local_keys.first_per_commitment_point@ == generator(),
        r.local_keys.shutdown_scriptpubkey is None,
        !r.local_keys.static_remotekey,
        r.remote_keys.funding_pubkey@ == generator(),
        r.remote_keys.revocation_basepoint@ == generator(),
        r.remote_keys.payment_basepoint@ == generator(),
        r.remote_keys.delayed_payment_basepoint@ == generator(),
        r.remote_keys.htlc_basepoint@ == generator(),
        r.remote_keys.first_per_commitment_point@ == generator(),
        r.remote_keys.shutdown_scriptpubkey is None,
        !r.remote_keys.static_remotekey,
{
}

/// A script is kept byte by byte, and none is made up.
pub open spec fn script_kept(kept: Option<Vec<u8>>, sent: Option<Vec<u8>>) -> bool {
    match (kept, sent) {
        (Some(a), Some(b)) => a@ == b@,
        (None, None) => true,
        _ => false,
    }
}

/// Whoever accepts a proposal holds, as the keys of the peer, each key of the proposal under
/// its own name.
pub proof fn acceptor_keeps_each_key_of_the_proposal(
    pre: Runtime,
    proposal: OpenChannel,
    post: Runtime,
    accept: AcceptChannel,
)
    requires
        channel_acceptance(pre, proposal, post, accept),
    ensures
        post.remote_keys.funding_pubkey == proposal.funding_pubkey,
        post.remote_keys.revocation_basepoint == proposal.revocation_basepoint,
        post.remote_keys.payment_basepoint == proposal.payment_point,
        post.remote_keys.delayed_payment_basepoint == proposal.delayed_payment_basepoint,
        post.remote_keys.htlc_basepoint == proposal.htlc_basepoint,
        post.remote_keys.first_per_commitment_point == proposal.first_per_commitment_point,
        script_kept(post.remote_keys.shutdown_scriptpubkey, proposal.shutdown_scriptpubkey),
        !post.remote_keys.static_remotekey,
{
}

/// Whoever accepts a proposal holds, as its own terms, each term of the proposal under its
/// own name.
pub proof fn acceptor_keeps_each_term_of_the_proposal(
    pre: Runtime,
    proposal: OpenChannel,
    post: Runtime,
    accept: AcceptChannel,
)
    requires
        channel_acceptance(pre, proposal, post, accept),
    ensures
        post.local_params.dust_limit_satoshis == proposal.dust_limit_satoshis,
        post.local_params.to_self_delay == proposal.to_self_delay,
        post.local_params.htlc_minimum_msat == proposal.htlc_minimum_msat,
        post.local_params.max_htlc_value_in_flight_msat == proposal.max_htlc_value_in_flight_msat,
        post.local_params.channel_reserve_satoshis == proposal.channel_reserve_satoshis,
        post.local_params.max_accepted_htlcs == proposal.max_accepted_htlcs,
{
}

/// The answer to a proposal repeats each term of it under its own name, asks for three
/// confirmations, and carries no key but the stand-in; the keys that it carries are those
/// that the acceptor then holds as its own.
pub proof fn answer_repeats_the_proposal(
    pre: Runtime,
    proposal: OpenChannel,
    post: Runtime,
    accept: AcceptChannel,
)
    requires
        channel_acceptance(pre, proposal, post, accept),
    ensures
        accept.temporary_channel_id == proposal.temporary_channel_id,
        accept.dust_limit_satoshis == proposal.dust_limit_satoshis,
        accept.to_self_delay == proposal.to_self_delay,
        accept.htlc_minimum_msat == proposal.htlc_minimum_msat,
        accept.max_htlc_value_in_flight_msat == proposal.max_htlc_value_in_flight_msat,
        accept.channel_reserve_satoshis == proposal.channel_reserve_satoshis,
        accept.max_accepted_htlcs == proposal.max_accepted_htlcs,
        accept.minimum_depth == 3,
        accept.shutdown_scriptpubkey is None,
        accept.channel_type is None,
        accept.unknown_tlvs@ == Seq::<crate::messages::Tlv>::empty(),
        accept.funding_pubkey@ == generator(),
        accept.revocation_basepoint@ == generator(),
        accept.payment_point@ == generator(),
        accept.delayed_payment_basepoint@ == generator(),
        accept.htlc_basepoint@ == generator(),
        accept.first_per_commitment_point@ == generator(),
        post.local_keys.funding_pubkey == accept.funding_pubkey,
        post.local_keys.revocation_basepoint == accept.revocation_basepoint,
        post.local_keys.payment_basepoint == accept.payment_point,
        post.local_keys.delayed_payment_basepoint == accept.delayed_payment_basepoint,
        post.local_keys.htlc_basepoint == accept.htlc_basepoint,
        post.local_keys.first_per_commitment_point == accept.first_per_commitment_point,
        post.local_keys.shutdown_scriptpubkey is None,
        !post.local_keys.static_remotekey,
{
}

/// Accepting a proposal makes the channel one that the peer proposed, and touches nothing but
/// its own terms and the keys of both sides.
pub proof fn accepting_touches_terms_and_keys(
    pre: Runtime,
    proposal: OpenChannel,
    post: Runtime,
    accept: AcceptChannel,
)
    requires
        channel_acceptance(pre, proposal, post, accept),
    ensures
        !post.is_originator,
        pre == (Runtime {
            is_originator: pre.is_originator,
            local_params: pre.local_params,
            local_keys: pre.local_keys,
            remote_keys: pre.remote_keys,
            ..post
        }),
{
}

/// Once `accept_channel` is handled, the channel holds each key and each term of the message
/// under its own name as those of the peer, and is accepted, whatever it was before. The
/// rest of the channel is untouched.
pub proof fn accepted_channel_keeps_each_field<E>(
    pre: Runtime,
    remote_peer: NodeAddr,
    accept: AcceptChannel,
    post: Runtime,
    step: Step<E>,
)
    requires
        p2p_handled(pre, remote_peer, Messages::AcceptChannel(accept), post, step),
    ensures
        post.remote_params.dust_limit_satoshis == accept.dust_limit_satoshis,
        post.remote_params.to_self_delay == accept.to_self_delay,
        post.remote_params.htlc_minimum_msat == accept.htlc_minimum_msat,
        post.remote_params.max_htlc_value_in_flight_msat == accept.max_htlc_value_in_flight_msat,
        post.remote_params.channel_reserve_satoshis == accept.channel_reserve_satoshis,
        post.remote_params.max_accepted_htlcs == accept.max_accepted_htlcs,
        post.remote_keys.funding_pubkey == accept.funding_pubkey,
        post.remote_keys.revocation_basepoint == accept.revocation_basepoint,
        post.remote_keys.payment_basepoint == accept.payment_point,
        post.remote_keys.delayed_payment_basepoint == accept.delayed_payment_basepoint,
        post.remote_keys.htlc_basepoint == accept.htlc_basepoint,
        post.remote_keys.first_per_commitment_point == accept.first_per_commitment_point,
        script_kept(post.remote_keys.shutdown_scriptpubkey, accept.shutdown_scriptpubkey),
        post.remote_keys.static_remotekey <==> (accept.channel_type == Some(
            ChannelType::StaticRemotekey,
        ) || accept.channel_type == Some(ChannelType::AnchorOutputsStaticRemotekey)
            || accept.channel_type == Some(ChannelType::AnchorsZeroFeeHtlcTxStaticRemotekey)),
        post.state == Lifecycle::Accepted,
        pre == (Runtime {
            state: pre.state,
            remote_params: pre.remote_params,
            remote_keys: pre.remote_keys,
            ..post
        }),
        step.next == Next::<E>::Done(Ok(Output::Nothing)),
{
}

/// The same fields are kept by whoever takes them from a message, with no channel around.
pub proof fn keys_of_a_message_keep_their_names(
    of_open: Keyset,
    proposal: OpenChannel,
    of_accept: Keyset,
    accept: AcceptChannel,
)
    requires
        of_open.is_of_open_channel(proposal),
        of_accept.is_of_accept_channel(accept),
    ensures
        of_open.funding_pubkey == proposal.funding_pubkey,
        of_open.revocation_basepoint == proposal.revocation_basepoint,
        of_open.payment_basepoint == proposal.payment_point,
        of_open.delayed_payment_basepoint == proposal.delayed_payment_basepoint,
        of_open.htlc_basepoint == proposal.htlc_basepoint,
        of_open.first_per_commitment_point == proposal.first_per_commitment_point,
        script_kept(of_open.shutdown_scriptpubkey, proposal.shutdown_scriptpubkey),
        of_accept.funding_pubkey == accept.funding_pubkey,
        of_accept.revocation_basepoint == accept.revocation_basepoint,
        of_accept.payment_basepoint == accept.payment_point,
        of_accept.delayed_payment_basepoint == accept.delayed_payment_basepoint,
        of_accept.htlc_basepoint == accept.htlc_basepoint,
        of_accept.first_per_commitment_point == accept.first_per_commitment_point,
        script_kept(of_accept.shutdown_scriptpubkey, accept.shutdown_scriptpubkey),
{
}

/// The Bitcoin network on which a chain has addresses.
pub open spec fn runs_on(chain: Chain, network: Network) -> bool {
    match network {
        Network::Bitcoin => chain == Chain::Mainnet,
        Network::Testnet => chain == Chain::Testnet3,
        Network::Signet => chain == Chain::Signet,
        Network::Regtest => chain matches Chain::Regtest(hash) && hash@ == seq![
            0x06u8, 0x22, 0x6e, 0x46, 0x11, 0x1a, 0x0b, 0x59,
            0xca, 0xaf, 0x12, 0x60, 0x43, 0xeb, 0x5b, 0xbf,
            0x28, 0xc3, 0x4f, 0x3a, 0x5e, 0x33, 0x2a, 0x1f,
            0xc7, 0xb2, 0xb7, 0x3c, 0xf1, 0x88, 0x91, 0x0f,
        ],
    }
}

/// A chain has the network on which it runs, and no network where it runs on none.
pub proof fn chain_has_the_network_it_runs_on(chain: Chain)
    ensures
        forall|network: Network|
            chain.spec_network() == Some(network) <==> #[trigger] runs_on(chain, network),
{
}

/// What is said, and to whom, once `accept_channel` is handled, in this order. The log gets
/// the keys of the funding output, that of the local side first, its script, and its address
/// on the network of the chain, or that it has none.
pub proof fn acceptance_is_told<E>(
    pre: Runtime,
    remote_peer: NodeAddr,
    accept: AcceptChannel,
    post: Runtime,
    step: Step<E>,
)
    requires
        p2p_handled(pre, remote_peer, Messages::AcceptChannel(accept), post, step),
    ensures
        step.reports@.len() == 7,
        step.reports@[0] == (Report {
            recipient: Recipient::Log,
            notice: Notice::ChannelAccepted {
                temporary_channel_id: accept.temporary_channel_id,
                peer: ServiceId::Peer(remote_peer),
            },
        }),
        step.reports@[1] == (Report {
            recipient: Recipient::Progress(pre.enquirer),
            notice: Notice::AcceptedByPeer,
        }),
        step.reports@[2] == (Report {
            recipient: Recipient::Log,
            notice: Notice::VerifyingParams(accept.temporary_channel_id),
        }),
        step.reports@[3] == (Report {
            recipient: Recipient::Success(pre.enquirer),
            notice: Notice::ReadyForFunding(accept.temporary_channel_id),
        }),
        step.reports@[4] == (Report {
            recipient: Recipient::Log,
            notice: Notice::GeneratingScript {
                local: pre.local_keys.funding_pubkey,
                remote: accept.funding_pubkey,
            },
        }),
        step.reports@[5].recipient == Recipient::Log,
        step.reports@[5].notice matches Notice::FundingScript(script) && script@ == funding_script(
            pre.local_keys.funding_pubkey@,
            accept.funding_pubkey@,
        ),
        step.reports@[6].recipient == Recipient::Log,
        forall|network: Network| #[trigger]
            runs_on(pre.chain, network) ==> match address_text(
                funding_script(pre.local_keys.funding_pubkey@, accept.funding_pubkey@),
                network,
            ) {
                Some(text) => step.reports@[6].notice matches Notice::FundingAddress(address)
                    && address@ == text,
                None => step.reports@[6].notice == Notice::NoFundingAddress,
            },
        (forall|network: Network| !(#[trigger] runs_on(pre.chain, network)))
            ==> step.reports@[6].notice == Notice::NoFundingAddress,
{
    chain_has_the_network_it_runs_on(pre.chain);
    assert(step.reports@.take(4).len() == 4);
    assert(step.reports@[0] == step.reports@.take(4)[0]);
    assert(step.reports@[1] == step.reports@.take(4)[1]);
    assert(step.reports@[2] == step.reports@.take(4)[2]);
    assert(step.reports@[3] == step.reports@.take(4)[3]);
    match pre.chain.spec_network() {
        Some(network) => {
            assert(runs_on(pre.chain, network));
        },
        None => {},
    }
}

/// A repeated proposal, and every message that is not part of setting a channel up, leaves
/// the channel as it is and is answered with nothing. Only the proposal is logged.
pub proof fn other_messages_change_nothing<E>(
    pre: Runtime,
    remote_peer: NodeAddr,
    message: Messages,
    post: Runtime,
    step: Step<E>,
)
    requires
        p2p_handled(pre, remote_peer, message, post, step),
        !(message is AcceptChannel),
        !(message is FundingCreated),
        !(message is FundingSigned),
        !(message is FundingLocked),
    ensures
        post == pre,
        step.next == Next::<E>::Done(Ok(Output::Nothing)),
        !(message is OpenChannel) ==> step.reports@.len() == 0,
        message is OpenChannel ==> step.reports@ == seq![
            Report {
                recipient: Recipient::Log,
                notice: Notice::UnexpectedOpenChannel(remote_peer),
            },
        ],
{
}

/// The answer to `funding_signed`, whoever proposed the channel and whatever its state: the
/// daemon of the peer is sent `funding_locked`, with the id of the channel and the first
/// commitment point of the local side, and the channel is funded until that is sent.
pub proof fn signed_funding_is_answered_with_the_local_point<E>(
    pre: Runtime,
    remote_peer: NodeAddr,
    message: FundingSigned,
    post: Runtime,
    step: Step<E>,
)
    requires
        p2p_handled(pre, remote_peer, Messages::FundingSigned(message), post, step),
    ensures
        step.next == (Next::<E>::Send {
            envelope: Envelope {
                bus: ServiceBus::Msg,
                source: pre.identity,
                dest: pre.peer_service,
                message: BusMsg::Ln(
                    Messages::FundingLocked(
                        FundingLocked {
                            channel_id: pre.channel_id,
                            next_per_commitment_point: pre.local_keys.first_per_commitment_point,
                        },
                    ),
                ),
            },
            stage: SendStage::FundingLockedSent,
        }),
        post.state == Lifecycle::Funded,
        pre == (Runtime { state: pre.state, ..post }),
        step.reports@ == seq![
            Report {
                recipient: Recipient::Progress(pre.enquirer),
                notice: Notice::ChannelFunded,
            },
        ],
{
}

/// Once `funding_locked` is sent the channel is active, whatever it was before, and holds
/// for the local side what its commitment transaction gives that side.
pub proof fn sent_lock_makes_the_channel_active<E>(pre: Runtime, post: Runtime, step: Step<E>)
    requires
        sent_handled(pre, SendStage::FundingLockedSent, post, step),
    ensures
        post.state == Lifecycle::Active,
        post.local_capacity == pre.channel.local_amount,
        pre == (Runtime { state: pre.state, local_capacity: pre.local_capacity, ..post }),
        step.next == Next::<E>::Done(Ok(Output::Nothing)),
        step.reports@ == seq![
            Report {
                recipient: Recipient::Success(pre.enquirer),
                notice: Notice::ChannelActive,
            },
        ],
{
}

/// Once `funding_locked` of the peer is handled the channel is active, whatever it was
/// before, and holds for the peer what its commitment transaction gives the peer.
pub proof fn peer_lock_makes_the_channel_active<E>(
    pre: Runtime,
    remote_peer: NodeAddr,
    message: FundingLocked,
    post: Runtime,
    step: Step<E>,
)
    requires
        p2p_handled(pre, remote_peer, Messages::FundingLocked(message), post, step),
    ensures
        post.state == Lifecycle::Active,
        post.remote_capacity == pre.channel.remote_amount,
        pre == (Runtime { state: pre.state, remote_capacity: pre.remote_capacity, ..post }),
        step.next == Next::<E>::Done(Ok(Output::Nothing)),
        step.reports@ == seq![
            Report {
                recipient: Recipient::Success(pre.enquirer),
                notice: Notice::ChannelActive,
            },
        ],
{
}

/// The two bytes of an output index, and how they are mixed into the id of a transaction.
pub open spec fn id_of_output(id: Seq<u8>, txid: Seq<u8>, vout: u32) -> bool {
    &&& id.len() == 32
    &&& forall|i: int| 0 <= i < 30 ==> #[trigger] id[i] == txid[i]
    &&& id[30] ^ txid[30] == vout / 256 % 256
    &&& id[31] ^ txid[31] == vout % 256
}

/// The id of a channel is that of its funding transaction, with the output index mixed into
/// the last two bytes.
proof fn lemma_id_of_output(id: ChannelId, outpoint: OutPoint)
    requires
        id.bytes@ == crate::ids::channel_id_bytes(outpoint.txid.bytes@, outpoint.index()),
    ensures
        id_of_output(id.bytes@, outpoint.txid.bytes@, outpoint.vout),
{
    let a = outpoint.txid.bytes@[30];
    let b = outpoint.txid.bytes@[31];
    let vout = outpoint.vout;
    let index: u16 = outpoint.index();
    let hi = (index / 256) as u8;
    let lo = (index % 256) as u8;
    assert((a ^ hi) ^ a == hi) by (bit_vector);
    assert((b ^ lo) ^ b == lo) by (bit_vector);
    assert(index == vout % 0x10000);
    assert(index / 256 == vout / 256 % 256);
    assert(index % 256 == vout % 256);
}

/// An id update changes the id of the channel, and nothing else, to the one that its funding
/// outpoint gives.
pub proof fn id_follows_from_the_outpoint(pre: Runtime, post: Runtime)
    requires
        id_updated(pre, post),
    ensures
        id_of_output(
            post.channel_id.bytes@,
            pre.funding_outpoint.txid.bytes@,
            pre.funding_outpoint.vout,
        ),
        pre == (Runtime { channel_id: pre.channel_id, ..post }),
{
    lemma_id_of_output(post.channel_id, pre.funding_outpoint);
}

/// Funding a channel by an outpoint gives it that outpoint, the id that the outpoint gives,
/// and a count of commitments that starts at zero. Of the rest only the obscuring factor
/// changes.
pub proof fn funding_gives_outpoint_and_id(pre: Runtime, outpoint: OutPoint, post: Runtime)
    requires
        funded_by(pre, outpoint, post),
    ensures
        post.funding_outpoint == outpoint,
        id_of_output(post.channel_id.bytes@, outpoint.txid.bytes@, outpoint.vout),
        post.commitment_number == 0,
        pre == (Runtime {
            funding_outpoint: pre.funding_outpoint,
            channel_id: pre.channel_id,
            commitment_number: pre.commitment_number,
            obscuring_factor: pre.obscuring_factor,
            ..post
        }),
{
    lemma_id_of_output(post.channel_id, outpoint);
}

/// The same holds of a channel that already has its outpoint.
pub proof fn funding_update_gives_the_id(pre: Runtime, post: Runtime)
    requires
        funding_updated(pre, post),
    ensures
        id_of_output(
            post.channel_id.bytes@,
            pre.funding_outpoint.txid.bytes@,
            pre.funding_outpoint.vout,
        ),
        post.commitment_number == 0,
        pre == (Runtime {
            channel_id: pre.channel_id,
            commitment_number: pre.commitment_number,
            obscuring_factor: pre.obscuring_factor,
            ..post
        }),
{
    lemma_id_of_output(post.channel_id, pre.funding_outpoint);
}

/// The obscuring factor is the number in the last eight bytes, the first of them the most
/// significant, of the digest of both payment basepoints, that of the side that proposed the
/// channel first. The log gets the digest, the factor and the new id, after what was
/// reported before.
pub proof fn obscuring_factor_is_the_end_of_the_digest(
    pre: Runtime,
    post: Runtime,
    before: Seq<Report>,
    reports: Seq<Report>,
)
    requires
        funding_updated(pre, post),
        funding_reported(pre, before, post, reports),
    ensures
        reports.len() == before.len() + 3,
        forall|i: int| 0 <= i < before.len() ==> #[trigger] reports[i] == before[i],
        reports[before.len() as int].recipient == Recipient::Log,
        reports[before.len() as int].notice matches Notice::ObscuringHash(hash) && {
            &&& pre.is_originator ==> hash@ == sha256_digest(
                pre.local_keys.payment_basepoint@ + pre.remote_keys.payment_basepoint@,
            )
            &&& !pre.is_originator ==> hash@ == sha256_digest(
                pre.remote_keys.payment_basepoint@ + pre.local_keys.payment_basepoint@,
            )
            &&& post.obscuring_factor == 0x100_0000_0000_0000 * hash@[24]
                + 0x1_0000_0000_0000 * hash@[25] + 0x100_0000_0000 * hash@[26] + 0x1_0000_0000
                * hash@[27] + 0x100_0000 * hash@[28] + 0x1_0000 * hash@[29] + 0x100 * hash@[30]
                + hash@[31]
        },
        reports[before.len() as int + 1] == (Report {
            recipient: Recipient::Log,
            notice: Notice::ObscuringFactor(post.obscuring_factor),
        }),
        reports[before.len() as int + 2] == (Report {
            recipient: Recipient::Log,
            notice: Notice::UpdatingChannelId(post.channel_id),
        }),
{
    let hash = reports[before.len() as int].notice->ObscuringHash_0@;
    crate::formulas::eight_bytes_make_a_number(hash.subrange(24, 32));
}

/// A message that tells a daemon the id of a channel.
pub open spec fn tells_id<E>(
    next: Next<E>,
    source: ServiceId,
    dest: ServiceId,
    id: ChannelId,
) -> bool {
    next matches Next::Send { envelope, .. } && envelope == (Envelope {
        bus: ServiceBus::Ctl,
        source,
        dest,
        message: BusMsg::Ctl(CtlMsg::UpdateChannelId(id)),
    })
}

/// Whatever the new id of a channel is for, `lnpd` is told first, and the daemon that talks
/// to the peer is told next and last; what follows is the signature that the operation needs,
/// or nothing.
pub proof fn every_new_id_is_told_twice<E>(
    updated: Runtime,
    after: Option<FundingStep>,
    told_lnpd: Runtime,
    second: Step<E>,
    told_peer: Runtime,
    third: Step<E>,
)
    requires
        sent_handled(updated, SendStage::LnpdNotified(after), told_lnpd, second),
        sent_handled(told_lnpd, SendStage::PeerNotified(after), told_peer, third),
    ensures
        tells_id(
            updated.notify_lnpd::<E>(after),
            updated.identity,
            ServiceId::Lnpd,
            updated.channel_id,
        ),
        updated.notify_lnpd::<E>(after)->stage == SendStage::LnpdNotified(after),
        tells_id(second.next, updated.identity, updated.peer_service, updated.channel_id),
        second.next->stage == SendStage::PeerNotified(after),
        second.reports@.len() == 0,
        third.reports@ == seq![
            Report {
                recipient: Recipient::Progress(updated.enquirer),
                notice: Notice::ChannelIdSet(updated.channel_id),
            },
        ],
        after is None ==> third.next == Next::<E>::Done(Ok(Output::Nothing)),
        after matches Some(funding) ==> third.next == (Next::<E>::Sign { step: funding }),
        told_lnpd == updated,
        told_peer == updated,
{
}

/// Funding from the local node tells the id of the funding output to `lnpd` and then to the
/// daemon that talked to the peer before the operation, to nobody else, and ends with
/// `funding_created`: the temporary id, the transaction, the low sixteen bits of the output
/// index, and the signature.
pub proof fn local_funding_tells_both_daemons<E>(
    pre: Runtime,
    outpoint: OutPoint,
    begun: Runtime,
    told_lnpd: Runtime,
    second: Step<E>,
    told_peer: Runtime,
    third: Step<E>,
    signature: Signature,
    last: Step<E>,
)
    requires
        funded_by(pre, outpoint, begun),
        begun.notify_lnpd::<E>(Some(FundingStep::FundChannel)) matches Next::Send { stage, .. }
            && sent_handled(begun, stage, told_lnpd, second),
        second.next matches Next::Send { stage, .. } && sent_handled(
            told_lnpd,
            stage,
            told_peer,
            third,
        ),
        third.next matches Next::Sign { step } && funding_signed(told_peer, step, signature, last),
    ensures
        tells_id(
            begun.notify_lnpd::<E>(Some(FundingStep::FundChannel)),
            pre.identity,
            ServiceId::Lnpd,
            begun.channel_id,
        ),
        tells_id(second.next, pre.identity, pre.peer_service, begun.channel_id),
        id_of_output(begun.channel_id.bytes@, outpoint.txid.bytes@, outpoint.vout),
        third.next == (Next::<E>::Sign { step: FundingStep::FundChannel }),
        last.next matches Next::Done(Ok(Output::FundingCreated(message))) && {
            &&& message.temporary_channel_id == pre.temporary_channel_id
            &&& message.funding_txid == outpoint.txid
            &&& message.funding_output_index == outpoint.vout % 0x10000
            &&& message.signature == signature
            &&& last.reports@ == seq![
                Report {
                    recipient: Recipient::Log,
                    notice: Notice::PreparedFundingCreated(message),
                },
                Report {
                    recipient: Recipient::Progress(pre.enquirer),
                    notice: Notice::FundingCreated(begun.channel_id),
                },
            ]
        },
        told_peer == begun,
{
    lemma_id_of_output(begun.channel_id, outpoint);
}

/// Funding by the peer, asked for directly, tells both daemons in the same way, and ends with
/// `funding_signed`: the id of the output that the peer named, and the signature.
pub proof fn peer_funding_tells_both_daemons<E>(
    pre: Runtime,
    created: FundingCreated,
    begun: Runtime,
    told_lnpd: Runtime,
    second: Step<E>,
    told_peer: Runtime,
    third: Step<E>,
    signature: Signature,
    last: Step<E>,
)
    requires
        funded_by(pre, outpoint_of(created), begun),
        begun.notify_lnpd::<E>(Some(FundingStep::FundingCreated)) matches Next::Send { stage, .. }
            && sent_handled(begun, stage, told_lnpd, second),
        second.next matches Next::Send { stage, .. } && sent_handled(
            told_lnpd,
            stage,
            told_peer,
            third,
        ),
        third.next matches Next::Sign { step } && funding_signed(told_peer, step, signature, last),
    ensures
        begun.funding_outpoint.txid == created.funding_txid,
        begun.funding_outpoint.vout == created.funding_output_index,
        id_of_output(
            begun.channel_id.bytes@,
            created.funding_txid.bytes@,
            created.funding_output_index as u32,
        ),
        tells_id(
            begun.notify_lnpd::<E>(Some(FundingStep::FundingCreated)),
            pre.identity,
            ServiceId::Lnpd,
            begun.channel_id,
        ),
        tells_id(second.next, pre.identity, pre.peer_service, begun.channel_id),
        third.next == (Next::<E>::Sign { step: FundingStep::FundingCreated }),
        last.next matches Next::Done(Ok(Output::FundingSigned(message))) && {
            &&& message.channel_id == begun.channel_id
            &&& message.signature == signature
            &&& last.reports@ == seq![
                Report {
                    recipient: Recipient::Log,
                    notice: Notice::PreparedFundingSigned(message),
                },
                Report {
                    recipient: Recipient::Progress(pre.enquirer),
                    notice: Notice::FundingSigned(begun.channel_id),
                },
            ]
        },
        told_peer == begun,
{
    lemma_id_of_output(begun.channel_id, outpoint_of(created));
}

/// A `funding_created` message of the peer, from its first step to its last: both daemons are
/// told the id of the output that the message names, the peer is sent `funding_signed` with
/// that id, and the channel, which was being funded, is then funded.
pub proof fn funding_message_is_answered_in_full<E>(
    pre: Runtime,
    remote_peer: NodeAddr,
    created: FundingCreated,
    begun: Runtime,
    first: Step<E>,
    told_lnpd: Runtime,
    second: Step<E>,
    told_peer: Runtime,
    third: Step<E>,
    signature: Signature,
    fourth: Step<E>,
    answered: Runtime,
    last: Step<E>,
)
    requires
        p2p_handled(pre, remote_peer, Messages::FundingCreated(created), begun, first),
        first.next matches Next::Send { stage, .. } && sent_handled(
            begun,
            stage,
            told_lnpd,
            second,
        ),
        second.next matches Next::Send { stage, .. } && sent_handled(
            told_lnpd,
            stage,
            told_peer,
            third,
        ),
        third.next matches Next::Sign { step } && funding_signed(
            told_peer,
            step,
            signature,
            fourth,
        ),
        fourth.next matches Next::Send { stage, .. } && sent_handled(
            told_peer,
            stage,
            answered,
            last,
        ),
    ensures
        begun.state == Lifecycle::Funding,
        begun.funding_outpoint.txid == created.funding_txid,
        begun.funding_outpoint.vout == created.funding_output_index,
        begun.commitment_number == 0,
        pre == (Runtime {
            state: pre.state,
            funding_outpoint: pre.funding_outpoint,
            channel_id: pre.channel_id,
            commitment_number: pre.commitment_number,
            obscuring_factor: pre.obscuring_factor,
            ..begun
        }),
        id_of_output(
            begun.channel_id.bytes@,
            created.funding_txid.bytes@,
            created.funding_output_index as u32,
        ),
        first.reports@.len() == 5,
        first.reports@[0] == (Report {
            recipient: Recipient::Log,
            notice: Notice::PeerFundingStarted(pre.temporary_channel_id),
        }),
        first.reports@[1] == (Report {
            recipient: Recipient::Progress(pre.enquirer),
            notice: Notice::AcceptingFunding(pre.temporary_channel_id),
        }),
        tells_id(first.next, pre.identity, ServiceId::Lnpd, begun.channel_id),
        told_lnpd == begun,
        tells_id(second.next, pre.identity, pre.peer_service, begun.channel_id),
        told_peer == begun,
        third.next is Sign,
        fourth.next matches Next::Send { envelope, .. } && envelope == (Envelope {
            bus: ServiceBus::Msg,
            source: pre.identity,
            dest: pre.peer_service,
            message: BusMsg::Ln(
                Messages::FundingSigned(
                    FundingSigned { channel_id: begun.channel_id, signature },
                ),
            ),
        }),
        fourth.reports@ == seq![
            Report {
                recipient: Recipient::Log,
                notice: Notice::PreparedFundingSigned(
                    FundingSigned { channel_id: begun.channel_id, signature },
                ),
            },
            Report {
                recipient: Recipient::Progress(pre.enquirer),
                notice: Notice::FundingSigned(begun.channel_id),
            },
        ],
        answered.state == Lifecycle::Funded,
        begun == (Runtime { state: begun.state, ..answered }),
        last.reports@ == seq![
            Report {
                recipient: Recipient::Progress(pre.enquirer),
                notice: Notice::ChannelFunded,
            },
        ],
        last.next == Next::<E>::Done(Ok(Output::Nothing)),
{
    lemma_id_of_output(begun.channel_id, outpoint_of(created));
}

/// The reports with which funding begins name the temporary id, in the log and to the one who
/// follows the channel.
pub proof fn funding_begins_with_the_temporary_id(runtime: Runtime, id: TempChannelId)
    requires
        id == runtime.temporary_channel_id,
    ensures
        runtime.local_funding_reports() == seq![
            Report { recipient: Recipient::Log, notice: Notice::FundingStarted(id) },
            Report {
                recipient: Recipient::Progress(runtime.enquirer),
                notice: Notice::FundingChannel(id),
            },
        ],
        runtime.peer_funding_reports() == seq![
            Report { recipient: Recipient::Log, notice: Notice::PeerFundingStarted(id) },
            Report {
                recipient: Recipient::Progress(runtime.enquirer),
                notice: Notice::AcceptingFunding(id),
            },
        ],
{
}

/// Once the answer to `funding_created` is sent, in whatever state, the channel is funded.
pub proof fn sent_answer_makes_the_channel_funded<E>(pre: Runtime, post: Runtime, step: Step<E>)
    requires
        sent_handled(pre, SendStage::FundingSignedSent, post, step),
    ensures
        post.state == Lifecycle::Funded,
        pre == (Runtime { state: pre.state, ..post }),
        step.next == Next::<E>::Done(Ok(Output::Nothing)),
        step.reports@ == seq![
            Report {
                recipient: Recipient::Progress(pre.enquirer),
                notice: Notice::ChannelFunded,
            },
        ],
{
}

/// A failure ends an operation with that failure. Nothing is sent or reported any more, and
/// the channel stays as it is.
pub proof fn failure_ends_the_operation<E>(pre: Runtime, error: E, post: Runtime, step: Step<E>)
    requires
        failed(pre, error, post, step),
    ensures
        post == pre,
        step.reports@.len() == 0,
        step.next == Next::<E>::Done(Err(Error::Service(error))),
{
}

/// A message for the peer goes over the bus of peer messages, under the name of the daemon,
/// to the daemon that talks to the peer; a control message goes over its own bus to whom it
/// is for. Neither is altered.
pub proof fn messages_are_addressed(
    runtime: Runtime,
    message: Messages,
    dest: ServiceId,
    control: CtlMsg,
)
    ensures
        runtime.spec_p2p(message).bus == ServiceBus::Msg,
        runtime.spec_p2p(message).source == runtime.identity,
        runtime.spec_p2p(message).dest == runtime.peer_service,
        runtime.spec_p2p(message).message == BusMsg::Ln(message),
        runtime.spec_ctl(dest, control).bus == ServiceBus::Ctl,
        runtime.spec_ctl(dest, control).source == runtime.identity,
        runtime.spec_ctl(dest, control).dest == dest,
        runtime.spec_ctl(dest, control).message == BusMsg::Ctl(control),
{
}

/// Progress and success are told to the one who follows the channel, and what is told is not
/// altered.
pub proof fn reports_go_to_the_enquirer(runtime: Runtime, notice: Notice)
    ensures
        runtime.spec_progress(notice).recipient == Recipient::Progress(runtime.enquirer),
        runtime.spec_progress(notice).notice == notice,
        runtime.spec_success(notice).recipient == Recipient::Success(runtime.enquirer),
        runtime.spec_success(notice).notice == notice,
{
}

/// A request to propose a channel makes the one whom it names follow the channel, and asks
/// for the proposal as it came, to the peer that it names. Nothing else happens yet.
pub proof fn proposal_is_asked_for<E>(
    pre: Runtime,
    source: ServiceId,
    proposal: OpenChannelWith,
    post: Runtime,
    step: Step<E>,
)
    requires
        ctl_handled(pre, source, CtlMsg::OpenChannelWith(proposal), post, step),
    ensures
        post.enquirer == proposal.report_to,
        pre == (Runtime { enquirer: pre.enquirer, ..post }),
        step.reports@.len() == 0,
        step.next == (Next::<E>::Propose { proposal, remote_peer: proposal.remote_peer }),
{
}

/// A request to answer a proposal leaves nobody to follow the channel, and is handed on as it
/// came, with whom it came from and the peer that it names. Nothing else happens yet.
pub proof fn answer_is_asked_for<E>(
    pre: Runtime,
    source: ServiceId,
    proposal: AcceptChannelFrom,
    post: Runtime,
    step: Step<E>,
)
    requires
        ctl_handled(pre, source, CtlMsg::AcceptChannelFrom(proposal), post, step),
    ensures
        post.enquirer is None,
        pre == (Runtime { enquirer: pre.enquirer, ..post }),
        step.reports@.len() == 0,
        step.next == (Next::<E>::Process {
            source,
            request: CtlMsg::AcceptChannelFrom(proposal),
            remote_peer: proposal.remote_peer,
        }),
{
}

/// Every other control message is refused with itself, and logged; the channel stays as it
/// is.
pub proof fn other_control_messages_are_refused<E>(
    pre: Runtime,
    source: ServiceId,
    request: CtlMsg,
    post: Runtime,
    step: Step<E>,
)
    requires
        ctl_handled(pre, source, request, post, step),
        !(request is OpenChannelWith),
        !(request is AcceptChannelFrom),
    ensures
        post == pre,
        step.reports@ == seq![
            Report { recipient: Recipient::Log, notice: Notice::UnsupportedRequest },
        ],
        step.next == Next::<E>::Done(
            Err(Error::WrongRpcMsg { bus: ServiceBus::Ctl, message: BusMsg::Ctl(request) }),
        ),
{
}

/// The peer of a channel is the one whose daemon its messages go to. Learning of the peer
/// changes nothing else.
pub proof fn peer_and_its_daemon_are_noted(pre: Runtime, remote_peer: NodeAddr, post: Runtime)
    requires
        peer_known(pre, remote_peer, post),
    ensures
        post.remote_peer == Some(remote_peer),
        post.peer_service == ServiceId::Peer(remote_peer),
        pre == (Runtime {
            remote_peer: pre.remote_peer,
            peer_service: pre.peer_service,
            ..post
        }),
{
}

/// What comes over the wrong bus is refused with itself and with the bus it came over; the
/// channel stays as it is, and nothing is reported.
pub proof fn misplaced_messages_are_refused<E>(
    pre: Runtime,
    bus: ServiceBus,
    source: ServiceId,
    message: BusMsg,
    post: Runtime,
    step: Step<E>,
)
    requires
        bus_handled(pre, bus, source, message, post, step),
        !(bus == ServiceBus::Msg && message is Ln && source is Peer),
        !(bus == ServiceBus::Ctl && message is Ctl),
    ensures
        post == pre,
        step.reports@.len() == 0,
        step.next == Next::<E>::Done(Err(Error::WrongRpcMsg { bus, message })),
{
}

/// A message that could not be sent ends the operation, at whatever stage, with the failure of
/// the bus and no change. A message that was sent never fails an operation.
pub proof fn unsent_messages_end_the_operation<E>(
    pre: Runtime,
    stage: SendStage,
    outcome: Result<(), E>,
    post: Runtime,
    step: Step<E>,
)
    requires
        send_outcome(pre, stage, outcome, post, step),
    ensures
        outcome matches Err(error) ==> {
            &&& post == pre
            &&& step.reports@.len() == 0
            &&& step.next == Next::<E>::Done(Err(Error::Service(error)))
        },
        outcome is Ok ==> !(step.next matches Next::Done(Err(_))),
        outcome is Ok && stage == SendStage::FundingSignedSent ==> post.state == Lifecycle::Funded,
        outcome is Ok && stage == SendStage::FundingLockedSent ==> post.state == Lifecycle::Active
            && post.local_capacity == pre.channel.local_amount,
        outcome is Ok && stage is LnpdNotified ==> tells_id(
            step.next,
            pre.identity,
            pre.peer_service,
            pre.channel_id,
        ),
        outcome is Ok && (stage is LnpdNotified || stage is PeerNotified) ==> post == pre,
{
}

/// Only a proposal that was made gives the channel its peer, and gives it that peer whatever
/// peer it had before. One that failed ends with its failure and no change.
pub proof fn only_a_made_proposal_gives_the_peer<E>(
    pre: Runtime,
    remote_peer: NodeAddr,
    outcome: Result<(), E>,
    post: Runtime,
    step: Step<E>,
)
    requires
        proposal_outcome(pre, remote_peer, outcome, post, step),
    ensures
        step.reports@.len() == 0,
        outcome is Ok ==> {
            &&& post.remote_peer == Some(remote_peer)
            &&& post.peer_service == ServiceId::Peer(remote_peer)
            &&& pre == (Runtime {
                remote_peer: pre.remote_peer,
                peer_service: pre.peer_service,
                ..post
            })
            &&& step.next == Next::<E>::Done(Ok(Output::Nothing))
        },
        outcome matches Err(error) ==> post == pre && step.next == Next::<E>::Done(
            Err(Error::Service(error)),
        ),
{
}

/// Only a request that was processed gives the channel its peer. One that was not is no
/// failure, and changes nothing; one that failed ends with its failure, and changes nothing.
pub proof fn only_a_processed_request_gives_the_peer<E>(
    pre: Runtime,
    remote_peer: NodeAddr,
    outcome: Result<bool, E>,
    post: Runtime,
    step: Step<E>,
)
    requires
        processing_outcome(pre, remote_peer, outcome, post, step),
    ensures
        step.reports@.len() == 0,
        outcome == Ok::<bool, E>(true) ==> {
            &&& post.remote_peer == Some(remote_peer)
            &&& post.peer_service == ServiceId::Peer(remote_peer)
            &&& pre == (Runtime {
                remote_peer: pre.remote_peer,
                peer_service: pre.peer_service,
                ..post
            })
        },
        outcome != Ok::<bool, E>(true) ==> post == pre,
        outcome is Ok ==> step.next == Next::<E>::Done(Ok(Output::Nothing)),
        outcome matches Err(error) ==> step.next == Next::<E>::Done(Err(Error::Service(error))),
{
}

/// A bare id update logs the new id, tells it to `lnpd`, and waits for nothing but that both
/// daemons are told.
pub proof fn id_update_begins_with_lnpd<E>(pre: Runtime, post: Runtime, step: Step<E>)
    requires
        id_update_begun(pre, post, step),
    ensures
        id_of_output(
            post.channel_id.bytes@,
            pre.funding_outpoint.txid.bytes@,
            pre.funding_outpoint.vout,
        ),
        pre == (Runtime { channel_id: pre.channel_id, ..post }),
        step.reports@ == seq![
            Report {
                recipient: Recipient::Log,
                notice: Notice::UpdatingChannelId(post.channel_id),
            },
        ],
        tells_id(step.next, pre.identity, ServiceId::Lnpd, post.channel_id),
        step.next->stage == SendStage::LnpdNotified(None),
{
    lemma_id_of_output(post.channel_id, pre.funding_outpoint);
}

/// Drawing the consequences of the outpoint that a channel has begins in the same way, and
/// asks for no signature either.
pub proof fn funding_update_begins_with_lnpd<E>(pre: Runtime, post: Runtime, step: Step<E>)
    requires
        funding_update_begun(pre, post, step),
    ensures
        id_of_output(
            post.channel_id.bytes@,
            pre.funding_outpoint.txid.bytes@,
            pre.funding_outpoint.vout,
        ),
        post.funding_outpoint == pre.funding_outpoint,
        post.state == pre.state,
        step.reports@.len() == 3,
        factor_comes_from(
            step.reports@[0],
            pre.is_originator,
            pre.local_keys.payment_basepoint@,
            pre.remote_keys.payment_basepoint@,
            post.obscuring_factor,
        ),
        tells_id(step.next, pre.identity, ServiceId::Lnpd, post.channel_id),
        step.next->stage == SendStage::LnpdNotified(None),
{
    lemma_id_of_output(post.channel_id, pre.funding_outpoint);
    obscuring_factor_is_the_end_of_the_digest(pre, post, Seq::empty(), step.reports@);
}

/// A line of the log gives a digest of two basepoints, that of the proposer first, and `factor`
/// is the number in its last eight bytes.
pub open spec fn factor_comes_from(
    report: Report,
    is_originator: bool,
    local: Seq<u8>,
    remote: Seq<u8>,
    factor: u64,
) -> bool {
    report.notice matches Notice::ObscuringHash(hash) && {
        &&& hash@ == sha256_digest(
            if is_originator {
                local + remote
            } else {
                remote + local
            },
        )
        &&& factor == 0x100_0000_0000_0000 * hash@[24] + 0x1_0000_0000_0000 * hash@[25]
            + 0x100_0000_0000 * hash@[26] + 0x1_0000_0000 * hash@[27] + 0x100_0000 * hash@[28]
            + 0x1_0000 * hash@[29] + 0x100 * hash@[30] + hash@[31]
    }
}

/// Funding from the local node begins with the outpoint, its id and the factor of both
/// basepoints in place, and with `lnpd` to be told; the state of the channel is as it was.
pub proof fn local_funding_begins<E>(
    pre: Runtime,
    outpoint: OutPoint,
    post: Runtime,
    step: Step<E>,
)
    requires
        local_funding_begun(pre, outpoint, post, step),
    ensures
        post.funding_outpoint == outpoint,
        post.state == pre.state,
        post.commitment_number == 0,
        id_of_output(post.channel_id.bytes@, outpoint.txid.bytes@, outpoint.vout),
        pre == (Runtime {
            funding_outpoint: pre.funding_outpoint,
            channel_id: pre.channel_id,
            commitment_number: pre.commitment_number,
            obscuring_factor: pre.obscuring_factor,
            ..post
        }),
        step.reports@.len() == 5,
        step.reports@[0] == (Report {
            recipient: Recipient::Log,
            notice: Notice::FundingStarted(pre.temporary_channel_id),
        }),
        step.reports@[1] == (Report {
            recipient: Recipient::Progress(pre.enquirer),
            notice: Notice::FundingChannel(pre.temporary_channel_id),
        }),
        factor_comes_from(
            step.reports@[2],
            pre.is_originator,
            pre.local_keys.payment_basepoint@,
            pre.remote_keys.payment_basepoint@,
            post.obscuring_factor,
        ),
        tells_id(step.next, pre.identity, ServiceId::Lnpd, post.channel_id),
        step.next->stage == SendStage::LnpdNotified(Some(FundingStep::FundChannel)),
{
    lemma_id_of_output(post.channel_id, outpoint);
    obscuring_factor_is_the_end_of_the_digest(
        Runtime { funding_outpoint: outpoint, ..pre },
        post,
        pre.local_funding_reports(),
        step.reports@,
    );
}

/// Funding by the peer, asked for directly, begins in the same way with the output that the
/// peer names.
pub proof fn peer_funding_begins<E>(
    pre: Runtime,
    created: FundingCreated,
    post: Runtime,
    step: Step<E>,
)
    requires
        peer_funding_begun(pre, created, post, step),
    ensures
        post.funding_outpoint.txid == created.funding_txid,
        post.funding_outpoint.vout == created.funding_output_index,
        post.state == pre.state,
        post.commitment_number == 0,
        id_of_output(
            post.channel_id.bytes@,
            created.funding_txid.bytes@,
            created.funding_output_index as u32,
        ),
        pre == (Runtime {
            funding_outpoint: pre.funding_outpoint,
            channel_id: pre.channel_id,
            commitment_number: pre.commitment_number,
            obscuring_factor: pre.obscuring_factor,
            ..post
        }),
        step.reports@.len() == 5,
        step.reports@[0] == (Report {
            recipient: Recipient::Log,
            notice: Notice::PeerFundingStarted(pre.temporary_channel_id),
        }),
        step.reports@[1] == (Report {
            recipient: Recipient::Progress(pre.enquirer),
            notice: Notice::AcceptingFunding(pre.temporary_channel_id),
        }),
        factor_comes_from(
            step.reports@[2],
            pre.is_originator,
            pre.local_keys.payment_basepoint@,
            pre.remote_keys.payment_basepoint@,
            post.obscuring_factor,
        ),
        tells_id(step.next, pre.identity, ServiceId::Lnpd, post.channel_id),
        step.next->stage == SendStage::LnpdNotified(Some(FundingStep::FundingCreated)),
{
    lemma_id_of_output(post.channel_id, outpoint_of(created));
    obscuring_factor_is_the_end_of_the_digest(
        Runtime { funding_outpoint: outpoint_of(created), ..pre },
        post,
        pre.peer_funding_reports(),
        step.reports@,
    );
}

/// A `funding_created` message of the peer takes its factor from both basepoints in the same
/// way, and waits for the signature of an answer that is sent.
pub proof fn funding_message_begins<E>(
    pre: Runtime,
    remote_peer: NodeAddr,
    created: FundingCreated,
    post: Runtime,
    step: Step<E>,
)
    requires
        p2p_handled(pre, remote_peer, Messages::FundingCreated(created), post, step),
    ensures
        step.reports@.len() == 5,
        factor_comes_from(
            step.reports@[2],
            pre.is_originator,
            pre.local_keys.payment_basepoint@,
            pre.remote_keys.payment_basepoint@,
            post.obscuring_factor,
        ),
        tells_id(step.next, pre.identity, ServiceId::Lnpd, post.channel_id),
        step.next->stage == SendStage::LnpdNotified(Some(FundingStep::PeerFundingCreated)),
{
    obscuring_factor_is_the_end_of_the_digest(
        Runtime {
            state: Lifecycle::Funding,
            funding_outpoint: outpoint_of(created),
            ..pre
        },
        post,
        pre.peer_funding_reports(),
        step.reports@,
    );
}

/// The one who follows the channel is told that a proposal is accepted, by the temporary id of
/// the proposal and the daemon through which it came.
pub proof fn acceptance_is_announced(
    pre: Runtime,
    proposal: OpenChannel,
    peerd: ServiceId,
    post: Runtime,
    report: Report,
    accept: AcceptChannel,
)
    requires
        proposal_answered(pre, proposal, peerd, post, report, accept),
    ensures
        report == (Report {
            recipient: Recipient::Progress(pre.enquirer),
            notice: Notice::AcceptingChannel {
                temporary_channel_id: proposal.temporary_channel_id,
                peer: peerd,
            },
        }),
        accept.temporary_channel_id == proposal.temporary_channel_id,
        post.remote_keys.funding_pubkey == proposal.funding_pubkey,
        post.enquirer == pre.enquirer,
{
}

/// What is said of an accepted channel, through whatever daemon it was accepted.
pub proof fn acceptance_is_said(runtime: Runtime, accept: AcceptChannel, peerd: ServiceId)
    ensures
        runtime.acceptance_reports(accept, peerd) == seq![
            Report {
                recipient: Recipient::Log,
                notice: Notice::ChannelAccepted {
                    temporary_channel_id: accept.temporary_channel_id,
                    peer: peerd,
                },
            },
            Report {
                recipient: Recipient::Progress(runtime.enquirer),
                notice: Notice::AcceptedByPeer,
            },
            Report {
                recipient: Recipient::Log,
                notice: Notice::VerifyingParams(accept.temporary_channel_id),
            },
            Report {
                recipient: Recipient::Success(runtime.enquirer),
                notice: Notice::ReadyForFunding(accept.temporary_channel_id),
            },
        ],
{
}

/// Taking note of an acceptance keeps each key and each term of the message under its own name
/// as those of the peer, and touches nothing else.
pub proof fn noted_acceptance_keeps_each_field(pre: Runtime, accept: AcceptChannel, post: Runtime)
    requires
        acceptance_noted(pre, accept, post),
    ensures
        post.remote_params.dust_limit_satoshis == accept.dust_limit_satoshis,
        post.remote_params.to_self_delay == accept.to_self_delay,
        post.remote_params.htlc_minimum_msat == accept.htlc_minimum_msat,
        post.remote_params.max_htlc_value_in_flight_msat == accept.max_htlc_value_in_flight_msat,
        post.remote_params.channel_reserve_satoshis == accept.channel_reserve_satoshis,
        post.remote_params.max_accepted_htlcs == accept.max_accepted_htlcs,
        post.remote_keys.funding_pubkey == accept.funding_pubkey,
        post.remote_keys.revocation_basepoint == accept.revocation_basepoint,
        post.remote_keys.payment_basepoint == accept.payment_point,
        post.remote_keys.delayed_payment_basepoint == accept.delayed_payment_basepoint,
        post.remote_keys.htlc_basepoint == accept.htlc_basepoint,
        post.remote_keys.first_per_commitment_point == accept.first_per_commitment_point,
        script_kept(post.remote_keys.shutdown_scriptpubkey, accept.shutdown_scriptpubkey),
        pre == (Runtime {
            remote_params: pre.remote_params,
            remote_keys: pre.remote_keys,
            ..post
        }),
{
}

/// A signature is carried into the message that it is for, with the ids of the channel as they
/// are; a message for the peer that waits is sent, and others are handed back.
pub proof fn signature_goes_into_the_message<E>(
    runtime: Runtime,
    funding: FundingStep,
    signature: Signature,
    step: Step<E>,
)
    requires
        funding_signed(runtime, funding, signature, step),
    ensures
        funding == FundingStep::FundChannel ==> (step.next matches Next::Done(
            Ok(Output::FundingCreated(message)),
        ) && {
            &&& message.signature == signature
            &&& message.temporary_channel_id == runtime.temporary_channel_id
            &&& message.funding_txid == runtime.funding_outpoint.txid
            &&& message.funding_output_index == runtime.funding_outpoint.vout % 0x10000
        }),
        funding == FundingStep::FundingCreated ==> step.next == Next::<E>::Done(
            Ok(
                Output::FundingSigned(
                    FundingSigned { channel_id: runtime.channel_id, signature },
                ),
            ),
        ),
        funding == FundingStep::PeerFundingCreated ==> step.next == (Next::<E>::Send {
            envelope: Envelope {
                bus: ServiceBus::Msg,
                source: runtime.identity,
                dest: runtime.peer_service,
                message: BusMsg::Ln(
                    Messages::FundingSigned(
                        FundingSigned { channel_id: runtime.channel_id, signature },
                    ),
                ),
            },
            stage: SendStage::FundingSignedSent,
        }),
{
}

} // verus!
