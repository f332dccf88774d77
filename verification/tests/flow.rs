use internet2::{LocalSocketAddr, NodeAddr};
use lnp_channel::bus::{
    AcceptChannelFrom, BusMsg, CtlMsg, Envelope, Error, FundingStep, Next, OpenChannelWith, Output,
    SendStage, ServiceBus, ServiceId, Step,
};
use lnp_channel::funding::Chain;
use lnp_channel::ids::{ChannelId, OutPoint, TempChannelId, Txid};
use lnp_channel::keys::{PublicKey, Signature};
use lnp_channel::messages::{
    AcceptChannel, ChannelType, FundingCreated, FundingLocked, FundingSigned, Messages,
    OpenChannel, Tlv,
};
use lnp_channel::notices::{Notice, Recipient, Report};
use lnp_channel::params::{Keyset, PeerParams};
use lnp_channel::runtime::{ChannelAmounts, Lifecycle, Runtime};

fn unhex(text: &str) -> Vec<u8> {
    (0..text.len() / 2)
        .map(|i| u8::from_str_radix(&text[2 * i..2 * i + 2], 16).unwrap())
        .collect()
}

fn key(text: &str) -> PublicKey {
    let mut bytes = [0u8; 33];
    bytes.copy_from_slice(&unhex(text));
    PublicKey::from_compressed(bytes).unwrap()
}

const FUNDING: &str = "030e9f7b623d2ccc7c9bd44d66d5ce21ce504c0acf6385a132cec6d3c39fa711c1";
const OPENER: &str = "034f355bdcb7cc0af728ef3cceb9615d90684bb5b2ca5f859ab0f0b704075871aa";
const ACCEPTER: &str = "032c0b7cf95324a07d05398b240174dc0c2be444d96b159aa6c7f7b1e668680991";
const OTHER: &str = "023da092f6980e58d2c037173180e9a465476026ee50f96695963e8efe436f54eb";

fn peer() -> NodeAddr {
    NodeAddr::Local(LocalSocketAddr::Posix("peer".to_string()))
}

fn runtime() -> Runtime {
    let mut runtime = Runtime::new(Chain::Testnet3, ChannelId { bytes: [0x42; 32] });
    runtime.enquirer = Some(ServiceId::Client(5));
    runtime.peer_service = ServiceId::Peer(peer());
    runtime
}

fn progress(notice: Notice) -> Report {
    Report { recipient: Recipient::Progress(Some(ServiceId::Client(5))), notice }
}

fn success(notice: Notice) -> Report {
    Report { recipient: Recipient::Success(Some(ServiceId::Client(5))), notice }
}

fn log(notice: Notice) -> Report {
    Report { recipient: Recipient::Log, notice }
}

/// The digest of the generator, twice.
const DUMB_HASH: &str = "fe70a2fd2cd74e4622f9b52c09ba3d644ef9dfd3e716ecb6de101c10b9e103f9";

fn hash(text: &str) -> Report {
    let mut bytes = [0u8; 32];
    bytes.copy_from_slice(&unhex(text));
    log(Notice::ObscuringHash(bytes))
}

fn done() -> Next<u8> {
    Next::Done(Ok(Output::Nothing))
}

fn ctl(dest: ServiceId, message: CtlMsg) -> Envelope {
    Envelope {
        bus: ServiceBus::Ctl,
        source: ServiceId::Channel(ChannelId { bytes: [0x42; 32] }),
        dest,
        message: BusMsg::Ctl(message),
    }
}

fn p2p(message: Messages) -> Envelope {
    Envelope {
        bus: ServiceBus::Msg,
        source: ServiceId::Channel(ChannelId { bytes: [0x42; 32] }),
        dest: ServiceId::Peer(peer()),
        message: BusMsg::Ln(message),
    }
}

fn temp() -> TempChannelId {
    TempChannelId { bytes: [0x42; 32] }
}

fn signature() -> Signature {
    Signature { bytes: [9; 64] }
}

fn outpoint() -> OutPoint {
    OutPoint { txid: Txid { bytes: [0x10; 32] }, vout: 0x0203 }
}

fn funded_id() -> ChannelId {
    let mut bytes = [0x10; 32];
    bytes[30] = 0x12;
    bytes[31] = 0x13;
    ChannelId { bytes }
}

fn open_channel() -> OpenChannel {
    OpenChannel {
        chain_hash: [1; 32],
        temporary_channel_id: TempChannelId { bytes: [0x77; 32] },
        funding_satoshis: 100_000,
        push_msat: 7,
        dust_limit_satoshis: 546,
        max_htlc_value_in_flight_msat: 1_000,
        channel_reserve_satoshis: 2_000,
        htlc_minimum_msat: 3,
        feerate_per_kw: 253,
        to_self_delay: 144,
        max_accepted_htlcs: 30,
        funding_pubkey: key(FUNDING),
        revocation_basepoint: key(OTHER),
        payment_point: key(OPENER),
        delayed_payment_basepoint: key(OTHER),
        htlc_basepoint: key(OTHER),
        first_per_commitment_point: key(OTHER),
        channel_flags: 1,
        shutdown_scriptpubkey: Some(vec![0x6a]),
        channel_type: Some(ChannelType::StaticRemotekey),
        unknown_tlvs: vec![Tlv { kind: 9, value: vec![1, 2] }],
    }
}

fn accept_channel() -> AcceptChannel {
    AcceptChannel {
        temporary_channel_id: TempChannelId { bytes: [0x77; 32] },
        dust_limit_satoshis: 600,
        max_htlc_value_in_flight_msat: 1_100,
        channel_reserve_satoshis: 2_200,
        htlc_minimum_msat: 4,
        minimum_depth: 6,
        to_self_delay: 145,
        max_accepted_htlcs: 31,
        funding_pubkey: key(FUNDING),
        revocation_basepoint: key(OTHER),
        payment_point: key(ACCEPTER),
        delayed_payment_basepoint: key(OTHER),
        htlc_basepoint: key(OTHER),
        first_per_commitment_point: key(OPENER),
        shutdown_scriptpubkey: Some(vec![0x51, 0x52]),
        channel_type: Some(ChannelType::AnchorOutputsStaticRemotekey),
        unknown_tlvs: vec![],
    }
}

fn stage(step: &Step<u8>) -> SendStage {
    match &step.next {
        Next::Send { stage, .. } => *stage,
        other => panic!("nothing to send: {:?}", other),
    }
}

#[test]
fn new_daemon_knows_nothing() {
    let runtime = Runtime::new(Chain::Signet, ChannelId { bytes: [3; 32] });
    assert_eq!(runtime.identity(), ServiceId::Channel(ChannelId { bytes: [3; 32] }));
    assert_eq!(runtime.peer_service, ServiceId::Loopback);
    assert_eq!(runtime.chain, Chain::Signet);
    assert_eq!(runtime.channel_id, ChannelId { bytes: [0; 32] });
    assert_eq!(runtime.temporary_channel_id, TempChannelId { bytes: [3; 32] });
    assert_eq!(runtime.state, Lifecycle::Initial);
    assert_eq!(runtime.channel_capacity(), 0);
    assert_eq!(runtime.funding_outpoint, OutPoint::null());
    assert_eq!(runtime.remote_peer, None);
    assert_eq!(runtime.commitment_number, 0);
    assert_eq!(runtime.total_payments, 0);
    assert_eq!(runtime.pending_payments, 0);
    assert_eq!(runtime.local_keys, Keyset::dumb());
    assert_eq!(runtime.remote_keys.funding_pubkey, PublicKey::dumb());
    assert_eq!(runtime.remote_params, PeerParams::default());
    assert_eq!(runtime.is_originator, false);
    assert_eq!(runtime.obscuring_factor, 0);
    assert_eq!(runtime.enquirer(), None);
}

#[test]
fn default_terms_are_those_of_the_protocol_library() {
    let ours = PeerParams::default();
    let known = lnp::channel::bolt::PeerParams::default();
    assert_eq!(ours.dust_limit_satoshis, known.dust_limit_satoshis);
    assert_eq!(ours.to_self_delay, known.to_self_delay);
    assert_eq!(ours.htlc_minimum_msat, known.htlc_minimum_msat);
    assert_eq!(ours.max_htlc_value_in_flight_msat, known.max_htlc_value_in_flight_msat);
    assert_eq!(ours.channel_reserve_satoshis, known.channel_reserve_satoshis);
    assert_eq!(ours.max_accepted_htlcs, known.max_accepted_htlcs);
}

#[test]
fn capacity_is_what_both_sides_hold() {
    let mut runtime = runtime();
    runtime.local_capacity = u64::MAX - 5;
    runtime.remote_capacity = 5;
    assert_eq!(runtime.channel_capacity(), u64::MAX);
}

#[test]
fn peer_messages_go_through_the_daemon_of_the_peer() {
    let message = Messages::Other(vec![1]);
    assert_eq!(runtime().send_p2p(message), p2p(Messages::Other(vec![1])));
}

#[test]
fn channel_id_update_is_announced_twice() {
    let mut runtime = runtime();
    runtime.funding_outpoint = outpoint();
    let step: Step<u8> = runtime.update_channel_id();
    assert_eq!(runtime.channel_id, funded_id());
    assert_eq!(runtime.obscuring_factor, 0);
    assert_eq!(step.reports, vec![log(Notice::UpdatingChannelId(funded_id()))]);
    assert_eq!(
        step.next,
        Next::Send {
            envelope: ctl(ServiceId::Lnpd, CtlMsg::UpdateChannelId(funded_id())),
            stage: SendStage::LnpdNotified(None),
        }
    );
    let step: Step<u8> = runtime.sent(stage(&step), Ok(()));
    assert_eq!(step.reports, vec![]);
    assert_eq!(
        step.next,
        Next::Send {
            envelope: ctl(ServiceId::Peer(peer()), CtlMsg::UpdateChannelId(funded_id())),
            stage: SendStage::PeerNotified(None),
        }
    );
    let step: Step<u8> = runtime.sent(stage(&step), Ok(()));
    assert_eq!(step.reports, vec![progress(Notice::ChannelIdSet(funded_id()))]);
    assert_eq!(step.next, done());
}

#[test]
fn failed_announcement_ends_the_update() {
    let mut runtime = runtime();
    runtime.funding_outpoint = outpoint();
    let step: Step<u8> = runtime.update_channel_id();
    let step: Step<u8> = runtime.sent(stage(&step), Err(77));
    assert_eq!(step.reports, vec![]);
    assert_eq!(step.next, Next::Done(Err(Error::Service(77))));
    assert_eq!(runtime.channel_id, funded_id());
}

#[test]
fn obscuring_factor_of_the_known_keys() {
    let mut opener = runtime();
    opener.is_originator = true;
    opener.commitment_number = 8;
    opener.local_keys.payment_basepoint = key(OPENER);
    opener.remote_keys.payment_basepoint = key(ACCEPTER);
    let step: Step<u8> = opener.funding_update();
    assert_eq!(opener.obscuring_factor, 0xf553_2bb0_3852_1914);
    assert_eq!(opener.commitment_number, 0);
    assert_eq!(
        step.reports,
        vec![
            hash("c8bfea84214b45899482a4bad1d85c42130743ed78ba3711f5532bb038521914"),
            log(Notice::ObscuringFactor(0xf553_2bb0_3852_1914)),
            log(Notice::UpdatingChannelId(opener.channel_id)),
        ]
    );
    assert_eq!(stage(&step), SendStage::LnpdNotified(None));

    let mut accepter = runtime();
    accepter.local_keys.payment_basepoint = key(ACCEPTER);
    accepter.remote_keys.payment_basepoint = key(OPENER);
    let _: Step<u8> = accepter.funding_update();
    assert_eq!(accepter.obscuring_factor, opener.obscuring_factor);

    accepter.is_originator = true;
    let _: Step<u8> = accepter.funding_update();
    assert_eq!(accepter.obscuring_factor, 0x2823_b9c5_70f0_81a9);
}

#[test]
fn local_funding_ends_with_the_message() {
    let mut runtime = runtime();
    let step: Step<u8> = runtime.fund_channel(outpoint());
    assert_eq!(
        step.reports,
        vec![
            log(Notice::FundingStarted(temp())),
            progress(Notice::FundingChannel(temp())),
            hash(DUMB_HASH),
            log(Notice::ObscuringFactor(0xde10_1c10_b9e1_03f9)),
            log(Notice::UpdatingChannelId(funded_id())),
        ]
    );
    assert_eq!(runtime.funding_outpoint, outpoint());
    assert_eq!(runtime.obscuring_factor, 0xde10_1c10_b9e1_03f9);
    let step: Step<u8> = runtime.sent(stage(&step), Ok(()));
    let step: Step<u8> = runtime.sent(stage(&step), Ok(()));
    assert_eq!(step.next, Next::Sign { step: FundingStep::FundChannel });
    let step: Step<u8> = runtime.funding_signature(FundingStep::FundChannel, signature());
    let message = FundingCreated {
        temporary_channel_id: temp(),
        funding_txid: outpoint().txid,
        funding_output_index: 0x0203,
        signature: signature(),
    };
    assert_eq!(
        step.reports,
        vec![
            log(Notice::PreparedFundingCreated(message)),
            progress(Notice::FundingCreated(funded_id())),
        ]
    );
    assert_eq!(step.next, Next::Done(Ok(Output::FundingCreated(message))));
    assert_eq!(runtime.state, Lifecycle::Initial);
}

fn created(index: u16) -> FundingCreated {
    FundingCreated {
        temporary_channel_id: temp(),
        funding_txid: outpoint().txid,
        funding_output_index: index,
        signature: Signature { bytes: [1; 64] },
    }
}

#[test]
fn peer_funding_ends_with_the_answer() {
    let mut runtime = runtime();
    let step: Step<u8> = runtime.funding_created(created(0x0203));
    assert_eq!(
        step.reports,
        vec![
            log(Notice::PeerFundingStarted(temp())),
            progress(Notice::AcceptingFunding(temp())),
            hash(DUMB_HASH),
            log(Notice::ObscuringFactor(0xde10_1c10_b9e1_03f9)),
            log(Notice::UpdatingChannelId(funded_id())),
        ]
    );
    assert_eq!(stage(&step), SendStage::LnpdNotified(Some(FundingStep::FundingCreated)));
    assert_eq!(runtime.funding_outpoint, outpoint());
    let step: Step<u8> = runtime.funding_signature(FundingStep::FundingCreated, signature());
    let message = FundingSigned { channel_id: funded_id(), signature: signature() };
    assert_eq!(
        step.reports,
        vec![
            log(Notice::PreparedFundingSigned(message)),
            progress(Notice::FundingSigned(funded_id())),
        ]
    );
    assert_eq!(step.next, Next::Done(Ok(Output::FundingSigned(message))));
}

#[test]
fn peer_funding_message_is_answered_and_then_funded() {
    let mut runtime = runtime();
    let message = Messages::FundingCreated(created(0x0203));
    let step: Step<u8> = runtime.handle_p2p(peer(), message);
    assert_eq!(runtime.state, Lifecycle::Funding);
    let step: Step<u8> = runtime.sent(stage(&step), Ok(()));
    let step: Step<u8> = runtime.sent(stage(&step), Ok(()));
    assert_eq!(step.reports, vec![progress(Notice::ChannelIdSet(funded_id()))]);
    assert_eq!(step.next, Next::Sign { step: FundingStep::PeerFundingCreated });
    let step: Step<u8> =
        runtime.funding_signature(FundingStep::PeerFundingCreated, signature());
    let answer = FundingSigned { channel_id: funded_id(), signature: signature() };
    assert_eq!(
        step.next,
        Next::Send {
            envelope: p2p(Messages::FundingSigned(answer)),
            stage: SendStage::FundingSignedSent,
        }
    );
    assert_eq!(runtime.state, Lifecycle::Funding);
    let step: Step<u8> = runtime.sent(stage(&step), Ok(()));
    assert_eq!(step.reports, vec![progress(Notice::ChannelFunded)]);
    assert_eq!(step.next, done());
    assert_eq!(runtime.state, Lifecycle::Funded);
}

#[test]
fn unsent_answer_leaves_the_channel_being_funded() {
    let mut runtime = runtime();
    let _: Step<u8> = runtime.handle_p2p(peer(), Messages::FundingCreated(created(1)));
    let step: Step<u8> = runtime.sent(SendStage::FundingSignedSent, Err(3));
    assert_eq!(step.next, Next::Done(Err(Error::Service(3))));
    assert_eq!(step.reports, vec![]);
    assert_eq!(runtime.state, Lifecycle::Funding);
}

#[test]
fn both_ends_have_one_channel_id() {
    let wide = OutPoint { txid: outpoint().txid, vout: 0x7_0203 };
    let mut funder = runtime();
    let _: Step<u8> = funder.fund_channel(wide);
    let step: Step<u8> = funder.funding_signature(FundingStep::FundChannel, signature());
    let message = match step.next {
        Next::Done(Ok(Output::FundingCreated(message))) => message,
        other => panic!("{:?}", other),
    };
    let mut fundee = runtime();
    let _: Step<u8> = fundee.funding_created(message);
    assert_eq!(funder.channel_id, fundee.channel_id);
    assert_eq!(fundee.funding_outpoint.vout, 0x0203);
}

#[test]
fn signed_then_locked_is_active() {
    let mut runtime = runtime();
    runtime.channel_id = funded_id();
    runtime.local_keys.first_per_commitment_point = key(OPENER);
    runtime.channel = ChannelAmounts { local_amount: 30, remote_amount: 12 };
    let message =
        Messages::FundingSigned(FundingSigned { channel_id: funded_id(), signature: signature() });
    let step: Step<u8> = runtime.handle_p2p(peer(), message);
    assert_eq!(runtime.state, Lifecycle::Funded);
    assert_eq!(step.reports, vec![progress(Notice::ChannelFunded)]);
    let locked =
        FundingLocked { channel_id: funded_id(), next_per_commitment_point: key(OPENER) };
    assert_eq!(
        step.next,
        Next::Send {
            envelope: p2p(Messages::FundingLocked(locked)),
            stage: SendStage::FundingLockedSent,
        }
    );
    assert_eq!(runtime.local_capacity, 0);
    let step: Step<u8> = runtime.sent(stage(&step), Ok(()));
    assert_eq!(runtime.state, Lifecycle::Active);
    assert_eq!(step.reports, vec![success(Notice::ChannelActive)]);
    assert_eq!(step.next, done());
    assert_eq!(runtime.channel_capacity(), 30);
    let step: Step<u8> = runtime.handle_p2p(peer(), Messages::FundingLocked(locked));
    assert_eq!(step.reports, vec![success(Notice::ChannelActive)]);
    assert_eq!(step.next, done());
    assert_eq!(runtime.state, Lifecycle::Active);
    assert_eq!(runtime.channel_capacity(), 42);
}

#[test]
fn locked_then_signed_is_active() {
    let mut runtime = runtime();
    runtime.channel = ChannelAmounts { local_amount: 1, remote_amount: 2 };
    let locked =
        FundingLocked { channel_id: funded_id(), next_per_commitment_point: key(OPENER) };
    let _: Step<u8> = runtime.handle_p2p(peer(), Messages::FundingLocked(locked));
    let signed = FundingSigned { channel_id: funded_id(), signature: signature() };
    let step: Step<u8> = runtime.handle_p2p(peer(), Messages::FundingSigned(signed));
    let _: Step<u8> = runtime.sent(stage(&step), Ok(()));
    assert_eq!(runtime.state, Lifecycle::Active);
    assert_eq!(runtime.channel_capacity(), 3);
}

#[test]
fn channel_is_accepted_on_the_terms_of_the_proposal() {
    let mut runtime = runtime();
    runtime.is_originator = true;
    let proposal = open_channel();
    let (report, message) = runtime.accept_channel(&proposal, &ServiceId::Peer(peer()));
    assert_eq!(
        report,
        progress(Notice::AcceptingChannel {
            temporary_channel_id: proposal.temporary_channel_id,
            peer: ServiceId::Peer(peer()),
        })
    );
    let dumb = PublicKey::dumb();
    assert_eq!(
        message,
        AcceptChannel {
            temporary_channel_id: proposal.temporary_channel_id,
            dust_limit_satoshis: 546,
            max_htlc_value_in_flight_msat: 1_000,
            channel_reserve_satoshis: 2_000,
            htlc_minimum_msat: 3,
            minimum_depth: 3,
            to_self_delay: 144,
            max_accepted_htlcs: 30,
            funding_pubkey: dumb,
            revocation_basepoint: dumb,
            payment_point: dumb,
            delayed_payment_basepoint: dumb,
            htlc_basepoint: dumb,
            first_per_commitment_point: dumb,
            shutdown_scriptpubkey: None,
            channel_type: None,
            unknown_tlvs: vec![],
        }
    );
    assert_eq!(runtime.is_originator, false);
    assert_eq!(runtime.local_params, PeerParams::of_open_channel(&proposal));
    assert_eq!(runtime.local_params.to_self_delay, 144);
    assert_eq!(runtime.remote_params, PeerParams::default());
    assert_eq!(runtime.local_keys, Keyset::dumb());
    assert_eq!(runtime.remote_keys.payment_basepoint, key(OPENER));
    assert_eq!(runtime.remote_keys.funding_pubkey, key(FUNDING));
    assert_eq!(runtime.remote_keys.shutdown_scriptpubkey, Some(vec![0x6a]));
    assert_eq!(runtime.remote_keys.static_remotekey, false);
}

#[test]
fn acceptance_is_noted_and_the_address_logged() {
    let mut runtime = runtime();
    let accept = accept_channel();
    let step: Step<u8> = runtime.handle_p2p(peer(), Messages::AcceptChannel(accept_channel()));
    assert_eq!(runtime.state, Lifecycle::Accepted);
    assert_eq!(
        step.reports,
        vec![
            log(Notice::ChannelAccepted {
                temporary_channel_id: accept.temporary_channel_id,
                peer: ServiceId::Peer(peer()),
            }),
            progress(Notice::AcceptedByPeer),
            log(Notice::VerifyingParams(accept.temporary_channel_id)),
            success(Notice::ReadyForFunding(accept.temporary_channel_id)),
            log(Notice::GeneratingScript { local: PublicKey::dumb(), remote: key(FUNDING) }),
            log(Notice::FundingScript(unhex(
                "0020499a3da3fcae28e02bbb614ce81ba7d0beb19807665c8de613d379df5abf2fea"
            ))),
            log(Notice::FundingAddress(
                "tb1qfxdrmglu4c5wq2amv9xwsxa86zltrxq8vewgmesn6dua7k4l9l4q5ynnu8".to_string()
            )),
        ]
    );
    assert_eq!(step.next, done());
    assert_eq!(runtime.remote_params, PeerParams::of_accept_channel(&accept));
    assert_eq!(runtime.remote_params.channel_reserve_satoshis, 2_200);
    assert_eq!(runtime.remote_keys.payment_basepoint, key(ACCEPTER));
    assert_eq!(runtime.remote_keys.shutdown_scriptpubkey, Some(vec![0x51, 0x52]));
    assert_eq!(runtime.remote_keys.static_remotekey, true);
    assert_eq!(runtime.local_params, PeerParams::default());
}

#[test]
fn acceptance_without_a_network_is_logged() {
    let mut runtime = runtime();
    runtime.chain = Chain::LiquidV1;
    let step: Step<u8> = runtime.handle_p2p(peer(), Messages::AcceptChannel(accept_channel()));
    assert_eq!(step.reports.len(), 7);
    assert_eq!(step.reports[6], log(Notice::NoFundingAddress));
    assert_eq!(runtime.state, Lifecycle::Accepted);
}

#[test]
fn basic_channels_have_no_static_key() {
    let mut accept = accept_channel();
    accept.channel_type = Some(ChannelType::Basic);
    assert_eq!(Keyset::of_accept_channel(&accept).static_remotekey, false);
    accept.channel_type = None;
    assert_eq!(Keyset::of_accept_channel(&accept).static_remotekey, false);
    accept.channel_type = Some(ChannelType::AnchorsZeroFeeHtlcTxStaticRemotekey);
    assert_eq!(Keyset::of_accept_channel(&accept).static_remotekey, true);
}

#[test]
fn repeated_proposal_is_only_logged() {
    let mut runtime = runtime();
    let step: Step<u8> = runtime.handle_p2p(peer(), Messages::OpenChannel(open_channel()));
    assert_eq!(step.reports, vec![log(Notice::UnexpectedOpenChannel(peer()))]);
    assert_eq!(step.next, done());
    assert_eq!(runtime.state, Lifecycle::Initial);
}

#[test]
fn other_peer_messages_are_ignored() {
    let messages = vec![
        Messages::UpdateAddHtlc(vec![1]),
        Messages::CommitmentSigned(vec![2]),
        Messages::RevokeAndAck(vec![3]),
        Messages::Other(vec![4]),
    ];
    for message in messages {
        let mut runtime = runtime();
        let step: Step<u8> = runtime.handle_p2p(peer(), message);
        assert_eq!(step.reports, vec![]);
        assert_eq!(step.next, done());
        assert_eq!(runtime.state, Lifecycle::Initial);
    }
}

fn proposal() -> OpenChannelWith {
    OpenChannelWith {
        remote_peer: peer(),
        report_to: Some(ServiceId::Client(8)),
        terms: vec![1, 2, 3],
    }
}

#[test]
fn proposed_channel_learns_its_peer() {
    let mut runtime = Runtime::new(Chain::Testnet3, ChannelId { bytes: [0x42; 32] });
    let step: Step<u8> =
        runtime.handle_ctl(ServiceId::Lnpd, CtlMsg::OpenChannelWith(proposal()));
    assert_eq!(runtime.enquirer(), Some(ServiceId::Client(8)));
    assert_eq!(step.reports, vec![]);
    assert_eq!(step.next, Next::Propose { proposal: proposal(), remote_peer: peer() });
    assert_eq!(runtime.remote_peer, None);
    let step: Step<u8> = runtime.channel_proposed(peer(), Ok(()));
    assert_eq!(step.next, done());
    assert_eq!(runtime.remote_peer, Some(peer()));
    assert_eq!(runtime.peer_service, ServiceId::Peer(peer()));
}

#[test]
fn failed_proposal_leaves_the_peer_unknown() {
    let mut runtime = Runtime::new(Chain::Testnet3, ChannelId { bytes: [0x42; 32] });
    let _: Step<u8> = runtime.handle_ctl(ServiceId::Lnpd, CtlMsg::OpenChannelWith(proposal()));
    let step: Step<u8> = runtime.channel_proposed(peer(), Err(4));
    assert_eq!(step.next, Next::Done(Err(Error::Service(4))));
    assert_eq!(runtime.remote_peer, None);
    assert_eq!(runtime.peer_service, ServiceId::Loopback);
    assert_eq!(runtime.enquirer(), Some(ServiceId::Client(8)));
}

fn acceptance() -> CtlMsg {
    CtlMsg::AcceptChannelFrom(AcceptChannelFrom {
        remote_peer: peer(),
        channel_req: open_channel(),
    })
}

#[test]
fn processed_request_gives_the_peer() {
    let mut runtime = runtime();
    runtime.peer_service = ServiceId::Loopback;
    let step: Step<u8> = runtime.handle_ctl(ServiceId::Lnpd, acceptance());
    assert_eq!(runtime.enquirer(), None);
    assert_eq!(
        step.next,
        Next::Process { source: ServiceId::Lnpd, request: acceptance(), remote_peer: peer() }
    );
    let step: Step<u8> = runtime.request_processed(peer(), Ok(false));
    assert_eq!(step.next, done());
    assert_eq!(runtime.remote_peer, None);
    let step: Step<u8> = runtime.request_processed(peer(), Err(1));
    assert_eq!(step.next, Next::Done(Err(Error::Service(1))));
    assert_eq!(runtime.remote_peer, None);
    assert_eq!(runtime.peer_service, ServiceId::Loopback);
    let step: Step<u8> = runtime.request_processed(peer(), Ok(true));
    assert_eq!(step.next, done());
    assert_eq!(runtime.remote_peer, Some(peer()));
    assert_eq!(runtime.peer_service, ServiceId::Peer(peer()));
}

#[test]
fn unknown_control_messages_are_refused() {
    let mut runtime = runtime();
    let step: Step<u8> = runtime.handle_ctl(ServiceId::Lnpd, CtlMsg::Other(vec![6]));
    assert_eq!(step.reports, vec![log(Notice::UnsupportedRequest)]);
    assert_eq!(
        step.next,
        Next::Done(Err(Error::WrongRpcMsg {
            bus: ServiceBus::Ctl,
            message: BusMsg::Ctl(CtlMsg::Other(vec![6])),
        }))
    );
    let step: Step<u8> =
        runtime.handle_ctl(ServiceId::Lnpd, CtlMsg::UpdateChannelId(funded_id()));
    assert_eq!(
        step.next,
        Next::Done(Err(Error::WrongRpcMsg {
            bus: ServiceBus::Ctl,
            message: BusMsg::Ctl(CtlMsg::UpdateChannelId(funded_id())),
        }))
    );
    assert_eq!(runtime.enquirer(), Some(ServiceId::Client(5)));
}

#[test]
fn messages_are_dispatched_by_their_bus() {
    let mut runtime = runtime();
    let step: Step<u8> = runtime.handle(
        ServiceBus::Msg,
        ServiceId::Peer(peer()),
        BusMsg::Ln(Messages::OpenChannel(open_channel())),
    );
    assert_eq!(step.reports, vec![log(Notice::UnexpectedOpenChannel(peer()))]);
    let step: Step<u8> =
        runtime.handle(ServiceBus::Ctl, ServiceId::Client(2), BusMsg::Ctl(acceptance()));
    assert_eq!(
        step.next,
        Next::Process { source: ServiceId::Client(2), request: acceptance(), remote_peer: peer() }
    );
}

#[test]
fn messages_on_the_wrong_bus_are_refused() {
    let cases = vec![
        (ServiceBus::Ctl, BusMsg::Ln(Messages::Other(vec![]))),
        (ServiceBus::Msg, BusMsg::Ctl(CtlMsg::Other(vec![]))),
        (ServiceBus::Msg, BusMsg::Rpc(vec![1])),
        (ServiceBus::Ctl, BusMsg::Rpc(vec![2])),
    ];
    for (bus, message) in cases {
        let mut runtime = runtime();
        let copy = message.clone();
        let step: Step<u8> = runtime.handle(bus, ServiceId::Lnpd, message);
        assert_eq!(step.reports, vec![]);
        assert_eq!(step.next, Next::Done(Err(Error::WrongRpcMsg { bus, message: copy })));
        assert_eq!(runtime.enquirer(), Some(ServiceId::Client(5)));
    }
}

#[test]
fn bus_failures_do_not_stop_the_daemon() {
    let mut runtime = runtime();
    assert_eq!(runtime.handle_err(12u8), Ok(()));
    assert_eq!(runtime.state, Lifecycle::Initial);
}

#[test]
fn funding_update_can_be_repeated() {
    let mut runtime = runtime();
    runtime.funding_outpoint = outpoint();
    let _: Step<u8> = runtime.funding_update();
    let (id, factor) = (runtime.channel_id, runtime.obscuring_factor);
    let _: Step<u8> = runtime.funding_update();
    assert_eq!((runtime.channel_id, runtime.obscuring_factor), (id, factor));
}

#[test]
fn both_ends_hold_each_other_s_keys() {
    let mut proposer = runtime();
    proposer.is_originator = true;
    proposer.local_keys = Keyset::of_open_channel(&open_channel());
    let mut acceptor = runtime();
    let (_, message) = acceptor.accept_channel(&open_channel(), &ServiceId::Peer(peer()));
    let step: Step<u8> = proposer.handle_p2p(peer(), Messages::AcceptChannel(message));
    assert_eq!(
        step.reports[6],
        log(Notice::FundingAddress(
            "tb1qfxdrmglu4c5wq2amv9xwsxa86zltrxq8vewgmesn6dua7k4l9l4q5ynnu8".to_string()
        ))
    );
    assert_eq!(proposer.remote_keys, acceptor.local_keys);
    assert_eq!(proposer.local_keys, acceptor.remote_keys);
    assert_eq!(proposer.remote_params, acceptor.local_params);
    let _: Step<u8> = proposer.fund_channel(outpoint());
    let _: Step<u8> = acceptor.funding_created(created(0x0203));
    assert_eq!(proposer.obscuring_factor, acceptor.obscuring_factor);
    assert_eq!(proposer.channel_id, acceptor.channel_id);
    assert_eq!(proposer.funding_outpoint, acceptor.funding_outpoint);
}

#[test]
fn acceptance_names_the_daemon_of_the_peer() {
    let mut runtime = runtime();
    let accept = accept_channel();
    let reports = runtime.channel_accepted(&accept, &ServiceId::Lnpd);
    assert_eq!(
        reports,
        vec![
            log(Notice::ChannelAccepted {
                temporary_channel_id: accept.temporary_channel_id,
                peer: ServiceId::Lnpd,
            }),
            progress(Notice::AcceptedByPeer),
            log(Notice::VerifyingParams(accept.temporary_channel_id)),
            success(Notice::ReadyForFunding(accept.temporary_channel_id)),
        ]
    );
    assert_eq!(runtime.state, Lifecycle::Initial);
}

#[test]
fn sender_is_only_logged() {
    let other = NodeAddr::Local(LocalSocketAddr::Posix("other".to_string()));
    let mut first = runtime();
    let mut second = runtime();
    let one: Step<u8> = first.handle(
        ServiceBus::Msg,
        ServiceId::Peer(peer()),
        BusMsg::Ln(Messages::AcceptChannel(accept_channel())),
    );
    let two: Step<u8> = second.handle(
        ServiceBus::Msg,
        ServiceId::Peer(other),
        BusMsg::Ln(Messages::AcceptChannel(accept_channel())),
    );
    assert_ne!(one.reports[0], two.reports[0]);
    assert_eq!(one.reports[0].recipient, Recipient::Log);
    assert_eq!(one.reports[1..], two.reports[1..]);
    assert_eq!(one.next, two.next);
    assert_eq!(format!("{:?}", first), format!("{:?}", second));
}

#[test]
fn dispatch_answers_as_the_handlers_do() {
    let locked =
        FundingLocked { channel_id: funded_id(), next_per_commitment_point: key(OPENER) };
    let mut first = runtime();
    let mut second = runtime();
    let one: Step<u8> = first.handle_p2p(peer(), Messages::FundingLocked(locked));
    let two: Step<u8> = second.handle(
        ServiceBus::Msg,
        ServiceId::Peer(peer()),
        BusMsg::Ln(Messages::FundingLocked(locked)),
    );
    assert_eq!(one, two);
    let one: Step<u8> = first.handle_ctl(ServiceId::Lnpd, acceptance());
    let two: Step<u8> =
        second.handle(ServiceBus::Ctl, ServiceId::Lnpd, BusMsg::Ctl(acceptance()));
    assert_eq!(one, two);
    assert_eq!(format!("{:?}", first), format!("{:?}", second));
}
