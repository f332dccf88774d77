use amplify::{Slice32, Wrapper};
use internet2::addr::InetSocketAddr;
use internet2::{LocalSocketAddr, NodeAddr, RemoteSocketAddr};
use lnp_channel::bus::ServiceId;
use lnp_channel::ids::{ChannelId, TempChannelId, Txid};
use lnp_channel::keys::{PublicKey, Signature};
use lnp_channel::messages::{FundingCreated, FundingSigned, Messages, OpenChannel};
use lnp_channel::notices::{Level, Notice};
use lnp_channel::request::{ChannelParams, Request};

fn bytes() -> [u8; 32] {
    let mut bytes = [0u8; 32];
    for i in 0..32 {
        bytes[i] = (i * 8 + i) as u8;
    }
    bytes
}

const FULL: &str = "0009121b242d363f48515a636c757e879099a2abb4bdc6cfd8e1eaf3fc050e17";

fn temp() -> TempChannelId {
    TempChannelId { bytes: bytes() }
}

fn id() -> ChannelId {
    ChannelId { bytes: bytes() }
}

#[test]
fn notices_name_the_whole_id() {
    assert_eq!(Notice::ChannelIdSet(id()).text(""), format!("Channel ID set to {}", FULL));
    assert_eq!(
        Notice::ChannelAccepted { temporary_channel_id: temp(), peer: ServiceId::Lnpd }
            .text("someone"),
        format!("Channel {} was accepted by the remote peer someone", FULL)
    );
    assert_eq!(
        Notice::VerifyingParams(temp()).text(""),
        format!("Verifying returned parameters for the channel {}", FULL)
    );
    assert_eq!(
        Notice::FundingStarted(temp()).text(""),
        format!("Funding channel {}", FULL)
    );
    assert_eq!(
        Notice::PeerFundingStarted(temp()).text(""),
        format!("Accepting channel funding {}", FULL)
    );
    assert_eq!(
        Notice::UpdatingChannelId(id()).text(""),
        format!("Updating channel id to {}", FULL)
    );
    assert_eq!(
        Notice::ReadyForFunding(temp()).text(""),
        format!("Channel {} is ready for funding", FULL)
    );
    assert_eq!(
        Notice::FundingCreated(id()).text(""),
        format!("Funding created for channel {}. Awaiting for remote node signature.", FULL)
    );
    assert_eq!(
        Notice::FundingSigned(id()).text(""),
        format!("Funding signed for channel {}. Awaiting for funding tx mining.", FULL)
    );
    assert_eq!(
        Notice::AcceptingChannel { temporary_channel_id: temp(), peer: ServiceId::Lnpd }
            .text("someone"),
        format!("Accepting channel with temp id {} from remote peer someone", FULL)
    );
}

#[test]
fn notices_shorten_the_temporary_id() {
    assert_eq!(Notice::FundingChannel(temp()).text(""), "Funding channel 0009121b..fc050e17");
    assert_eq!(
        Notice::AcceptingFunding(temp()).text(""),
        "Accepting channel funding 0009121b..fc050e17"
    );
}

#[test]
fn ids_print_as_the_protocol_library_prints_them() {
    let id = lnp::p2p::legacy::TempChannelId::from_inner(Slice32::from_inner(bytes()));
    assert_eq!(format!("{}", id), FULL);
    assert_eq!(format!("Funding channel {:#}", id), Notice::FundingChannel(temp()).text(""));
}

#[test]
fn plain_notices() {
    let address = NodeAddr::Local(LocalSocketAddr::Posix("x".to_string()));
    assert_eq!(Notice::AcceptedByPeer.text("a"), "Channel was accepted by the remote peer");
    assert_eq!(Notice::ChannelFunded.text("a"), "Channel funded: both signatures present");
    assert_eq!(Notice::ChannelActive.text("a"), "Channel active: transaction confirmed");
    assert_eq!(
        Notice::UnexpectedOpenChannel(address).text("x"),
        "Got `open_channel` P2P message from x, which is unexpected: the channel creation was \
         already requested before"
    );
    assert_eq!(
        Notice::FundingAddress("tb1q".to_string()).text(""),
        "Funding address: tb1q"
    );
    assert_eq!(
        Notice::NoFundingAddress.text("liquidv1"),
        "Unable to generate funding address for the current network  liquidv1"
    );
    assert_eq!(
        Notice::UnsupportedRequest.text(""),
        "Request is not supported by the CTL interface"
    );
}

#[test]
fn traces_print_intermediate_values() {
    let key = PublicKey::dumb();
    let text = "0279be667ef9dcbbac55a06295ce870b07029bfcdb2dce28d959f2815b16f81798";
    assert_eq!(
        Notice::GeneratingScript { local: key, remote: key }.text(""),
        format!("Generating script pubkey from local {} and remote {}", text, text)
    );
    assert_eq!(Notice::ObscuringHash(bytes()).text(""), format!("Obscuring hash: {}", FULL));
    let created = FundingCreated {
        temporary_channel_id: temp(),
        funding_txid: Txid { bytes: bytes() },
        funding_output_index: 1,
        signature: Signature { bytes: [2; 64] },
    };
    let signed = FundingSigned { channel_id: id(), signature: Signature { bytes: [2; 64] } };
    assert_eq!(
        Notice::PreparedFundingCreated(created).text("it"),
        "Prepared funding_created: it"
    );
    assert_eq!(Notice::PreparedFundingSigned(signed).text("it"), "Prepared funding_signed: it");
    assert_eq!(Notice::PreparedFundingCreated(created).level(), Some(Level::Trace));
    assert_eq!(Notice::PreparedFundingSigned(signed).level(), Some(Level::Trace));
    assert_eq!(Notice::ObscuringHash(bytes()).level(), Some(Level::Trace));
    assert_eq!(Notice::ObscuringFactor(1).level(), Some(Level::Trace));
    assert_eq!(Notice::FundingScript(vec![]).level(), Some(Level::Trace));
    assert_eq!(
        Notice::GeneratingScript { local: key, remote: key }.level(),
        Some(Level::Trace)
    );
}

#[test]
fn obscuring_factor_is_padded_as_rust_pads_it() {
    let factors = vec![
        0,
        1,
        0xabc,
        0xff_ffff_ffff_ffff,
        0x100_0000_0000_0000,
        0xfff_ffff_ffff_ffff,
        0x1000_0000_0000_0000,
        u64::MAX,
    ];
    for factor in factors {
        assert_eq!(
            Notice::ObscuringFactor(factor).text(""),
            format!("Obscuring factor: {:#016x}", factor)
        );
    }
    assert_eq!(Notice::ObscuringFactor(0xabc).text(""), "Obscuring factor: 0x00000000000abc");
}

#[test]
fn funding_script_prints_as_the_script_library_prints_it() {
    let mut script = vec![0x00, 0x20];
    script.extend_from_slice(&bytes());
    assert_eq!(
        Notice::FundingScript(script).text(""),
        format!("Funding script: Script(OP_0 OP_PUSHBYTES_32 {})", FULL)
    );
}

#[test]
fn notices_have_their_levels() {
    let address = NodeAddr::Local(LocalSocketAddr::Posix("x".to_string()));
    assert_eq!(Notice::AcceptedByPeer.level(), None);
    assert_eq!(Notice::FundingChannel(temp()).level(), None);
    assert_eq!(Notice::AcceptingFunding(temp()).level(), None);
    assert_eq!(Notice::FundingStarted(temp()).level(), Some(Level::Info));
    assert_eq!(Notice::VerifyingParams(temp()).level(), Some(Level::Info));
    assert_eq!(Notice::ChannelActive.level(), Some(Level::Info));
    assert_eq!(Notice::UpdatingChannelId(id()).level(), Some(Level::Debug));
    assert_eq!(Notice::FundingAddress("a".to_string()).level(), Some(Level::Debug));
    assert_eq!(Notice::UnexpectedOpenChannel(address).level(), Some(Level::Warn));
    assert_eq!(Notice::NoFundingAddress.level(), Some(Level::Error));
    assert_eq!(Notice::UnsupportedRequest.level(), Some(Level::Error));
}

fn params() -> ChannelParams {
    let key = PublicKey::dumb();
    ChannelParams {
        channel_req: OpenChannel {
            chain_hash: [0; 32],
            temporary_channel_id: temp(),
            funding_satoshis: 1,
            push_msat: 2,
            dust_limit_satoshis: 3,
            max_htlc_value_in_flight_msat: 4,
            channel_reserve_satoshis: 5,
            htlc_minimum_msat: 6,
            feerate_per_kw: 7,
            to_self_delay: 8,
            max_accepted_htlcs: 9,
            funding_pubkey: key,
            revocation_basepoint: key,
            payment_point: key,
            delayed_payment_basepoint: key,
            htlc_basepoint: key,
            first_per_commitment_point: key,
            channel_flags: 0,
            shutdown_scriptpubkey: None,
            channel_type: None,
            unknown_tlvs: vec![],
        },
        connectiond: ServiceId::Loopback,
    }
}

#[test]
fn requests_have_their_numbers_and_texts() {
    let socket = RemoteSocketAddr::Ftcp(InetSocketAddr::default());
    let node = NodeAddr::Local(LocalSocketAddr::Posix("x".to_string()));
    let cases = vec![
        (Request::Hello, 0, "hello()"),
        (Request::LnpwpMessage(Messages::Other(vec![])), 1, "lnpwp(ping)"),
        (Request::Listen(socket), 2, "connect()"),
        (Request::ConnectPeer(node), 3, "connect()"),
        (Request::PingPeer, 4, "ping_peer()"),
        (Request::OpenChannelWith(params()), 5, "create_channel_with(...)"),
        (Request::AcceptChannelFrom(params()), 6, "accept_channel_from(...)"),
    ];
    for (request, number, text) in cases {
        assert_eq!(request.get_type(), number);
        assert_eq!(request.text("ping"), text);
    }
}

#[test]
fn cloned_requests_are_the_same() {
    let socket = RemoteSocketAddr::Ftcp(InetSocketAddr::default());
    match Request::Listen(socket.clone()).clone() {
        Request::Listen(copy) => assert_eq!(copy, socket),
        other => panic!("{:?}", other),
    }
}

#[test]
fn channel_params_are_compared_by_value() {
    let mut other = params();
    assert_eq!(other.clone(), params());
    other.connectiond = ServiceId::Lnpd;
    assert_ne!(other, params());
}
