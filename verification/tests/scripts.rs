use amplify::Wrapper;
use bitcoin::hashes::{sha256, Hash as _};
use lnp_channel::bytes::{last_u64, same_bytes};
use lnp_channel::funding::{address, funding_script_pubkey, Chain, Network};
use lnp_channel::ids::{ChannelId, OutPoint, Txid};
use lnp_channel::keys::PublicKey;

fn unhex(text: &str) -> Vec<u8> {
    (0..text.len() / 2)
        .map(|i| u8::from_str_radix(&text[2 * i..2 * i + 2], 16).unwrap())
        .collect()
}

fn key(text: &str) -> PublicKey {
    let mut bytes = [0u8; 33];
    bytes.copy_from_slice(&unhex(text));
    PublicKey::from_compressed(bytes).unwrap()
}

const LOCAL: &str = "023da092f6980e58d2c037173180e9a465476026ee50f96695963e8efe436f54eb";
const REMOTE: &str = "030e9f7b623d2ccc7c9bd44d66d5ce21ce504c0acf6385a132cec6d3c39fa711c1";
const SCRIPT: &str = "0020c015c4a6be010e21657068fc2e6a9d02b27ebe4d490a25846f7237f104d1a3cd";

const REGTEST_GENESIS: [u8; 32] = [
    0x06, 0x22, 0x6e, 0x46, 0x11, 0x1a, 0x0b, 0x59, 0xca, 0xaf, 0x12, 0x60, 0x43, 0xeb, 0x5b, 0xbf,
    0x28, 0xc3, 0x4f, 0x3a, 0x5e, 0x33, 0x2a, 0x1f, 0xc7, 0xb2, 0xb7, 0x3c, 0xf1, 0x88, 0x91, 0x0f,
];

#[test]
fn funding_script_of_the_known_keys() {
    let script = funding_script_pubkey(10_000_000, &key(LOCAL), &key(REMOTE));
    assert_eq!(script, unhex(SCRIPT));
}

#[test]
fn funding_script_does_not_depend_on_side_or_amount() {
    let script = funding_script_pubkey(0, &key(REMOTE), &key(LOCAL));
    assert_eq!(script, unhex(SCRIPT));
    let script = funding_script_pubkey(u64::MAX, &key(LOCAL), &key(REMOTE));
    assert_eq!(script, unhex(SCRIPT));
}

#[test]
fn funding_script_of_one_key_twice() {
    let script = funding_script_pubkey(1, &key(LOCAL), &key(LOCAL));
    let mut witness = vec![0x52, 0x21];
    witness.extend(unhex(LOCAL));
    witness.push(0x21);
    witness.extend(unhex(LOCAL));
    witness.extend(vec![0x52, 0xae]);
    let mut expected = vec![0x00, 0x20];
    expected.extend(sha256::Hash::hash(&witness).into_inner());
    assert_eq!(script, expected);
}

#[test]
fn addresses_of_the_funding_script() {
    let script = unhex(SCRIPT);
    assert_eq!(
        address(&script, &Chain::Mainnet).unwrap(),
        "bc1qcq2uff47qy8zzetsdr7zu65aq2e8a0jdfy9ztpr0wgmlzpx350xssax7mx"
    );
    let test = "tb1qcq2uff47qy8zzetsdr7zu65aq2e8a0jdfy9ztpr0wgmlzpx350xs84s3pf";
    assert_eq!(address(&script, &Chain::Testnet3).unwrap(), test);
    assert_eq!(address(&script, &Chain::Signet).unwrap(), test);
    assert_eq!(
        address(&script, &Chain::Regtest(REGTEST_GENESIS)).unwrap(),
        "bcrt1qcq2uff47qy8zzetsdr7zu65aq2e8a0jdfy9ztpr0wgmlzpx350xs2v6h5n"
    );
}

#[test]
fn chains_without_a_network_have_no_addresses() {
    let script = unhex(SCRIPT);
    assert_eq!(address(&script, &Chain::Regtest([0; 32])), None);
    assert_eq!(address(&script, &Chain::SignetCustom([0; 32])), None);
    assert_eq!(address(&script, &Chain::LiquidV1), None);
    assert_eq!(address(&script, &Chain::Other), None);
}

#[test]
fn bare_scripts_have_no_addresses() {
    assert_eq!(address(&vec![0xae], &Chain::Mainnet), None);
    assert_eq!(address(&vec![], &Chain::Mainnet), None);
}

#[test]
fn networks_are_those_of_the_chain_parameters() {
    let hash = bitcoin::BlockHash::from_slice(&REGTEST_GENESIS).unwrap();
    let zero = bitcoin::BlockHash::from_slice(&[0; 32]).unwrap();
    let cases = vec![
        (Chain::Mainnet, lnpbp::chain::Chain::Mainnet),
        (Chain::Testnet3, lnpbp::chain::Chain::Testnet3),
        (Chain::Signet, lnpbp::chain::Chain::Signet),
        (Chain::Regtest(REGTEST_GENESIS), lnpbp::chain::Chain::Regtest(hash)),
        (Chain::Regtest([0; 32]), lnpbp::chain::Chain::Regtest(zero)),
        (Chain::SignetCustom([0; 32]), lnpbp::chain::Chain::SignetCustom(zero)),
        (Chain::LiquidV1, lnpbp::chain::Chain::LiquidV1),
    ];
    for (chain, known) in cases {
        let expected = match bitcoin::Network::try_from(&known).ok() {
            Some(bitcoin::Network::Bitcoin) => Some(Network::Bitcoin),
            Some(bitcoin::Network::Testnet) => Some(Network::Testnet),
            Some(bitcoin::Network::Signet) => Some(Network::Signet),
            Some(bitcoin::Network::Regtest) => Some(Network::Regtest),
            None => None,
        };
        assert_eq!(chain.network(), expected);
    }
    assert_eq!(Chain::Other.network(), None);
}

#[test]
fn keys_are_checked() {
    let mut bytes = [0u8; 33];
    assert_eq!(PublicKey::from_compressed(bytes), None);
    bytes.copy_from_slice(&unhex(LOCAL));
    let good = PublicKey::from_compressed(bytes).unwrap();
    assert_eq!(good.serialize(), bytes);
    bytes[0] = 0x04;
    assert_eq!(PublicKey::from_compressed(bytes), None);
    assert_eq!(PublicKey::from_compressed([0xff; 33]), None);
}

#[test]
fn dumb_key_is_the_generator() {
    assert_eq!(
        PublicKey::dumb().serialize().to_vec(),
        unhex("0279be667ef9dcbbac55a06295ce870b07029bfcdb2dce28d959f2815b16f81798")
    );
}

#[test]
fn channel_id_mixes_the_output_index() {
    let mut bytes = [0x11u8; 32];
    bytes[30] = 0xf0;
    bytes[31] = 0x0f;
    let id = ChannelId::with(Txid { bytes }, 0x0102);
    let mut expected = bytes;
    expected[30] = 0xf1;
    expected[31] = 0x0d;
    assert_eq!(id.bytes, expected);
    assert_eq!(ChannelId::with(Txid { bytes }, 0).bytes, bytes);
}

#[test]
fn channel_id_is_the_one_of_the_protocol() {
    let bytes = [0xa5u8; 32];
    let txid = bitcoin::Txid::from_inner(bytes);
    let expected = lnp::p2p::legacy::ChannelId::with(txid, 0xbeef);
    let id = ChannelId::with(Txid { bytes }, 0xbeef);
    assert_eq!(id.bytes, expected.into_inner().into_inner());
}

#[test]
fn channel_id_gives_back_the_transaction_and_the_index() {
    let txid = Txid { bytes: [0x3c; 32] };
    let id = ChannelId::with(txid, 0x1234);
    assert_eq!(ChannelId::with(Txid { bytes: id.bytes }, 0x1234).bytes, txid.bytes);
    assert_ne!(id, ChannelId::with(txid, 0x1235));
    assert_ne!(id, ChannelId::with(txid, 0x3412));
}

#[test]
fn output_index_is_cut_to_sixteen_bits() {
    let txid = Txid { bytes: [0; 32] };
    assert_eq!(OutPoint { txid, vout: 7 }.output_index(), 7);
    assert_eq!(OutPoint { txid, vout: 0xffff }.output_index(), 0xffff);
    assert_eq!(OutPoint { txid, vout: 0x1_0000 }.output_index(), 0);
    assert_eq!(OutPoint { txid, vout: 0xdead_beef }.output_index(), 0xbeef);
}

#[test]
fn null_outpoint_is_that_of_bitcoin() {
    let null = OutPoint::null();
    let expected = bitcoin::OutPoint::null();
    assert_eq!(null.txid.bytes, expected.txid.into_inner());
    assert_eq!(null.vout, expected.vout);
    assert_eq!(ChannelId::zero().bytes, [0; 32]);
}

#[test]
fn last_bytes_are_read_big_endian() {
    let mut bytes = [0xffu8; 32];
    bytes[24..].copy_from_slice(&[1, 2, 3, 4, 5, 6, 7, 8]);
    assert_eq!(last_u64(&bytes), 0x0102_0304_0506_0708);
    assert_eq!(last_u64(&[0xff; 32]), u64::MAX);
    assert_eq!(last_u64(&[0; 32]), 0);
}

#[test]
fn bytes_are_compared_to_the_last() {
    let mut other = [7u8; 32];
    assert!(same_bytes(&[7; 32], &other));
    other[31] = 8;
    assert!(!same_bytes(&[7; 32], &other));
}
