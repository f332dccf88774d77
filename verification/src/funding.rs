//! The output that funds a channel: its script and its address.

use crate::bytes::{lex_le, lemma_lex_le_total, same_bytes};
use crate::keys::{is_public_key, sha256_digest, PublicKey};
use amplify::Wrapper as _;
use lnp::channel::bolt::{LocalPubkey, ScriptGenerators as _};
use vstd::prelude::*;
use wallet::scripts::PubkeyScript;

verus! {

/// A Bitcoin network.
#[derive(Clone, Copy, Debug, PartialEq, Eq, Hash)]
pub enum Network {
    Bitcoin,
    Testnet,
    Signet,
    Regtest,
}

/// A chain on which channels are opened. `Regtest` and `SignetCustom` hold the hash of
/// the genesis block.
#[derive(Clone, Copy, Debug, PartialEq, Eq, Hash)]
pub enum Chain {
    Mainnet,
    Testnet3,
    Regtest([u8; 32]),
    Signet,
    SignetCustom([u8; 32]),
    LiquidV1,
    Other,
}

/// The hash of the genesis block of the common regtest chain.
pub open spec fn regtest_genesis() -> Seq<u8> {
    seq![
        0x06u8, 0x22, 0x6e, 0x46, 0x11, 0x1a, 0x0b, 0x59, 0xca, 0xaf, 0x12, 0x60, 0x43, 0xeb, 0x5b,
        0xbf, 0x28, 0xc3, 0x4f, 0x3a, 0x5e, 0x33, 0x2a, 0x1f, 0xc7, 0xb2, 0xb7, 0x3c, 0xf1, 0x88,
        0x91, 0x0f,
    ]
}

impl Chain {
    /// The Bitcoin network of the chain, where it has one: the three public networks,
    /// and a regtest chain that starts with the common genesis block.
    pub open spec fn spec_network(self) -> Option<Network> {
        match self {
            Chain::Mainnet => Some(Network::Bitcoin),
            Chain::Testnet3 => Some(Network::Testnet),
            Chain::Signet => Some(Network::Signet),
            Chain::Regtest(hash) => if hash@ == regtest_genesis() {
                Some(Network::Regtest)
            } else {
                None
            },
            _ => None,
        }
    }

    /// The Bitcoin network of the chain, where it has one.
    pub fn network(&self) -> (r: Option<Network>)
        ensures
            r == self.spec_network(),
    {
        match self {
            Chain::Mainnet => Some(Network::Bitcoin),
            Chain::Testnet3 => Some(Network::Testnet),
            Chain::Signet => Some(Network::Signet),
            Chain::Regtest(hash) => {
                let genesis: [u8; 32] = [
                    0x06, 0x22, 0x6e, 0x46, 0x11, 0x1a, 0x0b, 0x59, 0xca, 0xaf, 0x12, 0x60, 0x43,
                    0xeb, 0x5b, 0xbf, 0x28, 0xc3, 0x4f, 0x3a, 0x5e, 0x33, 0x2a, 0x1f, 0xc7, 0xb2,
                    0xb7, 0x3c, 0xf1, 0x88, 0x91, 0x0f,
                ];
                assert(genesis@ =~= regtest_genesis());
                if same_bytes(hash, &genesis) {
                    Some(Network::Regtest)
                } else {
                    None
                }
            },
            _ => None,
        }
    }
}

/// The script that asks for a signature of each of two keys, the lesser key first:
/// `2 <key> <key> 2 OP_CHECKMULTISIG`.
pub open spec fn multisig_script(key1: Seq<u8>, key2: Seq<u8>) -> Seq<u8> {
    if lex_le(key1, key2) {
        seq![0x52u8, 0x21] + key1 + seq![0x21u8] + key2 + seq![0x52u8, 0xae]
    } else {
        seq![0x52u8, 0x21] + key2 + seq![0x21u8] + key1 + seq![0x52u8, 0xae]
    }
}

/// The script of an output that a witness script spends: version zero, and the digest
/// of the witness script.
pub open spec fn p2wsh(witness_script: Seq<u8>) -> Seq<u8> {
    seq![0x00u8, 0x20] + sha256_digest(witness_script)
}

/// The script of the output that funds a channel between the owners of two keys.
pub open spec fn funding_script(key1: Seq<u8>, key2: Seq<u8>) -> Seq<u8> {
    p2wsh(multisig_script(key1, key2))
}

/// The address of an output script on a network, where the script has one, as
/// `PubkeyScript::address` finds and prints it.
pub uninterp spec fn address_text(script: Seq<u8>, network: Network) -> Option<Seq<char>>;

/// Calls `ScriptGenerators::ln_funding` of `lnp-core` for a `PubkeyScript`. The contract
/// claims that the result, of thirty-four bytes, is the version-zero witness program of
/// the two-of-two script over both keys in lexicographic order, whatever the amount. Both
/// keys must be such that `secp256k1::PublicKey::from_slice` accepts them.
#[verifier::external_body]
fn ln_funding(amount: u64, local: &[u8; 33], remote: &[u8; 33]) -> (r: Vec<u8>)
    requires
        is_public_key(local@),
        is_public_key(remote@),
    ensures
        r@ == funding_script(local@, remote@),
        r@.len() == 34,
{
    let key = bitcoin::secp256k1::PublicKey::from_slice(local).unwrap();
    let local = LocalPubkey { key, source: Default::default() };
    let remote = bitcoin::secp256k1::PublicKey::from_slice(remote).unwrap();
    PubkeyScript::ln_funding(amount, &local, remote).into_inner().into_bytes()
}

/// Calls `PubkeyScript::address` of `bitcoin_scripts` and prints the address. The
/// contract claims that the result is a function of the script and the network, which it
/// names `address_text`, and that a version-zero witness program of thirty-two bytes has
/// an address.
#[verifier::external_body]
fn script_address(script: &[u8], network: Network) -> (r: Option<String>)
    ensures
        address_text(script@, network) == match r {
            Some(text) => Some(text@),
            None => None::<Seq<char>>,
        },
        script@.len() == 34 && script@[0] == 0x00 && script@[1] == 0x20 ==> r is Some,
{
    let network = match network {
        Network::Bitcoin => bitcoin::Network::Bitcoin,
        Network::Testnet => bitcoin::Network::Testnet,
        Network::Signet => bitcoin::Network::Signet,
        Network::Regtest => bitcoin::Network::Regtest,
    };
    let script = PubkeyScript::from(bitcoin::Script::from(script.to_vec()));
    script.address(network).map(|address| address.to_string())
}

/// An output script in words, as `PubkeyScript` prints it.
pub uninterp spec fn script_text(script: Seq<u8>) -> Seq<char>;

/// Calls `to_string` of a `PubkeyScript` of `bitcoin_scripts`. The contract claims only that
/// the text is a function of the script, which it names `script_text`.
#[verifier::external_body]
pub(crate) fn print_script(script: &[u8]) -> (r: String)
    ensures
        r@ == script_text(script@),
{
    PubkeyScript::from(bitcoin::Script::from(script.to_vec())).to_string()
}

/// The script of the output of the given value that funds a channel between the owners
/// of the two keys.
pub fn funding_script_pubkey(amount: u64, local: &PublicKey, remote: &PublicKey) -> (r: Vec<u8>)
    ensures
        r@ == funding_script(local@, remote@),
        r@.len() == 34,
{
    let local_bytes: [u8; 33] = local.serialize();
    let remote_bytes: [u8; 33] = remote.serialize();
    ln_funding(amount, &local_bytes, &remote_bytes)
}

/// The address of an output script on a chain: there is none where the chain has no
/// Bitcoin network, nor where the script has no address on it.
pub open spec fn address_on(script: Seq<u8>, chain: Chain) -> Option<Seq<char>> {
    match chain.spec_network() {
        Some(network) => address_text(script, network),
        None => None,
    }
}

/// The address of an output script on a chain, where there is one.
pub fn address(script: &Vec<u8>, chain: &Chain) -> (r: Option<String>)
    ensures
        address_on(script@, *chain) == match r {
            Some(text) => Some(text@),
            None => None::<Seq<char>>,
        },
        script@.len() == 34 && script@[0] == 0x00 && script@[1] == 0x20 ==> (r is Some
            <==> chain.spec_network() is Some),
{
    match chain.network() {
        Some(network) => script_address(script.as_slice(), network),
        None => None,
    }
}

/// Both ends of a channel find the same funding script: it does not matter which of the
/// two keys is the local one.
pub proof fn funding_script_is_symmetric(key1: Seq<u8>, key2: Seq<u8>)
    ensures
        funding_script(key1, key2) == funding_script(key2, key1),
{
    lemma_lex_le_total(key1, key2);
}

} // verus!
